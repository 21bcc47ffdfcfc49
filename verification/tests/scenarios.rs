use cordis_core::error::DecodeError;
use cordis_core::gateway::dispatch::{resolve_event, DispatchEvent, MessageDelete};
use cordis_core::gateway::{Hello, ReceivedPayload};
use cordis_core::resources::{ChannelId, MessageId};
use serde_json::Value;

fn parse(text: &str) -> Value {
    serde_json::from_str(text).unwrap()
}

#[test]
fn hello_envelope_decodes_to_hello() {
    let raw = parse(r#"{"op":10,"d":{"heartbeat_interval":41250}}"#);
    assert_eq!(
        ReceivedPayload::deserialize(&raw),
        Ok(ReceivedPayload::Hello(Hello { heartbeat_interval: 41250 }))
    );
}

#[test]
fn message_delete_dispatch_decodes() {
    let raw = parse(
        r#"{"op":0,"t":"MESSAGE_DELETE","s":5,"d":{"id":"1","channel_id":"2","guild_id":null}}"#,
    );
    assert_eq!(
        ReceivedPayload::deserialize(&raw),
        Ok(ReceivedPayload::Dispatch {
            seq: 5,
            event: DispatchEvent::MessageDelete(MessageDelete {
                id: MessageId("1".to_string()),
                channel_id: ChannelId("2".to_string()),
                guild_id: None,
            }),
        })
    );
}

#[test]
fn unknown_event_name_is_an_error_value() {
    let raw = parse(r#"{"op":0,"t":"FOO_BAR","s":1,"d":{}}"#);
    assert_eq!(
        ReceivedPayload::deserialize(&raw),
        Err(DecodeError::UnknownEventName("FOO_BAR".to_string()))
    );
    assert_eq!(
        resolve_event("FOO_BAR", &parse("{}")),
        Err(DecodeError::UnknownEventName("FOO_BAR".to_string()))
    );
}
