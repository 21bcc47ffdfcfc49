//! The ways in which decoding a document or building a command can fail.

use vstd::prelude::*;

verus! {

/// A failure to decode a document or to build a command. Every failure is an
/// ordinary value: nothing in this library aborts on malformed input.
#[derive(Clone, Debug, PartialEq, Eq)]
pub enum DecodeError {
    /// The field that selects the variant is absent or not of the right
    /// kind: the operation code of an envelope, the event name of a
    /// dispatch, or the type code of a channel.
    MissingDiscriminant,
    /// The operation code is an integer that stands for no operation that a
    /// client can receive.
    UnknownOperationCode {
        /// The code that was sent.
        code: i128,
    },
    /// The operation carries a payload and the envelope has none.
    MissingPayload,
    /// A dispatch came without its sequence number.
    MissingSequenceNumber,
    /// The event name of a dispatch is none of the known names. Holds the
    /// name that was sent.
    UnknownEventName(String),
    /// The payload lacks fields that its record needs.
    PayloadShapeMismatch {
        /// What was being decoded: the name of the event, of the operation
        /// or of the kind of channel.
        event_name: String,
        /// The path of every field for which the payload holds no value of
        /// the shape that the record asks for, in the order in which the
        /// record lists its fields. Never empty.
        missing_fields: Vec<String>,
    },
    /// The type code of a channel is an integer that stands for no kind of
    /// channel.
    UnknownChannelType {
        /// The code that was sent.
        code: i128,
    },
    /// A command was asked for that the gateway would not accept.
    InvalidCommand {
        /// What is wrong with it.
        reason: String,
    },
}

/// The model of a [`DecodeError`].
pub ghost enum DecodeErrorModel {
    MissingDiscriminant,
    UnknownOperationCode { code: i128 },
    MissingPayload,
    MissingSequenceNumber,
    UnknownEventName(Seq<char>),
    PayloadShapeMismatch { event_name: Seq<char>, missing_fields: Seq<Seq<char>> },
    UnknownChannelType { code: i128 },
    InvalidCommand { reason: Seq<char> },
}

impl DeepView for DecodeError {
    type V = DecodeErrorModel;

    open spec fn deep_view(&self) -> DecodeErrorModel {
        match self {
            DecodeError::MissingDiscriminant => DecodeErrorModel::MissingDiscriminant,
            DecodeError::UnknownOperationCode { code } => DecodeErrorModel::UnknownOperationCode {
                code: *code,
            },
            DecodeError::MissingPayload => DecodeErrorModel::MissingPayload,
            DecodeError::MissingSequenceNumber => DecodeErrorModel::MissingSequenceNumber,
            DecodeError::UnknownEventName(name) => DecodeErrorModel::UnknownEventName(name@),
            DecodeError::PayloadShapeMismatch {
                event_name,
                missing_fields,
            } => DecodeErrorModel::PayloadShapeMismatch {
                event_name: event_name@,
                missing_fields: missing_fields.deep_view(),
            },
            DecodeError::UnknownChannelType { code } => DecodeErrorModel::UnknownChannelType {
                code: *code,
            },
            DecodeError::InvalidCommand { reason } => DecodeErrorModel::InvalidCommand {
                reason: reason@,
            },
        }
    }
}

/// The model of the outcome of decoding a `T`.
pub open spec fn outcome_model<T: DeepView>(outcome: Result<T, DecodeError>) -> Result<
    T::V,
    DecodeErrorModel,
> {
    match outcome {
        Ok(decoded) => Ok(decoded.deep_view()),
        Err(error) => Err(error.deep_view()),
    }
}

} // verus!
