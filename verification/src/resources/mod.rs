//! Types that relate to common platform elements like messages and channels.

pub mod attachment;
pub mod channel;
pub mod embed;
pub mod emoji;
pub mod guild;
pub mod guild_member;
pub mod message;
pub mod reaction;
pub mod role;
pub mod user;

pub use attachment::{Attachment, AttachmentId, Dimensions};
pub use channel::{Channel, ChannelId, ChannelType};
pub use embed::Embed;
pub use emoji::{Emoji, EmojiId};
pub use guild::{Guild, GuildId};
pub use guild_member::GuildMember;
pub use message::{Message, MessageId};
pub use reaction::Reaction;
pub use role::{Role, RoleId};
pub use user::{PremiumType, User, UserId};
