//! Client-side core of a secure multi-provider query relay.
//!
//! The crate holds everything that can be decided without touching the
//! network: key derivation, authenticated encryption of payloads, the
//! endpoints and requests of each provider, and the meaning of each reply.

pub mod aead;
pub mod api;
pub mod base64code;
pub mod digest;
pub mod direct;
pub mod dispatch;
pub mod encryption;
pub mod endpoint;
pub mod hexcode;
pub mod json;
pub mod key;
pub mod relay;
pub mod reply;
pub mod text;

pub use api::{ApiClient, SearchError, SearchResult};
pub use direct::{AnthropicClient, OpenAIClient};
pub use encryption::SecureMessenger;
pub use endpoint::get_app_id;
pub use relay::TelegramClient;
