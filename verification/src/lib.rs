//! Core of a peer-to-peer messenger: the application state, the single-writer
//! reducer that owns it, and the stores it reads.

pub mod actions;
pub mod chat_store;
pub mod history;
pub mod identity;
pub mod ids;
pub mod laws;
pub mod mdk_support;
pub mod model;
pub mod offline;
pub mod profile_cache;
pub mod reducer;
pub mod state;
pub mod text;
pub mod updates;
pub mod video;

pub use crate::actions::AppAction;
pub use crate::chat_store::{ChatStore, StoredChat};
pub use crate::identity::Identity;
pub use crate::ids::{generate_id, id_from_bytes, now_seconds, seconds_from, stable_hash};
pub use crate::mdk_support::{
    db_key_id, init_keyring_once, mdk_db_path, KeyringInit, KeyringOutcome, SERVICE_ID,
};
pub use crate::model::DEFAULT_PAGE_SIZE;
pub use crate::offline::offline_reply;
pub use crate::profile_cache::{load_profiles, ProfileCache, ProfileMap, ProfileRow};
pub use crate::reducer::{AppCore, Draw, StepOutput};
pub use crate::state::{
    AppState, AuthState, ChatMessage, ChatSummary, ChatViewState, MessageDeliveryState, Router,
    Screen,
};
pub use crate::video::DecodedFrame;
pub use crate::updates::{
    AppUpdate, CoreMsg, Effect, GroupInvite, InboundMessage, InternalEvent,
};
