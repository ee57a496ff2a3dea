//! Commands that the presentation layer submits.

use vstd::prelude::*;
use crate::state::{Screen, ScreenView};

verus! {

/// A command. Values are handed to the reducer and never changed.
#[derive(Debug, PartialEq, Eq)]
pub enum AppAction {
    /// Make a new identity and sign in with it.
    CreateAccount,
    /// Sign in with a secret key that was saved earlier.
    RestoreSession { nsec: String },
    /// Sign out.
    Logout,
    /// Put one screen on top of the stack.
    PushScreen { screen: Screen },
    /// Replace the whole stack by the one that the presentation layer shows.
    UpdateScreenStack { stack: Vec<Screen> },
    /// Start a chat with a peer.
    CreateChat { peer_npub: String },
    /// Open a chat on its newest messages.
    OpenChat { chat_id: String },
    /// Send a text into a chat.
    SendMessage { chat_id: String, content: String },
    /// Load messages older than a loaded one into the open chat.
    LoadOlderMessages { chat_id: String, before_message_id: String, limit: u32 },
    /// Follow a peer.
    FollowPeer { npub: String },
    /// Stop following a peer.
    UnfollowPeer { npub: String },
    /// Dismiss the notice.
    ClearToast,
}

/// View of an [`AppAction`].
pub enum ActionView {
    CreateAccount,
    RestoreSession { nsec: Seq<char> },
    Logout,
    PushScreen { screen: ScreenView },
    UpdateScreenStack { stack: Seq<ScreenView> },
    CreateChat { peer_npub: Seq<char> },
    OpenChat { chat_id: Seq<char> },
    SendMessage { chat_id: Seq<char>, content: Seq<char> },
    LoadOlderMessages { chat_id: Seq<char>, before_message_id: Seq<char>, limit: u32 },
    FollowPeer { npub: Seq<char> },
    UnfollowPeer { npub: Seq<char> },
    ClearToast,
}

impl DeepView for AppAction {
    type V = ActionView;

    open spec fn deep_view(&self) -> ActionView {
        match self {
            AppAction::CreateAccount => ActionView::CreateAccount,
            AppAction::RestoreSession { nsec } => ActionView::RestoreSession { nsec: nsec@ },
            AppAction::Logout => ActionView::Logout,
            AppAction::PushScreen { screen } => ActionView::PushScreen { screen: screen@ },
            AppAction::UpdateScreenStack { stack } => ActionView::UpdateScreenStack {
                stack: stack.deep_view(),
            },
            AppAction::CreateChat { peer_npub } => ActionView::CreateChat {
                peer_npub: peer_npub@,
            },
            AppAction::OpenChat { chat_id } => ActionView::OpenChat { chat_id: chat_id@ },
            AppAction::SendMessage { chat_id, content } => ActionView::SendMessage {
                chat_id: chat_id@,
                content: content@,
            },
            AppAction::LoadOlderMessages {
                chat_id,
                before_message_id,
                limit,
            } => ActionView::LoadOlderMessages {
                chat_id: chat_id@,
                before_message_id: before_message_id@,
                limit: *limit,
            },
            AppAction::FollowPeer { npub } => ActionView::FollowPeer { npub: npub@ },
            AppAction::UnfollowPeer { npub } => ActionView::UnfollowPeer { npub: npub@ },
            AppAction::ClearToast => ActionView::ClearToast,
        }
    }
}

impl View for AppAction {
    type V = ActionView;

    open spec fn view(&self) -> ActionView {
        self.deep_view()
    }
}

} // verus!
