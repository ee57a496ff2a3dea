//! The application state that listeners observe, and the mathematical view of
//! each of its parts.
//!
//! Every executable type here has a view made of sequences, options and
//! integers only. Contracts across the crate are stated over those views.

use vstd::prelude::*;

verus! {

/// A screen of the presentation layer.
#[derive(Debug, PartialEq, Eq)]
pub enum Screen {
    Login,
    ChatList,
    Chat { chat_id: String },
    NewChat,
}

/// View of a [`Screen`].
pub enum ScreenView {
    Login,
    ChatList,
    Chat { chat_id: Seq<char> },
    NewChat,
}

impl DeepView for Screen {
    type V = ScreenView;

    open spec fn deep_view(&self) -> ScreenView {
        match self {
            Screen::Login => ScreenView::Login,
            Screen::ChatList => ScreenView::ChatList,
            Screen::Chat { chat_id } => ScreenView::Chat { chat_id: chat_id@ },
            Screen::NewChat => ScreenView::NewChat,
        }
    }
}

impl View for Screen {
    type V = ScreenView;

    open spec fn view(&self) -> ScreenView {
        self.deep_view()
    }
}

impl Clone for Screen {
    fn clone(&self) -> (r: Self)
        ensures
            r == *self,
    {
        match self {
            Screen::Login => Screen::Login,
            Screen::ChatList => Screen::ChatList,
            Screen::Chat { chat_id } => Screen::Chat { chat_id: chat_id.clone() },
            Screen::NewChat => Screen::NewChat,
        }
    }
}

/// Navigation: the screen shown when nothing is pushed, and the screens pushed
/// over it, oldest first.
#[derive(Debug, PartialEq, Eq)]
pub struct Router {
    pub default_screen: Screen,
    pub screen_stack: Vec<Screen>,
}

/// View of a [`Router`].
pub struct RouterView {
    pub default_screen: ScreenView,
    pub screen_stack: Seq<ScreenView>,
}

impl DeepView for Router {
    type V = RouterView;

    open spec fn deep_view(&self) -> RouterView {
        RouterView {
            default_screen: self.default_screen@,
            screen_stack: self.screen_stack.deep_view(),
        }
    }
}

impl View for Router {
    type V = RouterView;

    open spec fn view(&self) -> RouterView {
        self.deep_view()
    }
}

impl Clone for Router {
    fn clone(&self) -> (r: Self)
        ensures
            r@ == self@,
    {
        let screen_stack = self.screen_stack.clone();
        assert(screen_stack@ =~= self.screen_stack@);
        Router { default_screen: self.default_screen.clone(), screen_stack }
    }
}

/// Whether an identity is signed in, and which.
#[derive(Debug, PartialEq, Eq)]
pub enum AuthState {
    LoggedOut,
    LoggedIn { npub: String, pubkey: String },
}

/// View of an [`AuthState`].
pub enum AuthView {
    LoggedOut,
    LoggedIn { npub: Seq<char>, pubkey: Seq<char> },
}

impl DeepView for AuthState {
    type V = AuthView;

    open spec fn deep_view(&self) -> AuthView {
        match self {
            AuthState::LoggedOut => AuthView::LoggedOut,
            AuthState::LoggedIn { npub, pubkey } => AuthView::LoggedIn {
                npub: npub@,
                pubkey: pubkey@,
            },
        }
    }
}

impl View for AuthState {
    type V = AuthView;

    open spec fn view(&self) -> AuthView {
        self.deep_view()
    }
}

impl Clone for AuthState {
    fn clone(&self) -> (r: Self)
        ensures
            r == *self,
    {
        match self {
            AuthState::LoggedOut => AuthState::LoggedOut,
            AuthState::LoggedIn { npub, pubkey } => AuthState::LoggedIn {
                npub: npub.clone(),
                pubkey: pubkey.clone(),
            },
        }
    }
}

/// One row of the chat list.
#[derive(Debug, PartialEq, Eq)]
pub struct ChatSummary {
    pub chat_id: String,
    pub peer_npub: String,
    pub peer_name: Option<String>,
    pub last_message: Option<String>,
    pub last_message_at: Option<i64>,
    pub unread_count: u32,
}

/// View of a [`ChatSummary`].
pub struct ChatSummaryView {
    pub chat_id: Seq<char>,
    pub peer_npub: Seq<char>,
    pub peer_name: Option<Seq<char>>,
    pub last_message: Option<Seq<char>>,
    pub last_message_at: Option<i64>,
    pub unread_count: u32,
}

impl DeepView for ChatSummary {
    type V = ChatSummaryView;

    open spec fn deep_view(&self) -> ChatSummaryView {
        ChatSummaryView {
            chat_id: self.chat_id@,
            peer_npub: self.peer_npub@,
            peer_name: self.peer_name.deep_view(),
            last_message: self.last_message.deep_view(),
            last_message_at: self.last_message_at,
            unread_count: self.unread_count,
        }
    }
}

impl View for ChatSummary {
    type V = ChatSummaryView;

    open spec fn view(&self) -> ChatSummaryView {
        self.deep_view()
    }
}

impl Clone for ChatSummary {
    fn clone(&self) -> (r: Self)
        ensures
            r == *self,
    {
        ChatSummary {
            chat_id: self.chat_id.clone(),
            peer_npub: self.peer_npub.clone(),
            peer_name: self.peer_name.clone(),
            last_message: self.last_message.clone(),
            last_message_at: self.last_message_at,
            unread_count: self.unread_count,
        }
    }
}

/// What is known of the delivery of a message.
#[derive(Debug, PartialEq, Eq)]
pub enum MessageDeliveryState {
    Pending,
    Sent,
    Failed { reason: String },
}

/// View of a [`MessageDeliveryState`].
pub enum DeliveryView {
    Pending,
    Sent,
    Failed { reason: Seq<char> },
}

impl DeepView for MessageDeliveryState {
    type V = DeliveryView;

    open spec fn deep_view(&self) -> DeliveryView {
        match self {
            MessageDeliveryState::Pending => DeliveryView::Pending,
            MessageDeliveryState::Sent => DeliveryView::Sent,
            MessageDeliveryState::Failed { reason } => DeliveryView::Failed { reason: reason@ },
        }
    }
}

impl View for MessageDeliveryState {
    type V = DeliveryView;

    open spec fn view(&self) -> DeliveryView {
        self.deep_view()
    }
}

impl Clone for MessageDeliveryState {
    fn clone(&self) -> (r: Self)
        ensures
            r == *self,
    {
        match self {
            MessageDeliveryState::Pending => MessageDeliveryState::Pending,
            MessageDeliveryState::Sent => MessageDeliveryState::Sent,
            MessageDeliveryState::Failed { reason } => MessageDeliveryState::Failed {
                reason: reason.clone(),
            },
        }
    }
}

/// One message of a chat. Its `id` never changes once assigned, and delivery
/// results are matched to it by that `id`.
#[derive(Debug, PartialEq, Eq)]
pub struct ChatMessage {
    pub id: String,
    pub sender_pubkey: String,
    pub content: String,
    pub timestamp: i64,
    pub is_mine: bool,
    pub delivery: MessageDeliveryState,
}

/// View of a [`ChatMessage`].
pub struct ChatMessageView {
    pub id: Seq<char>,
    pub sender_pubkey: Seq<char>,
    pub content: Seq<char>,
    pub timestamp: i64,
    pub is_mine: bool,
    pub delivery: DeliveryView,
}

impl DeepView for ChatMessage {
    type V = ChatMessageView;

    open spec fn deep_view(&self) -> ChatMessageView {
        ChatMessageView {
            id: self.id@,
            sender_pubkey: self.sender_pubkey@,
            content: self.content@,
            timestamp: self.timestamp,
            is_mine: self.is_mine,
            delivery: self.delivery@,
        }
    }
}

impl View for ChatMessage {
    type V = ChatMessageView;

    open spec fn view(&self) -> ChatMessageView {
        self.deep_view()
    }
}

impl Clone for ChatMessage {
    fn clone(&self) -> (r: Self)
        ensures
            r == *self,
    {
        ChatMessage {
            id: self.id.clone(),
            sender_pubkey: self.sender_pubkey.clone(),
            content: self.content.clone(),
            timestamp: self.timestamp,
            is_mine: self.is_mine,
            delivery: self.delivery.clone(),
        }
    }
}

/// The open chat: the loaded window of its history, oldest first, and whether
/// older messages are left to load.
#[derive(Debug, PartialEq, Eq)]
pub struct ChatViewState {
    pub chat_id: String,
    pub peer_npub: String,
    pub peer_name: Option<String>,
    pub messages: Vec<ChatMessage>,
    pub can_load_older: bool,
}

/// View of a [`ChatViewState`].
pub struct ChatWindowView {
    pub chat_id: Seq<char>,
    pub peer_npub: Seq<char>,
    pub peer_name: Option<Seq<char>>,
    pub messages: Seq<ChatMessageView>,
    pub can_load_older: bool,
}

impl DeepView for ChatViewState {
    type V = ChatWindowView;

    open spec fn deep_view(&self) -> ChatWindowView {
        ChatWindowView {
            chat_id: self.chat_id@,
            peer_npub: self.peer_npub@,
            peer_name: self.peer_name.deep_view(),
            messages: self.messages.deep_view(),
            can_load_older: self.can_load_older,
        }
    }
}

impl View for ChatViewState {
    type V = ChatWindowView;

    open spec fn view(&self) -> ChatWindowView {
        self.deep_view()
    }
}

impl Clone for ChatViewState {
    fn clone(&self) -> (r: Self)
        ensures
            r@ == self@,
    {
        let messages = self.messages.clone();
        assert(messages@ =~= self.messages@);
        ChatViewState {
            chat_id: self.chat_id.clone(),
            peer_npub: self.peer_npub.clone(),
            peer_name: self.peer_name.clone(),
            messages,
            can_load_older: self.can_load_older,
        }
    }
}

/// The whole observable state. `rev` counts the updates emitted so far.
#[derive(Debug, PartialEq, Eq)]
pub struct AppState {
    pub rev: u64,
    pub router: Router,
    pub auth: AuthState,
    pub chat_list: Vec<ChatSummary>,
    pub current_chat: Option<ChatViewState>,
    pub toast: Option<String>,
}

/// View of an [`AppState`].
pub struct AppStateView {
    pub rev: u64,
    pub router: RouterView,
    pub auth: AuthView,
    pub chat_list: Seq<ChatSummaryView>,
    pub current_chat: Option<ChatWindowView>,
    pub toast: Option<Seq<char>>,
}

impl DeepView for AppState {
    type V = AppStateView;

    open spec fn deep_view(&self) -> AppStateView {
        AppStateView {
            rev: self.rev,
            router: self.router@,
            auth: self.auth@,
            chat_list: self.chat_list.deep_view(),
            current_chat: self.current_chat.deep_view(),
            toast: self.toast.deep_view(),
        }
    }
}

impl View for AppState {
    type V = AppStateView;

    open spec fn view(&self) -> AppStateView {
        self.deep_view()
    }
}

impl Clone for AppState {
    fn clone(&self) -> (r: Self)
        ensures
            r@ == self@,
    {
        let chat_list = self.chat_list.clone();
        assert(chat_list@ =~= self.chat_list@);
        let current_chat = match &self.current_chat {
            Some(chat) => Some(chat.clone()),
            None => None,
        };
        AppState {
            rev: self.rev,
            router: self.router.clone(),
            auth: self.auth.clone(),
            chat_list,
            current_chat,
            toast: self.toast.clone(),
        }
    }
}

/// The state of a process that has not signed in yet.
pub open spec fn empty_state() -> AppStateView {
    AppStateView {
        rev: 0,
        router: RouterView { default_screen: ScreenView::Login, screen_stack: Seq::empty() },
        auth: AuthView::LoggedOut,
        chat_list: Seq::empty(),
        current_chat: None,
        toast: None,
    }
}

impl AppState {
    /// The state before anything has happened: signed out, on the login
    /// screen, with no chats, no open chat and no notice.
    pub fn empty() -> (s: Self)
        ensures
            s@ == empty_state(),
    {
        let s = AppState {
            rev: 0,
            router: Router { default_screen: Screen::Login, screen_stack: Vec::new() },
            auth: AuthState::LoggedOut,
            chat_list: Vec::new(),
            current_chat: None,
            toast: None,
        };
        assert(s.router.screen_stack.deep_view() =~= Seq::empty());
        assert(s.chat_list.deep_view() =~= Seq::empty());
        s
    }
}

} // verus!
