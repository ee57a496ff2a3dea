//! What the reducer takes in besides commands, and what it hands out: the
//! results of outside work, the updates for listeners, and the requests for
//! outside work.

use vstd::prelude::*;
use crate::actions::{ActionView, AppAction};
use crate::chat_store::{StoredChat, StoredChatView};
use crate::identity::{Identity, IdentityView};
use crate::state::{
    AppState, AppStateView, AuthState, AuthView, ChatMessage, ChatMessageView, ChatSummary,
    ChatSummaryView, ChatViewState, ChatWindowView, DeliveryView, MessageDeliveryState, Router,
    RouterView,
};

verus! {

/// One step of change for listeners. Each carries the revision that the state
/// has once it is applied.
#[derive(Debug, PartialEq, Eq)]
pub enum AppUpdate {
    FullState(AppState),
    AccountCreated { rev: u64, nsec: String, pubkey: String, npub: String },
    RouterChanged { rev: u64, router: Router },
    AuthChanged { rev: u64, auth: AuthState },
    ChatListChanged { rev: u64, chat_list: Vec<ChatSummary> },
    CurrentChatChanged { rev: u64, current_chat: Option<ChatViewState> },
    ToastChanged { rev: u64, toast: Option<String> },
}

/// View of an [`AppUpdate`].
pub enum UpdateView {
    FullState(AppStateView),
    AccountCreated { rev: u64, nsec: Seq<char>, pubkey: Seq<char>, npub: Seq<char> },
    RouterChanged { rev: u64, router: RouterView },
    AuthChanged { rev: u64, auth: AuthView },
    ChatListChanged { rev: u64, chat_list: Seq<ChatSummaryView> },
    CurrentChatChanged { rev: u64, current_chat: Option<ChatWindowView> },
    ToastChanged { rev: u64, toast: Option<Seq<char>> },
}

impl DeepView for AppUpdate {
    type V = UpdateView;

    open spec fn deep_view(&self) -> UpdateView {
        match self {
            AppUpdate::FullState(s) => UpdateView::FullState(s@),
            AppUpdate::AccountCreated { rev, nsec, pubkey, npub } => UpdateView::AccountCreated {
                rev: *rev,
                nsec: nsec@,
                pubkey: pubkey@,
                npub: npub@,
            },
            AppUpdate::RouterChanged { rev, router } => UpdateView::RouterChanged {
                rev: *rev,
                router: router@,
            },
            AppUpdate::AuthChanged { rev, auth } => UpdateView::AuthChanged {
                rev: *rev,
                auth: auth@,
            },
            AppUpdate::ChatListChanged { rev, chat_list } => UpdateView::ChatListChanged {
                rev: *rev,
                chat_list: chat_list.deep_view(),
            },
            AppUpdate::CurrentChatChanged { rev, current_chat } => UpdateView::CurrentChatChanged {
                rev: *rev,
                current_chat: current_chat.deep_view(),
            },
            AppUpdate::ToastChanged { rev, toast } => UpdateView::ToastChanged {
                rev: *rev,
                toast: toast.deep_view(),
            },
        }
    }
}

impl View for AppUpdate {
    type V = UpdateView;

    open spec fn view(&self) -> UpdateView {
        self.deep_view()
    }
}

impl Clone for AppUpdate {
    fn clone(&self) -> (r: Self)
        ensures
            r@ == self@,
    {
        match self {
            AppUpdate::FullState(s) => AppUpdate::FullState(s.clone()),
            AppUpdate::AccountCreated { rev, nsec, pubkey, npub } => AppUpdate::AccountCreated {
                rev: *rev,
                nsec: nsec.clone(),
                pubkey: pubkey.clone(),
                npub: npub.clone(),
            },
            AppUpdate::RouterChanged { rev, router } => AppUpdate::RouterChanged {
                rev: *rev,
                router: router.clone(),
            },
            AppUpdate::AuthChanged { rev, auth } => AppUpdate::AuthChanged {
                rev: *rev,
                auth: auth.clone(),
            },
            AppUpdate::ChatListChanged { rev, chat_list } => {
                let copy = chat_list.clone();
                assert(copy@ =~= chat_list@);
                AppUpdate::ChatListChanged { rev: *rev, chat_list: copy }
            },
            AppUpdate::CurrentChatChanged { rev, current_chat } => AppUpdate::CurrentChatChanged {
                rev: *rev,
                current_chat: match current_chat {
                    Some(chat) => Some(chat.clone()),
                    None => None,
                },
            },
            AppUpdate::ToastChanged { rev, toast } => AppUpdate::ToastChanged {
                rev: *rev,
                toast: toast.clone(),
            },
        }
    }
}

/// The revision that an update carries.
pub open spec fn update_rev(u: UpdateView) -> u64 {
    match u {
        UpdateView::FullState(s) => s.rev,
        UpdateView::AccountCreated { rev, .. } => rev,
        UpdateView::RouterChanged { rev, .. } => rev,
        UpdateView::AuthChanged { rev, .. } => rev,
        UpdateView::ChatListChanged { rev, .. } => rev,
        UpdateView::CurrentChatChanged { rev, .. } => rev,
        UpdateView::ToastChanged { rev, .. } => rev,
    }
}

impl AppUpdate {
    /// The revision that this update carries.
    pub fn rev(&self) -> (r: u64)
        ensures
            r == update_rev(self@),
    {
        match self {
            AppUpdate::FullState(s) => s.rev,
            AppUpdate::AccountCreated { rev, .. } => *rev,
            AppUpdate::RouterChanged { rev, .. } => *rev,
            AppUpdate::AuthChanged { rev, .. } => *rev,
            AppUpdate::ChatListChanged { rev, .. } => *rev,
            AppUpdate::CurrentChatChanged { rev, .. } => *rev,
            AppUpdate::ToastChanged { rev, .. } => *rev,
        }
    }
}

/// A group that a peer has added this identity to.
#[derive(Debug, PartialEq, Eq)]
pub struct GroupInvite {
    pub chat_id: String,
    pub peer_npub: String,
    pub peer_name: Option<String>,
}

/// View of a [`GroupInvite`].
pub struct GroupInviteView {
    pub chat_id: Seq<char>,
    pub peer_npub: Seq<char>,
    pub peer_name: Option<Seq<char>>,
}

impl DeepView for GroupInvite {
    type V = GroupInviteView;

    open spec fn deep_view(&self) -> GroupInviteView {
        GroupInviteView {
            chat_id: self.chat_id@,
            peer_npub: self.peer_npub@,
            peer_name: self.peer_name.deep_view(),
        }
    }
}

impl View for GroupInvite {
    type V = GroupInviteView;

    open spec fn view(&self) -> GroupInviteView {
        self.deep_view()
    }
}

/// A decrypted message of a peer.
#[derive(Debug, PartialEq, Eq)]
pub struct InboundMessage {
    pub chat_id: String,
    pub id: String,
    pub sender_pubkey: String,
    pub content: String,
    pub timestamp: i64,
}

/// View of an [`InboundMessage`].
pub struct InboundMessageView {
    pub chat_id: Seq<char>,
    pub id: Seq<char>,
    pub sender_pubkey: Seq<char>,
    pub content: Seq<char>,
    pub timestamp: i64,
}

impl DeepView for InboundMessage {
    type V = InboundMessageView;

    open spec fn deep_view(&self) -> InboundMessageView {
        InboundMessageView {
            chat_id: self.chat_id@,
            id: self.id@,
            sender_pubkey: self.sender_pubkey@,
            content: self.content@,
            timestamp: self.timestamp,
        }
    }
}

impl View for InboundMessage {
    type V = InboundMessageView;

    open spec fn view(&self) -> InboundMessageView {
        self.deep_view()
    }
}

/// What came in from the network, or back from work that the reducer asked
/// for. Where the outside could not make sense of what it received, the event
/// carries `None`.
#[derive(Debug, PartialEq, Eq)]
#[allow(inconsistent_fields)]
pub enum InternalEvent {
    /// A wrapped event was received and unwrapped. `invite` is the group that
    /// it adds this identity to.
    GiftWrapReceived { invite: Option<GroupInvite> },
    /// A group event was received. `message` is what it decrypts to.
    GroupMessageReceived { message: Option<InboundMessage> },
    /// A message has been published, or could not be.
    PublishMessageResult { chat_id: String, rumor_id: String, ok: bool, error: Option<String> },
    /// The key package of this identity has been published, or could not be.
    KeyPackagePublished { ok: bool, error: Option<String> },
    /// A notice to show.
    Toast(String),
    /// The search for the key package of a peer has ended.
    PeerKeyPackageFetched { peer: Identity, key_package_event: Option<String>, error: Option<
        String,
    > },
    /// The store of an identity has been opened and read, or could not be.
    IdentityStoreOpened { pubkey: String, opened: Result<Vec<StoredChat>, String> },
    /// A group with a peer has been formed, or could not be. On success
    /// `created` is the id of the chat.
    GroupCreated { peer: Identity, created: Result<String, String> },
}

/// View of an [`InternalEvent`].
#[allow(inconsistent_fields)]
pub enum EventView {
    GiftWrapReceived { invite: Option<GroupInviteView> },
    GroupMessageReceived { message: Option<InboundMessageView> },
    PublishMessageResult { chat_id: Seq<char>, rumor_id: Seq<char>, ok: bool, error: Option<
        Seq<char>,
    > },
    KeyPackagePublished { ok: bool, error: Option<Seq<char>> },
    Toast(Seq<char>),
    PeerKeyPackageFetched { peer: IdentityView, key_package_event: Option<Seq<char>>, error: Option<
        Seq<char>,
    > },
    IdentityStoreOpened { pubkey: Seq<char>, opened: Result<Seq<StoredChatView>, Seq<char>> },
    GroupCreated { peer: IdentityView, created: Result<Seq<char>, Seq<char>> },
}

impl DeepView for InternalEvent {
    type V = EventView;

    open spec fn deep_view(&self) -> EventView {
        match self {
            InternalEvent::GiftWrapReceived { invite } => EventView::GiftWrapReceived {
                invite: invite.deep_view(),
            },
            InternalEvent::GroupMessageReceived { message } => EventView::GroupMessageReceived {
                message: message.deep_view(),
            },
            InternalEvent::PublishMessageResult {
                chat_id,
                rumor_id,
                ok,
                error,
            } => EventView::PublishMessageResult {
                chat_id: chat_id@,
                rumor_id: rumor_id@,
                ok: *ok,
                error: error.deep_view(),
            },
            InternalEvent::KeyPackagePublished { ok, error } => EventView::KeyPackagePublished {
                ok: *ok,
                error: error.deep_view(),
            },
            InternalEvent::Toast(text) => EventView::Toast(text@),
            InternalEvent::PeerKeyPackageFetched {
                peer,
                key_package_event,
                error,
            } => EventView::PeerKeyPackageFetched {
                peer: peer@,
                key_package_event: key_package_event.deep_view(),
                error: error.deep_view(),
            },
            InternalEvent::IdentityStoreOpened { pubkey, opened } => EventView::IdentityStoreOpened {
                pubkey: pubkey@,
                opened: match opened {
                    Ok(rows) => Ok(rows.deep_view()),
                    Err(e) => Err(e@),
                },
            },
            InternalEvent::GroupCreated { peer, created } => EventView::GroupCreated {
                peer: peer@,
                created: match created {
                    Ok(id) => Ok(id@),
                    Err(e) => Err(e@),
                },
            },
        }
    }
}

impl View for InternalEvent {
    type V = EventView;

    open spec fn view(&self) -> EventView {
        self.deep_view()
    }
}

/// One item of the reducer's queue.
#[derive(Debug, PartialEq, Eq)]
pub enum CoreMsg {
    Action(AppAction),
    Internal(Box<InternalEvent>),
}

/// View of a [`CoreMsg`].
pub enum MsgView {
    Action(ActionView),
    Internal(EventView),
}

impl DeepView for CoreMsg {
    type V = MsgView;

    open spec fn deep_view(&self) -> MsgView {
        match self {
            CoreMsg::Action(a) => MsgView::Action(a@),
            CoreMsg::Internal(e) => MsgView::Internal(e@),
        }
    }
}

impl View for CoreMsg {
    type V = MsgView;

    open spec fn view(&self) -> MsgView {
        self.deep_view()
    }
}

/// Work that the reducer asks the outside to do. The reducer never waits for
/// it: where a result matters, it comes back as an [`InternalEvent`].
#[derive(Debug, PartialEq, Eq)]
pub enum Effect {
    /// Open the encrypted store of this identity, creating it if need be, and
    /// read its chats. Answered by `IdentityStoreOpened`.
    OpenIdentityStore { pubkey: String },
    /// Detach the store of the identity that was signed in.
    CloseIdentityStore,
    /// Write the summary row of a chat.
    SaveChat { summary: ChatSummary },
    /// Write a message of a chat.
    SaveMessage { chat_id: String, message: ChatMessage },
    /// Write the delivery state of a message.
    SaveDelivery { chat_id: String, message_id: String, delivery: MessageDeliveryState },
    /// Publish the key package of the identity. Answered by
    /// `KeyPackagePublished`.
    PublishKeyPackage,
    /// Encrypt a message for its group and publish it. Answered by
    /// `PublishMessageResult`.
    PublishMessage { chat_id: String, rumor_id: String, content: String },
    /// Look for the key package of a peer. Answered by
    /// `PeerKeyPackageFetched`.
    FetchKeyPackage { peer: Identity },
    /// Form a group with a peer from its key package. Answered by
    /// `GroupCreated`.
    CreateGroup { peer: Identity, key_package_event: String },
    /// Publish that the identity follows a peer, or no longer does.
    SetFollow { peer: Identity, follow: bool },
}

/// View of an [`Effect`].
pub enum EffectView {
    OpenIdentityStore { pubkey: Seq<char> },
    CloseIdentityStore,
    SaveChat { summary: ChatSummaryView },
    SaveMessage { chat_id: Seq<char>, message: ChatMessageView },
    SaveDelivery { chat_id: Seq<char>, message_id: Seq<char>, delivery: DeliveryView },
    PublishKeyPackage,
    PublishMessage { chat_id: Seq<char>, rumor_id: Seq<char>, content: Seq<char> },
    FetchKeyPackage { peer: IdentityView },
    CreateGroup { peer: IdentityView, key_package_event: Seq<char> },
    SetFollow { peer: IdentityView, follow: bool },
}

impl DeepView for Effect {
    type V = EffectView;

    open spec fn deep_view(&self) -> EffectView {
        match self {
            Effect::OpenIdentityStore { pubkey } => EffectView::OpenIdentityStore {
                pubkey: pubkey@,
            },
            Effect::CloseIdentityStore => EffectView::CloseIdentityStore,
            Effect::SaveChat { summary } => EffectView::SaveChat { summary: summary@ },
            Effect::SaveMessage { chat_id, message } => EffectView::SaveMessage {
                chat_id: chat_id@,
                message: message@,
            },
            Effect::SaveDelivery { chat_id, message_id, delivery } => EffectView::SaveDelivery {
                chat_id: chat_id@,
                message_id: message_id@,
                delivery: delivery@,
            },
            Effect::PublishKeyPackage => EffectView::PublishKeyPackage,
            Effect::PublishMessage { chat_id, rumor_id, content } => EffectView::PublishMessage {
                chat_id: chat_id@,
                rumor_id: rumor_id@,
                content: content@,
            },
            Effect::FetchKeyPackage { peer } => EffectView::FetchKeyPackage { peer: peer@ },
            Effect::CreateGroup { peer, key_package_event } => EffectView::CreateGroup {
                peer: peer@,
                key_package_event: key_package_event@,
            },
            Effect::SetFollow { peer, follow } => EffectView::SetFollow {
                peer: peer@,
                follow: *follow,
            },
        }
    }
}

impl View for Effect {
    type V = EffectView;

    open spec fn view(&self) -> EffectView {
        self.deep_view()
    }
}

} // verus!
