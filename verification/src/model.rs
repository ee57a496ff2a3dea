//! What the reducer does, as a function on views: from the state before a
//! queue item, the item and the values drawn for it, to the state after it,
//! the updates for the listeners and the work asked of the outside.

use vstd::prelude::*;
use crate::actions::ActionView;
use crate::chat_store::{
    has_chat, messages_of, store_insert, store_of, store_ok, store_set_delivery, store_upsert,
    summaries, summary_of, StoredChatView,
};
use crate::history::{has_message, has_older, newest, older_than, with_delivery};
use crate::identity::{secret_identity, spelled_identity, IdentityView};
use crate::ids::{id_text, text_hash};
use crate::state::{
    AppStateView, AuthView, ChatMessageView, ChatSummaryView, ChatWindowView, DeliveryView,
    RouterView, ScreenView,
};
use crate::text::hex16;
use crate::updates::{
    EffectView, EventView, GroupInviteView, InboundMessageView, MsgView, UpdateView,
};

verus! {

/// How many messages a chat is opened on.
pub const DEFAULT_PAGE_SIZE: usize = 50;

/// The signed-in identity and its chat store.
pub struct SessionView {
    pub identity: IdentityView,
    pub store: Seq<StoredChatView>,
}

/// A sign-in that waits for its store. `secret` is the new secret key where
/// the identity was just made.
pub struct PendingView {
    pub identity: IdentityView,
    pub secret: Option<Seq<char>>,
}

/// All that the reducer holds.
pub struct CoreView {
    pub state: AppStateView,
    pub session: Option<SessionView>,
    pub pending: Option<PendingView>,
}

/// The values drawn from outside sources for one queue item: the time, the
/// bytes for a message id, and a fresh secret key.
pub struct DrawView {
    pub now: i64,
    pub id_bytes: Seq<u8>,
    pub secret: Seq<char>,
}

/// The outcome of one queue item.
pub struct StepView {
    pub core: CoreView,
    pub updates: Seq<UpdateView>,
    pub effects: Seq<EffectView>,
}

/// What holds of the reducer between queue items: signed in, the state names
/// the identity of the session and lists the chats of its store; signed out,
/// it lists none and no chat is open; and no sign-in waits while one is in
/// place.
pub open spec fn core_ok(c: CoreView) -> bool {
    &&& match c.session {
        Some(s) => {
            &&& store_ok(s.store)
            &&& c.state.auth == AuthView::LoggedIn {
                npub: s.identity.npub,
                pubkey: s.identity.pubkey,
            }
            &&& c.state.chat_list == summaries(s.store)
            &&& c.pending is None
        },
        None => {
            &&& c.state.auth == AuthView::LoggedOut
            &&& c.state.chat_list == Seq::<ChatSummaryView>::empty()
            &&& c.state.current_chat is None
        },
    }
}

/// The reducer of a fresh process.
pub open spec fn initial_core() -> CoreView {
    CoreView { state: crate::state::empty_state(), session: None, pending: None }
}

pub open spec fn notice_not_signed_in() -> Seq<char> {
    "Not signed in"@
}

pub open spec fn notice_already_signed_in() -> Seq<char> {
    "Already signed in"@
}

pub open spec fn notice_sign_in_pending() -> Seq<char> {
    "Sign-in already in progress"@
}

pub open spec fn notice_bad_secret() -> Seq<char> {
    "Invalid secret key"@
}

pub open spec fn notice_bad_peer() -> Seq<char> {
    "Invalid peer public key"@
}

pub open spec fn notice_no_chat() -> Seq<char> {
    "Chat not found"@
}

pub open spec fn notice_chat_not_open() -> Seq<char> {
    "Chat is not open"@
}

pub open spec fn notice_not_stored() -> Seq<char> {
    "Message could not be stored"@
}

pub open spec fn notice_no_key_package() -> Seq<char> {
    "No key package found for this peer"@
}

pub open spec fn notice_key_package_failed() -> Seq<char> {
    "Key package could not be published"@
}

pub open spec fn notice_publish_failed() -> Seq<char> {
    "Message could not be published"@
}

/// The prefix of the ids of sent messages.
pub open spec fn message_id_prefix() -> Seq<char> {
    "msg"@
}

/// The revision `k` updates after `rev`.
pub open spec fn rev_after(rev: u64, k: int) -> u64 {
    (rev + k) as u64
}

/// Nothing happens.
pub open spec fn unchanged(c: CoreView) -> StepView {
    StepView { core: c, updates: Seq::empty(), effects: Seq::empty() }
}

/// Nothing changes, and work is asked for.
pub open spec fn only_effects(c: CoreView, effects: Seq<EffectView>) -> StepView {
    StepView { core: c, updates: Seq::empty(), effects }
}

/// A notice is shown; nothing else changes.
pub open spec fn notice(c: CoreView, text: Seq<char>) -> StepView {
    let rev = rev_after(c.state.rev, 1);
    let state = AppStateView { rev, toast: Some(text), ..c.state };
    StepView {
        core: CoreView { state, ..c },
        updates: seq![UpdateView::ToastChanged { rev, toast: Some(text) }],
        effects: Seq::empty(),
    }
}

/// The notice is dismissed, if there is one.
pub open spec fn clear_toast(c: CoreView) -> StepView {
    if c.state.toast is None {
        unchanged(c)
    } else {
        let rev = rev_after(c.state.rev, 1);
        let state = AppStateView { rev, toast: None, ..c.state };
        StepView {
            core: CoreView { state, ..c },
            updates: seq![UpdateView::ToastChanged { rev, toast: None }],
            effects: Seq::empty(),
        }
    }
}

/// The router is replaced.
pub open spec fn route(c: CoreView, router: RouterView) -> StepView {
    let rev = rev_after(c.state.rev, 1);
    let state = AppStateView { rev, router, ..c.state };
    StepView {
        core: CoreView { state, ..c },
        updates: seq![UpdateView::RouterChanged { rev, router }],
        effects: Seq::empty(),
    }
}

/// One screen is put on top of the stack.
pub open spec fn push_screen(c: CoreView, screen: ScreenView) -> StepView {
    route(
        c,
        RouterView {
            default_screen: c.state.router.default_screen,
            screen_stack: c.state.router.screen_stack.push(screen),
        },
    )
}

/// The stack is replaced as a whole.
pub open spec fn update_screen_stack(c: CoreView, stack: Seq<ScreenView>) -> StepView {
    route(c, RouterView { default_screen: c.state.router.default_screen, screen_stack: stack })
}

/// A sign-in begins: the identity is kept as waiting and its store is asked
/// for. Refused with a notice while an identity is signed in or waiting, and
/// for a text that is no secret key.
pub open spec fn begin_sign_in(c: CoreView, secret: Seq<char>, created: bool) -> StepView {
    if c.session is Some {
        notice(c, notice_already_signed_in())
    } else if c.pending is Some {
        notice(c, notice_sign_in_pending())
    } else {
        match secret_identity(secret) {
            None => notice(c, notice_bad_secret()),
            Some(identity) => StepView {
                core: CoreView {
                    pending: Some(
                        PendingView { identity, secret: if created {
                            Some(secret)
                        } else {
                            None
                        } },
                    ),
                    ..c
                },
                updates: Seq::empty(),
                effects: seq![EffectView::OpenIdentityStore { pubkey: identity.pubkey }],
            },
        }
    }
}

/// The state of an identity that has just signed in on the given store.
pub open spec fn signed_in_state(
    old: AppStateView,
    identity: IdentityView,
    store: Seq<StoredChatView>,
    rev: u64,
) -> AppStateView {
    AppStateView {
        rev,
        router: RouterView { default_screen: ScreenView::ChatList, screen_stack: Seq::empty() },
        auth: AuthView::LoggedIn { npub: identity.npub, pubkey: identity.pubkey },
        chat_list: summaries(store),
        current_chat: None,
        toast: old.toast,
    }
}

/// The store of the waiting identity has been opened. On failure the sign-in
/// is given up with a notice. On success the identity is signed in on the
/// chats read; a new identity is announced with its secret key first.
/// Ignored when no sign-in waits for this store.
pub open spec fn store_opened(
    c: CoreView,
    pubkey: Seq<char>,
    opened: Result<Seq<StoredChatView>, Seq<char>>,
) -> StepView {
    if c.session is Some || c.pending is None || c.pending->0.identity.pubkey != pubkey {
        unchanged(c)
    } else {
        let p = c.pending->0;
        match opened {
            Err(e) => notice(CoreView { pending: None, ..c }, e),
            Ok(rows) => {
                let store = store_of(rows);
                let session = Some(SessionView { identity: p.identity, store });
                match p.secret {
                    Some(nsec) => {
                        let state = signed_in_state(
                            c.state,
                            p.identity,
                            store,
                            rev_after(c.state.rev, 2),
                        );
                        StepView {
                            core: CoreView { state, session, pending: None },
                            updates: seq![
                                UpdateView::AccountCreated {
                                    rev: rev_after(c.state.rev, 1),
                                    nsec,
                                    pubkey: p.identity.pubkey,
                                    npub: p.identity.npub,
                                },
                                UpdateView::FullState(state),
                            ],
                            effects: seq![EffectView::PublishKeyPackage],
                        }
                    },
                    None => {
                        let state = signed_in_state(
                            c.state,
                            p.identity,
                            store,
                            rev_after(c.state.rev, 1),
                        );
                        StepView {
                            core: CoreView { state, session, pending: None },
                            updates: seq![UpdateView::FullState(state)],
                            effects: seq![EffectView::PublishKeyPackage],
                        }
                    },
                }
            },
        }
    }
}

/// The state after signing out.
pub open spec fn signed_out_state(old: AppStateView, rev: u64) -> AppStateView {
    AppStateView {
        rev,
        router: RouterView { default_screen: ScreenView::Login, screen_stack: Seq::empty() },
        auth: AuthView::LoggedOut,
        chat_list: Seq::empty(),
        current_chat: None,
        toast: old.toast,
    }
}

/// The identity is signed out, and a waiting sign-in is given up.
pub open spec fn logout(c: CoreView) -> StepView {
    let state = signed_out_state(c.state, rev_after(c.state.rev, 1));
    StepView {
        core: CoreView { state, session: None, pending: None },
        updates: seq![UpdateView::FullState(state)],
        effects: if c.session is Some {
            seq![EffectView::CloseIdentityStore]
        } else {
            Seq::empty()
        },
    }
}

/// The summary row of a chat that has no message yet.
pub open spec fn new_summary(
    chat_id: Seq<char>,
    peer_npub: Seq<char>,
    peer_name: Option<Seq<char>>,
) -> ChatSummaryView {
    ChatSummaryView {
        chat_id,
        peer_npub,
        peer_name,
        last_message: None,
        last_message_at: None,
        unread_count: 0,
    }
}

/// A chat is added to the store and the chat list, unless its id is there
/// already. Ignored while signed out.
pub open spec fn add_chat(c: CoreView, summary: ChatSummaryView) -> StepView {
    match c.session {
        None => unchanged(c),
        Some(s) => {
            if has_chat(s.store, summary.chat_id) {
                unchanged(c)
            } else {
                let store = store_upsert(s.store, summary);
                let rev = rev_after(c.state.rev, 1);
                let state = AppStateView { rev, chat_list: summaries(store), ..c.state };
                StepView {
                    core: CoreView {
                        state,
                        session: Some(SessionView { store, ..s }),
                        pending: c.pending,
                    },
                    updates: seq![
                        UpdateView::ChatListChanged { rev, chat_list: summaries(store) },
                    ],
                    effects: seq![EffectView::SaveChat { summary }],
                }
            }
        },
    }
}

/// The id of the chat of an identity with itself.
pub open spec fn self_chat_id(pubkey: Seq<char>) -> Seq<char> {
    hex16(text_hash(pubkey))
}

/// A chat is asked for. With the identity itself it is made at once; with
/// another peer that peer's key package is asked for first.
pub open spec fn create_chat(c: CoreView, peer_npub: Seq<char>) -> StepView {
    match c.session {
        None => notice(c, notice_not_signed_in()),
        Some(s) => match spelled_identity(peer_npub) {
            None => notice(c, notice_bad_peer()),
            Some(peer) => {
                if peer.pubkey == s.identity.pubkey {
                    add_chat(
                        c,
                        new_summary(self_chat_id(s.identity.pubkey), s.identity.npub, None),
                    )
                } else {
                    only_effects(c, seq![EffectView::FetchKeyPackage { peer }])
                }
            },
        },
    }
}

/// A peer is followed, or no longer: the outside is asked to publish it.
/// Nothing in the state changes.
pub open spec fn set_follow(c: CoreView, npub: Seq<char>, follow: bool) -> StepView {
    match c.session {
        None => notice(c, notice_not_signed_in()),
        Some(s) => match spelled_identity(npub) {
            None => notice(c, notice_bad_peer()),
            Some(peer) => only_effects(c, seq![EffectView::SetFollow { peer, follow }]),
        },
    }
}

/// The search for a key package has ended. Where it found one, a group is
/// asked for; where it did not, a notice says why.
pub open spec fn key_package_fetched(
    c: CoreView,
    peer: IdentityView,
    key_package_event: Option<Seq<char>>,
    error: Option<Seq<char>>,
) -> StepView {
    if c.session is None {
        unchanged(c)
    } else if error is Some {
        notice(c, error->0)
    } else if key_package_event is None {
        notice(c, notice_no_key_package())
    } else {
        only_effects(
            c,
            seq![EffectView::CreateGroup { peer, key_package_event: key_package_event->0 }],
        )
    }
}

/// A group has been formed, or could not be.
pub open spec fn group_created(
    c: CoreView,
    peer: IdentityView,
    created: Result<Seq<char>, Seq<char>>,
) -> StepView {
    if c.session is None {
        unchanged(c)
    } else {
        match created {
            Err(e) => notice(c, e),
            Ok(chat_id) => add_chat(c, new_summary(chat_id, peer.npub, None)),
        }
    }
}

/// A peer has added this identity to a group.
pub open spec fn invite_received(c: CoreView, invite: Option<GroupInviteView>) -> StepView {
    match invite {
        None => unchanged(c),
        Some(g) => add_chat(c, new_summary(g.chat_id, g.peer_npub, g.peer_name)),
    }
}

/// The window on the newest messages of a chat.
pub open spec fn fresh_window(
    summary: ChatSummaryView,
    history: Seq<ChatMessageView>,
) -> ChatWindowView {
    let messages = newest(history, DEFAULT_PAGE_SIZE as nat);
    ChatWindowView {
        chat_id: summary.chat_id,
        peer_npub: summary.peer_npub,
        peer_name: summary.peer_name,
        messages,
        can_load_older: messages.len() > 0 && has_older(history, messages[0].id),
    }
}

/// The open chat is replaced.
pub open spec fn show_chat(c: CoreView, window: ChatWindowView) -> StepView {
    let rev = rev_after(c.state.rev, 1);
    let state = AppStateView { rev, current_chat: Some(window), ..c.state };
    StepView {
        core: CoreView { state, ..c },
        updates: seq![UpdateView::CurrentChatChanged { rev, current_chat: Some(window) }],
        effects: Seq::empty(),
    }
}

/// A chat is opened on its newest messages.
pub open spec fn open_chat(c: CoreView, chat_id: Seq<char>) -> StepView {
    match c.session {
        None => notice(c, notice_not_signed_in()),
        Some(s) => match summary_of(s.store, chat_id) {
            None => notice(c, notice_no_chat()),
            Some(summary) => show_chat(c, fresh_window(summary, messages_of(s.store, chat_id))),
        },
    }
}

/// The window with a page of older messages put in front. An empty page
/// closes the history for good.
pub open spec fn window_with_page(
    window: ChatWindowView,
    history: Seq<ChatMessageView>,
    page: Seq<ChatMessageView>,
) -> ChatWindowView {
    if page.len() == 0 {
        ChatWindowView { can_load_older: false, ..window }
    } else {
        ChatWindowView {
            messages: page + window.messages,
            can_load_older: has_older(history, page[0].id),
            ..window
        }
    }
}

/// Older messages are loaded into the open chat. Refused with a notice for a
/// chat that is not the open one; nothing happens once the history is known to
/// be exhausted.
pub open spec fn load_older(
    c: CoreView,
    chat_id: Seq<char>,
    before: Seq<char>,
    limit: u32,
) -> StepView {
    match c.session {
        None => notice(c, notice_not_signed_in()),
        Some(s) => {
            if c.state.current_chat is None || c.state.current_chat->0.chat_id != chat_id {
                notice(c, notice_chat_not_open())
            } else if !c.state.current_chat->0.can_load_older {
                unchanged(c)
            } else {
                let history = messages_of(s.store, chat_id);
                show_chat(
                    c,
                    window_with_page(
                        c.state.current_chat->0,
                        history,
                        older_than(history, before, limit as nat),
                    ),
                )
            }
        },
    }
}

/// Whether the chat is the open one.
pub open spec fn is_open(state: AppStateView, chat_id: Seq<char>) -> bool {
    state.current_chat is Some && state.current_chat->0.chat_id == chat_id
}

/// A message is taken into its chat: into the store, into the summary row
/// written by the caller, and into the window if the chat is open. The open
/// chat is announced first, then the chat list.
pub open spec fn take_message(
    c: CoreView,
    s: SessionView,
    chat_id: Seq<char>,
    m: ChatMessageView,
    summary: ChatSummaryView,
    more_effects: Seq<EffectView>,
) -> StepView {
    let store = store_upsert(store_insert(s.store, chat_id, m), summary);
    let session = Some(SessionView { store, ..s });
    let effects = seq![
        EffectView::SaveMessage { chat_id, message: m },
        EffectView::SaveChat { summary },
    ] + more_effects;
    if is_open(c.state, chat_id) {
        let w = c.state.current_chat->0;
        let window = Some(ChatWindowView { messages: w.messages.push(m), ..w });
        let rev = rev_after(c.state.rev, 2);
        let state = AppStateView {
            rev,
            chat_list: summaries(store),
            current_chat: window,
            ..c.state
        };
        StepView {
            core: CoreView { state, session, pending: c.pending },
            updates: seq![
                UpdateView::CurrentChatChanged {
                    rev: rev_after(c.state.rev, 1),
                    current_chat: window,
                },
                UpdateView::ChatListChanged { rev, chat_list: summaries(store) },
            ],
            effects,
        }
    } else {
        let rev = rev_after(c.state.rev, 1);
        let state = AppStateView { rev, chat_list: summaries(store), ..c.state };
        StepView {
            core: CoreView { state, session, pending: c.pending },
            updates: seq![UpdateView::ChatListChanged { rev, chat_list: summaries(store) }],
            effects,
        }
    }
}

/// A text is sent: it is stored as pending under a fresh id, shown, and
/// handed out for publishing.
pub open spec fn send_message(
    c: CoreView,
    chat_id: Seq<char>,
    content: Seq<char>,
    draw: DrawView,
) -> StepView {
    match c.session {
        None => notice(c, notice_not_signed_in()),
        Some(s) => match summary_of(s.store, chat_id) {
            None => notice(c, notice_no_chat()),
            Some(summary) => {
                let id = id_text(message_id_prefix(), draw.id_bytes);
                if has_message(messages_of(s.store, chat_id), id) {
                    notice(c, notice_not_stored())
                } else {
                    take_message(
                        c,
                        s,
                        chat_id,
                        ChatMessageView {
                            id,
                            sender_pubkey: s.identity.pubkey,
                            content,
                            timestamp: draw.now,
                            is_mine: true,
                            delivery: DeliveryView::Pending,
                        },
                        ChatSummaryView {
                            last_message: Some(content),
                            last_message_at: Some(draw.now),
                            ..summary
                        },
                        seq![EffectView::PublishMessage { chat_id, rumor_id: id, content }],
                    )
                }
            },
        },
    }
}

/// One more unread message, as far as the counter goes.
pub open spec fn one_more(count: u32) -> u32 {
    if count < u32::MAX {
        (count + 1) as u32
    } else {
        count
    }
}

/// A message of a peer has come in. It is dropped when nothing could be read,
/// when its chat is unknown, and when the chat holds its id already.
pub open spec fn message_received(c: CoreView, message: Option<InboundMessageView>) -> StepView {
    if c.session is None || message is None {
        unchanged(c)
    } else {
        let s = c.session->0;
        let inbound = message->0;
        match summary_of(s.store, inbound.chat_id) {
            None => unchanged(c),
            Some(summary) => {
                if has_message(messages_of(s.store, inbound.chat_id), inbound.id) {
                    unchanged(c)
                } else {
                    take_message(
                        c,
                        s,
                        inbound.chat_id,
                        ChatMessageView {
                            id: inbound.id,
                            sender_pubkey: inbound.sender_pubkey,
                            content: inbound.content,
                            timestamp: inbound.timestamp,
                            is_mine: false,
                            delivery: DeliveryView::Sent,
                        },
                        ChatSummaryView {
                            last_message: Some(inbound.content),
                            last_message_at: Some(inbound.timestamp),
                            unread_count: if is_open(c.state, inbound.chat_id) {
                                summary.unread_count
                            } else {
                                one_more(summary.unread_count)
                            },
                            ..summary
                        },
                        Seq::empty(),
                    )
                }
            },
        }
    }
}

/// The delivery state that a publish result stands for.
pub open spec fn delivery_of(ok: bool, error: Option<Seq<char>>) -> DeliveryView {
    if ok {
        DeliveryView::Sent
    } else {
        DeliveryView::Failed {
            reason: match error {
                Some(e) => e,
                None => notice_publish_failed(),
            },
        }
    }
}

/// The window with the delivery state of the message `id` replaced.
pub open spec fn window_set_delivery(
    ms: Seq<ChatMessageView>,
    id: Seq<char>,
    delivery: DeliveryView,
) -> Seq<ChatMessageView> {
    Seq::new(
        ms.len(),
        |i: int| if ms[i].id == id {
            with_delivery(ms[i], delivery)
        } else {
            ms[i]
        },
    )
}

/// A publish has ended. The delivery state is written to the stored message
/// with that id, and to the open window if the message is loaded there.
/// Ignored when the chat holds no such message.
pub open spec fn publish_result(
    c: CoreView,
    chat_id: Seq<char>,
    rumor_id: Seq<char>,
    ok: bool,
    error: Option<Seq<char>>,
) -> StepView {
    if c.session is None || !has_message(messages_of(c.session->0.store, chat_id), rumor_id) {
        unchanged(c)
    } else {
        let s = c.session->0;
        let delivery = delivery_of(ok, error);
        let store = store_set_delivery(s.store, chat_id, rumor_id, delivery);
        let session = Some(SessionView { store, ..s });
        let effects = seq![
            EffectView::SaveDelivery { chat_id, message_id: rumor_id, delivery },
        ];
        if is_open(c.state, chat_id) && has_message(c.state.current_chat->0.messages, rumor_id) {
            let w = c.state.current_chat->0;
            let window = Some(
                ChatWindowView {
                    messages: window_set_delivery(w.messages, rumor_id, delivery),
                    ..w
                },
            );
            let rev = rev_after(c.state.rev, 1);
            let state = AppStateView { rev, current_chat: window, ..c.state };
            StepView {
                core: CoreView { state, session, pending: c.pending },
                updates: seq![UpdateView::CurrentChatChanged { rev, current_chat: window }],
                effects,
            }
        } else {
            StepView {
                core: CoreView { state: c.state, session, pending: c.pending },
                updates: Seq::empty(),
                effects,
            }
        }
    }
}

/// The key package has been published, or could not be.
pub open spec fn key_package_published(c: CoreView, ok: bool, error: Option<Seq<char>>) -> StepView {
    if ok {
        unchanged(c)
    } else {
        notice(
            c,
            match error {
                Some(e) => e,
                None => notice_key_package_failed(),
            },
        )
    }
}

/// One command.
pub open spec fn act(c: CoreView, action: ActionView, draw: DrawView) -> StepView {
    match action {
        ActionView::CreateAccount => begin_sign_in(c, draw.secret, true),
        ActionView::RestoreSession { nsec } => begin_sign_in(c, nsec, false),
        ActionView::Logout => logout(c),
        ActionView::PushScreen { screen } => push_screen(c, screen),
        ActionView::UpdateScreenStack { stack } => update_screen_stack(c, stack),
        ActionView::CreateChat { peer_npub } => create_chat(c, peer_npub),
        ActionView::OpenChat { chat_id } => open_chat(c, chat_id),
        ActionView::SendMessage { chat_id, content } => send_message(c, chat_id, content, draw),
        ActionView::LoadOlderMessages { chat_id, before_message_id, limit } => load_older(
            c,
            chat_id,
            before_message_id,
            limit,
        ),
        ActionView::FollowPeer { npub } => set_follow(c, npub, true),
        ActionView::UnfollowPeer { npub } => set_follow(c, npub, false),
        ActionView::ClearToast => clear_toast(c),
    }
}

/// One result of outside work.
pub open spec fn react(c: CoreView, event: EventView) -> StepView {
    match event {
        EventView::GiftWrapReceived { invite } => invite_received(c, invite),
        EventView::GroupMessageReceived { message } => message_received(c, message),
        EventView::PublishMessageResult { chat_id, rumor_id, ok, error } => publish_result(
            c,
            chat_id,
            rumor_id,
            ok,
            error,
        ),
        EventView::KeyPackagePublished { ok, error } => key_package_published(c, ok, error),
        EventView::Toast(text) => notice(c, text),
        EventView::PeerKeyPackageFetched { peer, key_package_event, error } => key_package_fetched(
            c,
            peer,
            key_package_event,
            error,
        ),
        EventView::IdentityStoreOpened { pubkey, opened } => store_opened(c, pubkey, opened),
        EventView::GroupCreated { peer, created } => group_created(c, peer, created),
    }
}

/// One queue item.
pub open spec fn step(c: CoreView, msg: MsgView, draw: DrawView) -> StepView {
    match msg {
        MsgView::Action(action) => act(c, action, draw),
        MsgView::Internal(event) => react(c, event),
    }
}

} // verus!
