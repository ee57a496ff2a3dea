//! The reducer: the one owner and writer of the application state.
//!
//! It takes queue items one at a time. For each it changes the state, makes
//! the updates for the listeners and names the work that the outside is to
//! do; it does no outside work itself. What each item does is given by
//! [`crate::model::step`], and every function here is held to it.

use vstd::prelude::*;
use crate::actions::{ActionView, AppAction};
use crate::chat_store::{store_ok, ChatStore, StoredChat};
use crate::history::{has_message, with_delivery};
use crate::identity::{
    fresh_secret, identity_of_secret, identity_of_text, secret_identity, Identity,
};
use crate::ids::{id_from_bytes, now_seconds, random_bytes, stable_hash};
use crate::model;
use crate::model::{
    core_ok, CoreView, DrawView, PendingView, SessionView, StepView, DEFAULT_PAGE_SIZE,
};
use crate::state::{
    AppState, AuthState, ChatMessage, ChatSummary, ChatViewState, MessageDeliveryState, Router,
    Screen,
};
use crate::updates::{
    AppUpdate, CoreMsg, Effect, GroupInvite, InboundMessage, InternalEvent, MsgView,
};

verus! {

/// The values drawn from outside sources for one queue item.
#[derive(Debug, PartialEq, Eq)]
pub struct Draw {
    /// The time, in seconds since the Unix epoch.
    pub now: i64,
    /// The bytes from which the id of a sent message is made.
    pub id_bytes: Vec<u8>,
    /// A fresh secret key, for a new account.
    pub secret: String,
}

impl DeepView for Draw {
    type V = DrawView;

    open spec fn deep_view(&self) -> DrawView {
        DrawView { now: self.now, id_bytes: self.id_bytes@, secret: self.secret@ }
    }
}

impl View for Draw {
    type V = DrawView;

    open spec fn view(&self) -> DrawView {
        self.deep_view()
    }
}

/// What one queue item gave: the updates for the listeners, in the order in
/// which they are to be delivered, and the work for the outside.
#[derive(Debug, PartialEq, Eq)]
pub struct StepOutput {
    pub updates: Vec<AppUpdate>,
    pub effects: Vec<Effect>,
}

/// The outcome of a queue item, from the reducer after it and what it gave.
pub open spec fn outcome(core: CoreView, out: StepOutput) -> StepView {
    StepView { core, updates: out.updates.deep_view(), effects: out.effects.deep_view() }
}

struct PendingLogin {
    identity: Identity,
    secret: Option<String>,
}

/// The reducer.
pub struct AppCore {
    state: AppState,
    identity: Option<Identity>,
    store: ChatStore,
    pending: Option<PendingLogin>,
}

impl View for AppCore {
    type V = CoreView;

    closed spec fn view(&self) -> CoreView {
        CoreView {
            state: self.state@,
            session: match self.identity {
                Some(identity) => Some(SessionView { identity: identity@, store: self.store@ }),
                None => None,
            },
            pending: match self.pending {
                Some(p) => Some(PendingView { identity: p.identity@, secret: p.secret.deep_view() }),
                None => None,
            },
        }
    }
}

fn copy_window(window: &Option<ChatViewState>) -> (r: Option<ChatViewState>)
    ensures
        r.deep_view() == window.deep_view(),
{
    match window {
        Some(w) => Some(w.clone()),
        None => None,
    }
}

fn copy_summaries(list: &Vec<ChatSummary>) -> (r: Vec<ChatSummary>)
    ensures
        r.deep_view() == list.deep_view(),
{
    let r = list.clone();
    assert(r@ =~= list@);
    r
}

fn no_updates() -> (r: Vec<AppUpdate>)
    ensures
        r.deep_view() == Seq::<crate::updates::UpdateView>::empty(),
{
    let r: Vec<AppUpdate> = Vec::new();
    assert(r.deep_view() =~= Seq::empty());
    r
}

fn no_effects() -> (r: Vec<Effect>)
    ensures
        r.deep_view() == Seq::<crate::updates::EffectView>::empty(),
{
    let r: Vec<Effect> = Vec::new();
    assert(r.deep_view() =~= Seq::empty());
    r
}

fn one_update(u: AppUpdate) -> (r: Vec<AppUpdate>)
    ensures
        r.deep_view() == seq![u@],
{
    let mut r: Vec<AppUpdate> = Vec::new();
    r.push(u);
    assert(r.deep_view() =~= seq![u@]);
    r
}

fn two_updates(a: AppUpdate, b: AppUpdate) -> (r: Vec<AppUpdate>)
    ensures
        r.deep_view() == seq![a@, b@],
{
    let mut r: Vec<AppUpdate> = Vec::new();
    r.push(a);
    r.push(b);
    assert(r.deep_view() =~= seq![a@, b@]);
    r
}

fn one_effect(e: Effect) -> (r: Vec<Effect>)
    ensures
        r.deep_view() == seq![e@],
{
    let mut r: Vec<Effect> = Vec::new();
    r.push(e);
    assert(r.deep_view() =~= seq![e@]);
    r
}

fn replace_delivery(ms: &mut Vec<ChatMessage>, id: &String, delivery: &MessageDeliveryState)
    ensures
        final(ms).deep_view() == model::window_set_delivery(old(ms).deep_view(), id@, delivery@),
{
    let ghost before = ms.deep_view();
    let ghost after = model::window_set_delivery(before, id@, delivery@);
    let mut i: usize = 0;
    while i < ms.len()
        invariant
            i <= ms.len(),
            ms.len() == before.len(),
            after == model::window_set_delivery(before, id@, delivery@),
            ms.deep_view().subrange(0, i as int) == after.subrange(0, i as int),
            ms.deep_view().subrange(i as int, ms.len() as int) == before.subrange(
                i as int,
                ms.len() as int,
            ),
        decreases ms.len() - i,
    {
        let ghost cur = ms.deep_view();
        assert(cur[i as int] == cur.subrange(i as int, ms.len() as int)[0]);
        if ms[i].id == *id {
            ms[i].delivery = delivery.clone();
            assert(ms.deep_view() =~= cur.update(
                i as int,
                with_delivery(cur[i as int], delivery@),
            ));
        }
        assert(ms.deep_view().subrange(0, i + 1) =~= cur.subrange(0, i as int).push(
            after[i as int],
        ));
        assert(after.subrange(0, i + 1) =~= after.subrange(0, i as int).push(after[i as int]));
        assert(ms.deep_view().subrange(i + 1, ms.len() as int) =~= cur.subrange(
            i as int,
            ms.len() as int,
        ).drop_first());
        assert(before.subrange(i + 1, ms.len() as int) =~= before.subrange(
            i as int,
            ms.len() as int,
        ).drop_first());
        i += 1;
    }
    assert(ms.deep_view() =~= ms.deep_view().subrange(0, ms.len() as int));
    assert(after =~= after.subrange(0, ms.len() as int));
}

impl AppCore {
    /// What holds of the reducer between queue items: see [`core_ok`].
    pub open spec fn wf(&self) -> bool {
        core_ok(self@) && self.store_wf()
    }

    /// The store is well-formed, also while nobody is signed in.
    pub closed spec fn store_wf(&self) -> bool {
        store_ok(self.store@)
    }

    /// The reducer of a fresh process: signed out, on the login screen.
    pub fn new() -> (core: Self)
        ensures
            core.wf(),
            core@ == model::initial_core(),
    {
        AppCore { state: AppState::empty(), identity: None, store: ChatStore::new(), pending: None }
    }

    /// A copy of the state as it stands.
    pub fn state(&self) -> (s: AppState)
        ensures
            s@ == self@.state,
    {
        self.state.clone()
    }

    /// The update that a listener gets when it is attached: the whole state
    /// at its present revision.
    pub fn attach(&self) -> (u: AppUpdate)
        ensures
            u@ == crate::updates::UpdateView::FullState(self@.state),
    {
        AppUpdate::FullState(self.state.clone())
    }

    /// The revision of the state.
    pub fn rev(&self) -> (r: u64)
        ensures
            r == self@.state.rev,
    {
        self.state.rev
    }

    /// Whether the revision leaves room for the updates of one more queue
    /// item.
    pub fn has_headroom(&self) -> (r: bool)
        ensures
            r == (self@.state.rev <= u64::MAX - 2),
    {
        self.state.rev <= u64::MAX - 2
    }

    /// Copies of the chats of the signed-in identity with their histories;
    /// none while signed out.
    pub fn stored_chats(&self) -> (rows: Vec<StoredChat>)
        ensures
            rows.deep_view() == match self@.session {
                Some(s) => s.store,
                None => Seq::empty(),
            },
    {
        if self.identity.is_some() {
            self.store.rows()
        } else {
            let rows: Vec<StoredChat> = Vec::new();
            assert(rows.deep_view() =~= Seq::empty());
            rows
        }
    }

    fn notice(&mut self, text: String) -> (out: StepOutput)
        requires
            old(self)@.state.rev <= u64::MAX - 2,
        ensures
            outcome(final(self)@, out) == model::notice(old(self)@, text@),
            final(self).store_wf() == old(self).store_wf(),
    {
        let rev = self.state.rev + 1;
        self.state.rev = rev;
        self.state.toast = Some(text.clone());
        StepOutput {
            updates: one_update(AppUpdate::ToastChanged { rev, toast: Some(text) }),
            effects: no_effects(),
        }
    }

    fn unchanged(&self) -> (out: StepOutput)
        ensures
            outcome(self@, out) == model::unchanged(self@),
    {
        StepOutput { updates: no_updates(), effects: no_effects() }
    }

    fn clear_toast(&mut self) -> (out: StepOutput)
        requires
            old(self)@.state.rev <= u64::MAX - 2,
        ensures
            outcome(final(self)@, out) == model::clear_toast(old(self)@),
            final(self).store_wf() == old(self).store_wf(),
    {
        if self.state.toast.is_none() {
            self.unchanged()
        } else {
            let rev = self.state.rev + 1;
            self.state.rev = rev;
            self.state.toast = None;
            StepOutput {
                updates: one_update(AppUpdate::ToastChanged { rev, toast: None }),
                effects: no_effects(),
            }
        }
    }

    fn route(&mut self, router: Router) -> (out: StepOutput)
        requires
            old(self)@.state.rev <= u64::MAX - 2,
        ensures
            outcome(final(self)@, out) == model::route(old(self)@, router@),
            final(self).store_wf() == old(self).store_wf(),
    {
        let rev = self.state.rev + 1;
        self.state.rev = rev;
        let shown = router.clone();
        self.state.router = router;
        StepOutput {
            updates: one_update(AppUpdate::RouterChanged { rev, router: shown }),
            effects: no_effects(),
        }
    }

    fn push_screen(&mut self, screen: Screen) -> (out: StepOutput)
        requires
            old(self)@.state.rev <= u64::MAX - 2,
        ensures
            outcome(final(self)@, out) == model::push_screen(old(self)@, screen@),
            final(self).store_wf() == old(self).store_wf(),
    {
        let mut router = self.state.router.clone();
        let ghost before = router.screen_stack.deep_view();
        let ghost sv = screen@;
        router.screen_stack.push(screen);
        assert(router.screen_stack.deep_view() =~= before.push(sv));
        self.route(router)
    }

    fn update_screen_stack(&mut self, stack: Vec<Screen>) -> (out: StepOutput)
        requires
            old(self)@.state.rev <= u64::MAX - 2,
        ensures
            outcome(final(self)@, out) == model::update_screen_stack(
                old(self)@,
                stack.deep_view(),
            ),
            final(self).store_wf() == old(self).store_wf(),
    {
        let router = Router {
            default_screen: self.state.router.default_screen.clone(),
            screen_stack: stack,
        };
        self.route(router)
    }

    fn begin_sign_in(&mut self, secret: String, created: bool) -> (out: StepOutput)
        requires
            old(self)@.state.rev <= u64::MAX - 2,
        ensures
            outcome(final(self)@, out) == model::begin_sign_in(old(self)@, secret@, created),
            final(self).store_wf() == old(self).store_wf(),
    {
        if self.identity.is_some() {
            self.notice("Already signed in".to_owned())
        } else if self.pending.is_some() {
            self.notice("Sign-in already in progress".to_owned())
        } else {
            match identity_of_secret(secret.as_str()) {
                None => self.notice("Invalid secret key".to_owned()),
                Some(identity) => {
                    let pubkey = identity.pubkey.clone();
                    self.pending = Some(
                        PendingLogin { identity, secret: if created {
                            Some(secret)
                        } else {
                            None
                        } },
                    );
                    StepOutput {
                        updates: no_updates(),
                        effects: one_effect(Effect::OpenIdentityStore { pubkey }),
                    }
                },
            }
        }
    }

    fn store_opened(&mut self, pubkey: String, opened: Result<Vec<StoredChat>, String>) -> (out:
        StepOutput)
        requires
            old(self)@.state.rev <= u64::MAX - 2,
            old(self).store_wf(),
        ensures
            outcome(final(self)@, out) == model::store_opened(
                old(self)@,
                pubkey@,
                match opened {
                    Ok(rows) => Ok(rows.deep_view()),
                    Err(e) => Err(e@),
                },
            ),
            final(self).store_wf(),
    {
        if self.identity.is_some() {
            return self.unchanged();
        }
        let waits = match &self.pending {
            Some(p) => p.identity.pubkey == pubkey,
            None => false,
        };
        if !waits {
            return self.unchanged();
        }
        let p = self.pending.take().unwrap();
        match opened {
            Err(e) => self.notice(e),
            Ok(rows) => {
                self.store = ChatStore::from_rows(rows);
                let chat_list = self.store.summaries();
                let npub = p.identity.npub.clone();
                let pubkey = p.identity.pubkey.clone();
                self.state.router = Router {
                    default_screen: Screen::ChatList,
                    screen_stack: Vec::new(),
                };
                assert(self.state.router.screen_stack.deep_view() =~= Seq::empty());
                self.state.auth = AuthState::LoggedIn { npub: npub.clone(), pubkey: pubkey.clone() };
                self.state.chat_list = chat_list;
                self.state.current_chat = None;
                self.identity = Some(p.identity);
                match p.secret {
                    Some(nsec) => {
                        let first = self.state.rev + 1;
                        self.state.rev = first + 1;
                        StepOutput {
                            updates: two_updates(
                                AppUpdate::AccountCreated { rev: first, nsec, pubkey, npub },
                                AppUpdate::FullState(self.state.clone()),
                            ),
                            effects: one_effect(Effect::PublishKeyPackage),
                        }
                    },
                    None => {
                        self.state.rev = self.state.rev + 1;
                        StepOutput {
                            updates: one_update(AppUpdate::FullState(self.state.clone())),
                            effects: one_effect(Effect::PublishKeyPackage),
                        }
                    },
                }
            },
        }
    }

    fn logout(&mut self) -> (out: StepOutput)
        requires
            old(self)@.state.rev <= u64::MAX - 2,
        ensures
            outcome(final(self)@, out) == model::logout(old(self)@),
            final(self).store_wf(),
    {
        let was_signed_in = self.identity.is_some();
        self.identity = None;
        self.pending = None;
        self.store = ChatStore::new();
        self.state.rev = self.state.rev + 1;
        self.state.router = Router { default_screen: Screen::Login, screen_stack: Vec::new() };
        assert(self.state.router.screen_stack.deep_view() =~= Seq::empty());
        self.state.auth = AuthState::LoggedOut;
        self.state.chat_list = Vec::new();
        assert(self.state.chat_list.deep_view() =~= Seq::empty());
        self.state.current_chat = None;
        StepOutput {
            updates: one_update(AppUpdate::FullState(self.state.clone())),
            effects: if was_signed_in {
                one_effect(Effect::CloseIdentityStore)
            } else {
                no_effects()
            },
        }
    }

    fn add_chat(&mut self, summary: ChatSummary) -> (out: StepOutput)
        requires
            old(self)@.state.rev <= u64::MAX - 2,
            old(self).store_wf(),
        ensures
            outcome(final(self)@, out) == model::add_chat(old(self)@, summary@),
            final(self).store_wf(),
    {
        if self.identity.is_none() {
            return self.unchanged();
        }
        if self.store.contains(&summary.chat_id) {
            return self.unchanged();
        }
        self.store.upsert_chat(summary.clone());
        let rev = self.state.rev + 1;
        self.state.rev = rev;
        self.state.chat_list = self.store.summaries();
        StepOutput {
            updates: one_update(
                AppUpdate::ChatListChanged { rev, chat_list: copy_summaries(&self.state.chat_list) },
            ),
            effects: one_effect(Effect::SaveChat { summary }),
        }
    }

    fn create_chat(&mut self, peer_npub: String) -> (out: StepOutput)
        requires
            old(self)@.state.rev <= u64::MAX - 2,
            old(self).store_wf(),
        ensures
            outcome(final(self)@, out) == model::create_chat(old(self)@, peer_npub@),
            final(self).store_wf(),
    {
        let me = match &self.identity {
            None => {
                return self.notice("Not signed in".to_owned());
            },
            Some(identity) => identity.clone(),
        };
        match identity_of_text(peer_npub.as_str()) {
            None => self.notice("Invalid peer public key".to_owned()),
            Some(peer) => {
                if peer.pubkey == me.pubkey {
                    let chat_id = stable_hash(me.pubkey.as_str());
                    self.add_chat(
                        ChatSummary {
                            chat_id,
                            peer_npub: me.npub,
                            peer_name: None,
                            last_message: None,
                            last_message_at: None,
                            unread_count: 0,
                        },
                    )
                } else {
                    StepOutput {
                        updates: no_updates(),
                        effects: one_effect(Effect::FetchKeyPackage { peer }),
                    }
                }
            },
        }
    }

    fn set_follow(&mut self, npub: String, follow: bool) -> (out: StepOutput)
        requires
            old(self)@.state.rev <= u64::MAX - 2,
        ensures
            outcome(final(self)@, out) == model::set_follow(old(self)@, npub@, follow),
            final(self).store_wf() == old(self).store_wf(),
    {
        if self.identity.is_none() {
            return self.notice("Not signed in".to_owned());
        }
        match identity_of_text(npub.as_str()) {
            None => self.notice("Invalid peer public key".to_owned()),
            Some(peer) => StepOutput {
                updates: no_updates(),
                effects: one_effect(Effect::SetFollow { peer, follow }),
            },
        }
    }

    fn key_package_fetched(
        &mut self,
        peer: Identity,
        key_package_event: Option<String>,
        error: Option<String>,
    ) -> (out: StepOutput)
        requires
            old(self)@.state.rev <= u64::MAX - 2,
        ensures
            outcome(final(self)@, out) == model::key_package_fetched(
                old(self)@,
                peer@,
                key_package_event.deep_view(),
                error.deep_view(),
            ),
            final(self).store_wf() == old(self).store_wf(),
    {
        if self.identity.is_none() {
            return self.unchanged();
        }
        match error {
            Some(e) => self.notice(e),
            None => match key_package_event {
                None => self.notice("No key package found for this peer".to_owned()),
                Some(key_package_event) => StepOutput {
                    updates: no_updates(),
                    effects: one_effect(Effect::CreateGroup { peer, key_package_event }),
                },
            },
        }
    }

    fn group_created(&mut self, peer: Identity, created: Result<String, String>) -> (out:
        StepOutput)
        requires
            old(self)@.state.rev <= u64::MAX - 2,
            old(self).store_wf(),
        ensures
            outcome(final(self)@, out) == model::group_created(
                old(self)@,
                peer@,
                match created {
                    Ok(id) => Ok(id@),
                    Err(e) => Err(e@),
                },
            ),
            final(self).store_wf(),
    {
        if self.identity.is_none() {
            return self.unchanged();
        }
        match created {
            Err(e) => self.notice(e),
            Ok(chat_id) => self.add_chat(
                ChatSummary {
                    chat_id,
                    peer_npub: peer.npub,
                    peer_name: None,
                    last_message: None,
                    last_message_at: None,
                    unread_count: 0,
                },
            ),
        }
    }

    fn invite_received(&mut self, invite: Option<GroupInvite>) -> (out: StepOutput)
        requires
            old(self)@.state.rev <= u64::MAX - 2,
            old(self).store_wf(),
        ensures
            outcome(final(self)@, out) == model::invite_received(old(self)@, invite.deep_view()),
            final(self).store_wf(),
    {
        match invite {
            None => self.unchanged(),
            Some(g) => self.add_chat(
                ChatSummary {
                    chat_id: g.chat_id,
                    peer_npub: g.peer_npub,
                    peer_name: g.peer_name,
                    last_message: None,
                    last_message_at: None,
                    unread_count: 0,
                },
            ),
        }
    }

    fn show_chat(&mut self, window: ChatViewState) -> (out: StepOutput)
        requires
            old(self)@.state.rev <= u64::MAX - 2,
        ensures
            outcome(final(self)@, out) == model::show_chat(old(self)@, window@),
            final(self).store_wf() == old(self).store_wf(),
    {
        let rev = self.state.rev + 1;
        self.state.rev = rev;
        let shown = window.clone();
        self.state.current_chat = Some(window);
        StepOutput {
            updates: one_update(AppUpdate::CurrentChatChanged { rev, current_chat: Some(shown) }),
            effects: no_effects(),
        }
    }

    fn open_chat(&mut self, chat_id: String) -> (out: StepOutput)
        requires
            old(self)@.state.rev <= u64::MAX - 2,
            old(self).store_wf(),
        ensures
            outcome(final(self)@, out) == model::open_chat(old(self)@, chat_id@),
            final(self).store_wf(),
    {
        if self.identity.is_none() {
            return self.notice("Not signed in".to_owned());
        }
        match self.store.summary(&chat_id) {
            None => self.notice("Chat not found".to_owned()),
            Some(summary) => {
                let messages = self.store.newest(&chat_id, DEFAULT_PAGE_SIZE);
                let can_load_older = messages.len() > 0 && self.store.has_older(
                    &chat_id,
                    &messages[0].id,
                );
                self.show_chat(
                    ChatViewState {
                        chat_id: summary.chat_id,
                        peer_npub: summary.peer_npub,
                        peer_name: summary.peer_name,
                        messages,
                        can_load_older,
                    },
                )
            },
        }
    }

    fn load_older(&mut self, chat_id: String, before: String, limit: u32) -> (out: StepOutput)
        requires
            old(self)@.state.rev <= u64::MAX - 2,
            old(self).store_wf(),
        ensures
            outcome(final(self)@, out) == model::load_older(old(self)@, chat_id@, before@, limit),
            final(self).store_wf(),
    {
        if self.identity.is_none() {
            return self.notice("Not signed in".to_owned());
        }
        let is_open = match &self.state.current_chat {
            Some(w) => w.chat_id == chat_id,
            None => false,
        };
        if !is_open {
            return self.notice("Chat is not open".to_owned());
        }
        let mut window = self.state.current_chat.take().unwrap();
        if !window.can_load_older {
            self.state.current_chat = Some(window);
            return self.unchanged();
        }
        let mut page = self.store.older_than(&chat_id, &before, limit as usize);
        if page.len() == 0 {
            window.can_load_older = false;
        } else {
            window.can_load_older = self.store.has_older(&chat_id, &page[0].id);
            let ghost front = page.deep_view();
            let ghost back = window.messages.deep_view();
            page.append(&mut window.messages);
            assert(page.deep_view() =~= front + back);
            window.messages = page;
        }
        self.state.current_chat = None;
        self.show_chat(window)
    }

    fn take_message(
        &mut self,
        chat_id: String,
        m: ChatMessage,
        summary: ChatSummary,
        more_effects: Vec<Effect>,
    ) -> (out: StepOutput)
        requires
            old(self)@.state.rev <= u64::MAX - 2,
            old(self).store_wf(),
            old(self)@.session is Some,
        ensures
            outcome(final(self)@, out) == model::take_message(
                old(self)@,
                old(self)@.session->0,
                chat_id@,
                m@,
                summary@,
                more_effects.deep_view(),
            ),
            final(self).store_wf(),
    {
        self.store.insert_message(&chat_id, m.clone());
        self.store.upsert_chat(summary.clone());
        self.state.chat_list = self.store.summaries();
        let is_open = match &self.state.current_chat {
            Some(w) => w.chat_id == chat_id,
            None => false,
        };
        let mut effects: Vec<Effect> = Vec::new();
        effects.push(Effect::SaveMessage { chat_id, message: m.clone() });
        effects.push(Effect::SaveChat { summary });
        let mut more = more_effects;
        let ghost tail = more.deep_view();
        let ghost head = effects.deep_view();
        effects.append(&mut more);
        assert(effects.deep_view() =~= head + tail);
        assert(head =~= seq![head[0], head[1]]);
        if is_open {
            let mut window = self.state.current_chat.take().unwrap();
            let ghost before = window.messages.deep_view();
            let ghost mv = m@;
            window.messages.push(m);
            assert(window.messages.deep_view() =~= before.push(mv));
            let first = self.state.rev + 1;
            let rev = first + 1;
            self.state.rev = rev;
            let shown = window.clone();
            self.state.current_chat = Some(window);
            StepOutput {
                updates: two_updates(
                    AppUpdate::CurrentChatChanged { rev: first, current_chat: Some(shown) },
                    AppUpdate::ChatListChanged {
                        rev,
                        chat_list: copy_summaries(&self.state.chat_list),
                    },
                ),
                effects,
            }
        } else {
            let rev = self.state.rev + 1;
            self.state.rev = rev;
            StepOutput {
                updates: one_update(
                    AppUpdate::ChatListChanged {
                        rev,
                        chat_list: copy_summaries(&self.state.chat_list),
                    },
                ),
                effects,
            }
        }
    }

    fn send_message(&mut self, chat_id: String, content: String, draw: &Draw) -> (out: StepOutput)
        requires
            old(self)@.state.rev <= u64::MAX - 2,
            old(self).store_wf(),
        ensures
            outcome(final(self)@, out) == model::send_message(
                old(self)@,
                chat_id@,
                content@,
                draw@,
            ),
            final(self).store_wf(),
    {
        let sender_pubkey = match &self.identity {
            None => {
                return self.notice("Not signed in".to_owned());
            },
            Some(identity) => identity.pubkey.clone(),
        };
        match self.store.summary(&chat_id) {
            None => self.notice("Chat not found".to_owned()),
            Some(summary) => {
                let id = id_from_bytes("msg", &draw.id_bytes);
                if self.store.has_message(&chat_id, &id) {
                    return self.notice("Message could not be stored".to_owned());
                }
                let m = ChatMessage {
                    id: id.clone(),
                    sender_pubkey,
                    content: content.clone(),
                    timestamp: draw.now,
                    is_mine: true,
                    delivery: MessageDeliveryState::Pending,
                };
                let row = ChatSummary {
                    chat_id: summary.chat_id,
                    peer_npub: summary.peer_npub,
                    peer_name: summary.peer_name,
                    last_message: Some(content.clone()),
                    last_message_at: Some(draw.now),
                    unread_count: summary.unread_count,
                };
                let publish = one_effect(
                    Effect::PublishMessage { chat_id: chat_id.clone(), rumor_id: id, content },
                );
                self.take_message(chat_id, m, row, publish)
            },
        }
    }

    fn message_received(&mut self, message: Option<InboundMessage>) -> (out: StepOutput)
        requires
            old(self)@.state.rev <= u64::MAX - 2,
            old(self).store_wf(),
        ensures
            outcome(final(self)@, out) == model::message_received(
                old(self)@,
                message.deep_view(),
            ),
            final(self).store_wf(),
    {
        if self.identity.is_none() {
            return self.unchanged();
        }
        let inbound = match message {
            None => {
                return self.unchanged();
            },
            Some(inbound) => inbound,
        };
        match self.store.summary(&inbound.chat_id) {
            None => self.unchanged(),
            Some(summary) => {
                if self.store.has_message(&inbound.chat_id, &inbound.id) {
                    return self.unchanged();
                }
                let is_open = match &self.state.current_chat {
                    Some(w) => w.chat_id == inbound.chat_id,
                    None => false,
                };
                let unread_count = if is_open || summary.unread_count == u32::MAX {
                    summary.unread_count
                } else {
                    summary.unread_count + 1
                };
                let row = ChatSummary {
                    chat_id: summary.chat_id,
                    peer_npub: summary.peer_npub,
                    peer_name: summary.peer_name,
                    last_message: Some(inbound.content.clone()),
                    last_message_at: Some(inbound.timestamp),
                    unread_count,
                };
                let m = ChatMessage {
                    id: inbound.id,
                    sender_pubkey: inbound.sender_pubkey,
                    content: inbound.content,
                    timestamp: inbound.timestamp,
                    is_mine: false,
                    delivery: MessageDeliveryState::Sent,
                };
                self.take_message(inbound.chat_id, m, row, no_effects())
            },
        }
    }

    fn publish_result(
        &mut self,
        chat_id: String,
        rumor_id: String,
        ok: bool,
        error: Option<String>,
    ) -> (out: StepOutput)
        requires
            old(self)@.state.rev <= u64::MAX - 2,
            old(self).store_wf(),
        ensures
            outcome(final(self)@, out) == model::publish_result(
                old(self)@,
                chat_id@,
                rumor_id@,
                ok,
                error.deep_view(),
            ),
            final(self).store_wf(),
    {
        if self.identity.is_none() {
            return self.unchanged();
        }
        if !self.store.has_message(&chat_id, &rumor_id) {
            return self.unchanged();
        }
        let delivery = if ok {
            MessageDeliveryState::Sent
        } else {
            MessageDeliveryState::Failed {
                reason: match error {
                    Some(e) => e,
                    None => "Message could not be published".to_owned(),
                },
            }
        };
        self.store.set_delivery(&chat_id, &rumor_id, delivery.clone());
        let loaded = match &self.state.current_chat {
            Some(w) => w.chat_id == chat_id && crate::history::find_message(
                &w.messages,
                &rumor_id,
            ).is_some(),
            None => false,
        };
        if loaded {
            let mut window = self.state.current_chat.take().unwrap();
            replace_delivery(&mut window.messages, &rumor_id, &delivery);
            let rev = self.state.rev + 1;
            self.state.rev = rev;
            let shown = window.clone();
            self.state.current_chat = Some(window);
            StepOutput {
                updates: one_update(
                    AppUpdate::CurrentChatChanged { rev, current_chat: Some(shown) },
                ),
                effects: one_effect(
                    Effect::SaveDelivery { chat_id, message_id: rumor_id, delivery },
                ),
            }
        } else {
            StepOutput {
                updates: no_updates(),
                effects: one_effect(
                    Effect::SaveDelivery { chat_id, message_id: rumor_id, delivery },
                ),
            }
        }
    }

    fn key_package_published(&mut self, ok: bool, error: Option<String>) -> (out: StepOutput)
        requires
            old(self)@.state.rev <= u64::MAX - 2,
        ensures
            outcome(final(self)@, out) == model::key_package_published(
                old(self)@,
                ok,
                error.deep_view(),
            ),
            final(self).store_wf() == old(self).store_wf(),
    {
        if ok {
            self.unchanged()
        } else {
            match error {
                Some(e) => self.notice(e),
                None => self.notice("Key package could not be published".to_owned()),
            }
        }
    }

    fn act(&mut self, action: AppAction, draw: &Draw) -> (out: StepOutput)
        requires
            old(self)@.state.rev <= u64::MAX - 2,
            old(self).store_wf(),
        ensures
            outcome(final(self)@, out) == model::act(old(self)@, action@, draw@),
            final(self).store_wf(),
    {
        match action {
            AppAction::CreateAccount => self.begin_sign_in(draw.secret.clone(), true),
            AppAction::RestoreSession { nsec } => self.begin_sign_in(nsec, false),
            AppAction::Logout => self.logout(),
            AppAction::PushScreen { screen } => self.push_screen(screen),
            AppAction::UpdateScreenStack { stack } => self.update_screen_stack(stack),
            AppAction::CreateChat { peer_npub } => self.create_chat(peer_npub),
            AppAction::OpenChat { chat_id } => self.open_chat(chat_id),
            AppAction::SendMessage { chat_id, content } => self.send_message(
                chat_id,
                content,
                draw,
            ),
            AppAction::LoadOlderMessages { chat_id, before_message_id, limit } => self.load_older(
                chat_id,
                before_message_id,
                limit,
            ),
            AppAction::FollowPeer { npub } => self.set_follow(npub, true),
            AppAction::UnfollowPeer { npub } => self.set_follow(npub, false),
            AppAction::ClearToast => self.clear_toast(),
        }
    }

    fn react(&mut self, event: InternalEvent) -> (out: StepOutput)
        requires
            old(self)@.state.rev <= u64::MAX - 2,
            old(self).store_wf(),
        ensures
            outcome(final(self)@, out) == model::react(old(self)@, event@),
            final(self).store_wf(),
    {
        match event {
            InternalEvent::GiftWrapReceived { invite } => self.invite_received(invite),
            InternalEvent::GroupMessageReceived { message } => self.message_received(message),
            InternalEvent::PublishMessageResult {
                chat_id,
                rumor_id,
                ok,
                error,
            } => self.publish_result(chat_id, rumor_id, ok, error),
            InternalEvent::KeyPackagePublished { ok, error } => self.key_package_published(
                ok,
                error,
            ),
            InternalEvent::Toast(text) => self.notice(text),
            InternalEvent::PeerKeyPackageFetched {
                peer,
                key_package_event,
                error,
            } => self.key_package_fetched(peer, key_package_event, error),
            InternalEvent::IdentityStoreOpened { pubkey, opened } => self.store_opened(
                pubkey,
                opened,
            ),
            InternalEvent::GroupCreated { peer, created } => self.group_created(peer, created),
        }
    }

    /// Takes one queue item with the values drawn for it: see
    /// [`crate::model::step`].
    pub fn step(&mut self, msg: CoreMsg, draw: &Draw) -> (out: StepOutput)
        requires
            old(self).wf(),
            old(self)@.state.rev <= u64::MAX - 2,
        ensures
            final(self).wf(),
            outcome(final(self)@, out) == model::step(old(self)@, msg@, draw@),
            crate::laws::revs_follow(old(self)@.state.rev, outcome(final(self)@, out)),
    {
        proof {
            crate::laws::lemma_step_keeps_core_ok(self@, msg@, draw@);
            crate::laws::lemma_step_revs(self@, msg@, draw@);
        }
        match msg {
            CoreMsg::Action(action) => self.act(action, draw),
            CoreMsg::Internal(event) => self.react(*event),
        }
    }

    /// Takes one queue item, drawing the time, the id bytes and, for a new
    /// account, the secret key from the system. The outcome is that of
    /// [`AppCore::step`] for some values drawn: sixteen id bytes, and for a
    /// new account a text that is a secret key.
    pub fn handle(&mut self, msg: CoreMsg) -> (out: StepOutput)
        requires
            old(self).wf(),
            old(self)@.state.rev <= u64::MAX - 2,
        ensures
            final(self).wf(),
            exists|draw: DrawView|
                {
                    &&& draw.id_bytes.len() == 16
                    &&& msg@ == MsgView::Action(ActionView::CreateAccount) ==> secret_identity(
                        draw.secret,
                    ) is Some
                    &&& #[trigger] model::step(old(self)@, msg@, draw) == outcome(
                        final(self)@,
                        out,
                    )
                },
            crate::laws::revs_follow(old(self)@.state.rev, outcome(final(self)@, out)),
    {
        let secret = match &msg {
            CoreMsg::Action(AppAction::CreateAccount) => fresh_secret(),
            _ => String::new(),
        };
        let draw = Draw { now: now_seconds(), id_bytes: random_bytes(), secret };
        self.step(msg, &draw)
    }
}

} // verus!
