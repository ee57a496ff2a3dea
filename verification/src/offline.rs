//! What stands in for the network while it is switched off: every request
//! that would go to a relay is answered at once, locally.

use vstd::prelude::*;
use crate::updates::{Effect, EffectView, EventView, InternalEvent};

verus! {

/// The answer to a request while the network is off. Publishing succeeds
/// without anything being sent; a search finds nothing; work that needs no
/// relay gets no answer here and is done as always.
pub open spec fn offline_reply_of(effect: EffectView) -> Option<EventView> {
    match effect {
        EffectView::PublishMessage { chat_id, rumor_id, content } => Some(
            EventView::PublishMessageResult { chat_id, rumor_id, ok: true, error: None },
        ),
        EffectView::PublishKeyPackage => Some(
            EventView::KeyPackagePublished { ok: true, error: None },
        ),
        EffectView::FetchKeyPackage { peer } => Some(
            EventView::PeerKeyPackageFetched { peer, key_package_event: None, error: None },
        ),
        _ => None,
    }
}

/// The answer to a request while the network is off: see
/// [`offline_reply_of`].
pub fn offline_reply(effect: &Effect) -> (r: Option<InternalEvent>)
    ensures
        r.deep_view() == offline_reply_of(effect@),
{
    match effect {
        Effect::PublishMessage { chat_id, rumor_id, content } => Some(
            InternalEvent::PublishMessageResult {
                chat_id: chat_id.clone(),
                rumor_id: rumor_id.clone(),
                ok: true,
                error: None,
            },
        ),
        Effect::PublishKeyPackage => Some(
            InternalEvent::KeyPackagePublished { ok: true, error: None },
        ),
        Effect::FetchKeyPackage { peer } => Some(
            InternalEvent::PeerKeyPackageFetched {
                peer: peer.clone(),
                key_package_event: None,
                error: None,
            },
        ),
        _ => None,
    }
}

} // verus!
