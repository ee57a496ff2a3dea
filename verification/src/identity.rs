//! Identities: a public key in its two spellings, and how one is read from a
//! secret key or from what a user typed.

use vstd::prelude::*;
use nostr_sdk::prelude::{Keys, PublicKey, ToBech32};

verus! {

/// A public key as the reducer reads it: in hexadecimal and as an `npub`.
#[derive(Debug, PartialEq, Eq)]
pub struct Identity {
    pub pubkey: String,
    pub npub: String,
}

/// View of an [`Identity`].
pub struct IdentityView {
    pub pubkey: Seq<char>,
    pub npub: Seq<char>,
}

impl DeepView for Identity {
    type V = IdentityView;

    open spec fn deep_view(&self) -> IdentityView {
        IdentityView { pubkey: self.pubkey@, npub: self.npub@ }
    }
}

impl View for Identity {
    type V = IdentityView;

    open spec fn view(&self) -> IdentityView {
        self.deep_view()
    }
}

impl Clone for Identity {
    fn clone(&self) -> (r: Self)
        ensures
            r == *self,
    {
        Identity { pubkey: self.pubkey.clone(), npub: self.npub.clone() }
    }
}

/// The identity that a secret key belongs to; `None` for a text that is no
/// secret key.
pub uninterp spec fn secret_identity(secret: Seq<char>) -> Option<IdentityView>;

/// The public key that a text spells; `None` for a text that spells none.
pub uninterp spec fn spelled_identity(text: Seq<char>) -> Option<IdentityView>;

/// `Keys::parse`, then the public key of the pair written with `to_hex` and
/// `to_bech32`. The result depends on the text alone; the contract gives it
/// the name [`secret_identity`].
#[verifier::external_body]
pub(crate) fn identity_of_secret(secret: &str) -> (r: Option<Identity>)
    ensures
        r.deep_view() == secret_identity(secret@),
{
    match Keys::parse(secret) {
        Ok(keys) => match keys.public_key().to_bech32() {
            Ok(npub) => Some(Identity { pubkey: keys.public_key().to_hex(), npub }),
            Err(_) => None,
        },
        Err(_) => None,
    }
}

/// `PublicKey::parse`, which reads hexadecimal, `npub` and `nostr:` forms,
/// then the key written with `to_hex` and `to_bech32`. The result depends on
/// the text alone; the contract gives it the name [`spelled_identity`].
#[verifier::external_body]
pub(crate) fn identity_of_text(text: &str) -> (r: Option<Identity>)
    ensures
        r.deep_view() == spelled_identity(text@),
{
    match PublicKey::parse(text) {
        Ok(key) => match key.to_bech32() {
            Ok(npub) => Some(Identity { pubkey: key.to_hex(), npub }),
            Err(_) => None,
        },
        Err(_) => None,
    }
}

/// `Keys::generate`, with the secret key written with `to_bech32`. The key is
/// random: nothing is claimed of which text comes back. What is claimed is
/// that the text is a secret key: the key is written in the `nsec` form,
/// which cannot fail, and `Keys::parse` reads that form back.
#[verifier::external_body]
pub(crate) fn fresh_secret() -> (secret: String)
    ensures
        secret_identity(secret@) is Some,
{
    match Keys::generate().secret_key().to_bech32() {
        Ok(secret) => secret,
        Err(never) => match never {
        },
    }
}

} // verus!
