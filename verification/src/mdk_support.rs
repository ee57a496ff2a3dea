//! Where the encrypted database of an identity lives, under which name its
//! key is kept, and the one-time choice of the key storage.

use vstd::prelude::*;
use std::path::PathBuf;

verus! {

/// The service under which database keys are kept in the key storage.
pub const SERVICE_ID: &'static str = "com.pika.app";

#[verifier::external_type_specification]
#[verifier::external_body]
pub struct ExPathBuf(PathBuf);

/// The text of a path that was made from text.
pub uninterp spec fn path_text(p: PathBuf) -> Seq<char>;

/// The text of the path that joining `part` to the path `base` gives, by the
/// rules of the platform that the library is built for.
pub uninterp spec fn joined_path(base: Seq<char>, part: Seq<char>) -> Seq<char>;

/// `PathBuf::from` on a text: the path spells that text.
#[verifier::external_body]
fn path_from(text: &str) -> (p: PathBuf)
    ensures
        path_text(p) == text@,
{
    PathBuf::from(text)
}

/// `Path::join` with a text. On one platform the result depends on the two
/// texts alone; the contract gives it the name [`joined_path`] and claims
/// nothing else of it.
#[verifier::external_body]
fn path_join(base: &PathBuf, part: &str) -> (p: PathBuf)
    ensures
        path_text(p) == joined_path(path_text(*base), part@),
{
    base.join(part)
}

/// The text of the database path of an identity: the data directory, then
/// `mls`, the public key in hexadecimal, and `mdk.sqlite3`, joined in turn.
pub open spec fn db_path_text(data_dir: Seq<char>, pubkey_hex: Seq<char>) -> Seq<char> {
    joined_path(joined_path(joined_path(data_dir, "mls"@), pubkey_hex), "mdk.sqlite3"@)
}

/// The path of the encrypted database of an identity.
pub fn mdk_db_path(data_dir: &str, pubkey_hex: &str) -> (p: PathBuf)
    ensures
        path_text(p) == db_path_text(data_dir@, pubkey_hex@),
{
    let base = path_from(data_dir);
    let groups = path_join(&base, "mls");
    let own = path_join(&groups, pubkey_hex);
    path_join(&own, "mdk.sqlite3")
}

/// The name under which the database key of an identity is kept.
pub open spec fn key_id_text(pubkey_hex: Seq<char>) -> Seq<char> {
    "mdk.db.key."@ + pubkey_hex
}

/// The name under which the database key of an identity is kept in the key
/// storage.
pub fn db_key_id(pubkey_hex: &str) -> (id: String)
    ensures
        id@ == key_id_text(pubkey_hex@),
{
    let mut id = "mdk.db.key.".to_owned();
    id.append(pubkey_hex);
    id
}

/// What one attempt to choose the key storage gave.
#[derive(Debug, PartialEq, Eq)]
pub enum KeyringOutcome {
    Ready,
    Failed { reason: String },
}

/// View of a [`KeyringOutcome`].
pub enum KeyringOutcomeView {
    Ready,
    Failed { reason: Seq<char> },
}

impl DeepView for KeyringOutcome {
    type V = KeyringOutcomeView;

    open spec fn deep_view(&self) -> KeyringOutcomeView {
        match self {
            KeyringOutcome::Ready => KeyringOutcomeView::Ready,
            KeyringOutcome::Failed { reason } => KeyringOutcomeView::Failed { reason: reason@ },
        }
    }
}

impl View for KeyringOutcome {
    type V = KeyringOutcomeView;

    open spec fn view(&self) -> KeyringOutcomeView {
        self.deep_view()
    }
}

/// The view of what a choice of key storage returned.
pub open spec fn outcome_of(r: Result<(), String>) -> KeyringOutcomeView {
    match r {
        Ok(_) => KeyringOutcomeView::Ready,
        Err(e) => KeyringOutcomeView::Failed { reason: e@ },
    }
}

/// The record of the one attempt of a process to choose its key storage.
/// It starts empty, is filled by the first call of [`init_keyring_once`], and
/// never changes after that.
pub struct KeyringInit {
    outcome: Option<KeyringOutcome>,
}

impl View for KeyringInit {
    type V = Option<KeyringOutcomeView>;

    closed spec fn view(&self) -> Option<KeyringOutcomeView> {
        self.outcome.deep_view()
    }
}

impl KeyringInit {
    /// The record before any attempt.
    pub fn new() -> (cell: Self)
        ensures
            cell@ is None,
    {
        KeyringInit { outcome: None }
    }

    /// What the attempt gave, if it has been made.
    pub fn outcome(&self) -> (r: Option<KeyringOutcome>)
        ensures
            r.deep_view() == self@,
    {
        match &self.outcome {
            None => None,
            Some(KeyringOutcome::Ready) => Some(KeyringOutcome::Ready),
            Some(KeyringOutcome::Failed { reason }) => Some(
                KeyringOutcome::Failed { reason: reason.clone() },
            ),
        }
    }
}

/// Chooses the key storage once. The first call runs `select` and records
/// what it gave; every later call leaves `select` alone and gives the
/// recorded outcome again. `select` has to be callable only while nothing is
/// recorded, so no later call can run it.
pub fn init_keyring_once<F: FnOnce() -> Result<(), String>>(
    cell: &mut KeyringInit,
    select: F,
) -> (r: Result<(), String>)
    requires
        old(cell)@ is None ==> select.requires(()),
    ensures
        old(cell)@ is Some ==> final(cell)@ == old(cell)@ && outcome_of(r) == old(cell)@->0,
        old(cell)@ is None ==> select.ensures((), r) && final(cell)@ == Some(outcome_of(r)),
{
    match &cell.outcome {
        Some(KeyringOutcome::Ready) => Ok(()),
        Some(KeyringOutcome::Failed { reason }) => Err(reason.clone()),
        None => {
            let r = select();
            match &r {
                Ok(_) => {
                    cell.outcome = Some(KeyringOutcome::Ready);
                },
                Err(e) => {
                    cell.outcome = Some(KeyringOutcome::Failed { reason: e.clone() });
                },
            }
            r
        },
    }
}

} // verus!
