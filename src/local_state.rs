//! Layout of the private data area and the persisted secret.

use vstd::prelude::*;
use vstd::string::*;

use crate::error::SetupError;
use crate::random::{describe_error, draw_bytes};
use crate::text::{hex_encode, hex_of, join, joined, lemma_hex_trimmed, sqlite_url, store_url, trim, trimmed};

verus! {

/// Number of random bytes in a fresh secret.
pub const SECRET_BYTES: usize = 32;

pub open spec fn db_name() -> Seq<char> {
    seq!['d', 'b']
}

pub open spec fn master_name() -> Seq<char> {
    seq!['m', 'a', 's', 't', 'e', 'r', '.', 'd', 'b']
}

pub open spec fn tenant_name() -> Seq<char> {
    seq!['d', 'e', 'v', '.', 'd', 'b']
}

pub open spec fn secret_name() -> Seq<char> {
    seq![
        'a', 'u', 't', 'h', '_', 't', 'o', 'k', 'e', 'n', '_', 's', 'e', 'c', 'r', 'e', 't', '.',
        't', 'x', 't',
    ]
}

/// Where everything of the private data area lives, and the store URLs.
pub struct LocalLayout {
    pub data_dir: String,
    pub db_dir: String,
    pub master_db_path: String,
    pub tenant_db_path: String,
    pub secret_path: String,
    pub master_db_url: String,
    pub tenant_db_url: String,
}

/// Whether `l` is the layout of the data area at `dir`.
pub open spec fn is_layout_of(l: LocalLayout, dir: Seq<char>) -> bool {
    let db = joined(dir, db_name());
    &&& l.data_dir@ == dir
    &&& l.db_dir@ == db
    &&& l.master_db_path@ == joined(db, master_name())
    &&& l.tenant_db_path@ == joined(db, tenant_name())
    &&& l.secret_path@ == joined(dir, secret_name())
    &&& l.master_db_url@ == store_url(joined(db, master_name()))
    &&& l.tenant_db_url@ == store_url(joined(db, tenant_name()))
}

/// The layout of the private data area rooted at `data_dir`: a `db`
/// directory holding the two store files, and the secret file beside it.
pub fn local_layout(data_dir: &str) -> (r: LocalLayout)
    ensures
        is_layout_of(r, data_dir@),
{
    proof {
        reveal_strlit("db");
        reveal_strlit("master.db");
        reveal_strlit("dev.db");
        reveal_strlit("auth_token_secret.txt");
    }
    assert(("db")@ =~= db_name());
    assert(("master.db")@ =~= master_name());
    assert(("dev.db")@ =~= tenant_name());
    assert(("auth_token_secret.txt")@ =~= secret_name());
    let db_dir = join(data_dir, "db");
    let master_db_path = join(db_dir.as_str(), "master.db");
    let tenant_db_path = join(db_dir.as_str(), "dev.db");
    let secret_path = join(data_dir, "auth_token_secret.txt");
    let master_db_url = sqlite_url(master_db_path.as_str());
    let tenant_db_url = sqlite_url(tenant_db_path.as_str());
    LocalLayout {
        data_dir: String::from_str(data_dir),
        db_dir,
        master_db_path,
        tenant_db_path,
        secret_path,
        master_db_url,
        tenant_db_url,
    }
}

/// The secret to hand to the service, and what to write to the secret file
/// first, if anything.
pub struct SecretPlan {
    pub secret: String,
    pub write: Option<String>,
}

/// Whether `p` is a correct outcome of secret preparation when the secret
/// file holds `existing` (`None`: there is no such file) and a fresh secret
/// would be encoded from `fresh`.
pub open spec fn secret_plan_for(existing: Option<Seq<char>>, fresh: Seq<u8>, p: SecretPlan) -> bool {
    match existing {
        Some(content) => p.secret@ == trimmed(content) && p.write is None,
        None => p.secret@ == hex_of(fresh) && (p.write matches Some(w) && w@ == p.secret@),
    }
}

/// Whether `p` is a correct outcome of secret preparation for some draw of
/// `SECRET_BYTES` random bytes.
pub open spec fn is_secret_step(existing: Option<Seq<char>>, p: SecretPlan) -> bool {
    exists|fresh: Seq<u8>| fresh.len() == SECRET_BYTES && secret_plan_for(existing, fresh, p)
}

pub open spec fn content_view(c: Option<String>) -> Option<Seq<char>> {
    match c {
        Some(s) => Some(s@),
        None => None,
    }
}

/// Settles the secret from what the secret file holds: its content trimmed
/// if it exists (nothing written), otherwise the hex encoding of `fresh`,
/// to be written to the file.
pub fn settle_secret(existing: Option<String>, fresh: &[u8]) -> (r: SecretPlan)
    ensures
        secret_plan_for(content_view(existing), fresh@, r),
{
    match existing {
        Some(content) => SecretPlan { secret: trim(content.as_str()), write: None },
        None => {
            let secret = hex_encode(fresh);
            let write = secret.clone();
            SecretPlan { secret, write: Some(write) }
        },
    }
}

/// Prepares the secret: reuses the file's content if there is one,
/// otherwise draws `SECRET_BYTES` random bytes; fails only if the random
/// source does, with the source's description of the failure.
pub fn prepare_secret(existing: Option<String>) -> (r: Result<SecretPlan, SetupError>)
    ensures
        existing is Some ==> (r matches Ok(p) && is_secret_step(content_view(existing), p)),
        existing is None ==> match r {
            Ok(p) => is_secret_step(None, p),
            Err(e) => e is RandomUnavailable,
        },
{
    match existing {
        Some(content) => {
            let p = settle_secret(Some(content), &[]);
            let ghost witness = Seq::new(SECRET_BYTES as nat, |i: int| 0u8);
            assert(witness.len() == SECRET_BYTES);
            assert(secret_plan_for(content_view(existing), witness, p));
            assert(is_secret_step(content_view(existing), p));
            Ok(p)
        },
        None => match draw_bytes(SECRET_BYTES) {
            Ok(bytes) => {
                let p = settle_secret(None, bytes.as_slice());
                assert(secret_plan_for(None, bytes@, p));
                Ok(p)
            },
            Err(e) => Err(SetupError::RandomUnavailable { cause: describe_error(&e) }),
        },
    }
}

/// The file content after a secret step was carried out on `existing`.
pub open spec fn after_step(existing: Option<Seq<char>>, p: SecretPlan) -> Option<Seq<char>> {
    match p.write {
        Some(w) => Some(w@),
        None => existing,
    }
}

/// Preparing the secret twice gives the same secret both times, and the
/// second preparation writes nothing.
pub proof fn lemma_secret_stable(existing: Option<Seq<char>>, first: SecretPlan, second: SecretPlan)
    requires
        is_secret_step(existing, first),
        is_secret_step(after_step(existing, first), second),
    ensures
        second.secret@ == first.secret@,
        second.write is None,
{
    let fresh = choose|fresh: Seq<u8>| fresh.len() == SECRET_BYTES && secret_plan_for(existing, fresh, first);
    if existing is None {
        lemma_hex_trimmed(fresh);
    }
}

} // verus!
