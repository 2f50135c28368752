//! The alias registry's record type, error taxonomy and the two state
//! transitions, `register` and `update`.
//!
//! Each username maps to one storage slot; the slot is either empty (the
//! name was never claimed) or holds one [`Alias`] record. A transition takes
//! the slot's current contents, the authenticated caller and the operation's
//! inputs, and returns either the record to persist or an error, mutating
//! nothing itself: the host persists the record of a successful call and
//! discards nothing-changed failures, so every call is all-or-nothing.

use vstd::prelude::*;
use vstd::utf8::encode_utf8;

use crate::identity::Identity;

verus! {

/// Smallest username length the registry accepts, in bytes of UTF-8.
pub const MIN_USERNAME_LEN: usize = 3;

/// Largest username length the registry accepts, in bytes of UTF-8.
pub const MAX_USERNAME_LEN: usize = 20;

/// One registry record: a username bound to its current owner and the time
/// it was first claimed.
#[derive(Clone, Debug)]
pub struct Alias {
    /// The claimed name; immutable for the record's lifetime.
    pub username: String,
    /// The identity currently authorized to transfer this record.
    pub owner: Identity,
    /// Seconds since the epoch at creation; set once, never updated.
    pub created_at: i64,
}

/// Why a registry operation was refused. Every failure leaves the record
/// exactly as it was.
#[derive(Clone, Copy, Debug, PartialEq, Eq, Structural)]
pub enum DixError {
    /// The username's byte length lies outside the accepted bounds.
    InvalidUsername,
    /// The caller is not the record's current owner.
    NotOwner,
    /// The username's slot already holds a record; the name is taken.
    AlreadyExists,
    /// The username's slot is empty; the name was never registered.
    NotFound,
}

/// The byte length of a username, measured on its UTF-8 encoding.
pub open spec fn username_byte_len(s: Seq<char>) -> nat {
    encode_utf8(s).len()
}

/// Whether a username's byte length lies within the accepted bounds.
pub open spec fn username_valid(s: Seq<char>) -> bool {
    MIN_USERNAME_LEN <= username_byte_len(s) <= MAX_USERNAME_LEN
}

/// A record is well formed when its username respects the length bounds.
/// `register` establishes this and `update` preserves it.
pub open spec fn alias_wf(a: Alias) -> bool {
    username_valid(a.username@)
}

/// The external resources a `register` call reads: the contents of the
/// storage slot derived from the username, the authenticated caller, and the
/// host clock. The calling harness resolves all three before the transition
/// runs.
pub struct Register {
    /// What the username's derived slot holds now; `None` when the name was
    /// never claimed.
    pub alias: Option<Alias>,
    /// The identity the host attributes to this call.
    pub user: Identity,
    /// The host clock, seconds since the epoch.
    pub now: i64,
}

/// The external resources an `update` call reads: the contents of the
/// storage slot derived from the username and the authenticated caller.
pub struct Update {
    /// What the username's derived slot holds now; `None` when the name was
    /// never claimed.
    pub alias: Option<Alias>,
    /// The identity the host attributes to this call.
    pub user: Identity,
}

/// What `register` returns: the whole transition as a mathematical function
/// of the slot's contents, the username, the caller and the clock. The
/// length check comes first, before any storage is touched; a claimed name
/// is refused whoever calls.
pub open spec fn spec_register(
    slot: Option<Alias>,
    username: String,
    caller: Identity,
    now: i64,
) -> Result<Alias, DixError> {
    if !username_valid(username@) {
        Err(DixError::InvalidUsername)
    } else if slot is Some {
        Err(DixError::AlreadyExists)
    } else {
        Ok(Alias { username, owner: caller, created_at: now })
    }
}

/// What `update` returns: the whole transition as a mathematical function
/// of the slot's contents, the requested new owner and the caller. Only the
/// current owner may transfer the record, and only the owner field changes.
pub open spec fn spec_update(
    slot: Option<Alias>,
    new_owner: Identity,
    caller: Identity,
) -> Result<Alias, DixError> {
    match slot {
        None => Err(DixError::NotFound),
        Some(a) => if a.owner != caller {
            Err(DixError::NotOwner)
        } else {
            Ok(Alias { username: a.username, owner: new_owner, created_at: a.created_at })
        },
    }
}

/// The slot's contents after a transition: a successful call persists the
/// returned record, a failed call changes nothing.
pub open spec fn slot_after(slot: Option<Alias>, r: Result<Alias, DixError>) -> Option<Alias> {
    match r {
        Ok(a) => Some(a),
        Err(_) => slot,
    }
}

/// Claims `username` for the caller: refuses a name whose byte length lies
/// outside `[MIN_USERNAME_LEN, MAX_USERNAME_LEN]`, refuses a name whose slot
/// already holds a record, and otherwise returns the new record — owned by
/// the caller, stamped with the clock — for the host to persist.
pub fn register(ctx: Register, username: String) -> (r: Result<Alias, DixError>)
    ensures
        r == spec_register(ctx.alias, username, ctx.user, ctx.now),
        r matches Ok(a) ==> alias_wf(a),
{
    let n: usize = username.as_str().as_bytes().len();
    if n < MIN_USERNAME_LEN || n > MAX_USERNAME_LEN {
        return Err(DixError::InvalidUsername);
    }
    if ctx.alias.is_some() {
        return Err(DixError::AlreadyExists);
    }
    Ok(Alias { username, owner: ctx.user, created_at: ctx.now })
}

/// Transfers the record to `new_owner`: refuses a name whose slot is empty,
/// refuses a caller other than the current owner, and otherwise returns the
/// record with only its owner replaced, for the host to persist.
pub fn update(ctx: Update, new_owner: Identity) -> (r: Result<Alias, DixError>)
    ensures
        r == spec_update(ctx.alias, new_owner, ctx.user),
        r matches Ok(a) ==> a.username == ctx.alias->0.username && a.created_at
            == ctx.alias->0.created_at && a.owner == new_owner,
        r matches Ok(a) ==> (alias_wf(ctx.alias->0) ==> alias_wf(a)),
{
    match ctx.alias {
        None => Err(DixError::NotFound),
        Some(a) => {
            if !a.owner.same_as(&ctx.user) {
                return Err(DixError::NotOwner);
            }
            Ok(Alias { username: a.username, owner: new_owner, created_at: a.created_at })
        },
    }
}

} // verus!
