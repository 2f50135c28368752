//! The registry's guarantees, stated and proved over the spec-level
//! transitions that `register` and `update` are proved to implement.

use vstd::prelude::*;

use crate::identity::Identity;
use crate::registry::{
    Alias, DixError, slot_after, spec_register, spec_update, username_valid,
};

verus! {

/// A name is claimed at most once: once `register` has bound a username to
/// an owner, every further `register` of that username fails with
/// `AlreadyExists`, whoever calls and whenever, and the record — its owner
/// included — stays exactly as the first call left it.
pub proof fn lemma_register_unique(
    slot: Option<Alias>,
    username: String,
    first_caller: Identity,
    second_caller: Identity,
    t1: i64,
    t2: i64,
)
    requires
        spec_register(slot, username, first_caller, t1) is Ok,
    ensures
        ({
            let after = slot_after(slot, spec_register(slot, username, first_caller, t1));
            let second = spec_register(after, username, second_caller, t2);
            &&& second == Err::<Alias, DixError>(DixError::AlreadyExists)
            &&& slot_after(after, second) == after
            &&& after matches Some(rec) && rec.owner == first_caller
        }),
{
}

/// Only the owner transfers: an `update` by any caller other than the
/// record's current owner fails with `NotOwner` and leaves the record — its
/// owner included — unchanged.
pub proof fn lemma_update_requires_owner(
    slot: Option<Alias>,
    new_owner: Identity,
    caller: Identity,
)
    requires
        slot matches Some(rec) && caller != rec.owner,
    ensures
        spec_update(slot, new_owner, caller) == Err::<Alias, DixError>(DixError::NotOwner),
        slot_after(slot, spec_update(slot, new_owner, caller)) == slot,
{
}

/// A transfer by the owner does exactly one thing: an `update` whose caller
/// is the record's current owner succeeds, and the record afterwards has the
/// requested new owner while its username and creation time are unchanged.
pub proof fn lemma_update_transfers_ownership(
    slot: Option<Alias>,
    new_owner: Identity,
    caller: Identity,
)
    requires
        slot matches Some(rec) && caller == rec.owner,
    ensures
        ({
            let r = spec_update(slot, new_owner, caller);
            &&& r matches Ok(a)
            &&& a.owner == new_owner
            &&& a.username == slot->0.username
            &&& a.created_at == slot->0.created_at
            &&& slot_after(slot, r) == Some(a)
        }),
{
}

/// The slot's contents after a whole sequence of `update` calls, successful
/// or not, each applied to the state the one before left behind.
pub open spec fn apply_updates(
    slot: Option<Alias>,
    ops: Seq<(Identity, Identity)>,
) -> Option<Alias>
    decreases ops.len(),
{
    if ops.len() == 0 {
        slot
    } else {
        let next = slot_after(slot, spec_update(slot, ops[0].0, ops[0].1));
        apply_updates(next, ops.subrange(1, ops.len() as int))
    }
}

/// A record's creation time and username are immutable: after any sequence
/// of `update` calls — each a requested `(new_owner, caller)` pair, whether
/// it succeeds or fails — the record still exists and its `created_at` and
/// `username` are those `register` wrote.
pub proof fn lemma_created_at_immutable(slot: Option<Alias>, ops: Seq<(Identity, Identity)>)
    requires
        slot is Some,
    ensures
        ({
            let end = apply_updates(slot, ops);
            &&& end matches Some(rec)
            &&& rec.created_at == slot->0.created_at
            &&& rec.username == slot->0.username
        }),
    decreases ops.len(),
{
    if ops.len() != 0 {
        let next = slot_after(slot, spec_update(slot, ops[0].0, ops[0].1));
        lemma_created_at_immutable(next, ops.subrange(1, ops.len() as int));
    }
}

/// Re-requesting a completed transfer is harmless: once the owner has
/// transferred the record to `new_owner`, the same transfer requested again
/// — re-authenticated by `new_owner`, now the owner — succeeds and leaves
/// the record state exactly as it was.
pub proof fn lemma_update_idempotent(
    slot: Option<Alias>,
    new_owner: Identity,
    caller: Identity,
)
    requires
        slot matches Some(rec) && caller == rec.owner,
    ensures
        ({
            let once = slot_after(slot, spec_update(slot, new_owner, caller));
            let twice = slot_after(once, spec_update(once, new_owner, new_owner));
            &&& spec_update(once, new_owner, new_owner) is Ok
            &&& twice == once
        }),
{
}

/// A completed transfer strips the old owner of control: after `register`
/// binds a username to `a` and `a` transfers it to a different identity `b`,
/// a further transfer attempted by `a` fails with `NotOwner`, while the same
/// transfer by `b` succeeds and leaves the record owned by its target, with
/// username and creation time still those `register` wrote.
pub proof fn lemma_chained_transfer(
    slot: Option<Alias>,
    username: String,
    a: Identity,
    b: Identity,
    c: Identity,
    t: i64,
)
    requires
        spec_register(slot, username, a, t) is Ok,
        b != a,
    ensures
        ({
            let s1 = slot_after(slot, spec_register(slot, username, a, t));
            let s2 = slot_after(s1, spec_update(s1, b, a));
            let s3 = slot_after(s2, spec_update(s2, c, a));
            let s4 = slot_after(s3, spec_update(s3, c, b));
            &&& spec_update(s1, b, a) is Ok
            &&& spec_update(s2, c, a) == Err::<Alias, DixError>(DixError::NotOwner)
            &&& s3 == s2
            &&& spec_update(s3, c, b) is Ok
            &&& s4 matches Some(rec)
            &&& rec.owner == c
            &&& rec.username@ == username@
            &&& rec.created_at == t
        }),
{
}

/// A successful `register` respects the length bounds, and an out-of-bounds
/// username is refused with `InvalidUsername` before anything is written:
/// the slot afterwards holds exactly what it held before.
pub proof fn lemma_register_length_bound(
    slot: Option<Alias>,
    username: String,
    caller: Identity,
    t: i64,
)
    ensures
        spec_register(slot, username, caller, t) is Ok ==> username_valid(username@),
        !username_valid(username@) ==> spec_register(slot, username, caller, t)
            == Err::<Alias, DixError>(DixError::InvalidUsername),
        spec_register(slot, username, caller, t) is Err ==> slot_after(
            slot,
            spec_register(slot, username, caller, t),
        ) == slot,
{
}

} // verus!
