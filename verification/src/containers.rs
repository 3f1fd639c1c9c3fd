//! Fixed-capacity collections from `heapless`, and the contracts of the
//! few of their methods that the protocols call.
//!
//! Each collection of a given element type and capacity has a name for
//! its contents; the wrappers state what `heapless::Vec` does to those
//! contents, as its source shows: `push` appends while below capacity
//! and hands the item back otherwise, `clear` empties, `len` counts.
use vstd::prelude::*;

use crate::datalink::reliability::cop1::farm::FarmAction;
use crate::datalink::reliability::cop1::fop::FopAction;
use crate::datalink::security::sdls::key::ManagedKey;
use crate::datalink::security::sdls::sa_mgmt::ManagedSa;

verus! {

#[verifier::external_type_specification]
#[verifier::external_body]
#[verifier::reject_recursive_types(T)]
pub struct ExHeaplessVec<T, const N: usize>(heapless::Vec<T, N>);

/// `Clone` for `heapless::Vec` (an element-wise copy in its source); the
/// contracts here claim nothing of the copy.
pub assume_specification<T, const N: usize>[<heapless::Vec<T, N> as Clone>::clone](
    v: &heapless::Vec<T, N>,
) -> heapless::Vec<T, N>
    where
        T: Clone,
;

// ── FOP-1 action lists (capacity 16) ──

/// The actions held in a FOP-1 action list, in order.
pub uninterp spec fn fop_action_list(v: heapless::Vec<FopAction, 16>) -> Seq<FopAction>;

/// `heapless::Vec::new`: an empty list.
#[verifier::external_body]
pub(crate) fn fop_actions_new() -> (v: heapless::Vec<FopAction, 16>)
    ensures
        fop_action_list(v) == Seq::<FopAction>::empty(),
{
    heapless::Vec::new()
}

/// `heapless::Vec::push`: appends below capacity 16, otherwise hands the
/// action back and leaves the list as it was.
#[verifier::external_body]
pub(crate) fn fop_actions_push(v: &mut heapless::Vec<FopAction, 16>, a: FopAction) -> (r: Result<(), FopAction>)
    ensures
        fop_action_list(*old(v)).len() < 16 ==> r is Ok && fop_action_list(*final(v))
            == fop_action_list(*old(v)).push(a),
        fop_action_list(*old(v)).len() >= 16 ==> (r matches Err(x) && x == a) && fop_action_list(
            *final(v),
        ) == fop_action_list(*old(v)),
{
    v.push(a)
}

/// `heapless::Vec::clear`: empties the list.
#[verifier::external_body]
pub(crate) fn fop_actions_clear(v: &mut heapless::Vec<FopAction, 16>)
    ensures
        fop_action_list(*final(v)) == Seq::<FopAction>::empty(),
{
    v.clear()
}

/// `heapless::Vec::len`: the number of actions, never above the capacity.
#[verifier::external_body]
pub(crate) fn fop_actions_len(v: &heapless::Vec<FopAction, 16>) -> (n: usize)
    ensures
        n == fop_action_list(*v).len(),
        n <= 16,
{
    v.len()
}

/// Indexing a `heapless::Vec` (through its slice): the action at `i`.
#[verifier::external_body]
pub(crate) fn fop_actions_get(v: &heapless::Vec<FopAction, 16>, i: usize) -> (a: FopAction)
    requires
        i < fop_action_list(*v).len(),
    ensures
        a == fop_action_list(*v)[i as int],
{
    v[i]
}

// ── FARM-1 action lists (capacity 4) ──

/// The actions held in a FARM-1 action list, in order.
pub uninterp spec fn farm_action_list(v: heapless::Vec<FarmAction<'_>, 4>) -> Seq<FarmAction<'_>>;

/// `heapless::Vec::new`: an empty list.
#[verifier::external_body]
pub(crate) fn farm_actions_new<'a>() -> (v: heapless::Vec<FarmAction<'a>, 4>)
    ensures
        farm_action_list(v) == Seq::<FarmAction<'a>>::empty(),
{
    heapless::Vec::new()
}

/// `heapless::Vec::push`: appends below capacity 4, otherwise hands the
/// action back and leaves the list as it was.
#[verifier::external_body]
pub(crate) fn farm_actions_push<'a>(v: &mut heapless::Vec<FarmAction<'a>, 4>, a: FarmAction<'a>) -> (r: Result<
    (),
    FarmAction<'a>,
>)
    ensures
        farm_action_list(*old(v)).len() < 4 ==> r is Ok && farm_action_list(*final(v))
            == farm_action_list(*old(v)).push(a),
        farm_action_list(*old(v)).len() >= 4 ==> (r matches Err(x) && x == a) && farm_action_list(
            *final(v),
        ) == farm_action_list(*old(v)),
{
    v.push(a)
}

/// `heapless::Vec::clear`: empties the list.
#[verifier::external_body]
pub(crate) fn farm_actions_clear<'a>(v: &mut heapless::Vec<FarmAction<'a>, 4>)
    ensures
        farm_action_list(*final(v)) == Seq::<FarmAction<'a>>::empty(),
{
    v.clear()
}

/// `heapless::Vec::len`: the number of actions, never above the capacity.
#[verifier::external_body]
pub(crate) fn farm_actions_len<'a>(v: &heapless::Vec<FarmAction<'a>, 4>) -> (n: usize)
    ensures
        n == farm_action_list(*v).len(),
        n <= 4,
{
    v.len()
}

/// `heapless::Vec::as_slice`: the actions, in order.
#[verifier::external_body]
pub(crate) fn farm_actions_as_slice<'b, 'a>(v: &'b heapless::Vec<FarmAction<'a>, 4>) -> (s: &'b [FarmAction<'a>])
    ensures
        s@ == farm_action_list(*v),
{
    v.as_slice()
}

// ── SDLS authentication masks (capacity 2048) ──

/// The bytes of an authentication mask.
pub uninterp spec fn mask_bytes(v: heapless::Vec<u8, 2048>) -> Seq<u8>;

/// `heapless::Vec::len` on a mask: the number of bytes, at most 2048.
#[verifier::external_body]
pub(crate) fn mask_len(v: &heapless::Vec<u8, 2048>) -> (n: usize)
    ensures
        n == mask_bytes(*v).len(),
        n <= 2048,
{
    v.len()
}

/// Indexing a mask (through its slice): the byte at `i`.
#[verifier::external_body]
pub(crate) fn mask_get(v: &heapless::Vec<u8, 2048>, i: usize) -> (b: u8)
    requires
        i < mask_bytes(*v).len(),
    ensures
        b == mask_bytes(*v)[i as int],
{
    v[i]
}

/// `heapless::Vec::new` for a mask: no bytes.
#[verifier::external_body]
pub(crate) fn mask_new() -> (v: heapless::Vec<u8, 2048>)
    ensures
        mask_bytes(v) == Seq::<u8>::empty(),
{
    heapless::Vec::new()
}

// ── SDLS key rings (capacity 128) ──

/// The keys held in a key ring, in load order.
pub uninterp spec fn key_list(v: heapless::Vec<ManagedKey, 128>) -> Seq<ManagedKey>;

/// `heapless::Vec::new` for a key ring: no keys.
#[verifier::external_body]
pub(crate) fn keys_new() -> (v: heapless::Vec<ManagedKey, 128>)
    ensures
        key_list(v) == Seq::<ManagedKey>::empty(),
{
    heapless::Vec::new()
}

/// `heapless::Vec::push` on a key ring: appends below capacity 128,
/// otherwise hands the key back and leaves the ring as it was.
#[verifier::external_body]
pub(crate) fn keys_push(v: &mut heapless::Vec<ManagedKey, 128>, k: ManagedKey) -> (r: Result<(), ManagedKey>)
    ensures
        key_list(*old(v)).len() < 128 ==> r is Ok && key_list(*final(v)) == key_list(*old(v)).push(k),
        key_list(*old(v)).len() >= 128 ==> r is Err && key_list(*final(v)) == key_list(*old(v)),
{
    v.push(k)
}

/// `heapless::Vec::len` on a key ring: at most 128.
#[verifier::external_body]
pub(crate) fn keys_len(v: &heapless::Vec<ManagedKey, 128>) -> (n: usize)
    ensures
        n == key_list(*v).len(),
        n <= 128,
{
    v.len()
}

/// Indexing a key ring (through its slice): the key at `i`.
#[verifier::external_body]
pub(crate) fn keys_get(v: &heapless::Vec<ManagedKey, 128>, i: usize) -> (k: &ManagedKey)
    requires
        i < key_list(*v).len(),
    ensures
        *k == key_list(*v)[i as int],
{
    &v[i]
}

/// Mutable indexing of a key ring: the key at `i`, whose final value the
/// ring then holds at `i`.
#[verifier::external_body]
pub(crate) fn keys_get_mut(v: &mut heapless::Vec<ManagedKey, 128>, i: usize) -> (k: &mut ManagedKey)
    requires
        i < key_list(*old(v)).len(),
    ensures
        *k == key_list(*old(v))[i as int],
        key_list(*final(v)) == key_list(*old(v)).update(i as int, *final(k)),
{
    &mut v[i]
}

// ── SDLS SA tables (capacity 64) ──

/// The SAs held in an SA table, in order.
pub uninterp spec fn sa_list(v: heapless::Vec<ManagedSa, 64>) -> Seq<ManagedSa>;

/// `heapless::Vec::new` for an SA table: no SAs.
#[verifier::external_body]
pub(crate) fn sas_new() -> (v: heapless::Vec<ManagedSa, 64>)
    ensures
        sa_list(v) == Seq::<ManagedSa>::empty(),
{
    heapless::Vec::new()
}

/// `heapless::Vec::push` on an SA table: appends below capacity 64,
/// otherwise hands the SA back and leaves the table as it was.
#[verifier::external_body]
pub(crate) fn sas_push(v: &mut heapless::Vec<ManagedSa, 64>, s: ManagedSa) -> (r: Result<(), ManagedSa>)
    ensures
        sa_list(*old(v)).len() < 64 ==> r is Ok && sa_list(*final(v)) == sa_list(*old(v)).push(s),
        sa_list(*old(v)).len() >= 64 ==> r is Err && sa_list(*final(v)) == sa_list(*old(v)),
{
    v.push(s)
}

/// `heapless::Vec::len` on an SA table: at most 64.
#[verifier::external_body]
pub(crate) fn sas_len(v: &heapless::Vec<ManagedSa, 64>) -> (n: usize)
    ensures
        n == sa_list(*v).len(),
        n <= 64,
{
    v.len()
}

/// Indexing an SA table (through its slice): the SA at `i`.
#[verifier::external_body]
pub(crate) fn sas_get(v: &heapless::Vec<ManagedSa, 64>, i: usize) -> (s: &ManagedSa)
    requires
        i < sa_list(*v).len(),
    ensures
        *s == sa_list(*v)[i as int],
{
    &v[i]
}

/// Mutable indexing of an SA table: the SA at `i`, whose final value the
/// table then holds at `i`.
#[verifier::external_body]
pub(crate) fn sas_get_mut(v: &mut heapless::Vec<ManagedSa, 64>, i: usize) -> (s: &mut ManagedSa)
    requires
        i < sa_list(*old(v)).len(),
    ensures
        *s == sa_list(*old(v))[i as int],
        sa_list(*final(v)) == sa_list(*old(v)).update(i as int, *final(s)),
{
    &mut v[i]
}

/// `heapless::Vec::swap_remove`: the SA at `i` leaves and the last one
/// takes its place.
#[verifier::external_body]
pub(crate) fn sas_swap_remove(v: &mut heapless::Vec<ManagedSa, 64>, i: usize) -> (s: ManagedSa)
    requires
        i < sa_list(*old(v)).len(),
    ensures
        s == sa_list(*old(v))[i as int],
        sa_list(*final(v)) == sa_list(*old(v)).update(i as int, sa_list(*old(v)).last()).drop_last(),
{
    v.swap_remove(i)
}

} // verus!
