//! The Soroban SDK types that the oracle logic carries, and the SDK calls that
//! it makes on them.
//!
//! Every call into the Soroban host also draws on the transaction's resource
//! budget and aborts the transaction when that budget is spent; the contracts
//! below leave that out, as it depends on the host and not on the arguments.

use vstd::prelude::*;

verus! {

/// The Soroban host environment; carried through to create host vectors.
#[verifier::external_type_specification]
#[verifier::external_body]
pub struct ExEnv(soroban_sdk::Env);

/// A Soroban account or contract address; carried, never inspected.
#[verifier::external_type_specification]
#[verifier::external_body]
pub struct ExAddress(soroban_sdk::Address);

/// A Soroban host string; carried, never inspected.
#[verifier::external_type_specification]
#[verifier::external_body]
pub struct ExString(soroban_sdk::String);

/// A Soroban host vector.
#[verifier::external_type_specification]
#[verifier::external_body]
#[verifier::reject_recursive_types(T)]
pub struct ExVec<T>(soroban_sdk::Vec<T>);

/// A Soroban host error value, as conversions out of the host report it.
#[verifier::external_type_specification]
#[verifier::external_body]
pub struct ExError(soroban_sdk::Error);

/// The amounts held by a Soroban vector of `i128`, in order, each item read as
/// an `i128`.
pub uninterp spec fn amounts(v: soroban_sdk::Vec<i128>) -> Seq<i128>;

/// Whether the host value at position `i` of the vector is an `i128`. The SDK
/// does not check the items of a `Vec<i128>` that comes from outside (a stored
/// entry, a contract argument, an unchecked conversion), so an item may hold
/// another kind of value.
pub uninterp spec fn holds_amount(v: soroban_sdk::Vec<i128>, i: int) -> bool;

/// `soroban_sdk::Vec::new`: a vector with no items.
#[verifier::external_body]
pub(crate) fn amounts_new(env: &soroban_sdk::Env) -> (r: soroban_sdk::Vec<i128>)
    ensures
        amounts(r) == Seq::<i128>::empty(),
{
    soroban_sdk::Vec::new(env)
}

/// `soroban_sdk::Vec::push_back`: appends the `i128` value `x` at the end and
/// leaves the other items as they were. The host counts a vector's length in a
/// `u32` and refuses to grow it past `u32::MAX`.
#[verifier::external_body]
pub(crate) fn amounts_push_back(v: &mut soroban_sdk::Vec<i128>, x: i128)
    requires
        amounts(*old(v)).len() < u32::MAX,
    ensures
        amounts(*final(v)) == amounts(*old(v)).push(x),
        holds_amount(*final(v), amounts(*old(v)).len() as int),
        forall|j: int| 0 <= j < amounts(*old(v)).len()
            ==> #[trigger] holds_amount(*final(v), j) == holds_amount(*old(v), j),
{
    v.push_back(x)
}

/// `soroban_sdk::Vec::len`: the number of items.
#[verifier::external_body]
pub(crate) fn amounts_len(v: &soroban_sdk::Vec<i128>) -> (r: u32)
    ensures
        r as nat == amounts(*v).len(),
{
    v.len()
}

/// `soroban_sdk::Vec::try_get`: `Ok(None)` past the end; at a position in
/// range, `Ok` with the item when it is an `i128`, and the host's conversion
/// error when it is not. It does not panic.
#[verifier::external_body]
pub(crate) fn amounts_try_get(v: &soroban_sdk::Vec<i128>, i: u32) -> (r: Result<Option<i128>, soroban_sdk::Error>)
    ensures
        r is Ok <==> (i >= amounts(*v).len() || holds_amount(*v, i as int)),
        r matches Ok(x) ==> x == (if i < amounts(*v).len() { Some(amounts(*v)[i as int]) } else { None::<i128> }),
{
    v.try_get(i)
}

/// `soroban_sdk::Vec::set`: replaces the item at `i` with the `i128` value
/// `x`, leaving the others; the host refuses (and the SDK panics) when `i` is
/// past the end.
#[verifier::external_body]
pub(crate) fn amounts_set(v: &mut soroban_sdk::Vec<i128>, i: u32, x: i128)
    requires
        i < amounts(*old(v)).len(),
    ensures
        amounts(*final(v)) == amounts(*old(v)).update(i as int, x),
        holds_amount(*final(v), i as int),
        forall|j: int| 0 <= j < amounts(*old(v)).len() && j != i
            ==> #[trigger] holds_amount(*final(v), j) == holds_amount(*old(v), j),
{
    v.set(i, x)
}

/// `Clone::clone` of `soroban_sdk::Address`: a copy of the same host handle
/// in the same environment, hence the same address.
pub assume_specification[<soroban_sdk::Address as Clone>::clone](a: &soroban_sdk::Address) -> (r: soroban_sdk::Address)
    ensures
        r == *a,
;

/// `Clone::clone` of `soroban_sdk::String`: a copy of the same host handle in
/// the same environment, hence the same string.
pub assume_specification[<soroban_sdk::String as Clone>::clone](s: &soroban_sdk::String) -> (r: soroban_sdk::String)
    ensures
        r == *s,
;

/// `Clone::clone` of `soroban_sdk::Vec`: a copy of the same host handle in the
/// same environment, hence the same vector.
pub assume_specification<T>[<soroban_sdk::Vec<T> as Clone>::clone](v: &soroban_sdk::Vec<T>) -> (r: soroban_sdk::Vec<T>)
    ensures
        r == *v,
;

} // verus!
