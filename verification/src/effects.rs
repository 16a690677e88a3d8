//! The optional-value effect pipeline: a fallible lookup chained with a
//! fallible addition, where absence and overflow both collapse into the
//! same absent outcome.

use vstd::prelude::*;

verus! {

/// What `safe_add` returns: the sum when a value is present and the sum
/// fits in a `u16`, and no value otherwise.
pub open spec fn spec_safe_add(maybe_value: Option<u16>, delta: u16) -> Option<u16> {
    match maybe_value {
        Some(v) => if v + delta <= u16::MAX {
            Some((v + delta) as u16)
        } else {
            None
        },
        None => None,
    }
}

/// Adds `delta` to a possibly-absent value. Absence propagates, and an
/// addition that would overflow yields absence rather than a panic.
pub fn safe_add(maybe_value: Option<u16>, delta: u16) -> (r: Option<u16>)
    ensures
        r == spec_safe_add(maybe_value, delta),
{
    match maybe_value {
        Some(v) => v.checked_add(delta),
        None => None,
    }
}

/// The fallible lookup: the element at `index`, when it is in range.
pub fn lookup(values: &Vec<u16>, index: usize) -> (r: Option<u16>)
    ensures
        r == (if index < values.len() {
            Some(values@[index as int])
        } else {
            None::<u16>
        }),
{
    if index < values.len() {
        Some(values[index])
    } else {
        None
    }
}

/// Relies on `rand::rng` and `rand::Rng::random_range`: a thread-local
/// generator sampled once over the full `u16` range. The range is never
/// empty, so `random_range` does not panic; nothing is promised of the
/// value drawn.
#[verifier::external_body]
fn random_u16() -> u16 {
    let mut generator = rand::rng();
    rand::Rng::random_range(&mut generator, u16::MIN..=u16::MAX)
}

/// Draws `n` sample values from the thread-local generator.
pub fn random_sequence(n: usize) -> (r: Vec<u16>)
    ensures
        r.len() == n,
{
    let mut values: Vec<u16> = Vec::new();
    let mut i: usize = 0;
    while i < n
        invariant
            i <= n,
            values.len() == i,
        decreases n - i,
    {
        values.push(random_u16());
        i = i + 1;
    }
    values
}

/// Draws ten sample values, looks up the element at index four, and adds
/// 586 through the short-circuiting pipeline. The index is in range by
/// construction, so the lookup always finds a value and an absent result
/// can only come from overflow.
pub fn monad() -> (r: Option<u16>)
    ensures
        exists|v: u16| r == spec_safe_add(Some(v), 586),
{
    let values = random_sequence(10);
    safe_add(lookup(&values, 4), 586)
}

} // verus!
