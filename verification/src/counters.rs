//! Saturating counter steps and small copying helpers used by the statistics
//! of every service.
use vstd::prelude::*;

verus! {

/// One more, stopping at `u64::MAX`.
pub open spec fn inc64(x: u64) -> u64 {
    if x < u64::MAX { (x + 1) as u64 } else { x }
}

/// One more, stopping at `u32::MAX`.
pub open spec fn inc32(x: u32) -> u32 {
    if x < u32::MAX { (x + 1) as u32 } else { x }
}

/// One less, stopping at zero.
pub open spec fn dec32(x: u32) -> u32 {
    if x > 0 { (x - 1) as u32 } else { x }
}

/// One less, stopping at zero.
pub open spec fn dec64(x: u64) -> u64 {
    if x > 0 { (x - 1) as u64 } else { x }
}

/// `x + y`, stopping at `u64::MAX`.
pub open spec fn add64(x: u64, y: u64) -> u64 {
    if x + y <= u64::MAX { (x + y) as u64 } else { u64::MAX }
}

/// Adds one to a counter, stopping at `u64::MAX`.
pub fn bump64(x: u64) -> (r: u64)
    ensures
        r == inc64(x),
{
    if x < u64::MAX { x + 1 } else { x }
}

/// Adds one to a counter, stopping at `u32::MAX`.
pub fn bump32(x: u32) -> (r: u32)
    ensures
        r == inc32(x),
{
    if x < u32::MAX { x + 1 } else { x }
}

/// Takes one from a counter that is above zero.
pub fn drop32(x: u32) -> (r: u32)
    ensures
        r == dec32(x),
{
    if x > 0 { x - 1 } else { x }
}

/// Takes one from a counter that is above zero.
pub fn drop64(x: u64) -> (r: u64)
    ensures
        r == dec64(x),
{
    if x > 0 { x - 1 } else { x }
}

/// Adds two counters, stopping at `u64::MAX`.
pub fn sum64(x: u64, y: u64) -> (r: u64)
    ensures
        r == add64(x, y),
{
    x.saturating_add(y)
}

/// A copy of an optional string.
pub fn copy_opt_string(s: &Option<String>) -> (r: Option<String>)
    ensures
        r == *s,
{
    match s {
        Some(x) => Some(x.clone()),
        None => None,
    }
}

/// A copy of a vector of strings.
pub fn copy_strings(v: &Vec<String>) -> (r: Vec<String>)
    ensures
        r@ == v@,
{
    let mut r: Vec<String> = Vec::new();
    let mut i: usize = 0;
    while i < v.len()
        invariant
            i <= v@.len(),
            r@ == v@.subrange(0, i as int),
        decreases v@.len() - i,
    {
        r.push(v[i].clone());
        proof {
            assert(v@.subrange(0, i + 1) =~= v@.subrange(0, i as int).push(v@[i as int]));
        }
        i = i + 1;
    }
    assert(v@.subrange(0, v@.len() as int) =~= v@);
    r
}

} // verus!
