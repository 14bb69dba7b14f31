//! Rendering of numbers and literal text into byte lines.

use vstd::prelude::*;
use vstd::string::StringSliceAdditionalSpecFns;

verus! {

/// ASCII digits of `n` in base ten, most significant first, without leading zeros.
pub open spec fn decimal(n: nat) -> Seq<u8>
    decreases n,
{
    if n < 10 {
        seq![(48 + n) as u8]
    } else {
        decimal(n / 10).push((48 + n % 10) as u8)
    }
}

/// The ASCII digit for a value below ten.
pub open spec fn digit(d: nat) -> u8 {
    (48 + d) as u8
}

/// A duration in microseconds written as milliseconds with three decimals.
pub open spec fn millis(us: nat) -> Seq<u8> {
    decimal(us / 1000) + seq![46u8, digit(us % 1000 / 100), digit(us % 100 / 10), digit(us % 10)]
}

/// The concatenation of a sequence of byte strings, in order, with no separator.
pub open spec fn concat_all(parts: Seq<Seq<u8>>) -> Seq<u8>
    decreases parts.len(),
{
    if parts.len() == 0 {
        Seq::empty()
    } else {
        concat_all(parts.drop_last()) + parts.last()
    }
}

/// Appends the decimal digits of `n`.
pub fn push_decimal(out: &mut Vec<u8>, n: u64)
    ensures
        final(out)@ == old(out)@ + decimal(n as nat),
    decreases n,
{
    if n >= 10 {
        push_decimal(out, n / 10);
    }
    out.push((48 + n % 10) as u8);
    assert(final(out)@ =~= old(out)@ + decimal(n as nat));
}

/// Appends the bytes of `s`.
pub fn push_str(out: &mut Vec<u8>, s: &str)
    ensures
        final(out)@ == old(out)@ + s.spec_bytes(),
{
    push_bytes(out, s.as_bytes());
}

/// Appends every byte of `b`, in order.
pub fn push_bytes(out: &mut Vec<u8>, b: &[u8])
    ensures
        final(out)@ == old(out)@ + b@,
{
    let ghost start = out@;
    let mut i: usize = 0;
    while i < b.len()
        invariant
            i <= b@.len(),
            out@ == start + b@.subrange(0, i as int),
        decreases b@.len() - i,
    {
        out.push(b[i]);
        i = i + 1;
        assert(out@ =~= start + b@.subrange(0, i as int));
    }
    assert(b@.subrange(0, b@.len() as int) =~= b@);
}

/// Appends a duration given in microseconds as milliseconds with three decimals.
pub fn push_millis(out: &mut Vec<u8>, us: u64)
    ensures
        final(out)@ == old(out)@ + millis(us as nat),
{
    push_decimal(out, us / 1000);
    out.push(46u8);
    out.push((48 + us % 1000 / 100) as u8);
    out.push((48 + us % 100 / 10) as u8);
    out.push((48 + us % 10) as u8);
    assert(final(out)@ =~= old(out)@ + millis(us as nat));
}

/// Joins byte strings end to end.
pub fn concat_parts(parts: &Vec<Vec<u8>>) -> (r: Vec<u8>)
    ensures
        r@ == concat_all(parts@.map_values(|p: Vec<u8>| p@)),
{
    let mut r: Vec<u8> = Vec::new();
    let mut i: usize = 0;
    while i < parts.len()
        invariant
            i <= parts@.len(),
            r@ == concat_all(parts@.subrange(0, i as int).map_values(|p: Vec<u8>| p@)),
        decreases parts@.len() - i,
    {
        push_bytes(&mut r, parts[i].as_slice());
        proof {
            let prev = parts@.subrange(0, i as int).map_values(|p: Vec<u8>| p@);
            let next = parts@.subrange(0, i + 1).map_values(|p: Vec<u8>| p@);
            assert(next.drop_last() =~= prev);
        }
        i = i + 1;
    }
    assert(parts@.subrange(0, parts@.len() as int) =~= parts@);
    r
}

} // verus!
