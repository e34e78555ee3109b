//! Decimal text formatting for the session manager's replies.
use vstd::prelude::*;

verus! {

/// Decimal digits of `n`, most significant first, as ASCII bytes.
pub open spec fn dec_digits(n: nat) -> Seq<u8>
    decreases n,
{
    if n < 10 {
        seq![(48 + n) as u8]
    } else {
        dec_digits(n / 10).push((48 + n % 10) as u8)
    }
}

/// Signed decimal text of `x`: a leading minus sign for negative
/// values, then the digits of the magnitude.
pub open spec fn dec_i32(x: int) -> Seq<u8> {
    if x < 0 {
        seq![45u8] + dec_digits((-x) as nat)
    } else {
        dec_digits(x as nat)
    }
}

/// The colon-separated coordinate report: `x`, `y` and `z` in decimal
/// with a trailing line feed.
pub open spec fn position_payload(x: int, y: int, z: int) -> Seq<u8> {
    dec_i32(x) + seq![58u8] + dec_i32(y) + seq![58u8] + dec_i32(z) + seq![10u8]
}

/// Format an unsigned number in decimal.
pub fn format_u32(n: u32) -> (r: Vec<u8>)
    ensures
        r@ == dec_digits(n as nat),
    decreases n,
{
    if n < 10 {
        let d: u8 = (n as u8) + 48;
        let mut v: Vec<u8> = Vec::new();
        v.push(d);
        assert(v@ =~= dec_digits(n as nat));
        v
    } else {
        let mut v = format_u32(n / 10);
        let d: u8 = ((n % 10) as u8) + 48;
        v.push(d);
        assert(v@ =~= dec_digits(n as nat));
        v
    }
}

/// Format a signed number in decimal.
pub fn format_i32(x: i32) -> (r: Vec<u8>)
    ensures
        r@ == dec_i32(x as int),
{
    if x >= 0 {
        let r = format_u32(x as u32);
        assert(r@ =~= dec_i32(x as int));
        r
    } else {
        let m: u32 = (-(x as i64)) as u32;
        let mut v: Vec<u8> = Vec::new();
        v.push(45u8);
        let mut digits = format_u32(m);
        v.append(&mut digits);
        assert(v@ =~= dec_i32(x as int));
        v
    }
}

/// Format the coordinate report `x:y:z` with a trailing line feed.
pub fn format_position(x: i32, y: i32, z: i32) -> (r: Vec<u8>)
    ensures
        r@ == position_payload(x as int, y as int, z as int),
{
    let mut v = format_i32(x);
    v.push(58u8);
    let mut vy = format_i32(y);
    v.append(&mut vy);
    v.push(58u8);
    let mut vz = format_i32(z);
    v.append(&mut vz);
    v.push(10u8);
    assert(v@ =~= position_payload(x as int, y as int, z as int));
    v
}

} // verus!
