//! The texts by which errors and job states are shown to users: numbers in
//! decimal, byte strings as lists of decimal bytes.

use vstd::prelude::*;
use vstd::string::StringExecFns;

verus! {

/// The text of a decimal digit.
pub open spec fn digit_text(d: nat) -> Seq<char> {
    if d == 0 {
        "0"@
    } else if d == 1 {
        "1"@
    } else if d == 2 {
        "2"@
    } else if d == 3 {
        "3"@
    } else if d == 4 {
        "4"@
    } else if d == 5 {
        "5"@
    } else if d == 6 {
        "6"@
    } else if d == 7 {
        "7"@
    } else if d == 8 {
        "8"@
    } else {
        "9"@
    }
}

/// A number written in decimal, without leading zeros.
pub open spec fn decimal_text(n: nat) -> Seq<char>
    decreases n,
{
    if n < 10 {
        digit_text(n)
    } else {
        decimal_text(n / 10) + digit_text(n % 10)
    }
}

/// The bytes of a byte string in decimal, separated by `", "`.
pub open spec fn byte_items_text(b: Seq<u8>) -> Seq<char>
    decreases b.len(),
{
    if b.len() == 0 {
        Seq::empty()
    } else if b.len() == 1 {
        decimal_text(b[0] as nat)
    } else {
        byte_items_text(b.drop_last()) + ", "@ + decimal_text(b.last() as nat)
    }
}

/// A byte string as a bracketed list, as Rust's `Debug` writes a `Vec<u8>`.
pub open spec fn bytes_text(b: Seq<u8>) -> Seq<char> {
    "["@ + byte_items_text(b) + "]"@
}

fn digit(d: u64) -> (r: &'static str)
    requires
        d < 10,
    ensures
        r@ == digit_text(d as nat),
{
    if d == 0 {
        "0"
    } else if d == 1 {
        "1"
    } else if d == 2 {
        "2"
    } else if d == 3 {
        "3"
    } else if d == 4 {
        "4"
    } else if d == 5 {
        "5"
    } else if d == 6 {
        "6"
    } else if d == 7 {
        "7"
    } else if d == 8 {
        "8"
    } else {
        "9"
    }
}

/// Appends `n` in decimal.
pub fn append_decimal(s: &mut String, n: u64)
    ensures
        final(s)@ == old(s)@ + decimal_text(n as nat),
    decreases n,
{
    if n >= 10 {
        append_decimal(s, n / 10);
        s.append(digit(n % 10));
        assert(final(s)@ =~= old(s)@ + decimal_text(n as nat));
    } else {
        s.append(digit(n));
    }
}

/// Appends a byte string as a bracketed list of decimal bytes.
pub fn append_bytes(s: &mut String, b: &[u8])
    ensures
        final(s)@ == old(s)@ + bytes_text(b@),
{
    s.append("[");
    let ghost start = s@;
    let mut i: usize = 0;
    while i < b.len()
        invariant
            i <= b@.len(),
            s@ == start + byte_items_text(b@.subrange(0, i as int)),
        decreases b@.len() - i,
    {
        let ghost before = s@;
        if i > 0 {
            s.append(", ");
        }
        append_decimal(s, b[i] as u64);
        proof {
            let p = b@.subrange(0, i as int + 1);
            assert(p.drop_last() =~= b@.subrange(0, i as int));
            assert(p.last() == b@[i as int]);
            if i == 0 {
                assert(b@.subrange(0, 0) =~= Seq::<u8>::empty());
                assert(s@ =~= start + byte_items_text(p));
            } else {
                assert(s@ =~= start + byte_items_text(p));
            }
        }
        i += 1;
    }
    assert(b@.subrange(0, b@.len() as int) =~= b@);
    s.append("]");
    assert(final(s)@ =~= old(s)@ + bytes_text(b@));
}

/// A byte string as a bracketed list of decimal bytes.
pub fn bytes_to_text(b: &[u8]) -> (r: String)
    ensures
        r@ == bytes_text(b@),
{
    let mut s = String::new();
    append_bytes(&mut s, b);
    assert(s@ =~= bytes_text(b@));
    s
}

} // verus!
