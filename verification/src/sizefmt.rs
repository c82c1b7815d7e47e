//! Rendering a byte count as a short human-readable size, the way the
//! page consumer shows file sizes: whole binary units, no fraction.

use vstd::prelude::*;

verus! {

pub const BYTES_PER_KIB: u32 = 1024;

pub const BYTES_PER_MIB: u32 = 1024 * 1024;

/// The usual decimal numeral of `n`, as ASCII digit bytes, most
/// significant first, no leading zeros (a single `0` for zero).
pub open spec fn spec_decimal(n: nat) -> Seq<u8>
    decreases n,
{
    if n < 10 {
        seq![(48 + n) as u8]
    } else {
        spec_decimal(n / 10).push((48 + n % 10) as u8)
    }
}

/// The rendered size: bytes below one KiB, else whole KiB below one
/// MiB, else whole MiB, each with its unit suffix.
pub open spec fn spec_format_size(bytes: u32) -> Seq<u8> {
    if bytes < BYTES_PER_KIB {
        spec_decimal(bytes as nat) + seq![32u8, 66u8]
    } else if bytes < BYTES_PER_MIB {
        spec_decimal((bytes / BYTES_PER_KIB) as nat) + seq![32u8, 75u8, 66u8]
    } else {
        spec_decimal((bytes / BYTES_PER_MIB) as nat) + seq![32u8, 77u8, 66u8]
    }
}

/// Render `n` in decimal, most significant digit first.
pub fn decimal_digits(n: u32) -> (s: Vec<u8>)
    ensures
        s@ == spec_decimal(n as nat),
{
    let mut rev: Vec<u8> = Vec::new();
    let mut m: u32 = n;
    proof {
        assert(spec_decimal(n as nat) =~= spec_decimal(m as nat) + rev@.reverse());
    }
    while m >= 10
        invariant
            spec_decimal(n as nat) == spec_decimal(m as nat) + rev@.reverse(),
        decreases m,
    {
        let d: u8 = (m % 10) as u8 + 48;
        let ghost old_rev = rev@;
        rev.push(d);
        m = m / 10;
        proof {
            assert(rev@.reverse() =~= seq![d] + old_rev.reverse());
            assert(spec_decimal(n as nat) =~= spec_decimal(m as nat) + rev@.reverse());
        }
    }
    let d: u8 = m as u8 + 48;
    let ghost old_rev = rev@;
    rev.push(d);
    proof {
        assert(rev@.reverse() =~= seq![d] + old_rev.reverse());
        assert(spec_decimal(n as nat) =~= rev@.reverse());
    }
    let mut s: Vec<u8> = Vec::new();
    let mut i: usize = 0;
    while i < rev.len()
        invariant
            i <= rev.len(),
            s@.len() == i as int,
            forall|j: int| 0 <= j < i ==> s@[j] == rev@[rev@.len() - 1 - j],
            spec_decimal(n as nat) == rev@.reverse(),
        decreases rev.len() - i,
    {
        s.push(rev[rev.len() - 1 - i]);
        i = i + 1;
    }
    proof {
        assert(s@ =~= rev@.reverse());
    }
    s
}

/// Render a byte count for display, as ASCII bytes.
pub fn format_size(bytes: u32) -> (s: Vec<u8>)
    ensures
        s@ == spec_format_size(bytes),
{
    let mut s: Vec<u8>;
    if bytes < BYTES_PER_KIB {
        s = decimal_digits(bytes);
        s.push(32u8);
        s.push(66u8);
    } else if bytes < BYTES_PER_MIB {
        s = decimal_digits(bytes / BYTES_PER_KIB);
        s.push(32u8);
        s.push(75u8);
        s.push(66u8);
    } else {
        s = decimal_digits(bytes / BYTES_PER_MIB);
        s.push(32u8);
        s.push(77u8);
        s.push(66u8);
    }
    proof {
        assert(s@ =~= spec_format_size(bytes));
    }
    s
}

} // verus!
