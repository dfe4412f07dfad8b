//! Fixed-width and decimal encodings of integers used by tokens and records.
use vstd::prelude::*;

verus! {

/// The eight bytes of `u`, most significant first.
pub open spec fn be_bytes_u64(u: u64) -> Seq<u8> {
    seq![
        (u >> 56u64) as u8,
        (u >> 48u64) as u8,
        (u >> 40u64) as u8,
        (u >> 32u64) as u8,
        (u >> 24u64) as u8,
        (u >> 16u64) as u8,
        (u >> 8u64) as u8,
        u as u8,
    ]
}

/// Big-endian two's-complement bytes of `x`, as `i64::to_be_bytes` lays them out.
pub open spec fn be_bytes_i64(x: i64) -> Seq<u8> {
    be_bytes_u64(x as u64)
}

/// The `u64` whose big-endian bytes are the first eight entries of `b`.
pub open spec fn u64_from_be(b: Seq<u8>) -> u64
    recommends
        b.len() >= 8,
{
    ((b[0] as u64) << 56u64) | ((b[1] as u64) << 48u64) | ((b[2] as u64) << 40u64) | ((
    b[3] as u64) << 32u64) | ((b[4] as u64) << 24u64) | ((b[5] as u64) << 16u64) | ((
    b[6] as u64) << 8u64) | (b[7] as u64)
}

/// The `i64` whose big-endian two's-complement bytes are the first eight entries of `b`,
/// as `i64::from_be_bytes` reads them.
pub open spec fn i64_from_be(b: Seq<u8>) -> i64
    recommends
        b.len() >= 8,
{
    u64_from_be(b) as i64
}

/// Reading back the big-endian bytes of an `i64` gives the same `i64`.
pub proof fn lemma_i64_be_roundtrip(x: i64)
    ensures
        i64_from_be(be_bytes_i64(x)) == x,
        be_bytes_i64(x).len() == 8,
{
    let u = x as u64;
    let b = be_bytes_i64(x);
    let b0 = (u >> 56u64) as u8;
    let b1 = (u >> 48u64) as u8;
    let b2 = (u >> 40u64) as u8;
    let b3 = (u >> 32u64) as u8;
    let b4 = (u >> 24u64) as u8;
    let b5 = (u >> 16u64) as u8;
    let b6 = (u >> 8u64) as u8;
    let b7 = u as u8;
    assert(b[0] == b0 && b[1] == b1 && b[2] == b2 && b[3] == b3);
    assert(b[4] == b4 && b[5] == b5 && b[6] == b6 && b[7] == b7);
    assert(((b0 as u64) << 56u64) | ((b1 as u64) << 48u64) | ((b2 as u64) << 40u64) | ((
    b3 as u64) << 32u64) | ((b4 as u64) << 24u64) | ((b5 as u64) << 16u64) | ((b6 as u64)
        << 8u64) | (b7 as u64) == u) by (bit_vector)
        requires
            b0 == (u >> 56u64) as u8,
            b1 == (u >> 48u64) as u8,
            b2 == (u >> 40u64) as u8,
            b3 == (u >> 32u64) as u8,
            b4 == (u >> 24u64) as u8,
            b5 == (u >> 16u64) as u8,
            b6 == (u >> 8u64) as u8,
            b7 == u as u8,
    ;
    assert((u as i64) == x) by (bit_vector)
        requires
            u == x as u64,
    ;
}

/// Big-endian bytes of `x` (the value of `x.to_be_bytes()`).
pub fn i64_to_be_bytes(x: i64) -> (r: [u8; 8])
    ensures
        r@ == be_bytes_i64(x),
{
    let u = x as u64;
    let r: [u8; 8] = [
        (u >> 56u64) as u8,
        (u >> 48u64) as u8,
        (u >> 40u64) as u8,
        (u >> 32u64) as u8,
        (u >> 24u64) as u8,
        (u >> 16u64) as u8,
        (u >> 8u64) as u8,
        u as u8,
    ];
    assert(r@ =~= be_bytes_i64(x));
    r
}

/// Reads the `i64` stored big-endian in `b[start..start + 8]`
/// (the value of `i64::from_be_bytes` on that slice).
pub fn i64_from_be_slice(b: &[u8], start: usize) -> (r: i64)
    requires
        start + 8 <= b@.len(),
    ensures
        r == i64_from_be(b@.subrange(start as int, start + 8)),
{
    let ghost s = b@.subrange(start as int, start + 8);
    let u: u64 = ((b[start] as u64) << 56u64) | ((b[start + 1] as u64) << 48u64) | ((b[start
        + 2] as u64) << 40u64) | ((b[start + 3] as u64) << 32u64) | ((b[start + 4] as u64)
        << 24u64) | ((b[start + 5] as u64) << 16u64) | ((b[start + 6] as u64) << 8u64) | (b[start
        + 7] as u64);
    assert(u == u64_from_be(s));
    u as i64
}

/// The decimal digit character for `d`.
pub open spec fn digit_char(d: nat) -> char {
    if d == 0 {
        '0'
    } else if d == 1 {
        '1'
    } else if d == 2 {
        '2'
    } else if d == 3 {
        '3'
    } else if d == 4 {
        '4'
    } else if d == 5 {
        '5'
    } else if d == 6 {
        '6'
    } else if d == 7 {
        '7'
    } else if d == 8 {
        '8'
    } else {
        '9'
    }
}

/// Decimal notation of `n` without leading zeros (what `n.to_string()` gives for an
/// unsigned integer).
pub open spec fn decimal(n: nat) -> Seq<char>
    decreases n,
{
    if n < 10 {
        seq![digit_char(n)]
    } else {
        decimal(n / 10) + seq![digit_char(n % 10)]
    }
}

fn digit_str(d: u64) -> (s: &'static str)
    requires
        d < 10,
    ensures
        s@ == seq![digit_char(d as nat)],
{
    if d == 0 {
        proof {
            reveal_strlit("0");
        }
        "0"
    } else if d == 1 {
        proof {
            reveal_strlit("1");
        }
        "1"
    } else if d == 2 {
        proof {
            reveal_strlit("2");
        }
        "2"
    } else if d == 3 {
        proof {
            reveal_strlit("3");
        }
        "3"
    } else if d == 4 {
        proof {
            reveal_strlit("4");
        }
        "4"
    } else if d == 5 {
        proof {
            reveal_strlit("5");
        }
        "5"
    } else if d == 6 {
        proof {
            reveal_strlit("6");
        }
        "6"
    } else if d == 7 {
        proof {
            reveal_strlit("7");
        }
        "7"
    } else if d == 8 {
        proof {
            reveal_strlit("8");
        }
        "8"
    } else {
        proof {
            reveal_strlit("9");
        }
        "9"
    }
}

/// Decimal text of `n` (the value of `n.to_string()`).
pub fn u64_to_decimal(n: u64) -> (s: String)
    ensures
        s@ == decimal(n as nat),
    decreases n,
{
    if n < 10 {
        String::from_str(digit_str(n))
    } else {
        let mut s = u64_to_decimal(n / 10);
        s.append(digit_str(n % 10));
        s
    }
}

/// Character-by-character equality of two strings.
pub fn str_eq(a: &str, b: &str) -> (r: bool)
    ensures
        r == (a@ == b@),
{
    let x = String::from_str(a);
    let y = String::from_str(b);
    x == y
}

} // verus!
