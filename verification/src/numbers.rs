//! Reading whole numbers from text as `str::parse` does for `i32`, `i64` and `u32`.
use vstd::prelude::*;
use crate::learning::params::{all_digits, digits_value, is_digit, lemma_digits_roundtrip,
    lemma_prefix_value_bound};
use crate::text::{chars_of, decimal, digits};

verus! {

/// What `str::parse` gives for an integer type with these bounds: an
/// optional `+` (or, for a signed type, `-`) that is not the whole text,
/// then decimal digits only, standing for a number within the bounds.
pub open spec fn parse_int(s: Seq<char>, signed: bool, lo: int, hi: int) -> Option<int> {
    let neg = signed && s.len() > 0 && s[0] == '-';
    let body = if s.len() > 0 && (s[0] == '+' || neg) { s.drop_first() } else { s };
    let v = if neg { -digits_value(body) } else { digits_value(body) };
    if body.len() > 0 && all_digits(body) && lo <= v <= hi {
        Some(v)
    } else {
        None
    }
}

pub open spec fn parse_i32_spec(s: Seq<char>) -> Option<i32> {
    match parse_int(s, true, i32::MIN as int, i32::MAX as int) {
        Some(v) => Some(v as i32),
        None => None,
    }
}

pub open spec fn parse_i64_spec(s: Seq<char>) -> Option<i64> {
    match parse_int(s, true, i64::MIN as int, i64::MAX as int) {
        Some(v) => Some(v as i64),
        None => None,
    }
}

pub open spec fn parse_u32_spec(s: Seq<char>) -> Option<u32> {
    match parse_int(s, false, 0, u32::MAX as int) {
        Some(v) => Some(v as u32),
        None => None,
    }
}

/// The digits after an optional sign, with the bound their value may reach.
fn read_digits(cs: &Vec<char>, start: usize, limit: u128) -> (r: Option<u128>)
    requires
        start <= cs@.len(),
        limit <= u64::MAX + 1,
    ensures
        match r {
            Some(v) => {
                let body = cs@.skip(start as int);
                &&& body.len() > 0
                &&& all_digits(body)
                &&& v == digits_value(body)
                &&& v <= limit
            },
            None => {
                let body = cs@.skip(start as int);
                !(body.len() > 0 && all_digits(body) && digits_value(body) <= limit)
            },
        },
{
    let ghost body = cs@.skip(start as int);
    if start >= cs.len() {
        return None;
    }
    let mut v: u128 = 0;
    let mut i = start;
    proof {
        assert(cs@.subrange(start as int, start as int) =~= Seq::<char>::empty());
    }
    while i < cs.len()
        invariant
            start <= i <= cs@.len(),
            start < cs@.len(),
            limit <= u64::MAX + 1,
            body == cs@.skip(start as int),
            forall|j: int| start <= j < i ==> is_digit(#[trigger] cs@[j]),
            v as int == digits_value(cs@.subrange(start as int, i as int)),
            v <= limit,
        decreases cs@.len() - i,
    {
        let c = cs[i];
        let ghost pre = cs@.subrange(start as int, i as int);
        proof {
            assert(cs@.subrange(start as int, i + 1).drop_last() =~= pre);
        }
        if !('0' <= c && c <= '9') {
            proof {
                assert(body[i - start] == c);
                assert(!is_digit(body[i - start]));
            }
            return None;
        }
        let d = (c as u128) - ('0' as u128);
        let nv = v * 10 + d;
        if nv > limit {
            proof {
                let rest = cs@.subrange(start as int, i + 1);
                assert(body.take(i + 1 - start) =~= rest);
                assert(digits_value(rest) == nv);
                lemma_prefix_value_bound(body, i + 1 - start);
            }
            return None;
        }
        v = nv;
        i = i + 1;
    }
    proof {
        assert(cs@.subrange(start as int, i as int) =~= body);
    }
    Some(v)
}

/// Reads an `i32` as `str::parse::<i32>` does.
pub fn parse_i32(s: &str) -> (r: Option<i32>)
    ensures
        r == parse_i32_spec(s@),
{
    let cs = chars_of(s);
    let neg = cs.len() > 0 && cs[0] == '-';
    let start: usize = if cs.len() > 0 && (cs[0] == '+' || neg) { 1 } else { 0 };
    proof {
        assert(cs@.skip(start as int) =~= (if start == 1 { s@.drop_first() } else { s@ }));
    }
    let limit: u128 = if neg { 2147483648 } else { 2147483647 };
    match read_digits(&cs, start, limit) {
        Some(v) => {
            if neg {
                let r = (0i64 - v as i64) as i32;
                Some(r)
            } else {
                Some(v as i32)
            }
        },
        None => None,
    }
}

/// Reads a `u32` as `str::parse::<u32>` does.
pub fn parse_u32(s: &str) -> (r: Option<u32>)
    ensures
        r == parse_u32_spec(s@),
{
    let cs = chars_of(s);
    let start: usize = if cs.len() > 0 && cs[0] == '+' { 1 } else { 0 };
    proof {
        assert(cs@.skip(start as int) =~= (if start == 1 { s@.drop_first() } else { s@ }));
    }
    match read_digits(&cs, start, 4294967295) {
        Some(v) => Some(v as u32),
        None => None,
    }
}

/// Reads an `i64` as `str::parse::<i64>` does.
pub fn parse_i64(s: &str) -> (r: Option<i64>)
    ensures
        r == parse_i64_spec(s@),
{
    let cs = chars_of(s);
    let neg = cs.len() > 0 && cs[0] == '-';
    let start: usize = if cs.len() > 0 && (cs[0] == '+' || neg) { 1 } else { 0 };
    proof {
        assert(cs@.skip(start as int) =~= (if start == 1 { s@.drop_first() } else { s@ }));
    }
    let limit: u128 = if neg { 9223372036854775808 } else { 9223372036854775807 };
    match read_digits(&cs, start, limit) {
        Some(v) => {
            if neg {
                let r = (0i128 - v as i128) as i64;
                Some(r)
            } else {
                Some(v as i64)
            }
        },
        None => None,
    }
}

/// A number written as `{}` writes it reads back as itself.
pub proof fn lemma_decimal_i32(v: i32)
    ensures
        parse_i32_spec(decimal(v as int)) == Some(v),
{
    let s = decimal(v as int);
    if v < 0 {
        let n = (-(v as int)) as nat;
        lemma_digits_roundtrip(n);
        let d = digits(n);
        assert(s.drop_first() =~= d);
        assert(s[0] == '-');
    } else {
        let n = v as nat;
        lemma_digits_roundtrip(n);
        assert(is_digit(s[0]));
    }
}

/// A number written as `{}` reads back as itself.
pub proof fn lemma_decimal_u32(v: u32)
    ensures
        parse_u32_spec(decimal(v as int)) == Some(v),
{
    let s = decimal(v as int);
    lemma_digits_roundtrip(v as nat);
    assert(is_digit(s[0]));
}

} // verus!
