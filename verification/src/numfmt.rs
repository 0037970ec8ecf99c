//! Decimal text for the integers this client touches: rendering of entity
//! ids and Unix-second timestamps for request URLs, and parsing of the
//! decimal object keys under which members are listed.

use vstd::prelude::*;

verus! {

use crate::Error;

/// The decimal digit character for `d`.
pub open spec fn spec_digit(d: int) -> char {
    if d == 0 {
        '0'
    } else if d == 1 {
        '1'
    } else if d == 2 {
        '2'
    } else if d == 3 {
        '3'
    } else if d == 4 {
        '4'
    } else if d == 5 {
        '5'
    } else if d == 6 {
        '6'
    } else if d == 7 {
        '7'
    } else if d == 8 {
        '8'
    } else {
        '9'
    }
}

/// The canonical decimal rendering of a nonnegative integer: no sign, no
/// leading zeroes.
pub open spec fn spec_u64_dec(n: int) -> Seq<char>
    recommends
        n >= 0,
    decreases n,
{
    if n < 10 {
        seq![spec_digit(n)]
    } else {
        spec_u64_dec(n / 10).push(spec_digit(n % 10))
    }
}

/// The canonical decimal rendering of a signed integer: a `-` before the
/// magnitude when negative.
pub open spec fn spec_i64_dec(n: int) -> Seq<char> {
    if n < 0 {
        seq!['-'] + spec_u64_dec(-n)
    } else {
        spec_u64_dec(n)
    }
}

fn digit_str(d: u64) -> (r: &'static str)
    requires
        d < 10,
    ensures
        r@ == seq![spec_digit(d as int)],
{
    let r: &'static str = if d == 0 {
        "0"
    } else if d == 1 {
        "1"
    } else if d == 2 {
        "2"
    } else if d == 3 {
        "3"
    } else if d == 4 {
        "4"
    } else if d == 5 {
        "5"
    } else if d == 6 {
        "6"
    } else if d == 7 {
        "7"
    } else if d == 8 {
        "8"
    } else {
        "9"
    };
    proof {
        reveal_strlit("0");
        reveal_strlit("1");
        reveal_strlit("2");
        reveal_strlit("3");
        reveal_strlit("4");
        reveal_strlit("5");
        reveal_strlit("6");
        reveal_strlit("7");
        reveal_strlit("8");
        reveal_strlit("9");
        assert(r@ =~= seq![spec_digit(d as int)]);
    }
    r
}

/// Renders `n` in decimal, exactly as `spec_u64_dec` describes.
pub fn u64_to_dec(n: u64) -> (r: String)
    ensures
        r@ == spec_u64_dec(n as int),
    decreases n,
{
    if n < 10 {
        String::from_str(digit_str(n))
    } else {
        let mut s = u64_to_dec(n / 10);
        s.append(digit_str(n % 10));
        proof {
            assert(s@ =~= spec_u64_dec(n as int));
        }
        s
    }
}

/// The value of a decimal digit character, or 10 for any other character.
pub open spec fn spec_digit_val(c: char) -> int {
    if c == '0' {
        0
    } else if c == '1' {
        1
    } else if c == '2' {
        2
    } else if c == '3' {
        3
    } else if c == '4' {
        4
    } else if c == '5' {
        5
    } else if c == '6' {
        6
    } else if c == '7' {
        7
    } else if c == '8' {
        8
    } else if c == '9' {
        9
    } else {
        10
    }
}

/// The number the digit string `s` denotes, read left to right.
pub open spec fn spec_key_value(s: Seq<char>) -> int
    decreases s.len(),
{
    if s.len() == 0 {
        0
    } else {
        spec_key_value(s.drop_last()) * 10 + spec_digit_val(s.last())
    }
}

/// A canonical decimal object key: nonempty, digits only, no leading
/// zero, and a value that fits an `i32`.
pub open spec fn spec_key_ok(s: Seq<char>) -> bool {
    &&& s.len() > 0
    &&& (forall|k: int| 0 <= k < s.len() ==> spec_digit_val(#[trigger] s[k]) < 10)
    &&& (s.len() > 1 ==> s[0] != '0')
    &&& spec_key_value(s) <= i32::MAX
}

pub proof fn lemma_key_value_nonneg(s: Seq<char>)
    ensures
        spec_key_value(s) >= 0,
    decreases s.len(),
{
    if s.len() > 0 {
        lemma_key_value_nonneg(s.drop_last());
    }
}

proof fn lemma_key_value_mono(s: Seq<char>, i: int, j: int)
    requires
        0 <= i <= j <= s.len(),
    ensures
        spec_key_value(s.take(j)) >= spec_key_value(s.take(i)),
    decreases j - i,
{
    if i < j {
        lemma_key_value_mono(s, i, j - 1);
        lemma_key_value_nonneg(s.take(j - 1));
        assert(s.take(j).drop_last() =~= s.take(j - 1));
    }
}

fn digit_val(c: char) -> (r: u32)
    ensures
        r == spec_digit_val(c),
{
    match c {
        '0' => 0,
        '1' => 1,
        '2' => 2,
        '3' => 3,
        '4' => 4,
        '5' => 5,
        '6' => 6,
        '7' => 7,
        '8' => 8,
        '9' => 9,
        _ => 10,
    }
}

/// Parses a canonical decimal object key, exactly the strings
/// `spec_key_ok` accepts, into the value `spec_key_value` describes.
pub fn parse_key(s: &str) -> (r: Result<i64, Error>)
    ensures
        spec_key_ok(s@) ==> (r matches Ok(n) && n == spec_key_value(s@)),
        !spec_key_ok(s@) ==> (r matches Err(Error::Deserialize { .. })),
{
    let len = s.unicode_len();
    if len == 0 {
        return Err(bad_key_error());
    }
    if len > 1 && s.get_char(0) == '0' {
        return Err(bad_key_error());
    }
    let mut val: u64 = 0;
    let mut i: usize = 0;
    proof {
        assert(s@.take(0) =~= Seq::<char>::empty());
    }
    while i < len
        invariant
            i <= len,
            len == s@.len(),
            forall|k: int| 0 <= k < i ==> spec_digit_val(#[trigger] s@[k]) < 10,
            val == spec_key_value(s@.take(i as int)),
            val <= i32::MAX,
        decreases len - i,
    {
        let c = s.get_char(i);
        let d = digit_val(c);
        if d >= 10 {
            proof {
                assert(!spec_key_ok(s@));
            }
            return Err(bad_key_error());
        }
        let next: u64 = val * 10 + (d as u64);
        proof {
            assert(s@.take(i as int + 1).drop_last() =~= s@.take(i as int));
            assert(next == spec_key_value(s@.take(i as int + 1)));
        }
        if next > i32::MAX as u64 {
            proof {
                if spec_key_ok(s@) {
                    lemma_key_value_mono(s@, i as int + 1, len as int);
                    assert(s@.take(len as int) =~= s@);
                    assert(false);
                }
            }
            return Err(bad_key_error());
        }
        val = next;
        i = i + 1;
    }
    proof {
        assert(s@.take(len as int) =~= s@);
    }
    Ok(val as i64)
}

fn bad_key_error() -> (r: Error)
    ensures
        r matches Error::Deserialize { .. },
{
    Error::Deserialize { message: String::from_str("invalid member key") }
}

/// Renders `n` in decimal, exactly as `spec_i64_dec` describes.
pub fn i64_to_dec(n: i64) -> (r: String)
    ensures
        r@ == spec_i64_dec(n as int),
{
    if n >= 0 {
        u64_to_dec(n as u64)
    } else {
        let mag: u64 = ((-1 - n) as u64) + 1;
        let mut s = String::from_str("-");
        let digits = u64_to_dec(mag);
        s.append(digits.as_str());
        proof {
            reveal_strlit("-");
            assert(s@ =~= spec_i64_dec(n as int));
        }
        s
    }
}

} // verus!
