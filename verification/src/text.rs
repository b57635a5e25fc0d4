use vstd::prelude::*;
use vstd::string::StrSliceExecFns;

verus! {

// ---------------------------------------------------------------------------
// Characters and digits
// ---------------------------------------------------------------------------

/// Whether `c` is a decimal digit.
pub open spec fn is_digit(c: char) -> bool {
    c == '0' || c == '1' || c == '2' || c == '3' || c == '4' || c == '5' || c == '6' || c == '7'
        || c == '8' || c == '9'
}

/// Numeric value of a decimal digit (`-1` for any other character).
pub open spec fn digit_val(c: char) -> int {
    if c == '0' {
        0
    } else if c == '1' {
        1
    } else if c == '2' {
        2
    } else if c == '3' {
        3
    } else if c == '4' {
        4
    } else if c == '5' {
        5
    } else if c == '6' {
        6
    } else if c == '7' {
        7
    } else if c == '8' {
        8
    } else if c == '9' {
        9
    } else {
        -1
    }
}

/// The decimal digit character for a value in `0 ..= 9`.
pub open spec fn digit_char(d: int) -> char {
    if d == 0 {
        '0'
    } else if d == 1 {
        '1'
    } else if d == 2 {
        '2'
    } else if d == 3 {
        '3'
    } else if d == 4 {
        '4'
    } else if d == 5 {
        '5'
    } else if d == 6 {
        '6'
    } else if d == 7 {
        '7'
    } else if d == 8 {
        '8'
    } else {
        '9'
    }
}

pub fn digit_to_char(d: u16) -> (c: char)
    requires
        d < 10,
    ensures
        c == digit_char(d as int),
{
    match d {
        0 => '0',
        1 => '1',
        2 => '2',
        3 => '3',
        4 => '4',
        5 => '5',
        6 => '6',
        7 => '7',
        8 => '8',
        _ => '9',
    }
}

pub fn char_digit_val(c: char) -> (d: i8)
    ensures
        d as int == digit_val(c),
{
    match c {
        '0' => 0,
        '1' => 1,
        '2' => 2,
        '3' => 3,
        '4' => 4,
        '5' => 5,
        '6' => 6,
        '7' => 7,
        '8' => 8,
        '9' => 9,
        _ => -1,
    }
}

// ---------------------------------------------------------------------------
// Conversions between `&str` / `String` and `Vec<char>`
// ---------------------------------------------------------------------------

/// The characters of `s`, in order.
pub fn chars_of(s: &str) -> (v: Vec<char>)
    ensures
        v@ == s@,
{
    let n: usize = s.unicode_len();
    let mut v: Vec<char> = Vec::new();
    let mut i: usize = 0;
    while i < n
        invariant
            i <= n,
            n == s@.len(),
            v@ == s@.subrange(0, i as int),
        decreases n - i,
    {
        v.push(s.get_char(i));
        proof {
            assert(v@ =~= s@.subrange(0, i + 1 as int));
        }
        i = i + 1;
    }
    proof {
        assert(v@ =~= s@);
    }
    v
}

/// Relies on `String`'s `FromIterator<&char>` implementation: collecting the
/// characters of `v` yields the string of exactly those characters in order.
#[verifier::external_body]
pub fn string_from_chars(v: &Vec<char>) -> (r: String)
    ensures
        r@ == v@,
{
    v.iter().collect()
}

/// Character-for-character equality of two string slices.
pub fn eq_str(a: &str, b: &str) -> (r: bool)
    ensures
        r == (a@ == b@),
{
    let alen: usize = a.unicode_len();
    let blen: usize = b.unicode_len();
    if alen != blen {
        return false;
    }
    let mut i: usize = 0;
    while i < alen
        invariant
            i <= alen,
            alen == a@.len(),
            alen == b@.len(),
            forall|j: int| 0 <= j < i ==> a@[j] == b@[j],
        decreases alen - i,
    {
        if a.get_char(i) != b.get_char(i) {
            return false;
        }
        i = i + 1;
    }
    proof {
        assert(a@ =~= b@);
    }
    true
}

// ---------------------------------------------------------------------------
// Rendering unsigned integers in decimal
// ---------------------------------------------------------------------------

/// Decimal digits of `n`, most significant first; empty for `n <= 0`.
pub open spec fn dec_digits(n: int) -> Seq<char>
    decreases n,
{
    if n <= 0 {
        Seq::empty()
    } else {
        dec_digits(n / 10).push(digit_char(n % 10))
    }
}

/// The decimal rendering of `n`, with `0` rendered as `"0"`.
pub open spec fn dec_str(n: int) -> Seq<char> {
    if n == 0 {
        seq!['0']
    } else {
        dec_digits(n)
    }
}

// ---------------------------------------------------------------------------
// Reading integers out of number literals
// ---------------------------------------------------------------------------

/// Whether every character of `s` is a decimal digit.
pub open spec fn all_digits(s: Seq<char>) -> bool {
    forall|k: int| 0 <= k < s.len() ==> is_digit(s[k])
}

/// The value of a digit string, most significant digit first.
pub open spec fn dec_val(s: Seq<char>) -> int
    decreases s.len(),
{
    if s.len() == 0 {
        0
    } else {
        dec_val(s.drop_last()) * 10 + digit_val(s.last())
    }
}

pub proof fn lemma_dec_val_nonneg(s: Seq<char>)
    requires
        all_digits(s),
    ensures
        dec_val(s) >= 0,
    decreases s.len(),
{
    if s.len() > 0 {
        assert(all_digits(s.drop_last()));
        lemma_dec_val_nonneg(s.drop_last());
    }
}

/// A digit string is worth at least any of its prefixes.
pub proof fn lemma_dec_val_prefix(s: Seq<char>, k: int)
    requires
        all_digits(s),
        0 <= k <= s.len(),
    ensures
        dec_val(s) >= dec_val(s.subrange(0, k)),
    decreases s.len(),
{
    if k < s.len() {
        let t = s.drop_last();
        assert(all_digits(t));
        assert(s.subrange(0, k) =~= t.subrange(0, k));
        lemma_dec_val_prefix(t, k);
        lemma_dec_val_nonneg(t);
        assert(dec_val(s) == dec_val(t) * 10 + digit_val(s.last()));
        assert(dec_val(t) * 10 >= dec_val(t));
    } else {
        assert(s.subrange(0, k) =~= s);
    }
}

/// The numeric value of a number literal that is a plain unsigned integer:
/// nonempty, digits only, and no larger than `u64::MAX`.
pub open spec fn spec_num_u64(s: Seq<char>) -> Option<u64> {
    if s.len() > 0 && all_digits(s) && dec_val(s) <= u64::MAX {
        Some(dec_val(s) as u64)
    } else {
        None
    }
}

pub open spec fn spec_num_u32(s: Seq<char>) -> Option<u32> {
    match spec_num_u64(s) {
        Some(x) => if x <= u32::MAX {
            Some(x as u32)
        } else {
            None
        },
        None => None,
    }
}

pub open spec fn spec_num_u8(s: Seq<char>) -> Option<u8> {
    match spec_num_u64(s) {
        Some(x) => if x <= u8::MAX {
            Some(x as u8)
        } else {
            None
        },
        None => None,
    }
}

/// The numeric value of a number literal that is a plain integer: an optional
/// minus sign, then digits, within the range of `i64`.
pub open spec fn spec_num_i64(s: Seq<char>) -> Option<i64> {
    if s.len() > 0 && s[0] == '-' {
        let m = s.subrange(1, s.len() as int);
        if m.len() > 0 && all_digits(m) && dec_val(m) <= 0x8000000000000000 {
            Some((-dec_val(m)) as i64)
        } else {
            None
        }
    } else if s.len() > 0 && all_digits(s) && dec_val(s) <= i64::MAX {
        Some(dec_val(s) as i64)
    } else {
        None
    }
}

pub open spec fn spec_num_i32(s: Seq<char>) -> Option<i32> {
    match spec_num_i64(s) {
        Some(x) => if i32::MIN <= x <= i32::MAX {
            Some(x as i32)
        } else {
            None
        },
        None => None,
    }
}

/// The value of the digit string `v[from ..]`, if it is one and fits in `u64`.
fn digits_val_from(v: &Vec<char>, from: usize) -> (r: Option<u64>)
    requires
        from <= v@.len(),
    ensures
        r == spec_num_u64(v@.subrange(from as int, v@.len() as int)),
{
    let ghost s = v@.subrange(from as int, v@.len() as int);
    let n: usize = v.len();
    if from == n {
        return None;
    }
    let mut acc: u64 = 0;
    let mut i: usize = from;
    while i < n
        invariant
            from <= i <= n,
            n == v@.len(),
            s == v@.subrange(from as int, v@.len() as int),
            all_digits(s.subrange(0, i - from)),
            acc == dec_val(s.subrange(0, i - from)),
        decreases n - i,
    {
        let ghost pre = s.subrange(0, i - from);
        let d = char_digit_val(v[i]);
        if d < 0 {
            proof {
                assert(s[i - from] == v@[i as int]);
                assert(!all_digits(s));
            }
            return None;
        }
        let du = d as u64;
        if acc > (u64::MAX - du) / 10 {
            proof {
                let pre1 = s.subrange(0, i + 1 - from);
                assert(pre1.drop_last() =~= pre);
                assert(pre1.last() == v@[i as int]);
                assert(all_digits(pre1));
                assert(dec_val(pre1) == acc * 10 + du);
                if all_digits(s) {
                    lemma_dec_val_prefix(s, i + 1 - from);
                    assert(dec_val(s) >= dec_val(pre1));
                    assert(dec_val(s) > u64::MAX);
                }
            }
            return None;
        }
        acc = acc * 10 + du;
        proof {
            let pre1 = s.subrange(0, i + 1 - from);
            assert(pre1.drop_last() =~= pre);
            assert(pre1.last() == v@[i as int]);
        }
        i = i + 1;
    }
    proof {
        assert(s.subrange(0, n - from) =~= s);
    }
    Some(acc)
}

/// Reads a number literal as an unsigned 64-bit integer.
pub fn num_text_u64(t: &str) -> (r: Option<u64>)
    ensures
        r == spec_num_u64(t@),
{
    let v = chars_of(t);
    proof {
        assert(v@.subrange(0, v@.len() as int) =~= t@);
    }
    digits_val_from(&v, 0)
}

/// Reads a number literal as an unsigned 32-bit integer.
pub fn num_text_u32(t: &str) -> (r: Option<u32>)
    ensures
        r == spec_num_u32(t@),
{
    match num_text_u64(t) {
        Some(x) => if x <= u32::MAX as u64 {
            Some(x as u32)
        } else {
            None
        },
        None => None,
    }
}

/// Reads a number literal as an unsigned 8-bit integer.
pub fn num_text_u8(t: &str) -> (r: Option<u8>)
    ensures
        r == spec_num_u8(t@),
{
    match num_text_u64(t) {
        Some(x) => if x <= u8::MAX as u64 {
            Some(x as u8)
        } else {
            None
        },
        None => None,
    }
}

/// Reads a number literal as a signed 64-bit integer.
pub fn num_text_i64(t: &str) -> (r: Option<i64>)
    ensures
        r == spec_num_i64(t@),
{
    let v = chars_of(t);
    if v.len() > 0 && v[0] == '-' {
        let m = digits_val_from(&v, 1);
        proof {
            assert(v@.subrange(1, v@.len() as int) =~= t@.subrange(1, t@.len() as int));
        }
        match m {
            Some(x) => {
                proof {
                    let ghost msub = t@.subrange(1, t@.len() as int);
                    lemma_dec_val_nonneg(msub);
                }
                if x < 0x8000000000000000 {
                    Some(-(x as i64))
                } else if x == 0x8000000000000000 {
                    Some(i64::MIN)
                } else {
                    None
                }
            },
            None => None,
        }
    } else {
        proof {
            assert(v@.subrange(0, v@.len() as int) =~= t@);
        }
        match digits_val_from(&v, 0) {
            Some(x) => {
                proof {
                    lemma_dec_val_nonneg(t@);
                }
                if x <= i64::MAX as u64 {
                    Some(x as i64)
                } else {
                    None
                }
            },
            None => None,
        }
    }
}

/// Reads a number literal as a signed 32-bit integer.
pub fn num_text_i32(t: &str) -> (r: Option<i32>)
    ensures
        r == spec_num_i32(t@),
{
    match num_text_i64(t) {
        Some(x) => if i32::MIN as i64 <= x && x <= i32::MAX as i64 {
            Some(x as i32)
        } else {
            None
        },
        None => None,
    }
}

pub fn push_dec_digits(n: u64, v: &mut Vec<char>)
    ensures
        final(v)@ == old(v)@ + dec_digits(n as int),
    decreases n,
{
    if n == 0 {
        proof {
            assert(v@ =~= old(v)@ + dec_digits(n as int));
        }
    } else {
        push_dec_digits(n / 10, v);
        v.push(digit_to_char((n % 10) as u16));
        proof {
            assert(v@ =~= old(v)@ + dec_digits(n as int));
        }
    }
}

/// The decimal rendering of a status code or other small number.
pub fn u16_to_dec(n: u16) -> (r: String)
    ensures
        r@ == dec_str(n as int),
{
    let mut v: Vec<char> = Vec::new();
    if n == 0 {
        v.push('0');
        proof {
            assert(v@ =~= seq!['0']);
        }
    } else {
        push_dec_digits(n as u64, &mut v);
        proof {
            assert(v@ =~= dec_digits(n as int));
        }
    }
    string_from_chars(&v)
}

} // verus!
