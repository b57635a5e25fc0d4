use vstd::prelude::*;
use crate::text::{
    chars_of, char_digit_val, digit_val, is_digit, string_from_chars,
};

verus! {

// ---------------------------------------------------------------------------
// The JSON document model
// ---------------------------------------------------------------------------

/// A JSON document. Numbers keep their literal text, so no precision is lost
/// and no floating point is involved; strings hold their unescaped characters;
/// object members keep the order in which they appear in the text, repeated
/// keys included — deduplication is deliberately no concern of the parser,
/// and lookup settles what a repeated key means.
pub enum Json {
    Null,
    Bool(bool),
    Num(String),
    Str(String),
    Arr(Vec<Json>),
    Obj(Vec<(String, Json)>),
}

/// The mathematical form of a JSON document.
pub enum JsonV {
    Null,
    Bool(bool),
    Num(Seq<char>),
    Str(Seq<char>),
    Arr(Seq<JsonV>),
    Obj(Seq<(Seq<char>, JsonV)>),
}

pub open spec fn views_of(items: Seq<Json>) -> Seq<JsonV>
    decreases items,
{
    Seq::new(
        items.len(),
        |k: int|
            if 0 <= k < items.len() {
                jview(items[k])
            } else {
                JsonV::Null
            },
    )
}

pub open spec fn views_of_pairs(members: Seq<(String, Json)>) -> Seq<(Seq<char>, JsonV)>
    decreases members,
{
    Seq::new(
        members.len(),
        |k: int|
            if 0 <= k < members.len() {
                (members[k].0@, jview(members[k].1))
            } else {
                (Seq::empty(), JsonV::Null)
            },
    )
}

pub open spec fn jview(j: Json) -> JsonV
    decreases j,
{
    match j {
        Json::Null => JsonV::Null,
        Json::Bool(b) => JsonV::Bool(b),
        Json::Num(s) => JsonV::Num(s@),
        Json::Str(s) => JsonV::Str(s@),
        Json::Arr(items) => JsonV::Arr(views_of(items@)),
        Json::Obj(members) => JsonV::Obj(views_of_pairs(members@)),
    }
}

impl View for Json {
    type V = JsonV;

    open spec fn view(&self) -> JsonV {
        jview(*self)
    }
}

// ---------------------------------------------------------------------------
// Lexical helpers
// ---------------------------------------------------------------------------

/// JSON insignificant whitespace.
pub open spec fn is_ws(c: char) -> bool {
    c == ' ' || c == '\t' || c == '\n' || c == '\r'
}

/// First position at or after `i` holding no whitespace.
pub open spec fn spec_skip_ws(s: Seq<char>, i: int) -> int
    decreases s.len() - i,
{
    if 0 <= i < s.len() && is_ws(s[i]) {
        spec_skip_ws(s, i + 1)
    } else {
        i
    }
}

pub proof fn lemma_skip_ws_bounds(s: Seq<char>, i: int)
    requires
        0 <= i <= s.len(),
    ensures
        i <= spec_skip_ws(s, i) <= s.len(),
    decreases s.len() - i,
{
    if i < s.len() && is_ws(s[i]) {
        lemma_skip_ws_bounds(s, i + 1);
    }
}

pub fn skip_ws(s: &Vec<char>, i: usize) -> (r: usize)
    requires
        i <= s@.len(),
    ensures
        r as int == spec_skip_ws(s@, i as int),
        i <= r <= s@.len(),
{
    let mut j: usize = i;
    while j < s.len() && (s[j] == ' ' || s[j] == '\t' || s[j] == '\n' || s[j] == '\r')
        invariant
            i <= j <= s@.len(),
            spec_skip_ws(s@, i as int) == spec_skip_ws(s@, j as int),
        decreases s@.len() - j,
    {
        j = j + 1;
    }
    j
}

/// Hexadecimal digit value (`-1` for any other character).
pub open spec fn hex_val(c: char) -> int {
    if is_digit(c) {
        digit_val(c)
    } else if c == 'a' || c == 'A' {
        10
    } else if c == 'b' || c == 'B' {
        11
    } else if c == 'c' || c == 'C' {
        12
    } else if c == 'd' || c == 'D' {
        13
    } else if c == 'e' || c == 'E' {
        14
    } else if c == 'f' || c == 'F' {
        15
    } else {
        -1
    }
}

fn char_hex_val(c: char) -> (d: i8)
    ensures
        d as int == hex_val(c),
{
    let dv = char_digit_val(c);
    if dv >= 0 {
        dv
    } else {
        match c {
            'a' | 'A' => 10,
            'b' | 'B' => 11,
            'c' | 'C' => 12,
            'd' | 'D' => 13,
            'e' | 'E' => 14,
            'f' | 'F' => 15,
            _ => -1,
        }
    }
}

/// Whether four hexadecimal digits stand at `j`.
pub open spec fn spec_hex4_ok(s: Seq<char>, j: int) -> bool {
    hex_val(s[j]) >= 0 && hex_val(s[j + 1]) >= 0 && hex_val(s[j + 2]) >= 0 && hex_val(
        s[j + 3],
    ) >= 0
}

/// The value of the four hexadecimal digits at `j`.
pub open spec fn spec_hex4(s: Seq<char>, j: int) -> int {
    hex_val(s[j]) * 0x1000 + hex_val(s[j + 1]) * 0x100 + hex_val(s[j + 2]) * 0x10 + hex_val(
        s[j + 3],
    )
}

fn hex4(s: &Vec<char>, j: usize) -> (r: Option<u32>)
    requires
        j + 4 <= s@.len(),
    ensures
        match r {
            Some(x) => spec_hex4_ok(s@, j as int) && x as int == spec_hex4(s@, j as int),
            None => !spec_hex4_ok(s@, j as int),
        },
{
    let n: usize = s.len();
    let d0 = char_hex_val(s[j]);
    let d1 = char_hex_val(s[j + 1]);
    let d2 = char_hex_val(s[j + 2]);
    let d3 = char_hex_val(s[j + 3]);
    if d0 < 0 || d1 < 0 || d2 < 0 || d3 < 0 {
        return None;
    }
    Some((d0 as u32) * 0x1000 + (d1 as u32) * 0x100 + (d2 as u32) * 0x10 + (d3 as u32))
}

/// Relies on `char::from_u32`: it returns `Some` exactly for code points that
/// are no surrogates and no larger than `0x10FFFF`, and the returned character
/// is that code point.
#[verifier::external_body]
fn char_from_u32(x: u32) -> (r: Option<char>)
    ensures
        r is Some <==> (x < 0xD800 || (0xE000 <= x && x <= 0x10FFFF)),
        r matches Some(c) ==> c == x as char,
{
    char::from_u32(x)
}

// ---------------------------------------------------------------------------
// String bodies
// ---------------------------------------------------------------------------

/// Parses the body of a string literal from `i` (just after the opening
/// quote), appending the unescaped characters to `acc`, up to and including
/// the closing quote. Yields the accumulated characters and the position
/// after the closing quote.
pub open spec fn spec_parse_str_body(s: Seq<char>, i: int, acc: Seq<char>) -> Option<
    (Seq<char>, int),
>
    decreases s.len() - i,
{
    if i < 0 || i >= s.len() {
        None
    } else {
        let c = s[i];
        if c == '"' {
            Some((acc, i + 1))
        } else if c == '\\' {
            if i + 1 >= s.len() {
                None
            } else {
                let e = s[i + 1];
                if e == '"' {
                    spec_parse_str_body(s, i + 2, acc.push('"'))
                } else if e == '\\' {
                    spec_parse_str_body(s, i + 2, acc.push('\\'))
                } else if e == '/' {
                    spec_parse_str_body(s, i + 2, acc.push('/'))
                } else if e == 'b' {
                    spec_parse_str_body(s, i + 2, acc.push('\u{0008}'))
                } else if e == 'f' {
                    spec_parse_str_body(s, i + 2, acc.push('\u{000C}'))
                } else if e == 'n' {
                    spec_parse_str_body(s, i + 2, acc.push('\n'))
                } else if e == 'r' {
                    spec_parse_str_body(s, i + 2, acc.push('\r'))
                } else if e == 't' {
                    spec_parse_str_body(s, i + 2, acc.push('\t'))
                } else if e == 'u' {
                    if i + 6 > s.len() || !spec_hex4_ok(s, i + 2) {
                        None
                    } else {
                        let code = spec_hex4(s, i + 2);
                        if 0xD800 <= code <= 0xDBFF {
                            if i + 12 > s.len() || s[i + 6] != '\\' || s[i + 7] != 'u'
                                || !spec_hex4_ok(s, i + 8) {
                                None
                            } else {
                                let low = spec_hex4(s, i + 8);
                                if 0xDC00 <= low <= 0xDFFF {
                                    let scalar = 0x10000 + (code - 0xD800) * 0x400 + (low - 0xDC00);
                                    spec_parse_str_body(s, i + 12, acc.push(scalar as char))
                                } else {
                                    None
                                }
                            }
                        } else if 0xDC00 <= code <= 0xDFFF {
                            None
                        } else {
                            spec_parse_str_body(s, i + 6, acc.push(code as char))
                        }
                    }
                } else {
                    None
                }
            }
        } else if (c as u32) < 0x20 {
            None
        } else {
            spec_parse_str_body(s, i + 1, acc.push(c))
        }
    }
}

fn parse_str_body(s: &Vec<char>, i: usize) -> (r: Option<(Vec<char>, usize)>)
    requires
        i <= s@.len(),
    ensures
        match r {
            Some(p) => spec_parse_str_body(s@, i as int, Seq::empty()) == Some(
                (p.0@, p.1 as int),
            ) && i < p.1 <= s@.len(),
            None => spec_parse_str_body(s@, i as int, Seq::empty()) is None,
        },
{
    let mut acc: Vec<char> = Vec::new();
    let mut j: usize = i;
    loop
        invariant
            i <= j <= s@.len(),
            spec_parse_str_body(s@, i as int, Seq::empty()) == spec_parse_str_body(
                s@,
                j as int,
                acc@,
            ),
        decreases s@.len() - j,
    {
        if j >= s.len() {
            return None;
        }
        let c = s[j];
        if c == '"' {
            return Some((acc, j + 1));
        }
        if c == '\\' {
            if j + 1 >= s.len() {
                return None;
            }
            let e = s[j + 1];
            if e == 'u' {
                if s.len() - j < 6 {
                    return None;
                }
                let code = match hex4(s, j + 2) {
                    None => {
                        return None;
                    },
                    Some(x) => x,
                };
                if 0xD800 <= code && code <= 0xDBFF {
                    if s.len() - j < 12 {
                        return None;
                    }
                    if s[j + 6] != '\\' || s[j + 7] != 'u' {
                        return None;
                    }
                    let low = match hex4(s, j + 8) {
                        None => {
                            return None;
                        },
                        Some(x) => x,
                    };
                    if !(0xDC00 <= low && low <= 0xDFFF) {
                        return None;
                    }
                    let scalar: u32 = 0x10000 + (code - 0xD800) * 0x400 + (low - 0xDC00);
                    match char_from_u32(scalar) {
                        Some(ch) => {
                            acc.push(ch);
                            j = j + 12;
                        },
                        None => {
                            proof {
                                assert(false);
                            }
                            return None;
                        },
                    }
                } else if 0xDC00 <= code && code <= 0xDFFF {
                    return None;
                } else {
                    match char_from_u32(code) {
                        Some(ch) => {
                            acc.push(ch);
                            j = j + 6;
                        },
                        None => {
                            proof {
                                assert(false);
                            }
                            return None;
                        },
                    }
                }
            } else {
                let rep: char;
                if e == '"' {
                    rep = '"';
                } else if e == '\\' {
                    rep = '\\';
                } else if e == '/' {
                    rep = '/';
                } else if e == 'b' {
                    rep = '\u{0008}';
                } else if e == 'f' {
                    rep = '\u{000C}';
                } else if e == 'n' {
                    rep = '\n';
                } else if e == 'r' {
                    rep = '\r';
                } else if e == 't' {
                    rep = '\t';
                } else {
                    return None;
                }
                acc.push(rep);
                j = j + 2;
            }
        } else {
            if (c as u32) < 0x20 {
                return None;
            }
            acc.push(c);
            j = j + 1;
        }
    }
}

// ---------------------------------------------------------------------------
// Numbers
// ---------------------------------------------------------------------------

/// First position at or after `i` holding no decimal digit.
pub open spec fn spec_digits_end(s: Seq<char>, i: int) -> int
    decreases s.len() - i,
{
    if 0 <= i < s.len() && is_digit(s[i]) {
        spec_digits_end(s, i + 1)
    } else {
        i
    }
}

pub proof fn lemma_digits_end_bounds(s: Seq<char>, i: int)
    requires
        0 <= i <= s.len(),
    ensures
        i <= spec_digits_end(s, i) <= s.len(),
    decreases s.len() - i,
{
    if i < s.len() && is_digit(s[i]) {
        lemma_digits_end_bounds(s, i + 1);
    }
}

fn digits_end(s: &Vec<char>, i: usize) -> (r: usize)
    requires
        i <= s@.len(),
    ensures
        r as int == spec_digits_end(s@, i as int),
        i <= r <= s@.len(),
{
    let mut j: usize = i;
    while j < s.len() && char_digit_val(s[j]) >= 0
        invariant
            i <= j <= s@.len(),
            spec_digits_end(s@, i as int) == spec_digits_end(s@, j as int),
        decreases s@.len() - j,
    {
        j = j + 1;
    }
    j
}

/// Parses a number literal at `i` (pointing at `-` or the first digit):
/// an optional minus sign, an integer part without a spurious leading zero,
/// an optional fraction, and an optional exponent. The literal text itself
/// is kept as the value.
pub open spec fn spec_parse_number(s: Seq<char>, i: int) -> Option<(JsonV, int)> {
    if !(0 <= i < s.len()) {
        None
    } else {
        let j = if s[i] == '-' {
            i + 1
        } else {
            i
        };
        if !(j < s.len() && is_digit(s[j])) {
            None
        } else {
            let d1 = spec_digits_end(s, j);
            if s[j] == '0' && d1 > j + 1 {
                None
            } else {
                let k1 = if d1 < s.len() && s[d1] == '.' {
                    let d2 = spec_digits_end(s, d1 + 1);
                    if d2 == d1 + 1 {
                        -1
                    } else {
                        d2
                    }
                } else {
                    d1
                };
                if k1 < 0 {
                    None
                } else {
                    let k2 = if k1 < s.len() && (s[k1] == 'e' || s[k1] == 'E') {
                        let j2 = if k1 + 1 < s.len() && (s[k1 + 1] == '+' || s[k1 + 1] == '-') {
                            k1 + 2
                        } else {
                            k1 + 1
                        };
                        let d3 = spec_digits_end(s, j2);
                        if d3 == j2 {
                            -1
                        } else {
                            d3
                        }
                    } else {
                        k1
                    };
                    if k2 < 0 {
                        None
                    } else {
                        Some((JsonV::Num(s.subrange(i, k2)), k2))
                    }
                }
            }
        }
    }
}

fn copy_range(s: &Vec<char>, from: usize, to: usize) -> (v: Vec<char>)
    requires
        from <= to <= s@.len(),
    ensures
        v@ == s@.subrange(from as int, to as int),
{
    let mut v: Vec<char> = Vec::new();
    let mut p: usize = from;
    while p < to
        invariant
            from <= p <= to <= s@.len(),
            v@ == s@.subrange(from as int, p as int),
        decreases to - p,
    {
        v.push(s[p]);
        proof {
            assert(v@ =~= s@.subrange(from as int, p + 1 as int));
        }
        p = p + 1;
    }
    v
}

fn parse_number(s: &Vec<char>, i: usize) -> (r: Option<(Json, usize)>)
    requires
        i <= s@.len(),
    ensures
        match r {
            Some(p) => spec_parse_number(s@, i as int) == Some((jview(p.0), p.1 as int)) && i < p.1
                <= s@.len(),
            None => spec_parse_number(s@, i as int) is None,
        },
{
    if i >= s.len() {
        return None;
    }
    let j: usize = if s[i] == '-' {
        i + 1
    } else {
        i
    };
    if j >= s.len() || char_digit_val(s[j]) < 0 {
        return None;
    }
    let d1 = digits_end(s, j);
    proof {
        lemma_digits_end_bounds(s@, j as int + 1);
        assert(d1 as int == spec_digits_end(s@, j as int + 1));
    }
    if s[j] == '0' && d1 > j + 1 {
        return None;
    }
    let k1: usize = if d1 < s.len() && s[d1] == '.' {
        let d2 = digits_end(s, d1 + 1);
        if d2 == d1 + 1 {
            return None;
        }
        d2
    } else {
        d1
    };
    let k2: usize = if k1 < s.len() && (s[k1] == 'e' || s[k1] == 'E') {
        let j2: usize = if k1 + 1 < s.len() && (s[k1 + 1] == '+' || s[k1 + 1] == '-') {
            k1 + 2
        } else {
            k1 + 1
        };
        let d3 = digits_end(s, j2);
        if d3 == j2 {
            return None;
        }
        d3
    } else {
        k1
    };
    let text = copy_range(s, i, k2);
    Some((Json::Num(string_from_chars(&text)), k2))
}

// ---------------------------------------------------------------------------
// Values, arrays, objects
// ---------------------------------------------------------------------------

/// Parses one JSON value beginning at `i`, leading whitespace allowed.
pub open spec fn spec_parse_value(s: Seq<char>, i: int) -> Option<(JsonV, int)>
    decreases s.len() - i, 0int,
    when 0 <= i <= s.len()
    via spec_parse_value_dec
{
    let j = spec_skip_ws(s, i);
    if j >= s.len() {
        None
    } else {
        let c = s[j];
        if c == '{' {
            let a = spec_skip_ws(s, j + 1);
            if a < s.len() && s[a] == '}' {
                Some((JsonV::Obj(Seq::empty()), a + 1))
            } else {
                match spec_parse_pairs(s, j + 1) {
                    Some((ms, k)) => Some((JsonV::Obj(ms), k)),
                    None => None,
                }
            }
        } else if c == '[' {
            let a = spec_skip_ws(s, j + 1);
            if a < s.len() && s[a] == ']' {
                Some((JsonV::Arr(Seq::empty()), a + 1))
            } else {
                match spec_parse_items(s, j + 1) {
                    Some((vs, k)) => Some((JsonV::Arr(vs), k)),
                    None => None,
                }
            }
        } else if c == '"' {
            match spec_parse_str_body(s, j + 1, Seq::empty()) {
                Some((cs, k)) => Some((JsonV::Str(cs), k)),
                None => None,
            }
        } else if c == 't' {
            if j + 4 <= s.len() && s[j + 1] == 'r' && s[j + 2] == 'u' && s[j + 3] == 'e' {
                Some((JsonV::Bool(true), j + 4))
            } else {
                None
            }
        } else if c == 'f' {
            if j + 5 <= s.len() && s[j + 1] == 'a' && s[j + 2] == 'l' && s[j + 3] == 's' && s[j + 4]
                == 'e' {
                Some((JsonV::Bool(false), j + 5))
            } else {
                None
            }
        } else if c == 'n' {
            if j + 4 <= s.len() && s[j + 1] == 'u' && s[j + 2] == 'l' && s[j + 3] == 'l' {
                Some((JsonV::Null, j + 4))
            } else {
                None
            }
        } else if c == '-' || is_digit(c) {
            spec_parse_number(s, j)
        } else {
            None
        }
    }
}

/// Parses the members of an array from the first element on, up to and
/// including the closing bracket.
pub open spec fn spec_parse_items(s: Seq<char>, i: int) -> Option<(Seq<JsonV>, int)>
    decreases s.len() - i, 1int,
    when 0 <= i <= s.len()
    via spec_parse_items_dec
{
    match spec_parse_value(s, i) {
        None => None,
        Some((v, k)) => if !(i < k <= s.len()) {
            None
        } else {
            let m = spec_skip_ws(s, k);
            if m >= s.len() {
                None
            } else if s[m] == ']' {
                Some((seq![v], m + 1))
            } else if s[m] == ',' {
                match spec_parse_items(s, m + 1) {
                    None => None,
                    Some((rest, k2)) => Some((seq![v] + rest, k2)),
                }
            } else {
                None
            }
        },
    }
}

/// Parses the members of an object from the first key on, up to and
/// including the closing brace.
pub open spec fn spec_parse_pairs(s: Seq<char>, i: int) -> Option<
    (Seq<(Seq<char>, JsonV)>, int),
>
    decreases s.len() - i, 1int,
    when 0 <= i <= s.len()
    via spec_parse_pairs_dec
{
    let j = spec_skip_ws(s, i);
    if j >= s.len() || s[j] != '"' {
        None
    } else {
        match spec_parse_str_body(s, j + 1, Seq::empty()) {
            None => None,
            Some((key, k)) => if !(j + 1 < k <= s.len()) {
                None
            } else {
                let m = spec_skip_ws(s, k);
                if m >= s.len() || s[m] != ':' {
                    None
                } else {
                    match spec_parse_value(s, m + 1) {
                        None => None,
                        Some((v, k2)) => if !(m + 1 < k2 <= s.len()) {
                            None
                        } else {
                            let m2 = spec_skip_ws(s, k2);
                            if m2 >= s.len() {
                                None
                            } else if s[m2] == '}' {
                                Some((seq![(key, v)], m2 + 1))
                            } else if s[m2] == ',' {
                                match spec_parse_pairs(s, m2 + 1) {
                                    None => None,
                                    Some((rest, k3)) => Some((seq![(key, v)] + rest, k3)),
                                }
                            } else {
                                None
                            }
                        },
                    }
                }
            },
        }
    }
}

#[via_fn]
proof fn spec_parse_value_dec(s: Seq<char>, i: int) {
    assert forall|p: int| 0 <= p <= s.len() implies p <= #[trigger] spec_skip_ws(s, p)
        <= s.len() by {
        lemma_skip_ws_bounds(s, p);
    }
}

#[via_fn]
proof fn spec_parse_items_dec(s: Seq<char>, i: int) {
    assert forall|p: int| 0 <= p <= s.len() implies p <= #[trigger] spec_skip_ws(s, p)
        <= s.len() by {
        lemma_skip_ws_bounds(s, p);
    }
}

#[via_fn]
proof fn spec_parse_pairs_dec(s: Seq<char>, i: int) {
    assert forall|p: int| 0 <= p <= s.len() implies p <= #[trigger] spec_skip_ws(s, p)
        <= s.len() by {
        lemma_skip_ws_bounds(s, p);
    }
}

pub fn parse_value(s: &Vec<char>, i: usize) -> (r: Option<(Json, usize)>)
    requires
        i <= s@.len(),
    ensures
        match r {
            Some(p) => spec_parse_value(s@, i as int) == Some((jview(p.0), p.1 as int)) && i < p.1
                <= s@.len(),
            None => spec_parse_value(s@, i as int) is None,
        },
    decreases s@.len() - i, 0int,
{
    let j = skip_ws(s, i);
    if j >= s.len() {
        return None;
    }
    let c = s[j];
    if c == '{' {
        let a = skip_ws(s, j + 1);
        if a < s.len() && s[a] == '}' {
            let empty: Vec<(String, Json)> = Vec::new();
            proof {
                assert(views_of_pairs(empty@) =~= Seq::<(Seq<char>, JsonV)>::empty());
            }
            return Some((Json::Obj(empty), a + 1));
        }
        match parse_pairs(s, j + 1) {
            None => None,
            Some((ms, k)) => Some((Json::Obj(ms), k)),
        }
    } else if c == '[' {
        let a = skip_ws(s, j + 1);
        if a < s.len() && s[a] == ']' {
            let empty: Vec<Json> = Vec::new();
            proof {
                assert(views_of(empty@) =~= Seq::<JsonV>::empty());
            }
            return Some((Json::Arr(empty), a + 1));
        }
        match parse_items(s, j + 1) {
            None => None,
            Some((vs, k)) => Some((Json::Arr(vs), k)),
        }
    } else if c == '"' {
        match parse_str_body(s, j + 1) {
            None => None,
            Some((cs, k)) => Some((Json::Str(string_from_chars(&cs)), k)),
        }
    } else if c == 't' {
        if s.len() - j >= 4 && s[j + 1] == 'r' && s[j + 2] == 'u' && s[j + 3] == 'e' {
            Some((Json::Bool(true), j + 4))
        } else {
            None
        }
    } else if c == 'f' {
        if s.len() - j >= 5 && s[j + 1] == 'a' && s[j + 2] == 'l' && s[j + 3] == 's' && s[j + 4]
            == 'e' {
            Some((Json::Bool(false), j + 5))
        } else {
            None
        }
    } else if c == 'n' {
        if s.len() - j >= 4 && s[j + 1] == 'u' && s[j + 2] == 'l' && s[j + 3] == 'l' {
            Some((Json::Null, j + 4))
        } else {
            None
        }
    } else if c == '-' || char_digit_val(c) >= 0 {
        parse_number(s, j)
    } else {
        None
    }
}

fn parse_items(s: &Vec<char>, i: usize) -> (r: Option<(Vec<Json>, usize)>)
    requires
        i <= s@.len(),
    ensures
        match r {
            Some(p) => spec_parse_items(s@, i as int) == Some((views_of(p.0@), p.1 as int)) && i
                < p.1 <= s@.len(),
            None => spec_parse_items(s@, i as int) is None,
        },
    decreases s@.len() - i, 1int,
{
    match parse_value(s, i) {
        None => None,
        Some((v, k)) => {
            let m = skip_ws(s, k);
            if m >= s.len() {
                return None;
            }
            if s[m] == ']' {
                let mut out: Vec<Json> = Vec::new();
                out.push(v);
                proof {
                    assert(views_of(out@) =~= seq![jview(v)]);
                }
                Some((out, m + 1))
            } else if s[m] == ',' {
                match parse_items(s, m + 1) {
                    None => None,
                    Some((rest, k2)) => {
                        let ghost rest0 = rest@;
                        let mut out = rest;
                        out.insert(0, v);
                        proof {
                            assert(views_of(out@) =~= seq![jview(v)] + views_of(rest0));
                        }
                        Some((out, k2))
                    },
                }
            } else {
                None
            }
        },
    }
}

fn parse_pairs(s: &Vec<char>, i: usize) -> (r: Option<(Vec<(String, Json)>, usize)>)
    requires
        i <= s@.len(),
    ensures
        match r {
            Some(p) => spec_parse_pairs(s@, i as int) == Some(
                (views_of_pairs(p.0@), p.1 as int),
            ) && i < p.1 <= s@.len(),
            None => spec_parse_pairs(s@, i as int) is None,
        },
    decreases s@.len() - i, 1int,
{
    let j = skip_ws(s, i);
    if j >= s.len() {
        return None;
    }
    if s[j] != '"' {
        return None;
    }
    match parse_str_body(s, j + 1) {
        None => None,
        Some((kcs, k)) => {
            let m = skip_ws(s, k);
            if m >= s.len() {
                return None;
            }
            if s[m] != ':' {
                return None;
            }
            match parse_value(s, m + 1) {
                None => None,
                Some((v, k2)) => {
                    let m2 = skip_ws(s, k2);
                    if m2 >= s.len() {
                        return None;
                    }
                    if s[m2] == '}' {
                        let key = string_from_chars(&kcs);
                        let mut out: Vec<(String, Json)> = Vec::new();
                        out.push((key, v));
                        proof {
                            assert(views_of_pairs(out@) =~= seq![(kcs@, jview(v))]);
                        }
                        Some((out, m2 + 1))
                    } else if s[m2] == ',' {
                        match parse_pairs(s, m2 + 1) {
                            None => None,
                            Some((rest, k3)) => {
                                let key = string_from_chars(&kcs);
                                let ghost rest0 = rest@;
                                let mut out = rest;
                                out.insert(0, (key, v));
                                proof {
                                    assert(views_of_pairs(out@) =~= seq![(kcs@, jview(v))]
                                        + views_of_pairs(rest0));
                                }
                                Some((out, k3))
                            },
                        }
                    } else {
                        None
                    }
                },
            }
        },
    }
}

// ---------------------------------------------------------------------------
// Whole documents
// ---------------------------------------------------------------------------

/// The JSON document that `s` holds: one value with nothing but whitespace
/// around it, or nothing at all if `s` is malformed.
pub open spec fn spec_parse_json(s: Seq<char>) -> Option<JsonV> {
    match spec_parse_value(s, 0) {
        None => None,
        Some((v, k)) => if 0 <= k <= s.len() && spec_skip_ws(s, k) == s.len() {
            Some(v)
        } else {
            None
        },
    }
}

/// Parses a complete JSON document.
pub fn parse_json_text(body: &str) -> (r: Option<Json>)
    ensures
        match r {
            Some(v) => spec_parse_json(body@) == Some(jview(v)),
            None => spec_parse_json(body@) is None,
        },
{
    let chars = chars_of(body);
    match parse_value(&chars, 0) {
        None => None,
        Some((v, k)) => {
            let e = skip_ws(&chars, k);
            if e == chars.len() {
                Some(v)
            } else {
                None
            }
        },
    }
}

} // verus!
