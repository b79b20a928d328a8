//! Character-level text utilities shared by the configuration codec and
//! the transport helpers: string/character conversions, literal matching,
//! and a verified decimal codec for unsigned and signed integers.
use vstd::prelude::*;

verus! {

/// Collects the characters of a string slice into a vector.
pub fn chars_vec(s: &str) -> (r: Vec<char>)
    ensures
        r@ == s@,
{
    let n = s.unicode_len();
    let mut v: Vec<char> = Vec::new();
    let mut i: usize = 0;
    while i < n
        invariant
            n == s@.len(),
            i <= n,
            v@ == s@.subrange(0, i as int),
        decreases n - i,
    {
        v.push(s.get_char(i));
        proof {
            assert(s@.subrange(0, i + 1) =~= s@.subrange(0, i as int).push(s@[i as int]));
        }
        i += 1;
    }
    proof {
        assert(v@ =~= s@);
    }
    v
}

/// Relies on `String::push`: appends exactly one character at the end.
#[verifier::external_body]
pub fn push_char(s: &mut String, c: char)
    ensures
        final(s)@ == old(s)@.push(c),
{
    s.push(c)
}

/// Builds a string whose characters are exactly those of `v`.
pub fn string_from_chars(v: &Vec<char>) -> (r: String)
    ensures
        r@ == v@,
{
    let mut s = String::new();
    let mut i: usize = 0;
    while i < v.len()
        invariant
            i <= v@.len(),
            s@ == v@.subrange(0, i as int),
        decreases v@.len() - i,
    {
        push_char(&mut s, v[i]);
        proof {
            assert(v@.subrange(0, i + 1) =~= v@.subrange(0, i as int).push(v@[i as int]));
        }
        i += 1;
    }
    proof {
        assert(s@ =~= v@);
    }
    s
}

/// Compares two string slices character by character.
pub fn str_eq(a: &str, b: &str) -> (r: bool)
    ensures
        r == (a@ == b@),
{
    let na = a.unicode_len();
    let nb = b.unicode_len();
    if na != nb {
        return false;
    }
    let mut i: usize = 0;
    while i < na
        invariant
            na == a@.len(),
            nb == b@.len(),
            na == nb,
            i <= na,
            forall|j: int| 0 <= j < i ==> a@[j] == b@[j],
        decreases na - i,
    {
        if a.get_char(i) != b.get_char(i) {
            return false;
        }
        i += 1;
    }
    proof {
        assert(a@ =~= b@);
    }
    true
}

/// Whether the characters of `lit` occur in `s` starting at index `at`.
pub open spec fn spec_matches_at(s: Seq<char>, at: int, lit: Seq<char>) -> bool {
    &&& 0 <= at
    &&& at + lit.len() <= s.len()
    &&& s.subrange(at, at + lit.len()) == lit
}

/// Checks whether the literal `lit` occurs in `v` starting at index `at`.
pub fn matches_at(v: &Vec<char>, at: usize, lit: &str) -> (r: bool)
    ensures
        r == spec_matches_at(v@, at as int, lit@),
{
    let n = lit.unicode_len();
    let vn = v.len();
    if at > vn || n > vn - at {
        return false;
    }
    let mut i: usize = 0;
    while i < n
        invariant
            n == lit@.len(),
            vn == v@.len(),
            at + n <= vn,
            i <= n,
            forall|j: int| 0 <= j < i ==> v@[at + j] == lit@[j],
        decreases n - i,
    {
        if v[at + i] != lit.get_char(i) {
            proof {
                assert(v@.subrange(at as int, at + lit@.len())[i as int] == v@[at + i]);
            }
            return false;
        }
        i += 1;
    }
    proof {
        assert(v@.subrange(at as int, at + lit@.len()) =~= lit@);
    }
    true
}

/// Appends all characters of `add` to `out`.
pub fn extend_chars(out: &mut Vec<char>, add: &Vec<char>)
    ensures
        final(out)@ == old(out)@ + add@,
{
    let mut i: usize = 0;
    while i < add.len()
        invariant
            i <= add@.len(),
            out@ == old(out)@ + add@.subrange(0, i as int),
        decreases add@.len() - i,
    {
        out.push(add[i]);
        proof {
            assert(add@.subrange(0, i + 1) =~= add@.subrange(0, i as int).push(add@[i as int]));
            assert(old(out)@ + add@.subrange(0, i + 1) =~= (old(out)@ + add@.subrange(
                0,
                i as int,
            )).push(add@[i as int]));
        }
        i += 1;
    }
    proof {
        assert(add@.subrange(0, add@.len() as int) =~= add@);
    }
}

/// Appends the characters of the string slice `add` to `out`.
pub fn extend_str(out: &mut Vec<char>, add: &str)
    ensures
        final(out)@ == old(out)@ + add@,
{
    let cs = chars_vec(add);
    extend_chars(out, &cs);
}

pub open spec fn is_digit_char(c: char) -> bool {
    48 <= c as u32 <= 57
}

pub open spec fn digit_val(c: char) -> int {
    c as u32 - 48
}

pub open spec fn digit_char(d: int) -> char {
    if d == 0 {
        '0'
    } else if d == 1 {
        '1'
    } else if d == 2 {
        '2'
    } else if d == 3 {
        '3'
    } else if d == 4 {
        '4'
    } else if d == 5 {
        '5'
    } else if d == 6 {
        '6'
    } else if d == 7 {
        '7'
    } else if d == 8 {
        '8'
    } else {
        '9'
    }
}

proof fn lemma_digit_char_val(d: int)
    requires
        0 <= d < 10,
    ensures
        is_digit_char(digit_char(d)),
        digit_val(digit_char(d)) == d,
{
}

fn is_digit(c: char) -> (r: bool)
    ensures
        r == is_digit_char(c),
{
    let u = c as u32;
    48 <= u && u <= 57
}

fn digit_of(c: char) -> (r: u64)
    requires
        is_digit_char(c),
    ensures
        r == digit_val(c),
        r < 10,
{
    (c as u32 - 48) as u64
}

fn digit_to_char(d: u64) -> (r: char)
    requires
        d < 10,
    ensures
        r == digit_char(d as int),
{
    if d == 0 {
        '0'
    } else if d == 1 {
        '1'
    } else if d == 2 {
        '2'
    } else if d == 3 {
        '3'
    } else if d == 4 {
        '4'
    } else if d == 5 {
        '5'
    } else if d == 6 {
        '6'
    } else if d == 7 {
        '7'
    } else if d == 8 {
        '8'
    } else {
        '9'
    }
}

/// The decimal digits of `n`, most significant first.
pub open spec fn dec_digits(n: nat) -> Seq<char>
    decreases n,
{
    if n < 10 {
        seq![digit_char(n as int)]
    } else {
        dec_digits(n / 10).push(digit_char((n % 10) as int))
    }
}

proof fn lemma_dec_digits_are_digits(n: nat)
    ensures
        dec_digits(n).len() >= 1,
        forall|i: int| 0 <= i < dec_digits(n).len() ==> is_digit_char(#[trigger] dec_digits(n)[i]),
    decreases n,
{
    if n < 10 {
        lemma_digit_char_val(n as int);
    } else {
        lemma_dec_digits_are_digits(n / 10);
        lemma_digit_char_val((n % 10) as int);
    }
}

pub open spec fn pow10(k: nat) -> nat
    decreases k,
{
    if k == 0 {
        1
    } else {
        10 * pow10((k - 1) as nat)
    }
}

/// Greedy decimal accumulation: consumes leading digits, failing on
/// overflow past `u64::MAX`.
pub open spec fn spec_parse_u64_rec(s: Seq<char>, acc: nat) -> Option<(nat, Seq<char>)>
    decreases s.len(),
{
    if s.len() > 0 && is_digit_char(s[0]) {
        let v = acc * 10 + digit_val(s[0]);
        if v > u64::MAX {
            None
        } else {
            spec_parse_u64_rec(s.drop_first(), v as nat)
        }
    } else {
        Some((acc, s))
    }
}

/// A decimal number: at least one digit, greedily consumed.
pub open spec fn spec_parse_u64(s: Seq<char>) -> Option<(nat, Seq<char>)> {
    if s.len() > 0 && is_digit_char(s[0]) {
        spec_parse_u64_rec(s, 0)
    } else {
        None
    }
}

proof fn lemma_parse_append(n: nat, rest: Seq<char>, acc: nat)
    requires
        n <= u64::MAX,
        acc * pow10(dec_digits(n).len() as nat) + n <= u64::MAX,
    ensures
        spec_parse_u64_rec(dec_digits(n) + rest, acc) == spec_parse_u64_rec(
            rest,
            (acc * pow10(dec_digits(n).len() as nat) + n) as nat,
        ),
    decreases n,
{
    lemma_dec_digits_are_digits(n);
    if n < 10 {
        let s = dec_digits(n) + rest;
        lemma_digit_char_val(n as int);
        assert(s[0] == digit_char(n as int));
        assert(pow10(0) == 1);
        assert(pow10(1) == 10);
        let v = acc * 10 + n;
        assert(v <= u64::MAX);
        assert(s.drop_first() =~= rest);
    } else {
        let c = digit_char((n % 10) as int);
        lemma_digit_char_val((n % 10) as int);
        let l = dec_digits(n / 10).len() as nat;
        assert(dec_digits(n) == dec_digits(n / 10).push(c));
        assert(dec_digits(n).len() == l + 1);
        assert(pow10(l + 1) == 10 * pow10(l));
        let target = acc * pow10(l + 1) + n;
        let acc2 = acc * pow10(l) + n / 10;
        assert(acc2 * 10 + n % 10 == target) by (nonlinear_arith)
            requires
                acc2 == acc * pow10(l) + n / 10,
                target == acc * pow10(l + 1) + n,
                pow10(l + 1) == 10 * pow10(l),
                n >= 10,
        ;
        assert(acc2 <= acc2 * 10) by (nonlinear_arith)
            requires
                acc2 >= 0,
        ;
        assert(acc2 <= u64::MAX);
        assert(dec_digits(n) + rest =~= dec_digits(n / 10) + (seq![c] + rest));
        lemma_parse_append(n / 10, seq![c] + rest, acc);
        let s2 = seq![c] + rest;
        assert(s2[0] == c);
        assert(is_digit_char(c));
        assert(acc2 * 10 + digit_val(c) == target);
        assert(s2.drop_first() =~= rest);
        assert(spec_parse_u64_rec(s2, acc2) == spec_parse_u64_rec(rest, target));
    }
}

/// Parsing the rendered digits of `n`, followed by anything that does not
/// begin with a digit, yields `n` back and leaves the rest untouched.
pub proof fn lemma_u64_round_trip(n: u64, rest: Seq<char>)
    requires
        rest.len() == 0 || !is_digit_char(rest[0]),
    ensures
        spec_parse_u64(dec_digits(n as nat) + rest) == Some((n as nat, rest)),
{
    lemma_dec_digits_are_digits(n as nat);
    let s = dec_digits(n as nat) + rest;
    assert(s[0] == dec_digits(n as nat)[0]);
    assert(0 * pow10(dec_digits(n as nat).len() as nat) == 0) by (nonlinear_arith);
    lemma_parse_append(n as nat, rest, 0);
    assert(spec_parse_u64_rec(rest, n as nat) == Some((n as nat, rest)));
}

/// Renders `n` in decimal.
pub fn render_u64(n: u64) -> (r: Vec<char>)
    ensures
        r@ == dec_digits(n as nat),
{
    let mut r: Vec<char> = Vec::new();
    r.push(digit_to_char(n % 10));
    let mut m: u64 = n / 10;
    proof {
        if n >= 10 {
            assert(dec_digits(n as nat) =~= dec_digits((n / 10) as nat) + r@);
        } else {
            assert(dec_digits(n as nat) =~= r@);
        }
    }
    while m > 0
        invariant
            m > 0 ==> dec_digits(n as nat) == dec_digits(m as nat) + r@,
            m == 0 ==> dec_digits(n as nat) == r@,
        decreases m,
    {
        let ghost m0 = m as nat;
        let ghost r0 = r@;
        let d = digit_to_char(m % 10);
        r.insert(0, d);
        proof {
            assert(r@ =~= seq![d] + r0);
        }
        m = m / 10;
        proof {
            if m0 < 10 {
                assert(dec_digits(m0) =~= seq![d]);
                assert(dec_digits(n as nat) =~= r@);
            } else {
                assert(dec_digits(m0) =~= dec_digits(m0 / 10).push(d));
                assert(dec_digits(m0) + r0 =~= dec_digits(m0 / 10) + (seq![d] + r0));
                assert(dec_digits(n as nat) == dec_digits(m as nat) + r@);
            }
        }
    }
    r
}

/// Appends the decimal rendering of `n` to `out`.
pub fn write_u64(out: &mut Vec<char>, n: u64)
    ensures
        final(out)@ == old(out)@ + dec_digits(n as nat),
{
    let digits = render_u64(n);
    extend_chars(out, &digits);
}

/// Parses a decimal `u64` in `v` starting at `at`; on success returns the
/// value and the index just past the digits consumed.
pub fn parse_u64_at(v: &Vec<char>, at: usize) -> (r: Option<(u64, usize)>)
    requires
        at <= v@.len(),
    ensures
        match r {
            Some((x, p)) => at <= p <= v@.len() && spec_parse_u64(v@.skip(at as int)) == Some(
                (x as nat, v@.skip(p as int)),
            ),
            None => spec_parse_u64(v@.skip(at as int)) is None,
        },
{
    let vn = v.len();
    if at == vn || !is_digit(v[at]) {
        proof {
            if at < vn {
                assert(v@.skip(at as int)[0] == v@[at as int]);
            }
        }
        return None;
    }
    proof {
        assert(v@.skip(at as int)[0] == v@[at as int]);
    }
    let mut p = at;
    let mut acc: u64 = 0;
    while p < vn && is_digit(v[p])
        invariant
            at <= p <= vn,
            vn == v@.len(),
            p < vn ==> v@.skip(p as int)[0] == v@[p as int],
            spec_parse_u64_rec(v@.skip(at as int), 0) == spec_parse_u64_rec(
                v@.skip(p as int),
                acc as nat,
            ),
        decreases vn - p,
    {
        let d = digit_of(v[p]);
        if acc > (u64::MAX - d) / 10 {
            proof {
                assert(acc * 10 + d > u64::MAX) by (nonlinear_arith)
                    requires
                        acc > (u64::MAX - d) / 10,
                        d < 10,
                        acc >= 0,
                ;
            }
            return None;
        }
        proof {
            assert(acc * 10 + d <= u64::MAX) by (nonlinear_arith)
        requires
            acc <= (u64::MAX - d) / 10,
            d < 10,
            acc >= 0,
            ;
            assert(v@.skip(p as int).drop_first() =~= v@.skip(p + 1));
        }
        acc = acc * 10 + d;
        p += 1;
        proof {
            if p < vn {
                assert(v@.skip(p as int)[0] == v@[p as int]);
            }
        }
    }
    Some((acc, p))
}

/// The decimal digits of `n`, with a leading minus sign when negative.
pub open spec fn dec_digits_i64(n: int) -> Seq<char> {
    if n < 0 {
        seq!['-'] + dec_digits((-n) as nat)
    } else {
        dec_digits(n as nat)
    }
}

/// An optionally negated decimal number within the range of `i64`.
pub open spec fn spec_parse_i64(s: Seq<char>) -> Option<(int, Seq<char>)> {
    if s.len() > 0 && s[0] == '-' {
        match spec_parse_u64(s.drop_first()) {
            Some((m, rest)) => if 1 <= m <= 0x8000000000000000 {
                Some((-(m as int), rest))
            } else {
                None
            },
            None => None,
        }
    } else {
        match spec_parse_u64(s) {
            Some((m, rest)) => if m <= i64::MAX {
                Some((m as int, rest))
            } else {
                None
            },
            None => None,
        }
    }
}

/// Parsing the rendered digits of a signed `n` inverts the rendering.
pub proof fn lemma_i64_round_trip(n: i64, rest: Seq<char>)
    requires
        rest.len() == 0 || !is_digit_char(rest[0]),
    ensures
        spec_parse_i64(dec_digits_i64(n as int) + rest) == Some((n as int, rest)),
{
    if n < 0 {
        let mag = (-(n as int)) as nat;
        let s = dec_digits_i64(n as int) + rest;
        assert(s[0] == '-');
        assert(s.drop_first() =~= dec_digits(mag as u64 as nat) + rest);
        lemma_u64_round_trip(mag as u64, rest);
    } else {
        lemma_dec_digits_are_digits(n as nat);
        let s = dec_digits_i64(n as int) + rest;
        assert(s[0] == dec_digits(n as nat)[0]);
        assert(s[0] != '-');
        assert(s =~= dec_digits(n as nat) + rest);
        lemma_u64_round_trip(n as u64, rest);
    }
}

/// Renders `n` in signed decimal.
pub fn render_i64(n: i64) -> (r: Vec<char>)
    ensures
        r@ == dec_digits_i64(n as int),
{
    let mut r: Vec<char> = Vec::new();
    if n < 0 {
        r.push('-');
        let mag_wide: i128 = -(n as i128);
        let mag: u64 = mag_wide as u64;
        proof {
            assert(mag == -(n as int));
        }
        let digits = render_u64(mag);
        extend_chars(&mut r, &digits);
        proof {
            assert(r@ =~= seq!['-'] + dec_digits(mag as nat));
        }
    } else {
        let digits = render_u64(n as u64);
        extend_chars(&mut r, &digits);
        proof {
            assert(r@ =~= dec_digits(n as nat));
        }
    }
    r
}

/// Appends the signed decimal rendering of `n` to `out`.
pub fn write_i64(out: &mut Vec<char>, n: i64)
    ensures
        final(out)@ == old(out)@ + dec_digits_i64(n as int),
{
    let digits = render_i64(n);
    extend_chars(out, &digits);
}

/// Parses an optionally negated decimal `i64` in `v` starting at `at`.
pub fn parse_i64_at(v: &Vec<char>, at: usize) -> (r: Option<(i64, usize)>)
    requires
        at <= v@.len(),
    ensures
        match r {
            Some((x, p)) => at <= p <= v@.len() && spec_parse_i64(v@.skip(at as int)) == Some(
                (x as int, v@.skip(p as int)),
            ),
            None => spec_parse_i64(v@.skip(at as int)) is None,
        },
{
    let vn = v.len();
    if at < vn && v[at] == '-' {
        proof {
            assert(v@.skip(at as int)[0] == v@[at as int]);
            assert(v@.skip(at as int).drop_first() =~= v@.skip(at + 1));
        }
        match parse_u64_at(v, at + 1) {
            Some((m, p)) => {
                if 1 <= m && m <= 0x8000000000000000 {
                    let x: i64 = if m == 0x8000000000000000 {
                        i64::MIN
                    } else {
                        -(m as i64)
                    };
                    Some((x, p))
                } else {
                    None
                }
            },
            None => None,
        }
    } else {
        proof {
            if at < vn {
                assert(v@.skip(at as int)[0] == v@[at as int]);
            }
        }
        match parse_u64_at(v, at) {
            Some((m, p)) => {
                if m <= i64::MAX as u64 {
                    Some((m as i64, p))
                } else {
                    None
                }
            },
            None => None,
        }
    }
}

/// The escaped form of one character inside a JSON string literal: quote
/// and backslash take a backslash escape, everything else stands as is.
pub open spec fn esc_char(c: char) -> Seq<char> {
    if c == '"' {
        seq!['\\', '"']
    } else if c == '\\' {
        seq!['\\', '\\']
    } else {
        seq![c]
    }
}

/// The escaped form of a whole string body.
pub open spec fn esc_str(s: Seq<char>) -> Seq<char>
    decreases s.len(),
{
    if s.len() == 0 {
        Seq::empty()
    } else {
        esc_char(s[0]) + esc_str(s.drop_first())
    }
}

/// A JSON string literal: quoted, escaped body.
pub open spec fn json_string(s: Seq<char>) -> Seq<char> {
    seq!['"'] + esc_str(s) + seq!['"']
}

proof fn lemma_esc_str_push(s: Seq<char>, c: char)
    ensures
        esc_str(s.push(c)) == esc_str(s) + esc_char(c),
    decreases s.len(),
{
    if s.len() == 0 {
        assert(s.push(c) =~= seq![c]);
        assert(esc_str(s.push(c)) == esc_char(s.push(c)[0]) + esc_str(s.push(c).drop_first()));
        assert(s.push(c)[0] == c);
        assert(s.push(c).drop_first() =~= Seq::<char>::empty());
        assert(esc_str(Seq::<char>::empty()) == Seq::<char>::empty());
        assert(esc_char(c) + Seq::<char>::empty() =~= esc_char(c));
        assert(esc_str(s) + esc_char(c) =~= esc_char(c));
    } else {
        assert(s.push(c)[0] == s[0]);
        assert(s.push(c).drop_first() =~= s.drop_first().push(c));
        lemma_esc_str_push(s.drop_first(), c);
        assert(esc_char(s[0]) + (esc_str(s.drop_first()) + esc_char(c)) =~= (esc_char(s[0])
            + esc_str(s.drop_first())) + esc_char(c));
    }
}

/// Appends the JSON string literal for `s` to `out`.
pub fn write_json_string(out: &mut Vec<char>, s: &str)
    ensures
        final(out)@ == old(out)@ + json_string(s@),
{
    let cs = chars_vec(s);
    out.push('"');
    let mut i: usize = 0;
    while i < cs.len()
        invariant
            cs@ == s@,
            i <= cs@.len(),
            out@ == old(out)@ + seq!['"'] + esc_str(s@.subrange(0, i as int)),
        decreases cs@.len() - i,
    {
        let ghost pre = s@.subrange(0, i as int);
        let c = cs[i];
        if c == '"' || c == '\\' {
            out.push('\\');
        }
        out.push(c);
        proof {
            lemma_esc_str_push(pre, c);
            assert(s@.subrange(0, i + 1) =~= pre.push(s@[i as int]));
            assert(out@ =~= old(out)@ + seq!['"'] + esc_str(s@.subrange(0, i + 1)));
        }
        i += 1;
    }
    out.push('"');
    proof {
        assert(s@.subrange(0, s@.len() as int) =~= s@);
        assert(out@ =~= old(out)@ + json_string(s@));
    }
}

/// Body of a JSON string literal after the opening quote: ends at the
/// first unescaped quote; only quote and backslash escapes are known.
pub open spec fn spec_parse_jstring_rec(s: Seq<char>, acc: Seq<char>) -> Option<
    (Seq<char>, Seq<char>),
>
    decreases s.len(),
{
    if s.len() == 0 {
        None
    } else if s[0] == '"' {
        Some((acc, s.drop_first()))
    } else if s[0] == '\\' {
        if s.len() >= 2 && (s[1] == '"' || s[1] == '\\') {
            spec_parse_jstring_rec(s.skip(2), acc.push(s[1]))
        } else {
            None
        }
    } else {
        spec_parse_jstring_rec(s.drop_first(), acc.push(s[0]))
    }
}

/// A JSON string literal, yielding its unescaped body and the rest.
pub open spec fn spec_parse_jstring(s: Seq<char>) -> Option<(Seq<char>, Seq<char>)> {
    if s.len() > 0 && s[0] == '"' {
        spec_parse_jstring_rec(s.drop_first(), Seq::empty())
    } else {
        None
    }
}

proof fn lemma_jstring_rec_round_trip(t: Seq<char>, rest: Seq<char>, acc: Seq<char>)
    ensures
        spec_parse_jstring_rec(esc_str(t) + seq!['"'] + rest, acc) == Some((acc + t, rest)),
    decreases t.len(),
{
    if t.len() == 0 {
        let s = esc_str(t) + seq!['"'] + rest;
        assert(s =~= seq!['"'] + rest);
        assert(s[0] == '"');
        assert(s.drop_first() =~= rest);
        assert(acc + t =~= acc);
    } else {
        let c = t[0];
        let t2 = t.drop_first();
        let s = esc_str(t) + seq!['"'] + rest;
        assert(esc_str(t) == esc_char(c) + esc_str(t2));
        lemma_jstring_rec_round_trip(t2, rest, acc.push(c));
        assert(acc.push(c) + t2 =~= acc + t);
        if c == '"' || c == '\\' {
            assert(s =~= seq!['\\', c] + (esc_str(t2) + seq!['"'] + rest));
            assert(s[0] == '\\' && s[1] == c);
            assert(s.skip(2) =~= esc_str(t2) + seq!['"'] + rest);
        } else {
            assert(s =~= seq![c] + (esc_str(t2) + seq!['"'] + rest));
            assert(s[0] == c);
            assert(s.drop_first() =~= esc_str(t2) + seq!['"'] + rest);
        }
    }
}

/// Parsing a rendered JSON string literal inverts the rendering.
pub proof fn lemma_jstring_round_trip(t: Seq<char>, rest: Seq<char>)
    ensures
        spec_parse_jstring(json_string(t) + rest) == Some((t, rest)),
{
    let s = json_string(t) + rest;
    assert(s[0] == '"');
    assert(s.drop_first() =~= esc_str(t) + seq!['"'] + rest);
    lemma_jstring_rec_round_trip(t, rest, Seq::empty());
    assert(Seq::<char>::empty() + t =~= t);
}

/// Parses a JSON string literal in `v` starting at `at`; on success
/// returns the unescaped body and the index just past the closing quote.
pub fn parse_json_string_at(v: &Vec<char>, at: usize) -> (r: Option<(Vec<char>, usize)>)
    requires
        at <= v@.len(),
    ensures
        match r {
            Some((s, p)) => at <= p <= v@.len() && spec_parse_jstring(v@.skip(at as int)) == Some(
                (s@, v@.skip(p as int)),
            ),
            None => spec_parse_jstring(v@.skip(at as int)) is None,
        },
{
    let vn = v.len();
    if at == vn || v[at] != '"' {
        proof {
            if at < vn {
                assert(v@.skip(at as int)[0] == v@[at as int]);
            }
        }
        return None;
    }
    proof {
        assert(v@.skip(at as int)[0] == v@[at as int]);
        assert(v@.skip(at as int).drop_first() =~= v@.skip(at + 1));
    }
    let mut p = at + 1;
    let mut acc: Vec<char> = Vec::new();
    while p < vn
        invariant
            at + 1 <= p <= vn,
            vn == v@.len(),
            spec_parse_jstring(v@.skip(at as int)) == spec_parse_jstring_rec(
                v@.skip(p as int),
                acc@,
            ),
        decreases vn - p,
    {
        let c = v[p];
        proof {
            assert(v@.skip(p as int)[0] == v@[p as int]);
        }
        if c == '"' {
            proof {
                assert(v@.skip(p as int).drop_first() =~= v@.skip(p + 1));
            }
            return Some((acc, p + 1));
        } else if c == '\\' {
            if p + 1 == vn {
                return None;
            }
            let e = v[p + 1];
            proof {
                assert(v@.skip(p as int)[1] == v@[p + 1]);
            }
            if e == '"' || e == '\\' {
                proof {
                    assert(v@.skip(p as int).skip(2) =~= v@.skip(p + 2));
                }
                acc.push(e);
                p += 2;
            } else {
                return None;
            }
        } else {
            proof {
                assert(v@.skip(p as int).drop_first() =~= v@.skip(p + 1));
            }
            acc.push(c);
            p += 1;
        }
    }
    proof {
        assert(v@.skip(p as int).len() == 0);
    }
    None
}

} // verus!
