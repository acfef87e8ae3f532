//! The attribute codec: pure text transforms shared by every attribute
//! accessor. Values travel through the sysfs files as ASCII text; this module
//! states each attribute's grammar as spec functions over character sequences
//! and implements the encoders and decoders against them.

use crate::common::{Error, Polarity};
use vstd::prelude::*;

verus! {

/// The characters `str::trim` and `str::split_whitespace` treat as whitespace.
pub open spec fn is_space(c: char) -> bool {
    c == ' ' || c == '\t' || c == '\n' || c == '\r' || c == '\u{b}' || c == '\u{c}'
        || c == '\u{85}' || c == '\u{a0}' || c == '\u{1680}' || c == '\u{2000}' || c == '\u{2001}'
        || c == '\u{2002}' || c == '\u{2003}' || c == '\u{2004}' || c == '\u{2005}'
        || c == '\u{2006}' || c == '\u{2007}' || c == '\u{2008}' || c == '\u{2009}'
        || c == '\u{200a}' || c == '\u{2028}' || c == '\u{2029}' || c == '\u{202f}'
        || c == '\u{205f}' || c == '\u{3000}'
}

/// An ASCII decimal digit.
pub open spec fn is_digit(c: char) -> bool {
    48 <= c as u32 && c as u32 <= 57
}

/// Numeric value of a decimal digit character (0 on other characters).
pub open spec fn digit_val(c: char) -> nat {
    if is_digit(c) {
        (c as u32 - 48) as nat
    } else {
        0
    }
}

/// The decimal digit character for a value below ten.
pub open spec fn digit_char(d: nat) -> char {
    if d == 0 {
        '0'
    } else if d == 1 {
        '1'
    } else if d == 2 {
        '2'
    } else if d == 3 {
        '3'
    } else if d == 4 {
        '4'
    } else if d == 5 {
        '5'
    } else if d == 6 {
        '6'
    } else if d == 7 {
        '7'
    } else if d == 8 {
        '8'
    } else {
        '9'
    }
}

/// Value of a digit string read as a decimal numeral.
pub open spec fn digits_val(s: Seq<char>) -> nat
    decreases s.len(),
{
    if s.len() == 0 {
        0
    } else {
        digits_val(s.drop_last()) * 10 + digit_val(s.last())
    }
}

pub open spec fn all_digits(s: Seq<char>) -> bool {
    forall|i: int| 0 <= i < s.len() ==> is_digit(#[trigger] s[i])
}

/// Decimal rendering of an unsigned value: no sign, no separators, no leading
/// zeros (a lone zero for the value zero).
pub open spec fn u32_dec_spec(v: nat) -> Seq<char>
    decreases v,
{
    if v < 10 {
        seq![digit_char(v)]
    } else {
        u32_dec_spec(v / 10).push(digit_char(v % 10))
    }
}

/// A digit string prefix read as a numeral never exceeds the whole numeral.
proof fn lemma_digits_val_mono(s: Seq<char>, j: int, k: int)
    requires
        0 <= j <= k <= s.len(),
    ensures
        digits_val(s.take(j)) <= digits_val(s.take(k)),
    decreases k - j,
{
    if j < k {
        lemma_digits_val_mono(s, j, k - 1);
        assert(s.take(k).drop_last() =~= s.take(k - 1));
        assert(digits_val(s.take(k)) == digits_val(s.take(k - 1)) * 10 + digit_val(
            s.take(k).last(),
        ));
    }
}

/// Leading whitespace stripped.
pub open spec fn trim_left(s: Seq<char>) -> Seq<char>
    decreases s.len(),
{
    if s.len() > 0 && is_space(s[0]) {
        trim_left(s.drop_first())
    } else {
        s
    }
}

/// Trailing whitespace stripped.
pub open spec fn trim_right(s: Seq<char>) -> Seq<char>
    decreases s.len(),
{
    if s.len() > 0 && is_space(s.last()) {
        trim_right(s.drop_last())
    } else {
        s
    }
}

/// Surrounding whitespace stripped, as `str::trim` strips it.
pub open spec fn trim_spec(s: Seq<char>) -> Seq<char> {
    trim_right(trim_left(s))
}

proof fn lemma_trim_left_at(s: Seq<char>, a: int)
    requires
        0 <= a <= s.len(),
        forall|k: int| 0 <= k < a ==> is_space(#[trigger] s[k]),
        a == s.len() || !is_space(s[a]),
    ensures
        trim_left(s) =~= s.skip(a),
    decreases a,
{
    if a == 0 {
        assert(s.skip(0) =~= s);
    } else {
        assert(is_space(s[0]));
        assert(s.drop_first() =~= s.skip(1));
        lemma_trim_left_at(s.skip(1), a - 1);
        assert(s.skip(1).skip(a - 1) =~= s.skip(a));
    }
}

proof fn lemma_trim_right_at(s: Seq<char>, b: int)
    requires
        0 <= b <= s.len(),
        forall|k: int| b <= k < s.len() ==> is_space(#[trigger] s[k]),
        b == 0 || !is_space(s[b - 1]),
    ensures
        trim_right(s) =~= s.take(b),
    decreases s.len() - b,
{
    if b == s.len() {
        assert(s.take(b) =~= s);
    } else {
        assert(is_space(s.last()));
        assert(s.drop_last() =~= s.take(s.len() - 1));
        lemma_trim_right_at(s.take(s.len() - 1), b);
        assert(s.take(s.len() - 1).take(b) =~= s.take(b));
    }
}

/// A string of non-whitespace characters is its own trimming.
proof fn lemma_trim_no_space(s: Seq<char>)
    requires
        forall|k: int| 0 <= k < s.len() ==> !is_space(#[trigger] s[k]),
    ensures
        trim_spec(s) == s,
{
    lemma_trim_left_at(s, 0);
    assert(s.skip(0) =~= s);
    lemma_trim_right_at(s, s.len() as int);
    assert(s.take(s.len() as int) =~= s);
}

/// One optional leading plus sign stripped, as `u32::from_str` accepts it.
pub open spec fn strip_sign(t: Seq<char>) -> Seq<char> {
    if t.len() > 0 && t[0] == '+' {
        t.drop_first()
    } else {
        t
    }
}

/// What `str::parse::<u32>` yields on a whitespace-free token: an optional
/// plus sign, then at least one digit, with the numeral's value in range.
pub open spec fn token_u32(t: Seq<char>) -> Option<u32> {
    let d = strip_sign(t);
    if d.len() > 0 && all_digits(d) && digits_val(d) <= u32::MAX {
        Some(digits_val(d) as u32)
    } else {
        None
    }
}

/// Integer decode grammar: surrounding whitespace is ignored, the rest must
/// parse as an unsigned 32-bit decimal numeral.
pub open spec fn parse_u32_spec(s: Seq<char>) -> Option<u32> {
    token_u32(trim_spec(s))
}

/// Whether a character is decode whitespace.
fn is_space_char(c: char) -> (r: bool)
    ensures
        r == is_space(c),
{
    c == ' ' || c == '\t' || c == '\n' || c == '\r' || c == '\u{b}' || c == '\u{c}'
        || c == '\u{85}' || c == '\u{a0}' || c == '\u{1680}' || c == '\u{2000}' || c == '\u{2001}'
        || c == '\u{2002}' || c == '\u{2003}' || c == '\u{2004}' || c == '\u{2005}'
        || c == '\u{2006}' || c == '\u{2007}' || c == '\u{2008}' || c == '\u{2009}'
        || c == '\u{200a}' || c == '\u{2028}' || c == '\u{2029}' || c == '\u{202f}'
        || c == '\u{205f}' || c == '\u{3000}'
}

/// Strip surrounding whitespace, as `str::trim` does.
pub fn trim(s: &str) -> (t: &str)
    ensures
        t@ == trim_spec(s@),
{
    let n = s.unicode_len();
    let mut a: usize = 0;
    while a < n && is_space_char(s.get_char(a))
        invariant
            0 <= a <= n,
            n == s@.len(),
            forall|k: int| 0 <= k < a ==> is_space(#[trigger] s@[k]),
        decreases n - a,
    {
        a = a + 1;
    }
    proof {
        lemma_trim_left_at(s@, a as int);
    }
    if a == n {
        let t = s.substring_char(n, n);
        proof {
            assert(s@.skip(n as int) =~= Seq::<char>::empty());
            assert(t@ =~= trim_right(s@.skip(a as int)));
        }
        return t;
    }
    let mut b: usize = n;
    while b > a && is_space_char(s.get_char(b - 1))
        invariant
            a <= b <= n,
            n == s@.len(),
            a < n,
            !is_space(s@[a as int]),
            forall|k: int| b <= k < n ==> is_space(#[trigger] s@[k]),
        decreases b,
    {
        b = b - 1;
    }
    // the character at `a` is not whitespace, so the scan stopped at b > a
    assert(b > a);
    let t = s.substring_char(a, b);
    proof {
        let left = s@.skip(a as int);
        assert(forall|k: int|
            (b - a) <= k < left.len() ==> is_space(#[trigger] left[k]) && left[k] == s@[k + a]);
        assert(!is_space(left[b - a - 1]));
        lemma_trim_right_at(left, b - a);
        assert(left.take(b - a) =~= s@.subrange(a as int, b as int));
    }
    t
}

/// Parse one whitespace-free token as `str::parse::<u32>` parses it.
pub fn parse_token(t: &str) -> (r: Option<u32>)
    ensures
        r == token_u32(t@),
{
    let n = t.unicode_len();
    let start: usize = if n > 0 && t.get_char(0) == '+' {
        1
    } else {
        0
    };
    let ghost d = strip_sign(t@);
    proof {
        assert(d =~= t@.skip(start as int));
    }
    if start == n {
        return None;
    }
    let mut v: u32 = 0;
    let mut i: usize = start;
    while i < n
        invariant
            start <= i <= n,
            n == t@.len(),
            start < n,
            d == strip_sign(t@),
            d == t@.skip(start as int),
            all_digits(d.take(i - start)),
            v as nat == digits_val(d.take(i - start)),
        decreases n - i,
    {
        let c = t.get_char(i);
        let u = c as u32;
        if !(48 <= u && u <= 57) {
            assert(!is_digit(d[i - start]));
            return None;
        }
        let dig = u - 48;
        proof {
            assert(d.take(i - start + 1).drop_last() =~= d.take(i - start));
            assert(d.take(i - start + 1).last() == c);
        }
        if v > (u32::MAX - dig) / 10 {
            proof {
                // the numeral scanned so far already exceeds u32::MAX, and
                // further digits only grow it
                assert(digits_val(d.take(i - start + 1)) > u32::MAX) by (nonlinear_arith)
                    requires
                        digits_val(d.take(i - start + 1)) == v * 10 + dig,
                        v > (u32::MAX - dig) / 10,
                        dig < 10,
                ;
                lemma_digits_val_mono(d, i - start + 1, d.len() as int);
                assert(d.take(d.len() as int) =~= d);
            }
            return None;
        }
        assert(v * 10 + dig <= u32::MAX) by (nonlinear_arith)
            requires
                v <= (u32::MAX - dig) / 10,
                dig < 10,
        ;
        v = v * 10 + dig;
        i = i + 1;
    }
    proof {
        assert(d.take(n - start) =~= d);
    }
    Some(v)
}

/// The digit string for a value below ten, as a string slice.
fn digit_str(d: u32) -> (s: &'static str)
    requires
        d < 10,
    ensures
        s@ == seq![digit_char(d as nat)],
{
    proof {
        reveal_strlit("0");
        reveal_strlit("1");
        reveal_strlit("2");
        reveal_strlit("3");
        reveal_strlit("4");
        reveal_strlit("5");
        reveal_strlit("6");
        reveal_strlit("7");
        reveal_strlit("8");
        reveal_strlit("9");
    }
    let s: &'static str = if d == 0 {
        "0"
    } else if d == 1 {
        "1"
    } else if d == 2 {
        "2"
    } else if d == 3 {
        "3"
    } else if d == 4 {
        "4"
    } else if d == 5 {
        "5"
    } else if d == 6 {
        "6"
    } else if d == 7 {
        "7"
    } else if d == 8 {
        "8"
    } else {
        "9"
    };
    proof {
        assert(s@ =~= seq![digit_char(d as nat)]);
    }
    s
}

/// Integer encode: render a value as decimal ASCII text, exactly as the sysfs
/// attribute files expect it.
pub fn encode_u32(v: u32) -> (s: String)
    ensures
        s@ == u32_dec_spec(v as nat),
    decreases v,
{
    if v < 10 {
        String::from_str(digit_str(v))
    } else {
        let mut s = encode_u32(v / 10);
        s.append(digit_str(v % 10));
        proof {
            assert(u32_dec_spec((v / 10) as nat).push(digit_char((v % 10) as nat)) =~= u32_dec_spec(
                (v / 10) as nat,
            ) + seq![digit_char((v % 10) as nat)]);
        }
        s
    }
}

/// Integer decode: trim surrounding whitespace and parse the rest as an
/// unsigned 32-bit decimal numeral; any other content (empty, stray
/// characters, out-of-range numerals) is a decode failure carrying the
/// offending content.
pub fn decode_u32(s: &str) -> (r: Result<u32, Error>)
    ensures
        parse_u32_spec(s@) matches Some(v) ==> r == Ok::<u32, Error>(v),
        parse_u32_spec(s@) is None ==> (r matches Err(Error::Decode(m)) && m@ == s@),
{
    let t = trim(s);
    match parse_token(t) {
        Some(v) => Ok(v),
        None => Err(Error::Decode(s.to_owned())),
    }
}

/// A decimal rendering consists of digits and reads back as the value it
/// renders.
pub proof fn lemma_u32_dec_digits(v: nat)
    ensures
        u32_dec_spec(v).len() >= 1,
        all_digits(u32_dec_spec(v)),
        digits_val(u32_dec_spec(v)) == v,
    decreases v,
{
    if v < 10 {
        let s = u32_dec_spec(v);
        assert(s.drop_last() =~= Seq::<char>::empty());
        assert(digits_val(Seq::<char>::empty()) == 0);
        assert(s.last() == digit_char(v));
    } else {
        lemma_u32_dec_digits(v / 10);
        let p = u32_dec_spec(v / 10);
        let c = digit_char(v % 10);
        assert(p.push(c).drop_last() =~= p);
        assert(forall|i: int|
            0 <= i < p.push(c).len() ==> is_digit(#[trigger] p.push(c)[i])) by {
            assert(forall|i: int| 0 <= i < p.len() ==> p.push(c)[i] == #[trigger] p[i]);
        }
    }
}

/// Round trip: the decimal rendering of any unsigned 32-bit value decodes
/// back to exactly that value.
pub proof fn lemma_u32_round_trip(v: u32)
    ensures
        parse_u32_spec(u32_dec_spec(v as nat)) == Some(v),
{
    let s = u32_dec_spec(v as nat);
    lemma_u32_dec_digits(v as nat);
    assert(forall|k: int| 0 <= k < s.len() ==> !is_space(#[trigger] s[k]));
    lemma_trim_no_space(s);
    assert(s[0] != '+');
}

/// Length of the leading run of non-whitespace characters.
pub open spec fn word_len(s: Seq<char>) -> nat
    decreases s.len(),
{
    if s.len() == 0 || is_space(s[0]) {
        0
    } else {
        1 + word_len(s.drop_first())
    }
}

proof fn lemma_word_len_le(s: Seq<char>)
    ensures
        word_len(s) <= s.len(),
    decreases s.len(),
{
    if s.len() > 0 && !is_space(s[0]) {
        lemma_word_len_le(s.drop_first());
    }
}

/// The whitespace-separated tokens of a string, in order, as
/// `str::split_whitespace` yields them.
pub open spec fn tokens_spec(s: Seq<char>) -> Seq<Seq<char>>
    decreases s.len(),
    via tokens_spec_dec
{
    if s.len() == 0 {
        seq![]
    } else if is_space(s[0]) {
        tokens_spec(s.drop_first())
    } else {
        seq![s.take(word_len(s) as int)] + tokens_spec(s.skip(word_len(s) as int))
    }
}

#[via_fn]
proof fn tokens_spec_dec(s: Seq<char>) {
    if s.len() > 0 && !is_space(s[0]) {
        lemma_word_len_le(s);
    }
}

/// Tokens decoded as unsigned 32-bit numerals, unparseable tokens dropped,
/// order kept.
pub open spec fn filter_parsed(ts: Seq<Seq<char>>) -> Seq<u32>
    decreases ts.len(),
{
    if ts.len() == 0 {
        seq![]
    } else {
        match token_u32(ts[0]) {
            Some(v) => seq![v] + filter_parsed(ts.drop_first()),
            None => filter_parsed(ts.drop_first()),
        }
    }
}

/// Multi-value decode grammar: split on runs of whitespace, decode each token
/// as an unsigned 32-bit numeral, keep the values that parsed.
pub open spec fn parse_fields_spec(s: Seq<char>) -> Seq<u32> {
    filter_parsed(tokens_spec(s))
}

proof fn lemma_word_len_at(t: Seq<char>, k: int)
    requires
        0 <= k <= t.len(),
        forall|m: int| 0 <= m < k ==> !is_space(#[trigger] t[m]),
        k == t.len() || is_space(t[k]),
    ensures
        word_len(t) == k,
    decreases k,
{
    if k == 0 {
    } else {
        assert(!is_space(t[0]));
        let r = t.drop_first();
        assert(forall|m: int| 0 <= m < k - 1 ==> !is_space(#[trigger] r[m]));
        lemma_word_len_at(r, k - 1);
    }
}

proof fn lemma_tokens_skip_space(s: Seq<char>, i: int)
    requires
        0 <= i < s.len(),
        is_space(s[i]),
    ensures
        tokens_spec(s.skip(i)) == tokens_spec(s.skip(i + 1)),
{
    assert(s.skip(i).drop_first() =~= s.skip(i + 1));
}

proof fn lemma_tokens_word(s: Seq<char>, i: int, j: int)
    requires
        0 <= i < j <= s.len(),
        forall|k: int| i <= k < j ==> !is_space(#[trigger] s[k]),
        j == s.len() || is_space(s[j]),
    ensures
        tokens_spec(s.skip(i)) == seq![s.subrange(i, j)] + tokens_spec(s.skip(j)),
{
    let t = s.skip(i);
    assert(forall|m: int| 0 <= m < j - i ==> !is_space(#[trigger] t[m]));
    lemma_word_len_at(t, j - i);
    assert(t.take(j - i) =~= s.subrange(i, j));
    assert(t.skip(j - i) =~= s.skip(j));
}

/// Multi-value decode: trim nothing away up front, split the content on runs
/// of whitespace, decode each token as an unsigned 32-bit numeral, silently
/// drop tokens that fail to parse, and return the surviving values in their
/// original order.
pub fn decode_u32_fields(s: &str) -> (out: Vec<u32>)
    ensures
        out@ == parse_fields_spec(s@),
{
    let n = s.unicode_len();
    let mut out: Vec<u32> = Vec::new();
    let mut i: usize = 0;
    proof {
        assert(s@.skip(0) =~= s@);
    }
    while i < n
        invariant
            0 <= i <= n,
            n == s@.len(),
            parse_fields_spec(s@) == out@ + filter_parsed(tokens_spec(s@.skip(i as int))),
        decreases n - i,
    {
        if is_space_char(s.get_char(i)) {
            proof {
                lemma_tokens_skip_space(s@, i as int);
            }
            i = i + 1;
        } else {
            let mut j = i + 1;
            while j < n && !is_space_char(s.get_char(j))
                invariant
                    i < j <= n,
                    n == s@.len(),
                    forall|k: int| i <= k < j ==> !is_space(#[trigger] s@[k]),
                decreases n - j,
            {
                j = j + 1;
            }
            let tok = s.substring_char(i, j);
            proof {
                lemma_tokens_word(s@, i as int, j as int);
                let rest = tokens_spec(s@.skip(j as int));
                assert((seq![tok@] + rest).drop_first() =~= rest);
            }
            match parse_token(tok) {
                Some(v) => {
                    out.push(v);
                    proof {
                        assert(out@ + (seq![v] + filter_parsed(tokens_spec(s@.skip(j as int))))
                            =~= out@ + seq![v] + filter_parsed(tokens_spec(s@.skip(j as int))));
                    }
                },
                None => {},
            }
            i = j;
        }
    }
    proof {
        assert(s@.skip(n as int) =~= Seq::<char>::empty());
        assert(out@ + filter_parsed(tokens_spec(Seq::<char>::empty())) =~= out@);
    }
    out
}

/// Text encoding of the enable attribute: the literal `"1"` or `"0"`.
pub open spec fn bool_text_spec(b: bool) -> Seq<char> {
    if b {
        "1"@
    } else {
        "0"@
    }
}

/// Boolean decode grammar: the trimmed content must be exactly `"1"` or
/// `"0"`.
pub open spec fn parse_bool_spec(s: Seq<char>) -> Option<bool> {
    let t = trim_spec(s);
    if t == "1"@ {
        Some(true)
    } else if t == "0"@ {
        Some(false)
    } else {
        None
    }
}

/// Text encoding of the polarity attribute: the literal `"normal"` or
/// `"inversed"`.
pub open spec fn polarity_text_spec(p: Polarity) -> Seq<char> {
    match p {
        Polarity::Normal => "normal"@,
        Polarity::Inverse => "inversed"@,
    }
}

/// Enumerated decode grammar for polarity: exact match of the trimmed content
/// against the known literal set.
pub open spec fn parse_polarity_spec(s: Seq<char>) -> Option<Polarity> {
    let t = trim_spec(s);
    if t == "normal"@ {
        Some(Polarity::Normal)
    } else if t == "inversed"@ {
        Some(Polarity::Inverse)
    } else {
        None
    }
}

/// Character-wise string comparison.
fn str_eq(a: &str, b: &str) -> (r: bool)
    ensures
        r == (a@ == b@),
{
    let la = a.unicode_len();
    let lb = b.unicode_len();
    if la != lb {
        return false;
    }
    let mut i: usize = 0;
    while i < la
        invariant
            0 <= i <= la,
            la == a@.len(),
            la == b@.len(),
            forall|k: int| 0 <= k < i ==> a@[k] == b@[k],
        decreases la - i,
    {
        if a.get_char(i) != b.get_char(i) {
            return false;
        }
        i = i + 1;
    }
    proof {
        assert(a@ =~= b@);
    }
    true
}

/// Boolean encode: `"1"` for true, `"0"` for false.
pub fn encode_bool(b: bool) -> (s: String)
    ensures
        s@ == bool_text_spec(b),
{
    if b {
        String::from_str("1")
    } else {
        String::from_str("0")
    }
}

/// Boolean decode: trim surrounding whitespace; `"1"` is true and `"0"` is
/// false; any other content is a decode failure carrying the content.
pub fn decode_bool(s: &str) -> (r: Result<bool, Error>)
    ensures
        parse_bool_spec(s@) matches Some(b) ==> r == Ok::<bool, Error>(b),
        parse_bool_spec(s@) is None ==> (r matches Err(Error::Decode(m)) && m@ == s@),
{
    let t = trim(s);
    if str_eq(t, "1") {
        Ok(true)
    } else if str_eq(t, "0") {
        Ok(false)
    } else {
        Err(Error::Decode(s.to_owned()))
    }
}

/// Polarity encode: the exact attribute literal.
pub fn encode_polarity(p: Polarity) -> (s: String)
    ensures
        s@ == polarity_text_spec(p),
{
    match p {
        Polarity::Normal => String::from_str("normal"),
        Polarity::Inverse => String::from_str("inversed"),
    }
}

/// Polarity decode: trim surrounding whitespace and match against the known
/// literal set; any other content is a decode failure carrying the content.
pub fn decode_polarity(s: &str) -> (r: Result<Polarity, Error>)
    ensures
        parse_polarity_spec(s@) matches Some(p) ==> r == Ok::<Polarity, Error>(p),
        parse_polarity_spec(s@) is None ==> (r matches Err(Error::Decode(m)) && m@ == s@),
{
    let t = trim(s);
    if str_eq(t, "normal") {
        Ok(Polarity::Normal)
    } else if str_eq(t, "inversed") {
        Ok(Polarity::Inverse)
    } else {
        Err(Error::Decode(s.to_owned()))
    }
}

/// Round trip: the encoding of either enable state decodes back to exactly
/// that state.
pub proof fn lemma_bool_round_trip(b: bool)
    ensures
        parse_bool_spec(bool_text_spec(b)) == Some(b),
{
    reveal_strlit("1");
    reveal_strlit("0");
    let t = bool_text_spec(b);
    assert(forall|k: int| 0 <= k < t.len() ==> !is_space(#[trigger] t[k]));
    lemma_trim_no_space(t);
}

/// Round trip: the encoding of either polarity decodes back to exactly that
/// polarity.
pub proof fn lemma_polarity_round_trip(p: Polarity)
    ensures
        parse_polarity_spec(polarity_text_spec(p)) == Some(p),
{
    reveal_strlit("normal");
    reveal_strlit("inversed");
    let t = polarity_text_spec(p);
    assert(forall|k: int| 0 <= k < t.len() ==> !is_space(#[trigger] t[k]));
    lemma_trim_no_space(t);
}

} // verus!
