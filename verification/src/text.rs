//! Characters, numbers and strings: the pieces of text handling that the parsers
//! and messages of the collector are built from, each with its meaning stated as a
//! spec function over `Seq<char>`.
use vstd::prelude::*;

verus! {

// ---------------------------------------------------------------- characters

/// An ASCII decimal digit.
pub open spec fn is_ascii_digit(c: char) -> bool {
    '0' <= c && c <= '9'
}

/// The value of an ASCII decimal digit.
pub open spec fn digit_value(c: char) -> nat {
    (c as int - '0' as int) as nat
}

/// The character of a decimal digit value below ten.
pub open spec fn digit_char(d: nat) -> char {
    (d + '0' as nat) as char
}

/// What `u8::is_ascii_whitespace` accepts: space, tab, line feed, form feed and
/// carriage return.
pub open spec fn is_ascii_whitespace(c: char) -> bool {
    c == ' ' || c == '\t' || c == '\n' || c == '\x0C' || c == '\r'
}

/// What `char::is_whitespace` accepts: the Unicode `White_Space` property.
pub open spec fn is_whitespace(c: char) -> bool {
    ||| '\t' <= c && c <= '\r'
    ||| c == ' '
    ||| c == '\u{85}'
    ||| c == '\u{A0}'
    ||| c == '\u{1680}'
    ||| '\u{2000}' <= c && c <= '\u{200A}'
    ||| c == '\u{2028}'
    ||| c == '\u{2029}'
    ||| c == '\u{202F}'
    ||| c == '\u{205F}'
    ||| c == '\u{3000}'
}

/// The separator test of a whitespace split: Unicode whitespace, or ASCII whitespace only.
pub open spec fn is_sep(c: char, unicode: bool) -> bool {
    if unicode { is_whitespace(c) } else { is_ascii_whitespace(c) }
}

/// An ASCII upper-case letter mapped to lower case; every other character unchanged.
pub open spec fn ascii_lower(c: char) -> char {
    if 'A' <= c && c <= 'Z' { ((c as int) + 32) as char } else { c }
}

/// Equality up to ASCII case, as `str::eq_ignore_ascii_case` decides it.
pub open spec fn eq_ignore_ascii_case(a: Seq<char>, b: Seq<char>) -> bool {
    &&& a.len() == b.len()
    &&& forall|i: int| 0 <= i < a.len() ==> ascii_lower(#[trigger] a[i]) == ascii_lower(b[i])
}

pub fn char_is_ascii_digit(c: char) -> (b: bool)
    ensures b == is_ascii_digit(c),
{
    '0' <= c && c <= '9'
}

pub fn char_is_ascii_whitespace(c: char) -> (b: bool)
    ensures b == is_ascii_whitespace(c),
{
    c == ' ' || c == '\t' || c == '\n' || c == '\x0C' || c == '\r'
}

pub fn char_is_whitespace(c: char) -> (b: bool)
    ensures b == is_whitespace(c),
{
    ('\t' <= c && c <= '\r') || c == ' ' || c == '\u{85}' || c == '\u{A0}' || c == '\u{1680}'
        || ('\u{2000}' <= c && c <= '\u{200A}') || c == '\u{2028}' || c == '\u{2029}'
        || c == '\u{202F}' || c == '\u{205F}' || c == '\u{3000}'
}

pub fn char_is_sep(c: char, unicode: bool) -> (b: bool)
    ensures b == is_sep(c, unicode),
{
    if unicode { char_is_whitespace(c) } else { char_is_ascii_whitespace(c) }
}

pub fn char_ascii_lower(c: char) -> (r: char)
    ensures r == ascii_lower(c),
{
    if 'A' <= c && c <= 'Z' {
        let code: u32 = c as u32 + 32;
        assert(code < 0xD800);
        char_from_ascii_code(code)
    } else {
        c
    }
}

/// The character with an ASCII code point.
fn char_from_ascii_code(code: u32) -> (c: char)
    requires code < 128,
    ensures c as int == code,
{
    let b: u8 = code as u8;
    b as char
}

// ---------------------------------------------------------------- strings

/// The characters of a string slice, in order.
pub fn chars_of(s: &str) -> (v: Vec<char>)
    ensures v@ == s@,
{
    let mut v: Vec<char> = Vec::new();
    for c in it: s.chars()
        invariant
            v@ == it.seq().take(it.index() as int),
    {
        v.push(c);
    }
    v
}

/// Appends one character to a `String` (`String::push`).
#[verifier::external_body]
pub(crate) fn push_char(s: &mut String, c: char)
    ensures final(s)@ == old(s)@.push(c),
{
    s.push(c);
}

/// Appends the characters `v[a..b]` to `s`.
pub fn push_range(s: &mut String, v: &Vec<char>, a: usize, b: usize)
    requires a <= b <= v@.len(),
    ensures final(s)@ == old(s)@ + v@.subrange(a as int, b as int),
{
    let mut i = a;
    while i < b
        invariant
            a <= i <= b <= v@.len(),
            s@ == old(s)@ + v@.subrange(a as int, i as int),
        decreases b - i,
    {
        push_char(s, v[i]);
        assert(v@.subrange(a as int, i + 1) =~= v@.subrange(a as int, i as int).push(v@[i as int]));
        i = i + 1;
    }
}

/// The characters `v[a..b]` as a new `String`.
pub fn string_of_range(v: &Vec<char>, a: usize, b: usize) -> (s: String)
    requires a <= b <= v@.len(),
    ensures s@ == v@.subrange(a as int, b as int),
{
    let mut s = String::new();
    push_range(&mut s, v, a, b);
    assert(s@ =~= v@.subrange(a as int, b as int));
    s
}

/// Whether `v[a..b]` spells `lit`.
pub fn range_eq(v: &Vec<char>, a: usize, b: usize, lit: &str) -> (r: bool)
    requires a <= b <= v@.len(),
    ensures r == (v@.subrange(a as int, b as int) == lit@),
{
    let l = chars_of(lit);
    if b - a != l.len() {
        return false;
    }
    let mut i: usize = 0;
    while i < l.len()
        invariant
            a <= b <= v@.len(),
            b - a == l@.len(),
            l@ == lit@,
            i <= l@.len(),
            forall|k: int| 0 <= k < i ==> v@[a + k] == #[trigger] l@[k],
        decreases l@.len() - i,
    {
        if v[a + i] != l[i] {
            assert(v@.subrange(a as int, b as int)[i as int] != lit@[i as int]);
            return false;
        }
        i = i + 1;
    }
    assert(v@.subrange(a as int, b as int) =~= lit@);
    true
}

/// Whether `v[a..b]` equals `lit` up to ASCII case.
pub fn range_eq_ignore_ascii_case(v: &Vec<char>, a: usize, b: usize, lit: &str) -> (r: bool)
    requires a <= b <= v@.len(),
    ensures r == eq_ignore_ascii_case(v@.subrange(a as int, b as int), lit@),
{
    let l = chars_of(lit);
    if b - a != l.len() {
        return false;
    }
    let mut i: usize = 0;
    while i < l.len()
        invariant
            a <= b <= v@.len(),
            b - a == l@.len(),
            l@ == lit@,
            i <= l@.len(),
            forall|k: int| 0 <= k < i ==> ascii_lower(v@[a + k]) == ascii_lower(#[trigger] l@[k]),
        decreases l@.len() - i,
    {
        if char_ascii_lower(v[a + i]) != char_ascii_lower(l[i]) {
            assert(v@.subrange(a as int, b as int)[i as int] == v@[a + i]);
            return false;
        }
        i = i + 1;
    }
    assert forall|k: int| 0 <= k < (b - a) implies
        ascii_lower(#[trigger] v@.subrange(a as int, b as int)[k]) == ascii_lower(lit@[k]) by {
        assert(v@.subrange(a as int, b as int)[k] == v@[a + k]);
    }
    true
}

// ---------------------------------------------------------------- trimming

/// `s` without its leading whitespace.
pub open spec fn trim_start(s: Seq<char>) -> Seq<char>
    decreases s.len(),
{
    if s.len() > 0 && is_whitespace(s[0]) { trim_start(s.drop_first()) } else { s }
}

/// `s` without its trailing whitespace.
pub open spec fn trim_end(s: Seq<char>) -> Seq<char>
    decreases s.len(),
{
    if s.len() > 0 && is_whitespace(s.last()) { trim_end(s.drop_last()) } else { s }
}

/// `s` without leading and trailing whitespace (`str::trim`).
pub open spec fn trim(s: Seq<char>) -> Seq<char> {
    trim_end(trim_start(s))
}

/// The bounds of `trim(v[a..b])` inside `v`.
pub fn trim_range(v: &Vec<char>, a: usize, b: usize) -> (r: (usize, usize))
    requires a <= b <= v@.len(),
    ensures
        a <= r.0 <= r.1 <= b,
        v@.subrange(r.0 as int, r.1 as int) == trim(v@.subrange(a as int, b as int)),
{
    let mut i = a;
    while i < b && char_is_whitespace(v[i])
        invariant
            a <= i <= b <= v@.len(),
            trim_start(v@.subrange(a as int, b as int)) == trim_start(v@.subrange(i as int, b as int)),
        decreases b - i,
    {
        assert(v@.subrange(i as int, b as int).drop_first() =~= v@.subrange(i + 1, b as int));
        i = i + 1;
    }
    let ghost t = v@.subrange(i as int, b as int);
    assert(trim_start(t) == t);
    let mut j = b;
    while j > i && char_is_whitespace(v[j - 1])
        invariant
            a <= i <= j <= b <= v@.len(),
            trim_end(v@.subrange(i as int, b as int)) == trim_end(v@.subrange(i as int, j as int)),
        decreases j - i,
    {
        assert(v@.subrange(i as int, j as int).drop_last() =~= v@.subrange(i as int, j - 1));
        j = j - 1;
    }
    (i, j)
}

/// `trim(s)` as a new `String`.
pub fn trim_to_string(s: &str) -> (r: String)
    ensures r@ == trim(s@),
{
    let v = chars_of(s);
    let (a, b) = trim_range(&v, 0, v.len());
    assert(v@.subrange(0, v@.len() as int) =~= s@);
    string_of_range(&v, a, b)
}

// ---------------------------------------------------------------- decimal numbers

/// The decimal digits of `n`, most significant first, without leading zeros.
pub open spec fn decimal(n: nat) -> Seq<char>
    decreases n,
{
    if n < 10 { seq![digit_char(n)] } else { decimal(n / 10).push(digit_char(n % 10)) }
}

/// The character of a digit value below ten.
fn digit_to_char(d: u64) -> (c: char)
    requires d < 10,
    ensures c == digit_char(d as nat),
{
    char_from_ascii_code(d as u32 + 48)
}

/// Appends the decimal digits of `n` to `s`.
pub fn push_decimal(s: &mut String, n: u64)
    ensures final(s)@ == old(s)@ + decimal(n as nat),
    decreases n,
{
    if n >= 10 {
        push_decimal(s, n / 10);
    }
    push_char(s, digit_to_char(n % 10));
    assert(s@ =~= old(s)@ + decimal(n as nat));
}

/// The value of a string of ASCII digits, read as a decimal number.
pub open spec fn digits_value(s: Seq<char>) -> nat
    decreases s.len(),
{
    if s.len() == 0 { 0 } else { digits_value(s.drop_last()) * 10 + digit_value(s.last()) }
}

/// Every character of `s` is an ASCII digit.
pub open spec fn all_digits(s: Seq<char>) -> bool {
    forall|i: int| 0 <= i < s.len() ==> is_ascii_digit(#[trigger] s[i])
}

/// What `u64::from_str` (and the other unsigned `from_str`) gives for `s`, for a
/// type whose largest value is `max`: an optional `+` followed by at least one ASCII
/// digit, with a value at most `max`; `None` for anything else.
pub open spec fn parse_unsigned(s: Seq<char>, max: nat) -> Option<nat> {
    if s.len() == 0 {
        None
    } else {
        let body = if s[0] == '+' { s.drop_first() } else { s };
        if body.len() > 0 && all_digits(body) && digits_value(body) <= max {
            Some(digits_value(body))
        } else {
            None
        }
    }
}

/// Extending a string of digits never lowers its value.
pub proof fn lemma_digits_value_prefix(s: Seq<char>, k: int)
    requires
        0 <= k <= s.len(),
        all_digits(s),
    ensures
        digits_value(s.take(k)) <= digits_value(s),
    decreases s.len() - k,
{
    if k < s.len() {
        let t = s.take(k + 1);
        assert(t.drop_last() =~= s.take(k));
        lemma_digits_value_prefix(s, k + 1);
    } else {
        assert(s.take(k) =~= s);
    }
}

/// Reads `v[a..b]` as `parse_unsigned` does, with largest value `max`.
pub fn parse_unsigned_range(v: &Vec<char>, a: usize, b: usize, max: u64) -> (r: Option<u64>)
    requires a <= b <= v@.len(),
    ensures
        match parse_unsigned(v@.subrange(a as int, b as int), max as nat) {
            Some(n) => r == Some(n as u64),
            None => r is None,
        },
{
    let ghost s = v@.subrange(a as int, b as int);
    if a == b {
        return None;
    }
    let start = if v[a] == '+' { a + 1 } else { a };
    let ghost body = if s[0] == '+' { s.drop_first() } else { s };
    assert(body =~= v@.subrange(start as int, b as int));
    if start == b {
        return None;
    }
    let mut acc: u64 = 0;
    let mut i = start;
    while i < b
        invariant
            a <= start < b <= v@.len(),
            start <= i <= b,
            body == v@.subrange(start as int, b as int),
            s == v@.subrange(a as int, b as int),
            s.len() > 0,
            body == if s[0] == '+' { s.drop_first() } else { s },
            all_digits(body.take(i - start)),
            acc as nat == digits_value(body.take(i - start)),
            acc <= max,
        decreases b - i,
    {
        let c = v[i];
        let ghost k = i - start;
        assert(body[k] == c);
        if !char_is_ascii_digit(c) {
            proof {
                if all_digits(body) {
                    assert(is_ascii_digit(body[k]));
                }
            }
            return None;
        }
        let d: u64 = c as u64 - '0' as u64;
        assert(body.take(k + 1).drop_last() =~= body.take(k));
        assert(digits_value(body.take(k + 1)) == acc * 10 + d);
        assert(all_digits(body.take(k + 1)));
        if d > max || acc > (max - d) / 10 {
            proof {
                assert(acc * 10 + d > max) by (nonlinear_arith)
                    requires d > max || acc > (max - d) / 10, d <= 9, acc >= 0;
                if all_digits(body) {
                    lemma_digits_value_prefix(body, k + 1);
                }
            }
            return None;
        }
        assert(acc * 10 + d <= max) by (nonlinear_arith)
            requires acc <= (max - d) / 10, d <= max;
        acc = acc * 10 + d;
        i = i + 1;
    }
    assert(body.take(b - start) =~= body);
    Some(acc)
}


// ---------------------------------------------------------------- splitting

/// The pieces of `s` between occurrences of `sep` (`str::split`): one more piece
/// than there are separators, empty pieces included.
pub open spec fn split_on(s: Seq<char>, sep: char) -> Seq<Seq<char>>
    decreases s.len(),
{
    if s.len() == 0 {
        seq![Seq::<char>::empty()]
    } else {
        let prev = split_on(s.drop_last(), sep);
        if s.last() == sep {
            prev.push(Seq::<char>::empty())
        } else {
            prev.update(prev.len() - 1, prev.last().push(s.last()))
        }
    }
}

/// `split_on` never yields an empty list of pieces.
pub proof fn lemma_split_on_nonempty(s: Seq<char>, sep: char)
    ensures split_on(s, sep).len() >= 1,
    decreases s.len(),
{
    if s.len() > 0 {
        lemma_split_on_nonempty(s.drop_last(), sep);
    }
}

/// The maximal runs of non-separator characters of `s`, in order
/// (`str::split_whitespace` when `unicode`, `str::split_ascii_whitespace` otherwise).
pub open spec fn tokens(s: Seq<char>, unicode: bool) -> Seq<Seq<char>>
    decreases s.len(),
{
    if s.len() == 0 {
        Seq::<Seq<char>>::empty()
    } else {
        let prev = tokens(s.drop_last(), unicode);
        let c = s.last();
        if is_sep(c, unicode) {
            prev
        } else if s.len() >= 2 && !is_sep(s[s.len() - 2], unicode) {
            prev.update(prev.len() - 1, prev.last().push(c))
        } else {
            prev.push(seq![c])
        }
    }
}

/// The view of each range `(a, b)` of `r` as the piece `v[a..b]`.
pub open spec fn pieces(v: Seq<char>, r: Seq<(usize, usize)>) -> Seq<Seq<char>> {
    r.map_values(|p: (usize, usize)| v.subrange(p.0 as int, p.1 as int))
}

/// Ranges inside `v[a..b]`, each well formed.
pub open spec fn ranges_within(r: Seq<(usize, usize)>, a: int, b: int) -> bool {
    forall|i: int| 0 <= i < r.len() ==> a <= (#[trigger] r[i]).0 <= r[i].1 <= b
}

/// The bounds of the pieces of `v[a..b]` between occurrences of `sep`.
pub fn split_ranges(v: &Vec<char>, a: usize, b: usize, sep: char) -> (r: Vec<(usize, usize)>)
    requires a <= b <= v@.len(),
    ensures
        ranges_within(r@, a as int, b as int),
        pieces(v@, r@) == split_on(v@.subrange(a as int, b as int), sep),
{
    let mut r: Vec<(usize, usize)> = Vec::new();
    let mut cur = a;
    let mut i = a;
    assert(pieces(v@, r@) =~= Seq::<Seq<char>>::empty());
    assert(v@.subrange(a as int, a as int) =~= Seq::<char>::empty());
    assert(pieces(v@, r@).push(v@.subrange(cur as int, i as int)) =~= seq![Seq::<char>::empty()]);
    while i < b
        invariant
            a <= cur <= i <= b <= v@.len(),
            ranges_within(r@, a as int, b as int),
            pieces(v@, r@).push(v@.subrange(cur as int, i as int))
                == split_on(v@.subrange(a as int, i as int), sep),
        decreases b - i,
    {
        let ghost before = split_on(v@.subrange(a as int, i as int), sep);
        assert(v@.subrange(a as int, i + 1).drop_last() =~= v@.subrange(a as int, i as int));
        if v[i] == sep {
            let ghost old_r = r@;
            r.push((cur, i));
            assert(pieces(v@, r@) =~= pieces(v@, old_r).push(v@.subrange(cur as int, i as int)));
            cur = i + 1;
            assert(v@.subrange(cur as int, i + 1) =~= Seq::<char>::empty());
            assert(pieces(v@, r@).push(v@.subrange(cur as int, i + 1))
                =~= split_on(v@.subrange(a as int, i + 1), sep));
        } else {
            assert(v@.subrange(cur as int, i + 1) =~= v@.subrange(cur as int, i as int).push(v@[i as int]));
            assert(pieces(v@, r@).push(v@.subrange(cur as int, i + 1))
                =~= split_on(v@.subrange(a as int, i + 1), sep));
        }
        i = i + 1;
    }
    let ghost old_r = r@;
    r.push((cur, b));
    assert(pieces(v@, r@) =~= pieces(v@, old_r).push(v@.subrange(cur as int, b as int)));
    assert(pieces(v@, r@) =~= split_on(v@.subrange(a as int, b as int), sep));
    r
}

/// A string whose last character is not a separator has at least one token.
pub proof fn lemma_tokens_nonempty(s: Seq<char>, unicode: bool)
    requires
        s.len() > 0,
        !is_sep(s.last(), unicode),
    ensures
        tokens(s, unicode).len() > 0,
    decreases s.len(),
{
    if s.len() >= 2 && !is_sep(s[s.len() - 2], unicode) {
        lemma_tokens_nonempty(s.drop_last(), unicode);
    }
}

/// The bounds of the tokens of `v[a..b]`.
pub fn token_ranges(v: &Vec<char>, a: usize, b: usize, unicode: bool) -> (r: Vec<(usize, usize)>)
    requires a <= b <= v@.len(),
    ensures
        ranges_within(r@, a as int, b as int),
        pieces(v@, r@) == tokens(v@.subrange(a as int, b as int), unicode),
{
    let mut r: Vec<(usize, usize)> = Vec::new();
    assert(pieces(v@, r@) =~= Seq::<Seq<char>>::empty());
    let mut in_token = false;
    let mut cur = a;
    let mut i = a;
    while i < b
        invariant
            a <= cur <= i <= b <= v@.len(),
            ranges_within(r@, a as int, b as int),
            in_token ==> cur < i && !is_sep(v@[i - 1], unicode),
            !in_token ==> (i == a || is_sep(v@[i - 1], unicode)),
            in_token ==> pieces(v@, r@).push(v@.subrange(cur as int, i as int))
                == tokens(v@.subrange(a as int, i as int), unicode),
            !in_token ==> pieces(v@, r@) == tokens(v@.subrange(a as int, i as int), unicode),
        decreases b - i,
    {
        let c = v[i];
        let ghost t = v@.subrange(a as int, i + 1);
        assert(t.drop_last() =~= v@.subrange(a as int, i as int));
        assert(t.last() == c);
        if char_is_sep(c, unicode) {
            if in_token {
                let ghost old_r = r@;
                r.push((cur, i));
                assert(pieces(v@, r@) =~= pieces(v@, old_r).push(v@.subrange(cur as int, i as int)));
                in_token = false;
                assert(pieces(v@, r@) =~= tokens(t, unicode));
            }
        } else {
            if in_token {
                assert(t[t.len() - 2] == v@[i - 1]);
                assert(v@.subrange(cur as int, i + 1) =~= v@.subrange(cur as int, i as int).push(c));
                assert(pieces(v@, r@).push(v@.subrange(cur as int, i + 1)) =~= tokens(t, unicode));
            } else {
                if i > a {
                    assert(t[t.len() - 2] == v@[i - 1]);
                }
                cur = i;
                in_token = true;
                assert(v@.subrange(cur as int, i + 1) =~= seq![c]);
                assert(pieces(v@, r@).push(v@.subrange(cur as int, i + 1)) =~= tokens(t, unicode));
            }
        }
        i = i + 1;
    }
    if in_token {
        let ghost old_r = r@;
        r.push((cur, b));
        assert(pieces(v@, r@) =~= pieces(v@, old_r).push(v@.subrange(cur as int, b as int)));
        assert(pieces(v@, r@) =~= tokens(v@.subrange(a as int, b as int), unicode));
    }
    r
}

// ---------------------------------------------------------------- debug rendering

/// What `format!("{:?}", c)` renders for a character: the character quoted and
/// escaped.
pub uninterp spec fn debug_char(c: char) -> Seq<char>;

/// What `format!("{:?}", s)` renders for a string: the string quoted and escaped.
pub uninterp spec fn debug_str(s: Seq<char>) -> Seq<char>;

/// Renders a character with `Debug` (`<char as Debug>::fmt`).
#[verifier::external_body]
pub(crate) fn render_debug_char(c: char) -> (r: String)
    ensures r@ == debug_char(c),
{
    format!("{c:?}")
}

/// Renders a string with `Debug` (`<str as Debug>::fmt`).
#[verifier::external_body]
pub(crate) fn render_debug_str(s: &str) -> (r: String)
    ensures r@ == debug_str(s@),
{
    format!("{s:?}")
}


// ---------------------------------------------------------------- messages

/// The text `a`, then `mid`, then `b`, as a new `String`.
pub fn message3(a: &str, mid: &str, b: &str) -> (r: String)
    ensures r@ == a@ + mid@ + b@,
{
    let mut r = String::from_str(a);
    r.append(mid);
    r.append(b);
    r
}

/// `pre`, the `Debug` rendering of `v[a..b]`, then `post`, as a new `String`.
pub fn message_debug_range(pre: &str, v: &Vec<char>, a: usize, b: usize, post: &str) -> (r: String)
    requires a <= b <= v@.len(),
    ensures r@ == pre@ + debug_str(v@.subrange(a as int, b as int)) + post@,
{
    let t = string_of_range(v, a, b);
    let d = render_debug_str(t.as_str());
    message3(pre, d.as_str(), post)
}

// ---------------------------------------------------------------- command output

/// What a command's output says once trimmed: `None` when nothing is left.
pub open spec fn trimmed_output(s: Seq<char>) -> Option<Seq<char>> {
    if trim(s).len() == 0 { None } else { Some(trim(s)) }
}

/// Trims a command's output, keeping it only if something is left (the adb version
/// line, the device model).
pub fn trimmed_nonempty(s: &str) -> (r: Option<String>)
    ensures
        match trimmed_output(s@) {
            Some(t) => r is Some && r->0@ == t,
            None => r is None,
        },
{
    let t = trim_to_string(s);
    let v = chars_of(t.as_str());
    if v.len() == 0 { None } else { Some(t) }
}



// ---------------------------------------------------------------- facts about decimals

/// The decimal rendering of `n` is a non-empty string of digits whose value is `n`.
pub proof fn lemma_decimal_reads_back(n: nat)
    ensures
        decimal(n).len() >= 1,
        all_digits(decimal(n)),
        digits_value(decimal(n)) == n,
    decreases n,
{
    if n >= 10 {
        lemma_decimal_reads_back(n / 10);
        let d = decimal(n);
        assert(d.drop_last() =~= decimal(n / 10));
        lemma_digit_char_value((n % 10) as nat);
        assert(d.last() == digit_char((n % 10) as nat));
        assert(digits_value(d) == digits_value(decimal(n / 10)) * 10 + digit_value(d.last()));
        assert forall|i: int| 0 <= i < d.len() implies is_ascii_digit(#[trigger] d[i]) by {
            if i < d.len() - 1 {
                assert(d[i] == decimal(n / 10)[i]);
            }
        }
    } else {
        let d = decimal(n);
        assert(d.drop_last() =~= Seq::<char>::empty());
        lemma_digit_char_value(n);
        assert(digits_value(d.drop_last()) == 0);
        assert(digits_value(d) == digit_value(d.last()));
    }
}

/// A digit character reads back as its value.
pub proof fn lemma_digit_char_value(d: nat)
    requires d < 10,
    ensures
        is_ascii_digit(digit_char(d)),
        digit_value(digit_char(d)) == d,
{
    assert(digit_char(d) as int == d + 48);
}

/// Reading back the decimal rendering of a value within range gives the value.
pub proof fn lemma_parse_decimal(n: nat, max: nat)
    requires n <= max,
    ensures parse_unsigned(decimal(n), max) == Some(n),
{
    lemma_decimal_reads_back(n);
    assert(is_ascii_digit(decimal(n)[0]));
}

/// Trimming leaves a string without whitespace unchanged.
pub proof fn lemma_trim_without_whitespace(s: Seq<char>)
    requires forall|i: int| 0 <= i < s.len() ==> !is_whitespace(#[trigger] s[i]),
    ensures trim(s) == s,
{
    if s.len() > 0 {
        assert(!is_whitespace(s[0]));
        assert(!is_whitespace(s[s.len() - 1]));
    }
}

/// Decimal renderings hold no whitespace.
pub proof fn lemma_decimal_no_whitespace(n: nat)
    ensures forall|i: int| 0 <= i < decimal(n).len() ==> !is_whitespace(#[trigger] decimal(n)[i]),
{
    lemma_decimal_reads_back(n);
    assert forall|i: int| 0 <= i < decimal(n).len() implies !is_whitespace(#[trigger] decimal(n)[i]) by {
        assert(is_ascii_digit(decimal(n)[i]));
    }
}


// ---------------------------------------------------------------- facts about tokens

/// A non-empty string without separators is a single token.
pub proof fn lemma_tokens_single(a: Seq<char>, unicode: bool)
    requires
        a.len() > 0,
        forall|i: int| 0 <= i < a.len() ==> !is_sep(#[trigger] a[i], unicode),
    ensures
        tokens(a, unicode) == seq![a],
    decreases a.len(),
{
    if a.len() == 1 {
        assert(a.drop_last() =~= Seq::<char>::empty());
        assert(seq![a.last()] =~= a);
        assert(tokens(a.drop_last(), unicode) =~= Seq::<Seq<char>>::empty());
        assert(tokens(a, unicode) =~= seq![seq![a.last()]]);
    } else {
        let p = a.drop_last();
        assert forall|i: int| 0 <= i < p.len() implies !is_sep(#[trigger] p[i], unicode) by {
            assert(p[i] == a[i]);
        }
        lemma_tokens_single(p, unicode);
        assert(!is_sep(a[a.len() - 2], unicode));
        assert(p.push(a.last()) =~= a);
        assert(tokens(a, unicode) =~= seq![p].update(0, p.push(a.last())));
        assert(seq![p].update(0, p.push(a.last())) =~= seq![a]);
    }
}

/// Tokens split at a separator: the tokens of `a` followed by a text that is empty
/// or starts with a separator are those of `a`, then those of the text.
pub proof fn lemma_tokens_concat(a: Seq<char>, s: Seq<char>, unicode: bool)
    requires
        s.len() == 0 || is_sep(s[0], unicode),
    ensures
        tokens(a + s, unicode) == tokens(a, unicode) + tokens(s, unicode),
    decreases s.len(),
{
    if s.len() == 0 {
        assert(a + s =~= a);
        assert(tokens(a, unicode) + tokens(s, unicode) =~= tokens(a, unicode));
    } else {
        let sp = s.drop_last();
        let c = s.last();
        assert((a + s).drop_last() =~= a + sp);
        assert((a + s).last() == c);
        if sp.len() == 0 {
            assert(a + sp =~= a);
            assert(is_sep(c, unicode));
            assert(tokens(sp, unicode) =~= Seq::<Seq<char>>::empty());
            assert(tokens(a, unicode) + tokens(s, unicode) =~= tokens(a, unicode));
        } else {
            lemma_tokens_concat(a, sp, unicode);
            let ta = tokens(a, unicode);
            let tsp = tokens(sp, unicode);
            assert((a + s)[(a + s).len() - 2] == s[s.len() - 2]);
            if is_sep(c, unicode) {
            } else if !is_sep(s[s.len() - 2], unicode) {
                assert(sp.last() == s[s.len() - 2]);
                lemma_tokens_nonempty(sp, unicode);
                assert((ta + tsp).update((ta + tsp).len() - 1, (ta + tsp).last().push(c))
                    =~= ta + tsp.update(tsp.len() - 1, tsp.last().push(c)));
            } else {
                assert((ta + tsp).push(seq![c]) =~= ta + tsp.push(seq![c]));
            }
        }
    }
}

} // verus!
