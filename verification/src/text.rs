//! Text helpers: decimal numbers, trimming, clipping and padding, counted in characters.

use vstd::prelude::*;
use vstd::string::*;

verus! {

/// The character for a decimal digit.
pub open spec fn digit_char(d: int) -> char {
    (48 + d) as char
}

/// Decimal notation of `n`, without leading zeros.
pub open spec fn decimal(n: nat) -> Seq<char>
    decreases n,
{
    if n < 10 {
        seq![digit_char(n as int)]
    } else {
        decimal(n / 10).push(digit_char((n % 10) as int))
    }
}

fn digit_str(d: usize) -> (s: &'static str)
    requires
        d < 10,
    ensures
        s@ == seq![digit_char(d as int)],
{
    proof {
        reveal_strlit("0");
        reveal_strlit("1");
        reveal_strlit("2");
        reveal_strlit("3");
        reveal_strlit("4");
        reveal_strlit("5");
        reveal_strlit("6");
        reveal_strlit("7");
        reveal_strlit("8");
        reveal_strlit("9");
    }
    match d {
        0 => "0",
        1 => "1",
        2 => "2",
        3 => "3",
        4 => "4",
        5 => "5",
        6 => "6",
        7 => "7",
        8 => "8",
        _ => "9",
    }
}

/// `n` in decimal notation.
pub fn decimal_string(n: usize) -> (s: String)
    ensures
        s@ == decimal(n as nat),
    decreases n,
{
    if n < 10 {
        digit_str(n).to_owned()
    } else {
        let mut s = decimal_string(n / 10);
        s.append(digit_str(n % 10));
        s
    }
}

/// Whether two strings hold the same characters.
pub fn same_text(a: &str, b: &str) -> (r: bool)
    ensures
        r == (a@ == b@),
{
    a.to_owned() == b.to_owned()
}

/// The characters of an optional string.
pub open spec fn text_of(s: Option<String>) -> Option<Seq<char>> {
    match s {
        Some(t) => Some(t@),
        None => None,
    }
}

/// A copy of an optional string.
pub fn copy_text(s: &Option<String>) -> (r: Option<String>)
    ensures
        text_of(r) == text_of(*s),
{
    match s {
        Some(t) => Some(t.clone()),
        None => None,
    }
}

/// The characters of each string of a list.
pub open spec fn texts_of(v: Seq<String>) -> Seq<Seq<char>> {
    Seq::new(v.len(), |i: int| v[i]@)
}

/// Unicode's `White_Space` property.
pub open spec fn is_white_space(c: char) -> bool {
    ||| '\u{9}' <= c <= '\u{d}'
    ||| c == '\u{20}'
    ||| c == '\u{85}'
    ||| c == '\u{a0}'
    ||| c == '\u{1680}'
    ||| '\u{2000}' <= c <= '\u{200a}'
    ||| c == '\u{2028}'
    ||| c == '\u{2029}'
    ||| c == '\u{202f}'
    ||| c == '\u{205f}'
    ||| c == '\u{3000}'
}

fn white_space(c: char) -> (r: bool)
    ensures
        r == is_white_space(c),
{
    ('\u{9}' <= c && c <= '\u{d}') || c == '\u{20}' || c == '\u{85}' || c == '\u{a0}' || c
        == '\u{1680}' || ('\u{2000}' <= c && c <= '\u{200a}') || c == '\u{2028}' || c == '\u{2029}'
        || c == '\u{202f}' || c == '\u{205f}' || c == '\u{3000}'
}

/// `s` without the white space at either end.
pub open spec fn trimmed(s: Seq<char>) -> Seq<char>
    decreases s.len(),
{
    if s.len() > 0 && is_white_space(s.first()) {
        trimmed(s.drop_first())
    } else if s.len() > 0 && is_white_space(s.last()) {
        trimmed(s.drop_last())
    } else {
        s
    }
}

/// Removes the white space at both ends.
pub fn trim(s: &str) -> (r: String)
    ensures
        r@ == trimmed(s@),
{
    let n: usize = s.unicode_len();
    let mut from: usize = 0;
    let mut to: usize = n;
    assert(s@.subrange(0, n as int) =~= s@);
    while from < to && white_space(s.get_char(from))
        invariant
            n == s@.len(),
            from <= to == n,
            trimmed(s@.subrange(from as int, to as int)) == trimmed(s@),
        decreases to - from,
    {
        assert(s@.subrange(from as int, to as int).drop_first() =~= s@.subrange(
            from + 1,
            to as int,
        ));
        from = from + 1;
    }
    while from < to && white_space(s.get_char(to - 1))
        invariant
            n == s@.len(),
            from <= to <= n,
            from < to ==> !is_white_space(s@[from as int]),
            trimmed(s@.subrange(from as int, to as int)) == trimmed(s@),
        decreases to - from,
    {
        assert(s@.subrange(from as int, to as int).drop_last() =~= s@.subrange(
            from as int,
            to - 1,
        ));
        to = to - 1;
    }
    s.substring_char(from, to).to_owned()
}

/// The first `n` characters of `s`, or all of them when there are fewer.
pub open spec fn clipped(s: Seq<char>, n: int) -> Seq<char> {
    if n <= 0 {
        Seq::empty()
    } else if n < s.len() {
        s.take(n)
    } else {
        s
    }
}

/// The first `n` characters of `s`, or all of them when there are fewer.
pub fn clip(s: &str, n: usize) -> (r: String)
    ensures
        r@ == clipped(s@, n as int),
{
    let len: usize = s.unicode_len();
    let end: usize = if n < len {
        n
    } else {
        len
    };
    assert(s@.subrange(0, end as int) =~= clipped(s@, n as int));
    s.substring_char(0, end).to_owned()
}

/// `s` cut to at most `n` characters, with an ellipsis as the last of them when it was cut.
pub open spec fn ellipsized(s: Seq<char>, n: int) -> Seq<char> {
    if s.len() > n {
        clipped(s, n - 1) + "\u{2026}"@
    } else {
        s
    }
}

/// Cuts `s` to `n` characters, ending it in an ellipsis when it was too long.
/// The ellipsis is there even when `n` is zero.
pub fn ellipsize(s: &str, n: usize) -> (r: String)
    ensures
        r@ == ellipsized(s@, n as int),
{
    if s.unicode_len() > n {
        let keep: usize = if n == 0 {
            0
        } else {
            n - 1
        };
        let mut r = clip(s, keep);
        r.append("\u{2026}");
        r
    } else {
        s.to_owned()
    }
}

/// `s` followed by as many spaces as bring it to `width` characters.
pub open spec fn padded(s: Seq<char>, width: nat) -> Seq<char> {
    if s.len() < width {
        s + Seq::new((width - s.len()) as nat, |i: int| ' ')
    } else {
        s
    }
}

/// Left-aligns `s` in a field of `width` characters.
pub fn pad(s: &str, width: usize) -> (r: String)
    ensures
        r@ == padded(s@, width as nat),
{
    let mut r = s.to_owned();
    let mut len: usize = s.unicode_len();
    let ghost start = len;
    assert(r@ =~= s@ + Seq::new(0, |i: int| ' '));
    while len < width
        invariant
            start == s@.len(),
            start <= len,
            len <= width || len == start,
            r@ == s@ + Seq::new((len - start) as nat, |i: int| ' '),
        decreases width - len,
    {
        proof {
            reveal_strlit(" ");
        }
        r.append(" ");
        len = len + 1;
        assert(r@ =~= s@ + Seq::new((len - start) as nat, |i: int| ' '));
    }
    assert(r@ =~= padded(s@, width as nat));
    r
}

/// A one-character string, made by `String::from(char)`: it holds that character alone.
#[verifier::external_body]
fn char_string(c: char) -> (s: String)
    ensures
        s@ == seq![c],
{
    String::from(c)
}

/// Visible label for sentinel-encoded keys (`Esc`, `Bksp`).
pub open spec fn key_name(key: char) -> Seq<char> {
    if key == '\u{1b}' {
        "Esc"@
    } else if key == '\u{8}' {
        "Bksp"@
    } else {
        seq![key]
    }
}

/// Visible label for sentinel-encoded keys (`Esc`, `Bksp`); any other key is its own label.
pub fn key_label(key: char) -> (s: String)
    ensures
        s@ == key_name(key),
{
    if key == '\u{1b}' {
        "Esc".to_owned()
    } else if key == '\u{8}' {
        "Bksp".to_owned()
    } else {
        char_string(key)
    }
}

} // verus!
