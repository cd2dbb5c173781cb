//! Character and byte level helpers shared by the rest of the library:
//! prefix tests, trimming, UTF-8 decoding and URL parsing.

use vstd::prelude::*;
use vstd::string::*;
use vstd::utf8::*;

verus! {

/// The bytes that `u8::is_ascii_whitespace` accepts: space, tab, line feed,
/// form feed and carriage return.
pub open spec fn is_ascii_space(b: u8) -> bool {
    b == 0x20u8 || b == 0x09u8 || b == 0x0Au8 || b == 0x0Cu8 || b == 0x0Du8
}

/// Number of bytes that remain of `s` once trailing ASCII whitespace is removed.
pub open spec fn ascii_trimmed_end_len(s: Seq<u8>) -> nat
    decreases s.len(),
{
    if s.len() == 0 {
        0
    } else if is_ascii_space(s.last()) {
        ascii_trimmed_end_len(s.drop_last())
    } else {
        s.len()
    }
}

/// `s` without its trailing ASCII whitespace, as `<[u8]>::trim_ascii_end` gives it.
pub open spec fn trim_ascii_end_spec(s: Seq<u8>) -> Seq<u8> {
    s.take(ascii_trimmed_end_len(s) as int)
}

/// Removes trailing ASCII whitespace from a byte string.
pub fn trim_ascii_end(s: &[u8]) -> (r: Vec<u8>)
    ensures
        r@ == trim_ascii_end_spec(s@),
{
    let mut n: usize = s.len();
    proof {
        assert(s@.take(n as int) =~= s@);
    }
    while n > 0 && is_ascii_space_byte(s[n - 1])
        invariant
            n <= s@.len(),
            ascii_trimmed_end_len(s@.take(n as int)) == ascii_trimmed_end_len(s@),
        decreases n,
    {
        proof {
            assert(s@.take(n as int).drop_last() =~= s@.take(n - 1));
        }
        n = n - 1;
    }
    proof {
        if n > 0 {
            assert(s@.take(n as int).last() == s@[n - 1]);
        }
        assert(ascii_trimmed_end_len(s@.take(n as int)) == n);
    }
    let mut r: Vec<u8> = Vec::new();
    let mut i: usize = 0;
    while i < n
        invariant
            i <= n <= s@.len(),
            r@ == s@.take(i as int),
        decreases n - i,
    {
        r.push(s[i]);
        i = i + 1;
        proof {
            assert(r@ =~= s@.take(i as int));
        }
    }
    r
}

/// Trimming the end of a byte string removes exactly its trailing run of
/// space, tab, line feed, form feed and carriage return bytes
/// (`u8::is_ascii_whitespace`): the result is a prefix of the input, every
/// byte removed is one of those five, and the last byte kept is none of them.
pub proof fn law_trim_ascii_end(s: Seq<u8>)
    ensures
        trim_ascii_end_spec(s).len() <= s.len(),
        trim_ascii_end_spec(s) == s.take(trim_ascii_end_spec(s).len() as int),
        forall|i: int|
            trim_ascii_end_spec(s).len() <= i < s.len() ==> (#[trigger] s[i] == 0x20u8 || s[i] == 0x09u8
                || s[i] == 0x0Au8 || s[i] == 0x0Cu8 || s[i] == 0x0Du8),
        trim_ascii_end_spec(s).len() > 0 ==> !({
            let b = trim_ascii_end_spec(s).last();
            b == 0x20u8 || b == 0x09u8 || b == 0x0Au8 || b == 0x0Cu8 || b == 0x0Du8
        }),
    decreases s.len(),
{
    lemma_trimmed_end_len_bound(s);
    if s.len() > 0 && is_ascii_space(s.last()) {
        let t = s.drop_last();
        law_trim_ascii_end(t);
        lemma_trimmed_end_len_bound(t);
        let k = ascii_trimmed_end_len(t);
        assert(ascii_trimmed_end_len(s) == k);
        assert(t.take(k as int) =~= s.take(k as int));
        assert(trim_ascii_end_spec(s) == trim_ascii_end_spec(t));
        assert forall|i: int|
            trim_ascii_end_spec(s).len() <= i < s.len() implies (#[trigger] s[i] == 0x20u8 || s[i] == 0x09u8
                || s[i] == 0x0Au8 || s[i] == 0x0Cu8 || s[i] == 0x0Du8) by {
            if i < s.len() - 1 {
                assert(s[i] == t[i]);
            }
        };
    } else {
        assert(s.take(s.len() as int) =~= s);
    }
}

/// A hash line loses only its line end: for bytes `h` whose last byte is not
/// ASCII whitespace, trimming `h` followed by a line feed gives `h`.
pub proof fn law_trim_line_end(h: Seq<u8>)
    requires
        h.len() > 0,
        !(h.last() == 0x20u8 || h.last() == 0x09u8 || h.last() == 0x0Au8 || h.last() == 0x0Cu8
            || h.last() == 0x0Du8),
    ensures
        trim_ascii_end_spec(h.push(0x0Au8)) == h,
{
    let s = h.push(0x0Au8);
    assert(s.drop_last() =~= h);
    assert(is_ascii_space(s.last()));
    assert(ascii_trimmed_end_len(h) == h.len());
    assert(ascii_trimmed_end_len(s) == h.len());
    assert(s.take(h.len() as int) =~= h);
}

proof fn lemma_trimmed_end_len_bound(s: Seq<u8>)
    ensures
        ascii_trimmed_end_len(s) <= s.len(),
    decreases s.len(),
{
    if s.len() > 0 && is_ascii_space(s.last()) {
        lemma_trimmed_end_len_bound(s.drop_last());
    }
}

fn is_ascii_space_byte(b: u8) -> (r: bool)
    ensures
        r == is_ascii_space(b),
{
    b == 0x20u8 || b == 0x09u8 || b == 0x0Au8 || b == 0x0Cu8 || b == 0x0Du8
}

/// The characters of a string slice, in order.
pub fn chars_of(s: &str) -> (v: Vec<char>)
    ensures
        v@ == s@,
{
    let mut v: Vec<char> = Vec::new();
    for c in it: s.chars()
        invariant
            v@ == it.seq().take(it.index() as int),
    {
        v.push(c);
    }
    v
}

/// Whether `prefix` is a prefix of `s`, character by character.
pub fn starts_with(s: &str, prefix: &str) -> (r: bool)
    ensures
        r == prefix@.is_prefix_of(s@),
{
    let sc = chars_of(s);
    let pc = chars_of(prefix);
    if pc.len() > sc.len() {
        return false;
    }
    let mut i: usize = 0;
    while i < pc.len()
        invariant
            pc@ == prefix@,
            sc@ == s@,
            pc@.len() <= sc@.len(),
            i <= pc@.len(),
            forall|j: int| 0 <= j < i ==> pc@[j] == sc@[j],
        decreases pc@.len() - i,
    {
        if pc[i] != sc[i] {
            return false;
        }
        i = i + 1;
    }
    true
}

/// Whether two strings hold the same characters.
pub fn str_eq(a: &str, b: &str) -> (r: bool)
    ensures
        r == (a@ == b@),
{
    let ac = chars_of(a);
    let bc = chars_of(b);
    if ac.len() != bc.len() {
        return false;
    }
    let mut i: usize = 0;
    while i < ac.len()
        invariant
            ac@ == a@,
            bc@ == b@,
            ac@.len() == bc@.len(),
            i <= ac@.len(),
            forall|j: int| 0 <= j < i ==> ac@[j] == bc@[j],
        decreases ac@.len() - i,
    {
        if ac[i] != bc[i] {
            return false;
        }
        i = i + 1;
    }
    proof {
        assert(ac@ =~= bc@);
    }
    true
}

/// Strict lexicographic order on character sequences, comparing characters by
/// code point. It is the order of `String`'s `Ord` (UTF-8 keeps code point
/// order byte by byte).
pub open spec fn char_seq_lt(a: Seq<char>, b: Seq<char>) -> bool
    decreases a.len(),
{
    if a.len() == 0 {
        b.len() > 0
    } else if b.len() == 0 {
        false
    } else if (a[0] as u32) < (b[0] as u32) {
        true
    } else if a[0] == b[0] {
        char_seq_lt(a.drop_first(), b.drop_first())
    } else {
        false
    }
}

/// The order is irreflexive and asymmetric.
pub proof fn lemma_char_seq_lt_asymmetric(a: Seq<char>, b: Seq<char>)
    ensures
        !(char_seq_lt(a, b) && char_seq_lt(b, a)),
        !char_seq_lt(a, a),
    decreases a.len(),
{
    if a.len() > 0 && b.len() > 0 && a[0] == b[0] {
        lemma_char_seq_lt_asymmetric(a.drop_first(), b.drop_first());
    }
    if a.len() > 0 {
        lemma_char_seq_lt_asymmetric(a.drop_first(), a.drop_first());
    }
}

/// The order is transitive.
pub proof fn lemma_char_seq_lt_transitive(a: Seq<char>, b: Seq<char>, c: Seq<char>)
    requires
        char_seq_lt(a, b),
        char_seq_lt(b, c),
    ensures
        char_seq_lt(a, c),
    decreases a.len(),
{
    if a.len() > 0 && b.len() > 0 && c.len() > 0 && a[0] == b[0] && b[0] == c[0] {
        lemma_char_seq_lt_transitive(a.drop_first(), b.drop_first(), c.drop_first());
    }
}

/// Two different sequences are ordered one way or the other.
pub proof fn lemma_char_seq_lt_total(a: Seq<char>, b: Seq<char>)
    ensures
        a != b ==> char_seq_lt(a, b) || char_seq_lt(b, a),
    decreases a.len(),
{
    if a.len() == 0 || b.len() == 0 {
        if a.len() == 0 && b.len() == 0 {
            assert(a =~= b);
        }
    } else if a[0] == b[0] {
        let (ta, tb) = (a.drop_first(), b.drop_first());
        lemma_char_seq_lt_total(ta, tb);
        if ta == tb {
            assert(a =~= b) by {
                assert forall|i: int| 0 <= i < a.len() implies a[i] == b[i] by {
                    if i > 0 {
                        assert(a[i] == ta[i - 1]);
                        assert(b[i] == tb[i - 1]);
                    }
                };
            };
        }
    } else {
        let (x, y) = (a[0], b[0]);
        char_u32_cast(x, x as u32);
        char_u32_cast(y, y as u32);
        assert((x as u32) != (y as u32));
    }
}

/// Whether `a` comes strictly before `b` in the order of `String`.
pub fn str_lt(a: &str, b: &str) -> (r: bool)
    ensures
        r == char_seq_lt(a@, b@),
{
    let ac = chars_of(a);
    let bc = chars_of(b);
    let mut i: usize = 0;
    proof {
        assert(ac@.skip(0) =~= ac@);
        assert(bc@.skip(0) =~= bc@);
    }
    while i < ac.len() && i < bc.len()
        invariant
            ac@ == a@,
            bc@ == b@,
            i <= ac@.len(),
            i <= bc@.len(),
            char_seq_lt(ac@.skip(i as int), bc@.skip(i as int)) == char_seq_lt(a@, b@),
        decreases ac@.len() - i,
    {
        let x = ac[i];
        let y = bc[i];
        proof {
            assert(ac@.skip(i as int)[0] == x);
            assert(bc@.skip(i as int)[0] == y);
        }
        if (x as u32) < (y as u32) {
            return true;
        }
        if x != y {
            return false;
        }
        proof {
            assert(ac@.skip(i as int).drop_first() =~= ac@.skip(i + 1));
            assert(bc@.skip(i as int).drop_first() =~= bc@.skip(i + 1));
        }
        i = i + 1;
    }
    i == ac.len() && i < bc.len()
}

/// Whether `c` has the Unicode `White_Space` property (PropList.txt): the
/// controls U+0009 to U+000D, space, U+0085, no-break space, U+1680, the
/// spaces U+2000 to U+200A, the line and paragraph separators, U+202F, U+205F
/// and the ideographic space U+3000.
pub open spec fn unicode_white_space(c: char) -> bool {
    let u = c as u32;
    ||| 0x09 <= u <= 0x0D
    ||| u == 0x20
    ||| u == 0x85
    ||| u == 0xA0
    ||| u == 0x1680
    ||| 0x2000 <= u <= 0x200A
    ||| u == 0x2028
    ||| u == 0x2029
    ||| u == 0x202F
    ||| u == 0x205F
    ||| u == 0x3000
}

/// Calls `char::is_whitespace`, which its documentation defines as having the
/// Unicode `White_Space` property.
#[verifier::external_body]
fn char_is_whitespace(c: char) -> (r: bool)
    ensures
        r == unicode_white_space(c),
{
    c.is_whitespace()
}

/// Index of the first character of `s` that is not whitespace (or `s.len()`).
pub open spec fn first_non_space(s: Seq<char>) -> int
    decreases s.len(),
{
    if s.len() == 0 {
        0
    } else if unicode_white_space(s[0]) {
        1 + first_non_space(s.drop_first())
    } else {
        0
    }
}

/// One past the index of the last character of `s` that is not whitespace (or 0).
pub open spec fn last_non_space_end(s: Seq<char>) -> int
    decreases s.len(),
{
    if s.len() == 0 {
        0
    } else if unicode_white_space(s.last()) {
        last_non_space_end(s.drop_last())
    } else {
        s.len() as int
    }
}

/// `s` with leading and trailing whitespace removed, as `str::trim` gives it.
pub open spec fn trim_spec(s: Seq<char>) -> Seq<char> {
    if last_non_space_end(s) == 0 {
        Seq::empty()
    } else {
        s.subrange(first_non_space(s), last_non_space_end(s))
    }
}

proof fn lemma_first_non_space(s: Seq<char>)
    ensures
        0 <= first_non_space(s) <= s.len(),
        forall|i: int| 0 <= i < first_non_space(s) ==> unicode_white_space(#[trigger] s[i]),
        first_non_space(s) < s.len() ==> !unicode_white_space(s[first_non_space(s)]),
    decreases s.len(),
{
    if s.len() > 0 && unicode_white_space(s[0]) {
        let t = s.drop_first();
        lemma_first_non_space(t);
        assert forall|i: int| 0 <= i < first_non_space(s) implies unicode_white_space(#[trigger] s[i]) by {
            if i > 0 {
                assert(s[i] == t[i - 1]);
            }
        }
    }
}

proof fn lemma_last_non_space(s: Seq<char>)
    ensures
        0 <= last_non_space_end(s) <= s.len(),
        forall|i: int| last_non_space_end(s) <= i < s.len() ==> unicode_white_space(#[trigger] s[i]),
        last_non_space_end(s) > 0 ==> !unicode_white_space(s[last_non_space_end(s) - 1]),
    decreases s.len(),
{
    if s.len() > 0 && unicode_white_space(s.last()) {
        let t = s.drop_last();
        lemma_last_non_space(t);
        assert forall|i: int| last_non_space_end(s) <= i < s.len() implies unicode_white_space(#[trigger] s[i]) by {
            if i < s.len() - 1 {
                assert(s[i] == t[i]);
            }
        }
    }
}

/// When some character is not whitespace, the first such character comes no
/// later than the last one.
proof fn lemma_trim_bounds(s: Seq<char>)
    ensures
        last_non_space_end(s) > 0 ==> first_non_space(s) < last_non_space_end(s),
        last_non_space_end(s) == 0 ==> forall|i: int| 0 <= i < s.len() ==> unicode_white_space(#[trigger] s[i]),
{
    lemma_first_non_space(s);
    lemma_last_non_space(s);
    if last_non_space_end(s) > 0 {
        let k = last_non_space_end(s) - 1;
        if first_non_space(s) > k {
            assert(unicode_white_space(s[k]));
        }
    }
}

/// Removes leading and trailing whitespace from a string.
pub fn trim(s: &str) -> (r: String)
    ensures
        r@ == trim_spec(s@),
{
    let cs = chars_of(s);
    let n = cs.len();
    let mut start: usize = 0;
    proof {
        assert(cs@.skip(0) =~= cs@);
    }
    while start < n && char_is_whitespace(cs[start])
        invariant
            cs@ == s@,
            n == cs@.len(),
            start <= n,
            first_non_space(cs@.skip(start as int)) + start == first_non_space(cs@),
        decreases n - start,
    {
        proof {
            assert(cs@.skip(start as int).drop_first() =~= cs@.skip(start + 1));
        }
        start = start + 1;
    }
    proof {
        if start < n {
            assert(cs@.skip(start as int)[0] == cs@[start as int]);
        }
        assert(first_non_space(cs@.skip(start as int)) == 0);
    }
    let mut end: usize = n;
    proof {
        assert(cs@.take(n as int) =~= cs@);
    }
    while end > 0 && char_is_whitespace(cs[end - 1])
        invariant
            cs@ == s@,
            n == cs@.len(),
            end <= n,
            last_non_space_end(cs@.take(end as int)) == last_non_space_end(cs@),
        decreases end,
    {
        proof {
            assert(cs@.take(end as int).drop_last() =~= cs@.take(end - 1));
        }
        end = end - 1;
    }
    proof {
        if end > 0 {
            assert(cs@.take(end as int).last() == cs@[end - 1]);
        }
        assert(last_non_space_end(cs@.take(end as int)) == end);
        lemma_trim_bounds(cs@);
    }
    if end == 0 {
        return String::new();
    }
    s.substring_char(start, end).to_owned()
}

/// Calls `std::str::from_utf8` and copies the result into a `String`. The
/// documentation promises `Ok` exactly for well-formed UTF-8, with the
/// characters that the bytes encode.
#[verifier::external_body]
pub(crate) fn utf8_decode(bytes: &[u8]) -> (r: Option<String>)
    ensures
        r is Some <==> valid_utf8(bytes@),
        r matches Some(s) ==> s@ == decode_utf8(bytes@),
{
    std::str::from_utf8(bytes).ok().map(|s| s.to_owned())
}

/// The kinds of URL parse failure that the command line explains separately.
#[derive(Debug, Clone, Copy, PartialEq, Eq)]
pub enum UrlErrorKind {
    RelativeUrlWithoutBase,
    InvalidPort,
    Other,
}

/// Why a URL could not be parsed: the kind, and the parser's own description.
#[derive(Debug, Clone, PartialEq, Eq)]
pub struct UrlError {
    pub kind: UrlErrorKind,
    pub description: String,
}

/// The plain value of a [`UrlError`].
pub struct UrlErrorView {
    pub kind: UrlErrorKind,
    pub description: Seq<char>,
}

impl View for UrlError {
    type V = UrlErrorView;

    open spec fn view(&self) -> UrlErrorView {
        UrlErrorView { kind: self.kind, description: self.description@ }
    }
}

/// An optional URL parse result, taken by its view.
pub open spec fn view_parsed(o: Option<Result<String, UrlError>>) -> Option<Result<Seq<char>, UrlErrorView>> {
    match o {
        Some(Ok(s)) => Some(Ok(s@)),
        Some(Err(e)) => Some(Err(e@)),
        None => None,
    }
}

/// What `url::Url::parse` makes of a string: the serialization of the parsed
/// URL, or the error.
pub uninterp spec fn url_parse(input: Seq<char>) -> Result<Seq<char>, UrlErrorView>;

/// Calls `url::Url::parse` and keeps the serialization of the result
/// (`Url::as_str`), or the kind of the error with its `Display` text. Claims only that the outcome is a function of the input
/// string, named by `url_parse`.
#[verifier::external_body]
pub(crate) fn parse_url(input: &str) -> (r: Result<String, UrlError>)
    ensures
        match r {
            Ok(s) => url_parse(input@) == Ok::<Seq<char>, UrlErrorView>(s@),
            Err(e) => url_parse(input@) == Err::<Seq<char>, UrlErrorView>(e@),
        },
{
    match url::Url::parse(input) {
        Ok(u) => Ok(u.as_str().to_owned()),
        Err(e) => Err(UrlError {
            kind: match e {
                url::ParseError::RelativeUrlWithoutBase => UrlErrorKind::RelativeUrlWithoutBase,
                url::ParseError::InvalidPort => UrlErrorKind::InvalidPort,
                _ => UrlErrorKind::Other,
            },
            description: e.to_string(),
        }),
    }
}

} // verus!
