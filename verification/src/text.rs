//! Text helpers shared by the router, the handler registry and the relational
//! mapping engine. Strings are modelled by their sequence of characters.

use vstd::prelude::*;

verus! {

/// `String::push` appends one character to the end of the string.
pub assume_specification[ std::string::String::push ](s: &mut std::string::String, c: char)
    ensures
        final(s)@ == old(s)@.push(c),
;

/// The lowercase form of an ASCII character: `A` to `Z` become `a` to `z`,
/// every other character stays.
pub open spec fn ascii_lower(c: char) -> char {
    if 'A' <= c <= 'Z' {
        ((c as u8 + 32) as u8) as char
    } else {
        c
    }
}

/// The uppercase form of an ASCII character: `a` to `z` become `A` to `Z`,
/// every other character stays.
pub open spec fn ascii_upper(c: char) -> char {
    if 'a' <= c <= 'z' {
        ((c as u8 - 32) as u8) as char
    } else {
        c
    }
}

/// An ASCII text with every letter in lower case.
pub open spec fn ascii_lowercase(s: Seq<char>) -> Seq<char> {
    Seq::new(s.len(), |i: int| ascii_lower(s[i]))
}

/// An ASCII text with every letter in upper case.
pub open spec fn ascii_uppercase(s: Seq<char>) -> Seq<char> {
    Seq::new(s.len(), |i: int| ascii_upper(s[i]))
}

/// The lowercase form that `str::to_lowercase` computes for a text with a
/// character beyond ASCII. It follows the Unicode case mappings, which take
/// pages to state.
pub uninterp spec fn unicode_lowercase(s: Seq<char>) -> Seq<char>;

/// The uppercase form that `str::to_uppercase` computes for a text with a
/// character beyond ASCII.
pub uninterp spec fn unicode_uppercase(s: Seq<char>) -> Seq<char>;

/// The lowercase form of a text, as `str::to_lowercase` computes it: an ASCII
/// text has its letters `A` to `Z` replaced by `a` to `z`; every other text
/// has the form that the Unicode case mappings give it.
pub open spec fn lowercase_text(s: Seq<char>) -> Seq<char> {
    if vstd::utf8::is_ascii_chars(s) {
        ascii_lowercase(s)
    } else {
        unicode_lowercase(s)
    }
}

/// The uppercase form of a text, as `str::to_uppercase` computes it: an ASCII
/// text has its letters `a` to `z` replaced by `A` to `Z`; every other text
/// has the form that the Unicode case mappings give it.
pub open spec fn uppercase_text(s: Seq<char>) -> Seq<char> {
    if vstd::utf8::is_ascii_chars(s) {
        ascii_uppercase(s)
    } else {
        unicode_uppercase(s)
    }
}

/// Calls `str::to_lowercase`. The result is [`lowercase_text`]: stated for an
/// ASCII text, named for every other text.
#[verifier::external_body]
pub(crate) fn lowercase(s: &str) -> (r: String)
    ensures
        r@ == if vstd::utf8::is_ascii_chars(s@) {
            ascii_lowercase(s@)
        } else {
            unicode_lowercase(s@)
        },
{
    s.to_lowercase()
}

/// Calls `str::to_uppercase`. The result is [`uppercase_text`]: stated for an
/// ASCII text, named for every other text.
#[verifier::external_body]
pub(crate) fn uppercase(s: &str) -> (r: String)
    ensures
        r@ == if vstd::utf8::is_ascii_chars(s@) {
            ascii_uppercase(s@)
        } else {
            unicode_uppercase(s@)
        },
{
    s.to_uppercase()
}

/// Whether a character has the Unicode `White_Space` property: tab, line
/// feed, vertical tab, form feed, carriage return, space, next line,
/// no-break space, the ogham space mark, the spaces from en quad to hair
/// space, line and paragraph separator, the narrow no-break space, the
/// medium mathematical space and the ideographic space.
pub open spec fn white_space(c: char) -> bool {
    ||| '\u{9}' <= c <= '\u{d}'
    ||| c == ' '
    ||| c == '\u{85}'
    ||| c == '\u{a0}'
    ||| c == '\u{1680}'
    ||| '\u{2000}' <= c <= '\u{200a}'
    ||| c == '\u{2028}'
    ||| c == '\u{2029}'
    ||| c == '\u{202f}'
    ||| c == '\u{205f}'
    ||| c == '\u{3000}'
}

/// Whether a character has the Unicode `White_Space` property.
pub fn is_white_space(c: char) -> (r: bool)
    ensures
        r == white_space(c),
{
    ('\u{9}' <= c && c <= '\u{d}') || c == ' ' || c == '\u{85}' || c == '\u{a0}' || c
        == '\u{1680}' || ('\u{2000}' <= c && c <= '\u{200a}') || c == '\u{2028}' || c
        == '\u{2029}' || c == '\u{202f}' || c == '\u{205f}' || c == '\u{3000}'
}

/// Lower case is settled on ASCII texts. The lowercase form of an ASCII text
/// is an ASCII text of the same length, putting it in lower case again
/// changes nothing, and two ASCII texts that are the same but for the case of
/// their letters have one lowercase form.
pub proof fn lemma_lowercase_of_ascii(s: Seq<char>, other: Seq<char>)
    requires
        vstd::utf8::is_ascii_chars(s),
    ensures
        lowercase_text(s) == ascii_lowercase(s),
        lowercase_text(s).len() == s.len(),
        vstd::utf8::is_ascii_chars(lowercase_text(s)),
        lowercase_text(lowercase_text(s)) == lowercase_text(s),
        vstd::utf8::is_ascii_chars(other) && ascii_lowercase(other) == ascii_lowercase(s)
            ==> lowercase_text(other) == lowercase_text(s),
{
    let lower = ascii_lowercase(s);
    assert forall|i: int| 0 <= i < lower.len() implies '\0' <= #[trigger] lower[i] <= '\u{7f}'
        && ascii_lower(lower[i]) == lower[i] by {
        assert('\0' <= s[i] <= '\u{7f}');
    }
    assert(ascii_lowercase(lower) =~= lower);
}

/// The `{:?}` rendering of a list of strings.
pub uninterp spec fn debug_list_text(items: Seq<Seq<char>>) -> Seq<char>;

/// Formats a list of strings with `{:?}`; the result is named, not described.
#[verifier::external_body]
pub(crate) fn debug_list(items: &Vec<String>) -> (r: String)
    ensures
        r@ == debug_list_text(items.deep_view()),
{
    format!("{:?}", items)
}

/// The characters of a string, in order.
pub fn chars_of(s: &str) -> (r: Vec<char>)
    ensures
        r@ == s@,
{
    let mut out: Vec<char> = Vec::new();
    for c in it: s.chars()
        invariant
            out@ == s@.take(it.index()),
            it.seq() == s@,
    {
        out.push(c);
    }
    out
}

/// The string made of the characters `chars[from..to]`.
pub fn text_of(chars: &Vec<char>, from: usize, to: usize) -> (r: String)
    requires
        from <= to <= chars.len(),
    ensures
        r@ == chars@.subrange(from as int, to as int),
{
    let mut out = String::new();
    let mut i: usize = from;
    while i < to
        invariant
            from <= i <= to <= chars.len(),
            out@ == chars@.subrange(from as int, i as int),
        decreases to - i,
    {
        out.push(chars[i]);
        i = i + 1;
    }
    out
}

/// `a` followed by `b`.
pub fn concat2(a: &str, b: &str) -> (r: String)
    ensures
        r@ == a@ + b@,
{
    let mut out = String::from_str(a);
    out.append(b);
    out
}

/// `a`, `b` and `c` in a row.
pub fn concat3(a: &str, b: &str, c: &str) -> (r: String)
    ensures
        r@ == a@ + b@ + c@,
{
    let mut out = String::from_str(a);
    out.append(b);
    out.append(c);
    out
}

/// `a`, `b`, `c` and `d` in a row.
pub fn concat4(a: &str, b: &str, c: &str, d: &str) -> (r: String)
    ensures
        r@ == a@ + b@ + c@ + d@,
{
    let mut out = String::from_str(a);
    out.append(b);
    out.append(c);
    out.append(d);
    out
}

/// Whether two strings hold the same characters.
pub fn same_text(a: &str, b: &str) -> (r: bool)
    ensures
        r == (a@ == b@),
{
    let x = chars_of(a);
    let y = chars_of(b);
    if x.len() != y.len() {
        return false;
    }
    let mut i: usize = 0;
    while i < x.len()
        invariant
            i <= x.len(),
            x.len() == y.len(),
            x@ == a@,
            y@ == b@,
            forall|j: int| 0 <= j < i ==> x@[j] == y@[j],
        decreases x.len() - i,
    {
        if x[i] != y[i] {
            return false;
        }
        i = i + 1;
    }
    assert(x@ =~= y@);
    true
}

/// `pattern` stands in `s` at offset `at`.
pub open spec fn occurs_at(s: Seq<char>, pattern: Seq<char>, at: int) -> bool {
    0 <= at && at + pattern.len() <= s.len() && s.subrange(at, at + pattern.len()) == pattern
}

/// `pattern` stands somewhere in `s`.
pub open spec fn contains_text(s: Seq<char>, pattern: Seq<char>) -> bool {
    exists|at: int| occurs_at(s, pattern, at)
}

/// `s` begins with `prefix`.
pub open spec fn starts_with_text(s: Seq<char>, prefix: Seq<char>) -> bool {
    occurs_at(s, prefix, 0)
}

fn occurs_at_chars(s: &Vec<char>, pattern: &Vec<char>, at: usize) -> (r: bool)
    ensures
        r == occurs_at(s@, pattern@, at as int),
{
    if pattern.len() > s.len() || at > s.len() - pattern.len() {
        return false;
    }
    let mut i: usize = 0;
    while i < pattern.len()
        invariant
            i <= pattern.len(),
            at + pattern.len() <= s.len(),
            forall|j: int| 0 <= j < i ==> s@[at + j] == pattern@[j],
        decreases pattern.len() - i,
    {
        if s[at + i] != pattern[i] {
            return false;
        }
        i = i + 1;
    }
    assert(s@.subrange(at as int, at + pattern.len()) =~= pattern@);
    true
}

/// Whether `s` begins with `prefix`.
pub fn starts_with(s: &str, prefix: &str) -> (r: bool)
    ensures
        r == starts_with_text(s@, prefix@),
{
    let x = chars_of(s);
    let p = chars_of(prefix);
    occurs_at_chars(&x, &p, 0)
}

/// Whether `pattern` stands somewhere in `s`.
pub fn contains(s: &str, pattern: &str) -> (r: bool)
    ensures
        r == contains_text(s@, pattern@),
{
    let x = chars_of(s);
    let p = chars_of(pattern);
    if p.len() > x.len() {
        return false;
    }
    let last: usize = x.len() - p.len();
    let mut at: usize = 0;
    while at < last
        invariant
            at <= last,
            last == x.len() - p.len(),
            p.len() <= x.len(),
            x@ == s@,
            p@ == pattern@,
            forall|k: int| 0 <= k < at ==> !occurs_at(x@, p@, k),
        decreases last - at,
    {
        if occurs_at_chars(&x, &p, at) {
            return true;
        }
        at = at + 1;
    }
    if occurs_at_chars(&x, &p, last) {
        return true;
    }
    false
}

/// A text contains what stands in its middle, whatever stands before and
/// after.
pub proof fn lemma_contains_middle(before: Seq<char>, middle: Seq<char>, after: Seq<char>)
    ensures
        contains_text(before + middle + after, middle),
{
    let s = before + middle + after;
    assert(s.subrange(before.len() as int, (before.len() + middle.len()) as int) =~= middle);
    assert(occurs_at(s, middle, before.len() as int));
}

/// Number of leading `'/'` characters.
pub open spec fn leading_slashes(s: Seq<char>) -> nat
    decreases s.len(),
{
    if s.len() > 0 && s[0] == '/' {
        1 + leading_slashes(s.drop_first())
    } else {
        0
    }
}

/// Number of trailing `'/'` characters.
pub open spec fn trailing_slashes(s: Seq<char>) -> nat
    decreases s.len(),
{
    if s.len() > 0 && s.last() == '/' {
        1 + trailing_slashes(s.drop_last())
    } else {
        0
    }
}

/// `s` without its leading and trailing `'/'` characters.
pub open spec fn trim_slashes_text(s: Seq<char>) -> Seq<char> {
    let rest = s.skip(leading_slashes(s) as int);
    rest.take(rest.len() - trailing_slashes(rest))
}

proof fn lemma_leading_slashes(s: Seq<char>, n: int)
    requires
        0 <= n <= s.len(),
        forall|k: int| 0 <= k < n ==> s[k] == '/',
        n == s.len() || s[n] != '/',
    ensures
        leading_slashes(s) == n,
    decreases n,
{
    if n > 0 {
        lemma_leading_slashes(s.drop_first(), n - 1);
    }
}

proof fn lemma_trailing_slashes(s: Seq<char>, n: int)
    requires
        0 <= n <= s.len(),
        forall|k: int| s.len() - n <= k < s.len() ==> s[k] == '/',
        n == s.len() || s[s.len() - n - 1] != '/',
    ensures
        trailing_slashes(s) == n,
    decreases n,
{
    if n > 0 {
        lemma_trailing_slashes(s.drop_last(), n - 1);
    }
}

/// Strips every leading and trailing `'/'`.
pub fn trim_slashes(s: &str) -> (r: String)
    ensures
        r@ == trim_slashes_text(s@),
{
    let x = chars_of(s);
    let mut from: usize = 0;
    while from < x.len() && x[from] == '/'
        invariant
            from <= x.len(),
            forall|k: int| 0 <= k < from ==> x@[k] == '/',
        decreases x.len() - from,
    {
        from = from + 1;
    }
    let mut to: usize = x.len();
    while to > from && x[to - 1] == '/'
        invariant
            from <= to <= x.len(),
            forall|k: int| to <= k < x.len() ==> x@[k] == '/',
        decreases to,
    {
        to = to - 1;
    }
    proof {
        lemma_leading_slashes(x@, from as int);
        let rest = x@.skip(from as int);
        lemma_trailing_slashes(rest, x.len() - to);
    }
    text_of(&x, from, to)
}

/// Number of leading white-space characters.
pub open spec fn leading_space(s: Seq<char>) -> nat
    decreases s.len(),
{
    if s.len() > 0 && white_space(s[0]) {
        1 + leading_space(s.drop_first())
    } else {
        0
    }
}

/// Number of trailing white-space characters.
pub open spec fn trailing_space(s: Seq<char>) -> nat
    decreases s.len(),
{
    if s.len() > 0 && white_space(s.last()) {
        1 + trailing_space(s.drop_last())
    } else {
        0
    }
}

/// `s` without its leading and trailing white space.
pub open spec fn trimmed_text(s: Seq<char>) -> Seq<char> {
    let rest = s.skip(leading_space(s) as int);
    rest.take(rest.len() - trailing_space(rest))
}

proof fn lemma_leading_space(s: Seq<char>, n: int)
    requires
        0 <= n <= s.len(),
        forall|k: int| 0 <= k < n ==> white_space(s[k]),
        n == s.len() || !white_space(s[n]),
    ensures
        leading_space(s) == n,
    decreases n,
{
    if n > 0 {
        lemma_leading_space(s.drop_first(), n - 1);
    }
}

proof fn lemma_trailing_space(s: Seq<char>, n: int)
    requires
        0 <= n <= s.len(),
        forall|k: int| s.len() - n <= k < s.len() ==> white_space(s[k]),
        n == s.len() || !white_space(s[s.len() - n - 1]),
    ensures
        trailing_space(s) == n,
    decreases n,
{
    if n > 0 {
        lemma_trailing_space(s.drop_last(), n - 1);
    }
}

/// Strips leading and trailing white space.
pub fn trim(s: &str) -> (r: String)
    ensures
        r@ == trimmed_text(s@),
{
    let x = chars_of(s);
    let mut from: usize = 0;
    while from < x.len() && is_white_space(x[from])
        invariant
            from <= x.len(),
            forall|k: int| 0 <= k < from ==> white_space(x@[k]),
        decreases x.len() - from,
    {
        from = from + 1;
    }
    let mut to: usize = x.len();
    while to > from && is_white_space(x[to - 1])
        invariant
            from <= to <= x.len(),
            forall|k: int| to <= k < x.len() ==> white_space(x@[k]),
        decreases to,
    {
        to = to - 1;
    }
    proof {
        lemma_leading_space(x@, from as int);
        let rest = x@.skip(from as int);
        lemma_trailing_space(rest, x.len() - to);
    }
    text_of(&x, from, to)
}

/// Length of the run of characters before the first `'/'`.
pub open spec fn segment_length(s: Seq<char>) -> nat
    decreases s.len(),
{
    if s.len() > 0 && s[0] != '/' {
        1 + segment_length(s.drop_first())
    } else {
        0
    }
}

/// A segment is no longer than its text, and not empty where the text starts
/// with something else than `'/'`.
pub proof fn lemma_segment_length_bounds(s: Seq<char>)
    ensures
        segment_length(s) <= s.len(),
        s.len() > 0 && s[0] != '/' ==> segment_length(s) > 0,
    decreases s.len(),
{
    if s.len() > 0 && s[0] != '/' {
        lemma_segment_length_bounds(s.drop_first());
    }
}

/// The non-empty pieces of `s` between `'/'` characters, in order.
pub open spec fn path_segments_text(s: Seq<char>) -> Seq<Seq<char>>
    decreases s.len(),
{
    if s.len() == 0 {
        Seq::empty()
    } else if s[0] == '/' {
        path_segments_text(s.drop_first())
    } else {
        let n = segment_length(s) as int;
        proof {
            lemma_segment_length_bounds(s);
        }
        seq![s.take(n)] + path_segments_text(s.skip(n))
    }
}

proof fn lemma_segment_length(s: Seq<char>, n: int)
    requires
        0 <= n <= s.len(),
        forall|k: int| 0 <= k < n ==> s[k] != '/',
        n == s.len() || s[n] == '/',
    ensures
        segment_length(s) == n,
    decreases n,
{
    if n > 0 {
        lemma_segment_length(s.drop_first(), n - 1);
    }
}

/// Splits a path on `'/'` and drops the empty pieces.
pub fn path_segments(path: &str) -> (r: Vec<String>)
    ensures
        r.deep_view() == path_segments_text(path@),
{
    let x = chars_of(path);
    let mut out: Vec<String> = Vec::new();
    let mut i: usize = 0;
    proof {
        assert(x@.skip(0) =~= x@);
    }
    while i < x.len()
        invariant
            i <= x.len(),
            path_segments_text(x@) == out.deep_view() + path_segments_text(x@.skip(i as int)),
        decreases x.len() - i,
    {
        let ghost rest = x@.skip(i as int);
        if x[i] == '/' {
            assert(rest.drop_first() =~= x@.skip(i + 1));
            i = i + 1;
        } else {
            let mut j: usize = i + 1;
            while j < x.len() && x[j] != '/'
                invariant
                    i < j <= x.len(),
                    forall|k: int| i <= k < j ==> x@[k] != '/',
                decreases x.len() - j,
            {
                j = j + 1;
            }
            let piece = text_of(&x, i, j);
            proof {
                lemma_segment_length(rest, j - i);
                assert(rest.take(j - i) =~= x@.subrange(i as int, j as int));
                assert(rest.skip(j - i) =~= x@.skip(j as int));
            }
            out.push(piece);
            i = j;
        }
    }
    out
}

/// The path that names the given segments: each segment after a `'/'`.
pub open spec fn path_of_segments(segments: Seq<Seq<char>>) -> Seq<char>
    decreases segments.len(),
{
    if segments.len() == 0 {
        Seq::empty()
    } else {
        seq!['/'] + segments[0] + path_of_segments(segments.drop_first())
    }
}

/// Whether a text can stand as a segment of a path: it is not empty and holds
/// no `'/'`.
pub open spec fn is_segment(s: Seq<char>) -> bool {
    s.len() > 0 && forall|i: int| 0 <= i < s.len() ==> s[i] != '/'
}

/// A path is split into the segments that it was made of, with or without
/// its leading `'/'`.
pub proof fn lemma_segments_of_path(segments: Seq<Seq<char>>)
    requires
        forall|i: int| 0 <= i < segments.len() ==> is_segment(#[trigger] segments[i]),
    ensures
        path_segments_text(path_of_segments(segments)) == segments,
        segments.len() > 0 ==> path_segments_text(path_of_segments(segments).drop_first())
            == segments,
    decreases segments.len(),
{
    if segments.len() > 0 {
        let first = segments[0];
        let rest = segments.drop_first();
        let tail = path_of_segments(rest);
        let path = path_of_segments(segments);
        let inner = path.drop_first();
        assert(is_segment(first));
        assert forall|i: int| 0 <= i < rest.len() implies is_segment(#[trigger] rest[i]) by {
            assert(rest[i] == segments[i + 1]);
        }
        lemma_segments_of_path(rest);
        let n = first.len() as int;
        assert(path[0] == '/');
        assert(inner =~= first + tail);
        assert forall|k: int| 0 <= k < n implies inner[k] != '/' by {
            assert(inner[k] == first[k]);
        }
        if rest.len() > 0 {
            assert(tail[0] == '/');
            assert(inner[n] == tail[0]);
        } else {
            assert(tail.len() == 0);
        }
        lemma_segment_length(inner, n);
        assert(inner.take(n) =~= first);
        assert(inner.skip(n) =~= tail);
        assert(path_segments_text(inner) == seq![first] + path_segments_text(tail));
        assert(seq![first] + rest =~= segments);
        assert(path_segments_text(path) == path_segments_text(inner));
    } else {
        assert(segments =~= Seq::<Seq<char>>::empty());
    }
}

/// A text that neither starts nor ends with `'/'` is what is left of it when
/// slashes are trimmed, also after a `'/'` was put in front of it.
pub proof fn lemma_trim_slashes_of_clean(s: Seq<char>)
    requires
        s.len() > 0,
        s[0] != '/',
        s.last() != '/',
    ensures
        trim_slashes_text(s) == s,
        trim_slashes_text(seq!['/'] + s) == s,
{
    lemma_leading_slashes(s, 0);
    lemma_trailing_slashes(s, 0);
    assert(s.skip(0) =~= s);
    assert(s.take(s.len() as int) =~= s);
    let slashed = seq!['/'] + s;
    lemma_leading_slashes(slashed, 1);
    assert(slashed.skip(1) =~= s);
}

/// `parts` joined with `separator` between neighbours.
pub open spec fn join_text(parts: Seq<Seq<char>>, separator: Seq<char>) -> Seq<char>
    decreases parts.len(),
{
    if parts.len() == 0 {
        Seq::empty()
    } else if parts.len() == 1 {
        parts[0]
    } else {
        join_text(parts.drop_last(), separator) + separator + parts.last()
    }
}

/// Joins strings with a separator between neighbours.
pub fn join(parts: &Vec<String>, separator: &str) -> (r: String)
    ensures
        r@ == join_text(parts.deep_view(), separator@),
{
    let mut out = String::new();
    let mut i: usize = 0;
    while i < parts.len()
        invariant
            i <= parts.len(),
            out@ == join_text(parts.deep_view().take(i as int), separator@),
        decreases parts.len() - i,
    {
        let ghost done = parts.deep_view().take(i as int);
        let ghost next = parts.deep_view().take(i + 1);
        proof {
            assert(next.drop_last() =~= done);
        }
        if i > 0 {
            out.append(separator);
        }
        out.append(parts[i].as_str());
        i = i + 1;
    }
    assert(parts.deep_view().take(parts.len() as int) =~= parts.deep_view());
    out
}

/// Appends the strings of `more` to `names`, in order.
pub fn append_all(names: &mut Vec<String>, more: Vec<String>)
    ensures
        final(names).deep_view() == old(names).deep_view() + more.deep_view(),
{
    let mut more = more;
    names.append(&mut more);
}

/// The decimal digit for `d`.
pub open spec fn digit_char(d: int) -> char {
    if d == 0 {
        '0'
    } else if d == 1 {
        '1'
    } else if d == 2 {
        '2'
    } else if d == 3 {
        '3'
    } else if d == 4 {
        '4'
    } else if d == 5 {
        '5'
    } else if d == 6 {
        '6'
    } else if d == 7 {
        '7'
    } else if d == 8 {
        '8'
    } else {
        '9'
    }
}

/// The decimal notation of a natural number, without leading zeros.
pub open spec fn decimal_text(n: nat) -> Seq<char>
    decreases n,
{
    if n < 10 {
        seq![digit_char(n as int)]
    } else {
        decimal_text(n / 10).push(digit_char((n % 10) as int))
    }
}

fn digit(d: u64) -> (r: char)
    requires
        d < 10,
    ensures
        r == digit_char(d as int),
{
    if d == 0 {
        '0'
    } else if d == 1 {
        '1'
    } else if d == 2 {
        '2'
    } else if d == 3 {
        '3'
    } else if d == 4 {
        '4'
    } else if d == 5 {
        '5'
    } else if d == 6 {
        '6'
    } else if d == 7 {
        '7'
    } else if d == 8 {
        '8'
    } else {
        '9'
    }
}

/// Writes a number in decimal notation.
pub fn decimal(n: u64) -> (r: String)
    ensures
        r@ == decimal_text(n as nat),
{
    let mut digits: Vec<char> = Vec::new();
    let mut rest: u64 = n;
    while rest >= 10
        invariant
            decimal_text(n as nat) == decimal_text(rest as nat) + digits@.reverse(),
        decreases rest,
    {
        let d = digit(rest % 10);
        digits.push(d);
        rest = rest / 10;
    }
    let mut out = String::new();
    out.push(digit(rest));
    let mut i: usize = digits.len();
    while i > 0
        invariant
            i <= digits.len(),
            out@ == decimal_text(rest as nat) + digits@.reverse().take(digits.len() - i),
            rest < 10,
        decreases i,
    {
        i = i - 1;
        out.push(digits[i]);
    }
    out
}

/// Position of the first element that meets a condition.
pub open spec fn first_index<A>(s: Seq<A>, meets: spec_fn(A) -> bool) -> Option<int>
    decreases s.len(),
{
    if s.len() == 0 {
        None
    } else if meets(s[0]) {
        Some(0)
    } else {
        match first_index(s.drop_first(), meets) {
            Some(i) => Some(i + 1),
            None => None,
        }
    }
}

/// `first_index` returns the least position whose element meets the
/// condition, and nothing where no element does.
pub proof fn lemma_first_index<A>(s: Seq<A>, meets: spec_fn(A) -> bool)
    ensures
        match first_index(s, meets) {
            Some(i) => 0 <= i < s.len() && meets(s[i]) && forall|j: int|
                0 <= j < i ==> !meets(#[trigger] s[j]),
            None => forall|j: int| 0 <= j < s.len() ==> !meets(#[trigger] s[j]),
        },
    decreases s.len(),
{
    if s.len() > 0 && !meets(s[0]) {
        let rest = s.drop_first();
        lemma_first_index(rest, meets);
        match first_index(rest, meets) {
            Some(i) => {
                assert forall|j: int| 0 <= j < i + 1 implies !meets(#[trigger] s[j]) by {
                    if j > 0 {
                        assert(rest[j - 1] == s[j]);
                    }
                }
            },
            None => {
                assert forall|j: int| 0 <= j < s.len() implies !meets(#[trigger] s[j]) by {
                    if j > 0 {
                        assert(rest[j - 1] == s[j]);
                    }
                }
            },
        }
    }
}

/// A position whose element meets the condition, with no earlier such
/// position, is what `first_index` returns.
pub proof fn lemma_first_index_is<A>(s: Seq<A>, meets: spec_fn(A) -> bool, at: int)
    requires
        0 <= at < s.len(),
        meets(s[at]),
        forall|j: int| 0 <= j < at ==> !meets(#[trigger] s[j]),
    ensures
        first_index(s, meets) == Some(at),
{
    lemma_first_index(s, meets);
}

/// Where no element meets the condition, `first_index` returns nothing.
pub proof fn lemma_first_index_none<A>(s: Seq<A>, meets: spec_fn(A) -> bool)
    requires
        forall|j: int| 0 <= j < s.len() ==> !meets(#[trigger] s[j]),
    ensures
        first_index(s, meets) is None,
{
    lemma_first_index(s, meets);
}

} // verus!
