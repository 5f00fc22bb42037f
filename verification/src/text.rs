use vstd::prelude::*;

verus! {

/// Characters that surround a text without belonging to it: the code points
/// with the Unicode property `White_Space`.
pub open spec fn is_whitespace(c: char) -> bool {
    ||| '\u{9}' <= c <= '\u{D}'
    ||| c == ' '
    ||| c == '\u{85}'
    ||| c == '\u{A0}'
    ||| c == '\u{1680}'
    ||| '\u{2000}' <= c <= '\u{200A}'
    ||| c == '\u{2028}'
    ||| c == '\u{2029}'
    ||| c == '\u{202F}'
    ||| c == '\u{205F}'
    ||| c == '\u{3000}'
}

/// A text made of whitespace alone; the empty text is blank.
pub open spec fn is_blank(s: Seq<char>) -> bool {
    forall|i: int| 0 <= i < s.len() ==> is_whitespace(#[trigger] s[i])
}

/// `s` without the whitespace it begins with.
pub open spec fn without_leading_whitespace(s: Seq<char>) -> Seq<char>
    decreases s.len(),
{
    if s.len() > 0 && is_whitespace(s[0]) {
        without_leading_whitespace(s.drop_first())
    } else {
        s
    }
}

/// `s` without the whitespace it ends with.
pub open spec fn without_trailing_whitespace(s: Seq<char>) -> Seq<char>
    decreases s.len(),
{
    if s.len() > 0 && is_whitespace(s.last()) {
        without_trailing_whitespace(s.drop_last())
    } else {
        s
    }
}

/// `s` without the whitespace around it.
pub open spec fn trimmed(s: Seq<char>) -> Seq<char> {
    without_trailing_whitespace(without_leading_whitespace(s))
}

/// `s` without one leading occurrence of `prefix`, if it begins with one.
pub open spec fn without_prefix(s: Seq<char>, prefix: Seq<char>) -> Seq<char> {
    if prefix.is_prefix_of(s) {
        s.subrange(prefix.len() as int, s.len() as int)
    } else {
        s
    }
}

/// `s` without one trailing occurrence of `suffix`, if it ends with one.
pub open spec fn without_suffix(s: Seq<char>, suffix: Seq<char>) -> Seq<char> {
    if suffix.is_suffix_of(s) {
        s.subrange(0, s.len() - suffix.len())
    } else {
        s
    }
}

/// The lower-case form of an ASCII capital letter; any other character
/// unchanged.
pub open spec fn ascii_lowercase(c: char) -> char {
    if 'A' <= c && c <= 'Z' {
        ((c as u32) + 32) as char
    } else {
        c
    }
}

/// `s` with each of its characters in `ascii_lowercase` form.
pub open spec fn lowercased(s: Seq<char>) -> Seq<char> {
    Seq::new(s.len(), |i: int| ascii_lowercase(s[i]))
}

/// Decides `is_whitespace` for one character.
pub fn char_is_whitespace(c: char) -> (b: bool)
    ensures
        b == is_whitespace(c),
{
    ('\u{9}' <= c && c <= '\u{D}') || c == ' ' || c == '\u{85}' || c == '\u{A0}' || c == '\u{1680}'
        || ('\u{2000}' <= c && c <= '\u{200A}') || c == '\u{2028}' || c == '\u{2029}' || c
        == '\u{202F}' || c == '\u{205F}' || c == '\u{3000}'
}

/// The characters of `s`, in order.
pub fn to_chars(s: &str) -> (v: Vec<char>)
    ensures
        v@ == s@,
{
    broadcast use vstd::string::axiom_spec_iter;

    let mut v: Vec<char> = Vec::new();
    let it = s.chars();
    for c in iter: it
        invariant
            iter.seq() == s@,
            v@ == s@.take(iter.index()),
    {
        v.push(c);
    }
    v
}

/// Whether two texts hold the same characters.
pub fn str_eq(a: &str, b: &str) -> (same: bool)
    ensures
        same == (a@ == b@),
{
    let x = String::from_str(a);
    let y = String::from_str(b);
    x == y
}

/// Computes `ascii_lowercase`.
pub fn char_to_lowercase(c: char) -> (lower: char)
    ensures
        lower == ascii_lowercase(c),
{
    if 'A' <= c && c <= 'Z' {
        ((c as u8) + 32) as char
    } else {
        c
    }
}

/// Whether two texts are the same once capital ASCII letters are read as
/// small ones.
pub fn eq_ignoring_case(a: &str, b: &str) -> (same: bool)
    ensures
        same == (lowercased(a@) == lowercased(b@)),
{
    let x = to_chars(a);
    let y = to_chars(b);
    if x.len() != y.len() {
        assert(lowercased(a@).len() != lowercased(b@).len());
        return false;
    }
    let mut i: usize = 0;
    while i < x.len()
        invariant
            i <= x.len(),
            x.len() == y.len(),
            x@ == a@,
            y@ == b@,
            forall|k: int|
                0 <= k < i ==> ascii_lowercase(#[trigger] a@[k]) == ascii_lowercase(b@[k]),
        decreases x.len() - i,
    {
        if char_to_lowercase(x[i]) != char_to_lowercase(y[i]) {
            assert(lowercased(a@)[i as int] != lowercased(b@)[i as int]);
            return false;
        }
        i += 1;
    }
    assert(lowercased(a@) =~= lowercased(b@));
    true
}

/// Whether `s` is blank.
pub fn str_is_blank(s: &str) -> (blank: bool)
    ensures
        blank == is_blank(s@),
{
    let chars = to_chars(s);
    let mut i: usize = 0;
    while i < chars.len()
        invariant
            i <= chars.len(),
            chars@ == s@,
            forall|k: int| 0 <= k < i ==> is_whitespace(#[trigger] s@[k]),
        decreases chars.len() - i,
    {
        if !char_is_whitespace(chars[i]) {
            return false;
        }
        i += 1;
    }
    true
}

/// Whether `pattern` stands in `chars` from position `at` on.
pub(crate) fn occurs_at(chars: &Vec<char>, at: usize, pattern: &Vec<char>) -> (found: bool)
    requires
        at <= chars.len(),
    ensures
        found == pattern@.is_prefix_of(chars@.subrange(at as int, chars.len() as int)),
{
    let rest: usize = chars.len() - at;
    if pattern.len() > rest {
        return false;
    }
    let ghost tail = chars@.subrange(at as int, chars.len() as int);
    let mut k: usize = 0;
    while k < pattern.len()
        invariant
            k <= pattern.len() <= rest,
            rest == chars.len() - at,
            tail == chars@.subrange(at as int, chars.len() as int),
            forall|j: int| 0 <= j < k ==> pattern@[j] == #[trigger] tail[j],
        decreases pattern.len() - k,
    {
        if chars[at + k] != pattern[k] {
            return false;
        }
        k += 1;
    }
    true
}

/// Whether `chars[from..]` ends with `pattern`.
pub(crate) fn ends_with_from(chars: &Vec<char>, from: usize, pattern: &Vec<char>) -> (found: bool)
    requires
        from <= chars.len(),
    ensures
        found == pattern@.is_suffix_of(chars@.subrange(from as int, chars.len() as int)),
{
    if pattern.len() > chars.len() - from {
        return false;
    }
    let at: usize = chars.len() - pattern.len();
    let found = occurs_at(chars, at, pattern);
    proof {
        let tail = chars@.subrange(from as int, chars.len() as int);
        assert(tail.subrange(tail.len() - pattern.len(), tail.len() as int) =~= chars@.subrange(
            at as int,
            chars.len() as int,
        ));
    }
    found
}

/// The bounds of what is left of `chars[from..to]` once the whitespace around
/// it is gone.
pub(crate) fn trim_bounds(chars: &Vec<char>, from: usize, to: usize) -> (bounds: (usize, usize))
    requires
        from <= to <= chars.len(),
    ensures
        from <= bounds.0 <= bounds.1 <= to,
        chars@.subrange(bounds.0 as int, bounds.1 as int) == trimmed(
            chars@.subrange(from as int, to as int),
        ),
{
    let mut start: usize = from;
    while start < to && char_is_whitespace(chars[start])
        invariant
            from <= start <= to <= chars.len(),
            without_leading_whitespace(chars@.subrange(start as int, to as int))
                == without_leading_whitespace(chars@.subrange(from as int, to as int)),
        decreases to - start,
    {
        assert(chars@.subrange(start as int, to as int).drop_first() =~= chars@.subrange(
            start + 1,
            to as int,
        ));
        start += 1;
    }
    let mut end: usize = to;
    while start < end && char_is_whitespace(chars[end - 1])
        invariant
            start <= end <= to <= chars.len(),
            without_trailing_whitespace(chars@.subrange(start as int, end as int))
                == without_trailing_whitespace(chars@.subrange(start as int, to as int)),
        decreases end - start,
    {
        assert(chars@.subrange(start as int, end as int).drop_last() =~= chars@.subrange(
            start as int,
            end - 1,
        ));
        end -= 1;
    }
    (start, end)
}

/// `s` without the whitespace around it.
pub fn trim(s: &str) -> (inner: &str)
    ensures
        inner@ == trimmed(s@),
{
    let chars = to_chars(s);
    let bounds = trim_bounds(&chars, 0, chars.len());
    assert(chars@.subrange(0, chars.len() as int) =~= s@);
    s.substring_char(bounds.0, bounds.1)
}

/// Whitespace in front of a text is gone with the whitespace the text
/// begins with.
pub proof fn lemma_leading_blank_vanishes(lead: Seq<char>, s: Seq<char>)
    requires
        is_blank(lead),
    ensures
        without_leading_whitespace(lead + s) == without_leading_whitespace(s),
    decreases lead.len(),
{
    if lead.len() > 0 {
        assert((lead + s).drop_first() =~= lead.drop_first() + s);
        lemma_leading_blank_vanishes(lead.drop_first(), s);
    }
}

/// Whitespace behind a text is gone with the whitespace the text ends with.
pub proof fn lemma_trailing_blank_vanishes(s: Seq<char>, trail: Seq<char>)
    requires
        is_blank(trail),
    ensures
        without_trailing_whitespace(s + trail) == without_trailing_whitespace(s),
    decreases trail.len(),
{
    if trail.len() > 0 {
        assert((s + trail).drop_last() =~= s + trail.drop_last());
        lemma_trailing_blank_vanishes(s, trail.drop_last());
    }
}

/// What a text keeps once its leading whitespace is gone is not touched by
/// what follows the text, unless the text is blank.
proof fn lemma_leading_of_concat(s: Seq<char>, rest: Seq<char>)
    requires
        !is_blank(s),
    ensures
        without_leading_whitespace(s + rest) == without_leading_whitespace(s) + rest,
    decreases s.len(),
{
    if s.len() > 0 && is_whitespace(s[0]) {
        assert((s + rest).drop_first() =~= s.drop_first() + rest);
        if is_blank(s.drop_first()) {
            assert forall|i: int| 0 <= i < s.len() implies is_whitespace(#[trigger] s[i]) by {
                if i > 0 {
                    assert(s[i] == s.drop_first()[i - 1]);
                }
            }
        }
        lemma_leading_of_concat(s.drop_first(), rest);
    }
}

/// Trimming does not see the whitespace that is put around a text.
pub proof fn lemma_trimmed_ignores_blank_surroundings(
    lead: Seq<char>,
    s: Seq<char>,
    trail: Seq<char>,
)
    requires
        is_blank(lead),
        is_blank(trail),
    ensures
        trimmed(lead + s + trail) == trimmed(s),
{
    assert(lead + s + trail =~= lead + (s + trail));
    lemma_leading_blank_vanishes(lead, s + trail);
    if is_blank(s) {
        assert(is_blank(s + trail));
        lemma_blank_iff_trimmed_empty(s + trail);
        lemma_blank_iff_trimmed_empty(s);
    } else {
        lemma_leading_of_concat(s, trail);
        lemma_trailing_blank_vanishes(without_leading_whitespace(s), trail);
    }
}

/// A blank text is one that trimming empties.
pub proof fn lemma_blank_iff_trimmed_empty(s: Seq<char>)
    ensures
        is_blank(s) <==> trimmed(s).len() == 0,
    decreases s.len(),
{
    if s.len() > 0 && is_whitespace(s[0]) {
        lemma_blank_iff_trimmed_empty(s.drop_first());
        if is_blank(s.drop_first()) {
            assert forall|i: int| 0 <= i < s.len() implies is_whitespace(#[trigger] s[i]) by {
                if i > 0 {
                    assert(s[i] == s.drop_first()[i - 1]);
                }
            }
        }
    } else if s.len() > 0 {
        lemma_trailing_keeps_first(s);
    }
}

/// Dropping trailing whitespace keeps a text that begins with none of it
/// non-empty.
proof fn lemma_trailing_keeps_first(s: Seq<char>)
    requires
        s.len() > 0,
        !is_whitespace(s[0]),
    ensures
        without_trailing_whitespace(s).len() > 0,
    decreases s.len(),
{
    if is_whitespace(s.last()) {
        lemma_trailing_keeps_first(s.drop_last());
    }
}

} // verus!
