use vstd::prelude::*;

verus! {

/// Unicode `White_Space` characters, the ones `str::trim` removes.
pub open spec fn is_whitespace(c: char) -> bool {
    ||| ('\u{9}' <= c && c <= '\u{d}')
    ||| c == ' '
    ||| c == '\u{85}'
    ||| c == '\u{a0}'
    ||| c == '\u{1680}'
    ||| ('\u{2000}' <= c && c <= '\u{200a}')
    ||| c == '\u{2028}'
    ||| c == '\u{2029}'
    ||| c == '\u{202f}'
    ||| c == '\u{205f}'
    ||| c == '\u{3000}'
}

/// The text without its leading whitespace.
pub open spec fn trim_start_of(s: Seq<char>) -> Seq<char>
    decreases s.len(),
{
    if s.len() > 0 && is_whitespace(s[0]) {
        trim_start_of(s.drop_first())
    } else {
        s
    }
}

/// The text without its trailing whitespace.
pub open spec fn trim_end_of(s: Seq<char>) -> Seq<char>
    decreases s.len(),
{
    if s.len() > 0 && is_whitespace(s.last()) {
        trim_end_of(s.drop_last())
    } else {
        s
    }
}

/// The text without its leading and trailing whitespace.
pub open spec fn trim_of(s: Seq<char>) -> Seq<char> {
    trim_end_of(trim_start_of(s))
}

/// What `str::to_lowercase` makes of a text.
pub uninterp spec fn lower_of(s: Seq<char>) -> Seq<char>;

/// Relies on `str::trim`: the text without leading and trailing characters
/// of Unicode's `White_Space` property.
#[verifier::external_body]
pub(crate) fn trim_text(s: &str) -> (r: String)
    ensures
        r@ == trim_of(s@),
{
    s.trim().to_string()
}

/// Relies on `str::to_lowercase`: the result depends on the characters alone.
#[verifier::external_body]
pub(crate) fn lowercase_text(s: &str) -> (r: String)
    ensures
        r@ == lower_of(s@),
{
    s.to_lowercase()
}

/// `needle` occurs in `hay` starting at position `i`.
pub open spec fn occurs_at(hay: Seq<char>, needle: Seq<char>, i: int) -> bool {
    0 <= i && i + needle.len() <= hay.len() && hay.subrange(i, i + needle.len()) == needle
}

/// `needle` occurs somewhere in `hay`.
pub open spec fn contains_seq(hay: Seq<char>, needle: Seq<char>) -> bool {
    exists|i: int| occurs_at(hay, needle, i)
}

/// Character-wise equality of two texts.
pub fn text_eq(a: &str, b: &str) -> (r: bool)
    ensures
        r == (a@ == b@),
{
    let n = a.unicode_len();
    if n != b.unicode_len() {
        return false;
    }
    let mut i: usize = 0;
    while i < n
        invariant
            n == a@.len(),
            n == b@.len(),
            i <= n,
            forall|j: int| 0 <= j < i ==> a@[j] == b@[j],
        decreases n - i,
    {
        if a.get_char(i) != b.get_char(i) {
            return false;
        }
        i += 1;
    }
    assert(a@ =~= b@);
    true
}

/// Whether `needle` occurs at position `start` of `hay`.
fn occurs_at_exec(hay: &str, needle: &str, start: usize) -> (r: bool)
    requires
        start + needle@.len() <= hay@.len(),
    ensures
        r == occurs_at(hay@, needle@, start as int),
{
    let n = needle.unicode_len();
    let h = hay.unicode_len();
    let mut j: usize = 0;
    while j < n
        invariant
            n == needle@.len(),
            h == hay@.len(),
            start + n <= hay@.len(),
            j <= n,
            forall|k: int| 0 <= k < j ==> hay@[start + k] == needle@[k],
        decreases n - j,
    {
        if hay.get_char(start + j) != needle.get_char(j) {
            assert(hay@.subrange(start as int, start + n)[j as int] != needle@[j as int]);
            return false;
        }
        j += 1;
    }
    assert(hay@.subrange(start as int, start + n) =~= needle@);
    true
}

/// Whether `needle` occurs somewhere in `hay`.
pub fn contains_text(hay: &str, needle: &str) -> (r: bool)
    ensures
        r == contains_seq(hay@, needle@),
{
    let h = hay.unicode_len();
    let n = needle.unicode_len();
    if n > h {
        assert forall|i: int| !occurs_at(hay@, needle@, i) by {}
        return false;
    }
    let last = h - n;
    let mut i: usize = 0;
    loop
        invariant
            h == hay@.len(),
            n == needle@.len(),
            last == h - n,
            i <= last,
            forall|k: int| 0 <= k < i ==> !occurs_at(hay@, needle@, k),
        ensures
            forall|k: int| 0 <= k <= last ==> !occurs_at(hay@, needle@, k),
        decreases last - i,
    {
        if occurs_at_exec(hay, needle, i) {
            return true;
        }
        if i == last {
            break;
        }
        i += 1;
    }
    assert forall|k: int| !occurs_at(hay@, needle@, k) by {
        if 0 <= k && k <= last {
        }
    }
    false
}

} // verus!
