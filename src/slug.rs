//! Slugs: URL-safe identifiers for posts, derived from a title or from an
//! explicitly supplied slug.

use vstd::prelude::*;

verus! {

/// What `slugify::slugify(s, "", "-", max_length)` returns for the text `s`.
pub uninterp spec fn slug_of(s: Seq<char>, max_length: Option<usize>) -> Seq<char>;

/// A character that may stand in a slug: a lowercase ASCII letter, a digit or
/// the separator.
pub open spec fn is_slug_char(c: char) -> bool {
    ('a' <= c && c <= 'z') || ('0' <= c && c <= '9') || c == '-'
}

/// A normalized slug: only slug characters, no separator at either end and
/// never two separators in a row.
pub open spec fn is_slug(s: Seq<char>) -> bool {
    &&& forall|i: int| 0 <= i < s.len() ==> is_slug_char(#[trigger] s[i])
    &&& s.len() > 0 ==> s[0] != '-' && s[s.len() - 1] != '-'
    &&& forall|i: int| 0 <= i < s.len() - 1 ==> !(#[trigger] s[i] == '-' && s[i + 1] == '-')
}

/// Whether a length bound admits a string of length `n`.
pub open spec fn within(max_length: Option<usize>, n: nat) -> bool {
    match max_length {
        Some(m) => n <= m,
        None => true,
    }
}

/// Relies on `slugify::slugify` with no stop words and `-` as separator: it
/// transliterates, lowercases, turns each run of other characters into one
/// `-`, trims separators from both ends and, given a bound, truncates to it.
/// A result of that shape comes through the same steps unchanged.
#[verifier::external_body]
fn slugify_text(s: &str, max_length: Option<usize>) -> (r: String)
    ensures
        r@ == slug_of(s@, max_length),
        is_slug(r@),
        within(max_length, r@.len()),
        forall|m: Option<usize>| within(m, r@.len()) ==> #[trigger] slug_of(r@, m) == r@,
{
    slugify::slugify(s, "", "-", max_length)
}

/// The character sequence of an optional text.
pub open spec fn text_view(o: Option<&str>) -> Option<Seq<char>> {
    match o {
        Some(s) => Some(s@),
        None => None,
    }
}

/// The slug chosen for a post: the explicit slug, normalized, when there is
/// one; otherwise the title, normalized and cut to `max_length`.
pub open spec fn generated(title: Seq<char>, explicit_slug: Option<Seq<char>>, max_length: Option<usize>) -> Seq<char> {
    match explicit_slug {
        Some(s) => slug_of(s, None),
        None => slug_of(title, max_length),
    }
}

/// Normalizes a user name or any other text into slug form.
pub fn normalize(text: &str) -> (r: String)
    ensures
        r@ == slug_of(text@, None),
        is_slug(r@),
        slug_of(r@, None) == r@,
{
    slugify_text(text, None)
}

/// Chooses the slug of a post. The result is a normalized slug; normalizing
/// it again, as an explicit slug or (when it came from the title) as a title
/// under the same bound, gives it back unchanged.
pub fn generate(title: &str, explicit_slug: Option<&str>, max_length: Option<usize>) -> (r: String)
    ensures
        r@ == generated(title@, text_view(explicit_slug), max_length),
        is_slug(r@),
        explicit_slug is None ==> within(max_length, r@.len()),
        forall|t: Seq<char>, m: Option<usize>| #[trigger] generated(t, Some(r@), m) == r@,
        explicit_slug is None ==> generated(r@, None, max_length) == r@,
{
    let r = match explicit_slug {
        Some(s) => slugify_text(s, None),
        None => slugify_text(title, max_length),
    };
    assert(slug_of(r@, None) == r@);
    r
}

} // verus!
