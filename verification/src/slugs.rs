//! Slugs: the file-name-safe form of a note's display name.
//!
//! A slug is made of `a`-`z`, `0`-`9` and `-`, never starts or ends with `-`
//! and never holds two `-` in a row. The slug of an ASCII name is stated here
//! in full; for other names the transliteration is left to the `slug` crate
//! and only its result is named.

use vstd::prelude::*;

verus! {

/// A lower-case ASCII letter or an ASCII digit: what a slug keeps as it is.
pub open spec fn is_slug_alnum(c: char) -> bool {
    ('a' <= c && c <= 'z') || ('0' <= c && c <= '9')
}

/// An upper-case ASCII letter.
pub open spec fn is_ascii_upper(c: char) -> bool {
    'A' <= c && c <= 'Z'
}

/// The lower-case form of an upper-case ASCII letter.
pub open spec fn ascii_lower(c: char) -> char {
    ((c as u8 + 32) as u8) as char
}

/// Every character of `s` is ASCII.
pub open spec fn is_ascii_text(s: Seq<char>) -> bool {
    forall|i: int| 0 <= i < s.len() ==> #[trigger] s[i] <= '\u{7f}'
}

/// `s` has the shape of a slug.
pub open spec fn is_slug(s: Seq<char>) -> bool {
    &&& forall|i: int| 0 <= i < s.len() ==> is_slug_alnum(#[trigger] s[i]) || s[i] == '-'
    &&& s.len() > 0 ==> s.first() != '-' && s.last() != '-'
    &&& forall|i: int| 0 < i < s.len() ==> !(s[i - 1] == '-' && #[trigger] s[i] == '-')
}

/// What reading one more ASCII character does to the slug built so far:
/// a letter or digit is kept in lower case, anything else leaves one `-`
/// unless the slug is still empty or already ends in `-`.
pub open spec fn slug_step(acc: Seq<char>, c: char) -> Seq<char> {
    if is_slug_alnum(c) {
        acc.push(c)
    } else if is_ascii_upper(c) {
        acc.push(ascii_lower(c))
    } else if acc.len() > 0 && acc.last() != '-' {
        acc.push('-')
    } else {
        acc
    }
}

/// The characters of `s` read from left to right with [`slug_step`].
pub open spec fn slug_run(s: Seq<char>) -> Seq<char>
    decreases s.len(),
{
    if s.len() == 0 {
        Seq::empty()
    } else {
        slug_step(slug_run(s.drop_last()), s.last())
    }
}

/// `s` without a `-` at its end.
pub open spec fn trim_dash(s: Seq<char>) -> Seq<char> {
    if s.len() > 0 && s.last() == '-' {
        s.drop_last()
    } else {
        s
    }
}

/// The slug of an ASCII name: lower case, every run of other characters
/// turned into one `-`, and no `-` at either end.
pub open spec fn ascii_slug(name: Seq<char>) -> Seq<char> {
    trim_dash(slug_run(name))
}

/// What `slug::slugify` returns for `name`.
pub uninterp spec fn slug_of(name: Seq<char>) -> Seq<char>;

/// `slug` is the slug of `name`.
pub open spec fn slugifies_to(name: Seq<char>, slug: Seq<char>) -> bool {
    &&& slug == slug_of(name)
    &&& is_slug(slug)
    &&& is_ascii_text(name) ==> slug == ascii_slug(name)
}

/// The text built by [`slug_run`] holds slug characters only, does not start
/// with `-` and has no two `-` in a row.
proof fn lemma_slug_run_shape(s: Seq<char>)
    ensures
        forall|i: int|
            0 <= i < slug_run(s).len() ==> is_slug_alnum(#[trigger] slug_run(s)[i]) || slug_run(
                s,
            )[i] == '-',
        slug_run(s).len() > 0 ==> slug_run(s).first() != '-',
        forall|i: int|
            0 < i < slug_run(s).len() ==> !(slug_run(s)[i - 1] == '-' && #[trigger] slug_run(s)[i]
                == '-'),
    decreases s.len(),
{
    if s.len() > 0 {
        lemma_slug_run_shape(s.drop_last());
    }
}

/// The slug of an ASCII name has the shape of a slug.
pub proof fn lemma_ascii_slug_is_slug(name: Seq<char>)
    ensures
        is_slug(ascii_slug(name)),
{
    lemma_slug_run_shape(name);
}

/// Reading the first `k` characters of a slug gives them back unchanged.
proof fn lemma_slug_run_keeps_slug(s: Seq<char>, k: int)
    requires
        is_slug(s),
        0 <= k <= s.len(),
    ensures
        slug_run(s.take(k)) == s.take(k),
    decreases k,
{
    if k > 0 {
        lemma_slug_run_keeps_slug(s, k - 1);
        assert(s.take(k).drop_last() == s.take(k - 1));
        assert(s.take(k).last() == s[k - 1]);
        if k > 1 {
            assert(s.take(k - 1).last() == s[k - 2]);
        }
        assert(s.take(k - 1).push(s[k - 1]) == s.take(k));
    }
}

/// A slug is ASCII, and it is its own slug.
pub proof fn lemma_slug_is_fixed(s: Seq<char>)
    requires
        is_slug(s),
    ensures
        is_ascii_text(s),
        ascii_slug(s) == s,
{
    lemma_slug_run_keeps_slug(s, s.len() as int);
    assert(s.take(s.len() as int) == s);
}

/// Taking the slug of an ASCII slug changes nothing.
pub proof fn lemma_ascii_slug_idempotent(name: Seq<char>)
    ensures
        ascii_slug(ascii_slug(name)) == ascii_slug(name),
{
    lemma_ascii_slug_is_slug(name);
    lemma_slug_is_fixed(ascii_slug(name));
}

/// Slugifying is idempotent: the slug of a name's slug is that slug again.
pub proof fn lemma_slugify_idempotent(name: Seq<char>, once: Seq<char>, twice: Seq<char>)
    requires
        slugifies_to(name, once),
        slugifies_to(once, twice),
    ensures
        twice == once,
{
    lemma_slug_is_fixed(once);
}

/// Calls `slug::slugify`. Trusted: the result is a function of the name
/// alone, it has the shape that the crate documents, and for an ASCII name it
/// is what the crate's loop builds, [`ascii_slug`].
#[verifier::external_body]
fn slugify_with_crate(name: &str) -> (slug: String)
    ensures
        slug@ == slug_of(name@),
        is_slug(slug@),
        is_ascii_text(name@) ==> slug@ == ascii_slug(name@),
{
    slug::slugify(name)
}

/// The slug of `name`.
pub fn slugify(name: &str) -> (slug: String)
    ensures
        slugifies_to(name@, slug@),
        is_slug(name@) ==> slug@ == name@,
{
    let slug = slugify_with_crate(name);
    proof {
        if is_slug(name@) {
            lemma_slug_is_fixed(name@);
        }
    }
    slug
}

} // verus!
