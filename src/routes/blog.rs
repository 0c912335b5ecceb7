use vstd::prelude::*;
use vstd::string::{StrSliceExecFns, StringExecFns};

use crate::errors::{BlogDeleteError, BlogError, BlogPostError};

verus! {

/// `c` with a space turned into a dash.
pub open spec fn dash_for_space(c: char) -> char {
    if c == ' ' {
        '-'
    } else {
        c
    }
}

/// `c` with an ASCII capital turned into its small letter.
pub open spec fn ascii_lower(c: char) -> char {
    if 'A' <= c <= 'Z' {
        ((c as u32) + 32) as char
    } else {
        c
    }
}

/// The slug of a title: spaces become dashes, ASCII capitals become small letters.
pub open spec fn slug_of(title: Seq<char>) -> Seq<char> {
    title.map_values(|c: char| ascii_lower(dash_for_space(c)))
}

/// Relies on `str::replace` with the pattern `' '` and the replacement `"-"`: each
/// space becomes a dash, every other character stays.
#[verifier::external_body]
fn replace_spaces(s: &str) -> (r: String)
    ensures
        r@ == s@.map_values(|c: char| dash_for_space(c)),
{
    s.replace(' ', "-")
}

/// Relies on `str::to_ascii_lowercase`: each ASCII capital becomes its small letter,
/// every other character stays.
#[verifier::external_body]
fn to_ascii_lowercase(s: &str) -> (r: String)
    ensures
        r@ == s@.map_values(|c: char| ascii_lower(c)),
{
    s.to_ascii_lowercase()
}

/// The slug under which a post with this title is found.
pub fn get_blog_post_slug(title: &String) -> (r: String)
    ensures
        r@ == slug_of(title@),
{
    let dashed = replace_spaces(title.as_str());
    let r = to_ascii_lowercase(dashed.as_str());
    assert(r@ =~= slug_of(title@));
    r
}

/// The result of an update of one post by its id, from the number of rows it changed.
pub fn blog_update_outcome(rows_affected: u64) -> (r: Result<(), BlogError>)
    ensures
        rows_affected == 1 ==> r is Ok,
        rows_affected == 0 ==> r is Err && r->Err_0 is PostNotFound,
        rows_affected > 1 ==> r is Err && r->Err_0 is UnexpectedError,
{
    if rows_affected == 1 {
        Ok(())
    } else if rows_affected == 0 {
        Err(BlogError::PostNotFound)
    } else {
        Err(BlogError::UnexpectedError)
    }
}

/// The result of deleting one post by its id, from the number of rows removed.
pub fn blog_delete_outcome(rows_affected: u64) -> (r: Result<(), BlogDeleteError>)
    ensures
        rows_affected == 1 ==> r == Ok::<(), BlogDeleteError>(()),
        rows_affected == 0 ==> r == Err::<(), BlogDeleteError>(BlogDeleteError::PostNotFound),
        rows_affected > 1 ==> r == Err::<(), BlogDeleteError>(BlogDeleteError::UnexpectedError),
{
    if rows_affected == 1 {
        Ok(())
    } else if rows_affected == 0 {
        Err(BlogDeleteError::PostNotFound)
    } else {
        Err(BlogDeleteError::UnexpectedError)
    }
}

/// The text with which the store reports a duplicate.
pub open spec fn duplicate_marker() -> Seq<char> {
    "Duplicate message detected"@
}

/// `pattern` occurs in `s`.
pub open spec fn occurs_in(pattern: Seq<char>, s: Seq<char>) -> bool {
    exists|i: int| 0 <= i && i + pattern.len() <= s.len() && #[trigger] s.subrange(i, i + pattern.len()) == pattern
}

/// Whether `pattern` occurs in `s` starting at character `at`.
pub(crate) fn matches_at(s: &str, pattern: &str, at: usize) -> (r: bool)
    requires
        at + pattern@.len() <= s@.len(),
    ensures
        r == (s@.subrange(at as int, at + pattern@.len()) == pattern@),
{
    let total = s.unicode_len();
    let n = pattern.unicode_len();
    let mut k: usize = 0;
    while k < n
        invariant
            total == s@.len(),
            n == pattern@.len(),
            at + n <= s@.len(),
            k <= n,
            forall|m: int| 0 <= m < k ==> s@[at + m] == pattern@[m],
        decreases n - k,
    {
        if s.get_char(at + k) != pattern.get_char(k) {
            assert(s@.subrange(at as int, at + n)[k as int] != pattern@[k as int]);
            return false;
        }
        k = k + 1;
    }
    assert(s@.subrange(at as int, at + n) =~= pattern@);
    true
}

/// Whether `pattern` occurs anywhere in `s`.
pub(crate) fn contains_text(s: &str, pattern: &str) -> (r: bool)
    ensures
        r == occurs_in(pattern@, s@),
{
    let n = s.unicode_len();
    let m = pattern.unicode_len();
    if m > n {
        return false;
    }
    let mut i: usize = 0;
    loop
        invariant
            n == s@.len(),
            m == pattern@.len(),
            m <= n,
            i <= n - m,
            forall|j: int| 0 <= j < i ==> #[trigger] s@.subrange(j, j + m) != pattern@,
        ensures
            forall|j: int| 0 <= j <= n - m ==> #[trigger] s@.subrange(j, j + m) != pattern@,
        decreases n - m - i,
    {
        if matches_at(s, pattern, i) {
            return true;
        }
        if i == n - m {
            break;
        }
        i = i + 1;
    }
    assert forall|j: int| 0 <= j && j + m <= n implies #[trigger] s@.subrange(j, j + m) != pattern@ by {
        assert(j <= n - m);
    }
    false
}

/// Classifies a failed insert of a post from the store's error text: a reported
/// duplicate is `DuplicatePost`, anything else is unexpected.
pub fn classify_post_insert_error(store_error: &str) -> (r: BlogPostError)
    ensures
        r == if occurs_in(duplicate_marker(), store_error@) {
            BlogPostError::DuplicatePost
        } else {
            BlogPostError::UnexpectedError
        },
{
    if contains_text(store_error, "Duplicate message detected") {
        BlogPostError::DuplicatePost
    } else {
        BlogPostError::UnexpectedError
    }
}

/// A request to change some of a post's texts; absent fields stay as they are.
#[derive(Debug)]
pub struct BlogEditRequest {
    pub post_id: u128,
    pub title: Option<String>,
    pub content: Option<String>,
    pub excerpt: Option<String>,
    pub author: Option<String>,
}

/// `acc` followed by the column assignment for `value`, if there is one.
pub open spec fn push_field(
    acc: Seq<(Seq<char>, Seq<char>)>,
    column: Seq<char>,
    value: Option<String>,
) -> Seq<(Seq<char>, Seq<char>)> {
    match value {
        Some(v) => acc.push((column, v@)),
        None => acc,
    }
}

/// The columns to set and their new values, in the order title, content, excerpt,
/// author.
pub open spec fn edit_fields_spec(r: BlogEditRequest) -> Seq<(Seq<char>, Seq<char>)> {
    push_field(
        push_field(
            push_field(push_field(Seq::empty(), "title"@, r.title), "content"@, r.content),
            "excerpt"@,
            r.excerpt,
        ),
        "author"@,
        r.author,
    )
}

/// Column assignments as texts.
pub open spec fn pairs_view(v: Seq<(String, String)>) -> Seq<(Seq<char>, Seq<char>)> {
    v.map_values(|p: (String, String)| (p.0@, p.1@))
}

fn push_if_some(acc: &mut Vec<(String, String)>, column: &str, value: &Option<String>)
    ensures
        pairs_view(final(acc)@) == push_field(pairs_view(old(acc)@), column@, *value),
{
    match value {
        Some(v) => {
            let ghost before = pairs_view(acc@);
            let pair = (String::from_str(column), v.clone());
            acc.push(pair);
            assert(pairs_view(acc@) =~= before.push((column@, v@)));
        },
        None => {},
    }
}

impl BlogEditRequest {
    /// The column assignments of the update; a request that changes nothing is refused
    /// as unexpected.
    pub fn edit_fields(&self) -> (r: Result<Vec<(String, String)>, BlogError>)
        ensures
            edit_fields_spec(*self).len() > 0 ==> r is Ok && pairs_view(r->Ok_0@) == edit_fields_spec(*self),
            edit_fields_spec(*self).len() == 0 ==> r is Err && r->Err_0 is UnexpectedError,
    {
        let mut acc: Vec<(String, String)> = Vec::new();
        assert(pairs_view(acc@) =~= Seq::<(Seq<char>, Seq<char>)>::empty());
        push_if_some(&mut acc, "title", &self.title);
        push_if_some(&mut acc, "content", &self.content);
        push_if_some(&mut acc, "excerpt", &self.excerpt);
        push_if_some(&mut acc, "author", &self.author);
        if acc.len() == 0 {
            Err(BlogError::UnexpectedError)
        } else {
            Ok(acc)
        }
    }
}

} // verus!
