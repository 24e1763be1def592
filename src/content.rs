//! What a post links to, as far as this crate can read it.
use crate::things::Post;
use vstd::prelude::*;
use vstd::string::*;

verus! {

/// Declares the bytes crate's buffer: the body of an image, carried unread.
#[verifier::external_type_specification]
#[verifier::external_body]
pub struct ExBytes(bytes::Bytes);

/// The content of a post.
#[derive(Debug)]
pub enum Content {
    Text(String),
    Html(String),
    Image(bytes::Bytes),
}

/// How a body is to be read, by its content type.
#[derive(Debug, Clone, Copy)]
pub enum ContentKind {
    Text,
    Html,
    Image,
}

/// Whether the media type of a content type (what precedes its first `/`)
/// is `t`, for a `t` without `/`.
pub open spec fn media_type_is(content_type: Seq<char>, t: Seq<char>) -> bool {
    content_type == t || (content_type.len() > t.len() && content_type.subrange(0, t.len() as int)
        == t && content_type[t.len() as int] == '/')
}

pub open spec fn contains(s: Seq<char>, part: Seq<char>) -> bool {
    exists|i: int| 0 <= i && i + part.len() <= s.len() && #[trigger] s.subrange(i, i + part.len()) == part
}

/// Images are read as bytes; text is read as HTML when the content type
/// mentions html, else as plain text; anything else is not readable.
pub open spec fn content_kind_spec(content_type: Seq<char>) -> Option<ContentKind> {
    if media_type_is(content_type, "image"@) {
        Some(ContentKind::Image)
    } else if media_type_is(content_type, "text"@) && contains(content_type, "html"@) {
        Some(ContentKind::Html)
    } else if media_type_is(content_type, "text"@) {
        Some(ContentKind::Text)
    } else {
        None
    }
}

fn same(a: &str, b: &str) -> (r: bool)
    ensures
        r == (a@ == b@),
{
    String::from_str(a) == String::from_str(b)
}

fn has_media_type(content_type: &str, t: &str) -> (r: bool)
    ensures
        r == media_type_is(content_type@, t@),
{
    let n = content_type.unicode_len();
    let m = t.unicode_len();
    if n == m {
        same(content_type, t)
    } else if n > m {
        proof {
            if content_type@ == t@ {
                assert(false);
            }
        }
        same(content_type.substring_char(0, m), t) && content_type.get_char(m) == '/'
    } else {
        proof {
            if content_type@ == t@ {
                assert(false);
            }
        }
        false
    }
}

fn has_part(s: &str, part: &str) -> (r: bool)
    ensures
        r == contains(s@, part@),
{
    let n = s.unicode_len();
    let m = part.unicode_len();
    if m > n {
        return false;
    }
    let last = n - m;
    let mut i: usize = 0;
    loop
        invariant
            n == s@.len(),
            m == part@.len(),
            m <= n,
            last == n - m,
            i <= last,
            forall|j: int| 0 <= j < i ==> #[trigger] s@.subrange(j, j + m) != part@,
        decreases last - i,
    {
        if same(s.substring_char(i, i + m), part) {
            return true;
        }
        if i == last {
            proof {
                assert forall|j: int| 0 <= j && j + part@.len() <= s@.len() implies #[trigger] s@.subrange(
                    j,
                    j + part@.len(),
                ) != part@ by {
                    assert(j <= i);
                }
            }
            return false;
        }
        i = i + 1;
    }
}

/// How to read a body with this content type; none when nothing here can
/// read it.
pub fn content_kind(content_type: &str) -> (r: Option<ContentKind>)
    ensures
        r == content_kind_spec(content_type@),
{
    if has_media_type(content_type, "image") {
        Some(ContentKind::Image)
    } else if has_media_type(content_type, "text") {
        if has_part(content_type, "html") {
            Some(ContentKind::Html)
        } else {
            Some(ContentKind::Text)
        }
    } else {
        None
    }
}

impl Post {
    /// The content a self post carries; none for a link, whose content lies
    /// behind its `url`.
    pub fn get_content(&self) -> (r: Option<Content>)
        ensures
            self.selftext matches Some(t) ==> (r matches Some(Content::Text(c)) && c == t),
            self.selftext is None ==> r is None,
    {
        match &self.selftext {
            Some(t) => Some(Content::Text(t.clone())),
            None => None,
        }
    }
}

} // verus!
