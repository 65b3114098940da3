use vstd::prelude::*;

verus! {

/// Whether `suffix` ends `s`.
pub open spec fn has_suffix(s: Seq<char>, suffix: Seq<char>) -> bool {
    suffix.len() <= s.len() && s.subrange(s.len() - suffix.len(), s.len() as int) == suffix
}

/// The content types a response can carry.
#[derive(Clone, Copy, Debug, PartialEq, Eq, Structural)]
pub enum ContentType {
    Css,
    Html,
    JavaScript,
    Jpeg,
    Png,
    Icon,
    Heic,
    OctetStream,
    PlainText,
}

/// The content type of a file, by the suffix of its path; the first rule
/// that matches decides.
pub open spec fn spec_content_type_for(path: Seq<char>) -> ContentType {
    if has_suffix(path, ".css"@) {
        ContentType::Css
    } else if has_suffix(path, ".html"@) {
        ContentType::Html
    } else if has_suffix(path, ".js"@) {
        ContentType::JavaScript
    } else if has_suffix(path, ".jpg"@) || has_suffix(path, ".jpeg"@) {
        ContentType::Jpeg
    } else if has_suffix(path, ".png"@) {
        ContentType::Png
    } else if has_suffix(path, ".ico"@) {
        ContentType::Icon
    } else if has_suffix(path, ".heic"@) {
        ContentType::Heic
    } else {
        ContentType::OctetStream
    }
}

impl ContentType {
    /// The value of the `Content-Type` header.
    pub open spec fn spec_mime(self) -> Seq<char> {
        match self {
            ContentType::Css => "text/css; charset=utf-8"@,
            ContentType::Html => "text/html; charset=utf-8"@,
            ContentType::JavaScript => "application/javascript; charset=utf-8"@,
            ContentType::Jpeg => "image/jpeg"@,
            ContentType::Png => "image/png"@,
            ContentType::Icon => "image/x-icon"@,
            ContentType::Heic => "image/heic"@,
            ContentType::OctetStream => "application/octet-stream"@,
            ContentType::PlainText => "text/plain"@,
        }
    }

    /// Whether a file of this type is read as raw bytes rather than as text.
    pub open spec fn spec_is_binary(self) -> bool {
        match self {
            ContentType::Css | ContentType::Html | ContentType::JavaScript
            | ContentType::PlainText => false,
            _ => true,
        }
    }

    pub fn mime(&self) -> (r: &'static str)
        ensures
            r@ == self.spec_mime(),
    {
        match self {
            ContentType::Css => "text/css; charset=utf-8",
            ContentType::Html => "text/html; charset=utf-8",
            ContentType::JavaScript => "application/javascript; charset=utf-8",
            ContentType::Jpeg => "image/jpeg",
            ContentType::Png => "image/png",
            ContentType::Icon => "image/x-icon",
            ContentType::Heic => "image/heic",
            ContentType::OctetStream => "application/octet-stream",
            ContentType::PlainText => "text/plain",
        }
    }

    pub fn is_binary(&self) -> (r: bool)
        ensures
            r == self.spec_is_binary(),
    {
        match self {
            ContentType::Css | ContentType::Html | ContentType::JavaScript
            | ContentType::PlainText => false,
            _ => true,
        }
    }
}

/// Whether `s` ends with `suffix`, compared character by character.
pub fn ends_with(s: &str, suffix: &str) -> (r: bool)
    ensures
        r == has_suffix(s@, suffix@),
{
    let n = s.unicode_len();
    let m = suffix.unicode_len();
    if m > n {
        return false;
    }
    let start: usize = n - m;
    let mut i: usize = 0;
    while i < m
        invariant
            n == s@.len(),
            m == suffix@.len(),
            m <= n,
            start == n - m,
            i <= m,
            forall|j: int| 0 <= j < i ==> s@[start + j] == suffix@[j],
        decreases m - i,
    {
        if s.get_char(start + i) != suffix.get_char(i) {
            assert(s@.subrange(start as int, n as int)[i as int] != suffix@[i as int]);
            return false;
        }
        i = i + 1;
    }
    assert(s@.subrange(start as int, n as int) =~= suffix@);
    true
}

/// The content type of the file at `path`, by its suffix.
pub fn content_type_for(path: &str) -> (r: ContentType)
    ensures
        r == spec_content_type_for(path@),
{
    if ends_with(path, ".css") {
        ContentType::Css
    } else if ends_with(path, ".html") {
        ContentType::Html
    } else if ends_with(path, ".js") {
        ContentType::JavaScript
    } else if ends_with(path, ".jpg") || ends_with(path, ".jpeg") {
        ContentType::Jpeg
    } else if ends_with(path, ".png") {
        ContentType::Png
    } else if ends_with(path, ".ico") {
        ContentType::Icon
    } else if ends_with(path, ".heic") {
        ContentType::Heic
    } else {
        ContentType::OctetStream
    }
}

} // verus!
