use vstd::prelude::*;
use crate::content_type::{ContentType, content_type_for, spec_content_type_for};

verus! {

/// The status of a response.
#[derive(Clone, Copy, Debug, PartialEq, Eq, Structural)]
pub enum Status {
    Success,
    NotFound,
}

impl Status {
    /// The status line, without its line ending.
    pub open spec fn spec_line(self) -> Seq<char> {
        match self {
            Status::Success => "HTTP/1.1 200 OK"@,
            Status::NotFound => "HTTP/1.1 404 NOT FOUND"@,
        }
    }

    pub fn line(&self) -> (r: &'static str)
        ensures
            r@ == self.spec_line(),
    {
        match self {
            Status::Success => "HTTP/1.1 200 OK",
            Status::NotFound => "HTTP/1.1 404 NOT FOUND",
        }
    }
}

/// What a request path resolves to: the status to answer with, the file to
/// read and the type of its contents.
#[derive(Debug)]
pub struct ResolvedTarget {
    pub status: Status,
    pub file_path: String,
    pub content_type: ContentType,
}

/// The mathematical value of a [`ResolvedTarget`].
pub struct TargetView {
    pub status: Status,
    pub file_path: Seq<char>,
    pub content_type: ContentType,
}

impl View for ResolvedTarget {
    type V = TargetView;

    open spec fn view(&self) -> TargetView {
        TargetView {
            status: self.status,
            file_path: self.file_path@,
            content_type: self.content_type,
        }
    }
}

impl ResolvedTarget {
    /// Whether the file is read as raw bytes rather than as text.
    pub fn is_binary(&self) -> (r: bool)
        ensures
            r == self.content_type.spec_is_binary(),
    {
        self.content_type.is_binary()
    }
}

/// The page served for the root path.
pub open spec fn index_page() -> Seq<char> {
    "index.html"@
}

/// The page served when the requested file does not exist.
pub open spec fn error_page() -> Seq<char> {
    "404.html"@
}

/// A request path with exactly one leading `/` removed, if it has one.
pub open spec fn spec_relative_path(path: Seq<char>) -> Seq<char> {
    if path.len() > 0 && path[0] == '/' {
        path.drop_first()
    } else {
        path
    }
}

/// What a request path resolves to, given whether its relative path exists
/// on disk. The root path always resolves to the index page, whose
/// existence is not looked at.
pub open spec fn spec_resolve(path: Seq<char>, exists: bool) -> TargetView {
    if path == "/"@ {
        TargetView { status: Status::Success, file_path: index_page(), content_type: ContentType::Html }
    } else if exists {
        TargetView {
            status: Status::Success,
            file_path: spec_relative_path(path),
            content_type: spec_content_type_for(spec_relative_path(path)),
        }
    } else {
        TargetView {
            status: Status::NotFound,
            file_path: error_page(),
            content_type: ContentType::Html,
        }
    }
}

/// The file path that a request path names: exactly one leading `/` is
/// removed. Nothing more is done to it, so `..` segments and a second
/// leading `/` reach outside the document root (`//etc/passwd` names
/// `/etc/passwd`).
pub fn relative_path(path: &str) -> (r: &str)
    ensures
        r@ == spec_relative_path(path@),
{
    let n = path.unicode_len();
    if n > 0 && path.get_char(0) == '/' {
        let r = path.substring_char(1, n);
        assert(r@ =~= path@.drop_first());
        r
    } else {
        path
    }
}

/// Whether `path` is the root path `/`.
pub fn is_root(path: &str) -> (r: bool)
    ensures
        r == (path@ == "/"@),
{
    proof {
        reveal_strlit("/");
    }
    let n = path.unicode_len();
    if n == 1 && path.get_char(0) == '/' {
        assert(path@ =~= "/"@);
        true
    } else {
        false
    }
}

/// Whether `file_path` is the error page.
pub fn is_error_page(file_path: &str) -> (r: bool)
    ensures
        r == (file_path@ == error_page()),
{
    proof {
        reveal_strlit("404.html");
    }
    let expected = "404.html";
    let n = file_path.unicode_len();
    if n != 8 {
        return false;
    }
    let mut i: usize = 0;
    while i < 8
        invariant
            n == 8 == file_path@.len(),
            expected@ == error_page(),
            expected@.len() == 8,
            i <= 8,
            forall|j: int| 0 <= j < i ==> file_path@[j] == expected@[j],
        decreases 8 - i,
    {
        if file_path.get_char(i) != expected.get_char(i) {
            return false;
        }
        i = i + 1;
    }
    assert(file_path@ =~= expected@);
    true
}

/// Resolves a request path to the file to serve. `exists` tells whether the
/// relative path of `path` exists on disk (a directory counts); it is not
/// looked at for the root path.
pub fn resolve_target(path: &str, exists: bool) -> (r: ResolvedTarget)
    ensures
        r@ == spec_resolve(path@, exists),
{
    if is_root(path) {
        ResolvedTarget {
            status: Status::Success,
            file_path: String::from_str("index.html"),
            content_type: ContentType::Html,
        }
    } else if exists {
        let rel = relative_path(path);
        ResolvedTarget {
            status: Status::Success,
            file_path: String::from_str(rel),
            content_type: content_type_for(rel),
        }
    } else {
        ResolvedTarget {
            status: Status::NotFound,
            file_path: String::from_str("404.html"),
            content_type: ContentType::Html,
        }
    }
}

} // verus!
