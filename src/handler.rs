use vstd::prelude::*;
use vstd::utf8::encode_utf8;
use crate::content_type::ContentType;
use crate::request::{request_path, spec_request_path};
use crate::resolve::{ResolvedTarget, Status, TargetView, error_page, is_error_page, resolve_target, spec_resolve};
use crate::response::{frame_response, spec_frame};

verus! {

/// The body sent when a file that is read as raw bytes cannot be read.
pub open spec fn plain_not_found() -> Seq<char> {
    "404 Not Found"@
}

/// The body sent when the requested file and the error page both cannot be
/// read.
pub open spec fn missing_error_page() -> Seq<char> {
    "<html><head><title>404 Not Found</title></head><body><h1>404 Not Found</h1><p>The requested resource was not found, and the 404.html error page is also missing or unreadable.</p></body></html>"@
}

/// The body sent when the error page, read as the target itself, cannot be
/// read.
pub open spec fn unreadable_error_page() -> Seq<char> {
    "<html><head><title>404 Not Found</title></head><body><h1>404 Not Found</h1><p>The 404.html error page is missing or unreadable.</p></body></html>"@
}

/// What a read gave: the bytes, or `None` when it failed.
pub open spec fn read_view(read: Option<Vec<u8>>) -> Option<Seq<u8>> {
    match read {
        Some(b) => Some(b@),
        None => None,
    }
}

/// What follows the read of the target file.
#[derive(Debug)]
pub enum Reply {
    /// Send these bytes and close.
    Send(Vec<u8>),
    /// Read the error page and pass what came of it to
    /// [`after_error_page_read`].
    ReadErrorPage,
}

/// The mathematical value of a [`Reply`].
pub enum ReplyView {
    Send(Seq<u8>),
    ReadErrorPage,
}

impl View for Reply {
    type V = ReplyView;

    open spec fn view(&self) -> ReplyView {
        match self {
            Reply::Send(b) => ReplyView::Send(b@),
            Reply::ReadErrorPage => ReplyView::ReadErrorPage,
        }
    }
}

/// What follows the read of the target file, given its contents or `None`
/// when the read failed. A failed raw read is answered with a plain-text
/// 404 at once. A failed text read turns to the error page, unless the
/// target was the error page itself, which is answered with an inline page
/// under the status and type that were resolved.
pub open spec fn spec_after_target_read(t: TargetView, contents: Option<Seq<u8>>) -> ReplyView {
    match contents {
        Some(body) => ReplyView::Send(spec_frame(t.status, t.content_type, body)),
        None => if t.content_type.spec_is_binary() {
            ReplyView::Send(
                spec_frame(Status::NotFound, ContentType::PlainText, encode_utf8(plain_not_found())),
            )
        } else if t.file_path == error_page() {
            ReplyView::Send(spec_frame(t.status, t.content_type, encode_utf8(unreadable_error_page())))
        } else {
            ReplyView::ReadErrorPage
        },
    }
}

/// The response once the error page has been read as a fallback, given its
/// contents or `None` when that read failed too.
pub open spec fn spec_error_page_reply(page: Option<Seq<u8>>) -> Seq<u8> {
    match page {
        Some(body) => spec_frame(Status::NotFound, ContentType::Html, body),
        None => spec_frame(Status::NotFound, ContentType::Html, encode_utf8(missing_error_page())),
    }
}

/// The response to a request line, given what the disk answered: whether
/// the relative path of the request exists, what reading the resolved file
/// gave, and what reading the error page as a fallback gave (looked at only
/// where that fallback is taken).
pub open spec fn spec_response(
    line: Seq<char>,
    exists: bool,
    target: Option<Seq<u8>>,
    page: Option<Seq<u8>>,
) -> Seq<u8> {
    match spec_after_target_read(spec_resolve(spec_request_path(line), exists), target) {
        ReplyView::Send(bytes) => bytes,
        ReplyView::ReadErrorPage => spec_error_page_reply(page),
    }
}

/// Decides what follows the read of `target`'s file; `contents` is what
/// the read gave, or `None` when it failed.
pub fn after_target_read(target: &ResolvedTarget, contents: Option<Vec<u8>>) -> (r: Reply)
    ensures
        r@ == spec_after_target_read(target@, read_view(contents)),
{
    match contents {
        Some(body) => Reply::Send(frame_response(target.status, target.content_type, body.as_slice())),
        None => {
            if target.is_binary() {
                let body = "404 Not Found";
                Reply::Send(frame_response(Status::NotFound, ContentType::PlainText, body.as_bytes()))
            } else if is_error_page(target.file_path.as_str()) {
                let body = "<html><head><title>404 Not Found</title></head><body><h1>404 Not Found</h1><p>The 404.html error page is missing or unreadable.</p></body></html>";
                Reply::Send(frame_response(target.status, target.content_type, body.as_bytes()))
            } else {
                Reply::ReadErrorPage
            }
        },
    }
}

/// The response once the error page has been read as a fallback; `page` is
/// what the read gave, or `None` when it failed.
pub fn after_error_page_read(page: Option<Vec<u8>>) -> (r: Vec<u8>)
    ensures
        r@ == spec_error_page_reply(read_view(page)),
{
    match page {
        Some(body) => frame_response(Status::NotFound, ContentType::Html, body.as_slice()),
        None => {
            let body = "<html><head><title>404 Not Found</title></head><body><h1>404 Not Found</h1><p>The requested resource was not found, and the 404.html error page is also missing or unreadable.</p></body></html>";
            frame_response(Status::NotFound, ContentType::Html, body.as_bytes())
        },
    }
}

/// The whole answer to one request line, given what the disk answered
/// (see [`spec_response`]).
pub fn respond(
    line: &str,
    exists: bool,
    target: Option<Vec<u8>>,
    page: Option<Vec<u8>>,
) -> (r: Vec<u8>)
    ensures
        r@ == spec_response(line@, exists, read_view(target), read_view(page)),
{
    let path = request_path(line);
    let resolved = resolve_target(path, exists);
    match after_target_read(&resolved, target) {
        Reply::Send(bytes) => bytes,
        Reply::ReadErrorPage => after_error_page_read(page),
    }
}

} // verus!
