use vstd::prelude::*;
use crate::content_type::{ContentType, has_suffix, spec_content_type_for};
use crate::handler::{spec_response, unreadable_error_page};
use crate::request::{has_path, spec_request_path};
use crate::resolve::{Status, error_page, index_page, spec_relative_path, spec_resolve};
use crate::response::spec_frame;
use vstd::utf8::encode_utf8;

verus! {

/// The index page is served as HTML.
pub proof fn lemma_index_page_is_html()
    ensures
        spec_content_type_for(index_page()) == ContentType::Html,
{
    reveal_strlit("index.html");
    reveal_strlit(".css");
    reveal_strlit(".html");
    assert(!has_suffix(index_page(), ".css"@)) by {
        assert(index_page().subrange(6, 10)[0] != ".css"@[0]);
    }
    assert(index_page().subrange(5, 10) =~= ".html"@);
}

/// A request for `/` reads the index page and, when that read succeeds, is
/// answered `200 OK` with the HTML type and the page's bytes.
pub proof fn lemma_root_serves_index(
    line: Seq<char>,
    exists: bool,
    body: Seq<u8>,
    page: Option<Seq<u8>>,
)
    requires
        spec_request_path(line) == "/"@,
    ensures
        spec_resolve(spec_request_path(line), exists).file_path == index_page(),
        spec_response(line, exists, Some(body), page) == spec_frame(
            Status::Success,
            ContentType::Html,
            body,
        ),
{
}

/// Whenever the file that a request resolves to is read, the answer is
/// `200 OK`, with a `Content-Length` of the number of bytes read and the
/// content type that the suffix table gives for that file. For a path other
/// than `/` that file is the request path without its leading `/`.
pub proof fn lemma_existing_file_served(line: Seq<char>, body: Seq<u8>, page: Option<Seq<u8>>)
    ensures
        ({
            let path = spec_request_path(line);
            let file = spec_resolve(path, true).file_path;
            &&& path != "/"@ ==> file == spec_relative_path(path)
            &&& spec_response(line, true, Some(body), page) == spec_frame(
                Status::Success,
                spec_content_type_for(file),
                body,
            )
        }),
{
    lemma_index_page_is_html();
}

/// A request for a path other than `/` that does not exist is answered
/// `404 NOT FOUND` with the HTML type; the body is the error page's bytes
/// when it can be read, else a fixed inline page.
pub proof fn lemma_missing_file_not_found(
    line: Seq<char>,
    target: Option<Seq<u8>>,
    page: Option<Seq<u8>>,
)
    requires
        spec_request_path(line) != "/"@,
    ensures
        spec_resolve(spec_request_path(line), false).file_path == error_page(),
        spec_response(line, false, target, page) == spec_frame(
            Status::NotFound,
            ContentType::Html,
            match target {
                Some(body) => body,
                None => encode_utf8(unreadable_error_page()),
            },
        ),
{
}

/// The same request, against a disk that answers the same, gets the same
/// bytes back.
pub proof fn lemma_response_repeatable(
    line1: Seq<char>,
    line2: Seq<char>,
    exists1: bool,
    exists2: bool,
    target1: Option<Seq<u8>>,
    target2: Option<Seq<u8>>,
    page1: Option<Seq<u8>>,
    page2: Option<Seq<u8>>,
)
    requires
        line1 == line2,
        exists1 == exists2,
        target1 == target2,
        page1 == page2,
    ensures
        spec_response(line1, exists1, target1, page1) == spec_response(
            line2,
            exists2,
            target2,
            page2,
        ),
{
}

/// A request line without a second word is answered as a request for `/`.
pub proof fn lemma_no_path_is_root(
    line: Seq<char>,
    root_line: Seq<char>,
    exists: bool,
    target: Option<Seq<u8>>,
    page: Option<Seq<u8>>,
)
    requires
        !has_path(line),
        spec_request_path(root_line) == "/"@,
    ensures
        spec_request_path(line) == "/"@,
        spec_response(line, exists, target, page) == spec_response(root_line, exists, target, page),
{
}

/// A path whose suffix is in no rule of the table is served as
/// `application/octet-stream` and read as raw bytes.
pub proof fn lemma_unknown_suffix_is_binary(path: Seq<char>)
    requires
        !has_suffix(path, ".css"@),
        !has_suffix(path, ".html"@),
        !has_suffix(path, ".js"@),
        !has_suffix(path, ".jpg"@),
        !has_suffix(path, ".jpeg"@),
        !has_suffix(path, ".png"@),
        !has_suffix(path, ".ico"@),
        !has_suffix(path, ".heic"@),
    ensures
        spec_content_type_for(path) == ContentType::OctetStream,
        spec_content_type_for(path).spec_mime() == "application/octet-stream"@,
        spec_content_type_for(path).spec_is_binary(),
{
}

} // verus!
