use vstd::prelude::*;
use crate::content_type::ContentType;
use crate::resolve::Status;
use vstd::utf8::encode_utf8;

verus! {

/// The decimal digits of `n`, in ASCII, most significant first.
pub open spec fn decimal(n: nat) -> Seq<u8>
    decreases n,
{
    if n < 10 {
        seq![(n + 48) as u8]
    } else {
        decimal(n / 10).push(((n % 10) + 48) as u8)
    }
}

/// The response that carries `body`: status line, `Content-Length`,
/// `Content-Type` and `Connection: close` headers, each ended by CRLF, a
/// blank line, then the body unchanged.
pub open spec fn spec_frame(status: Status, content_type: ContentType, body: Seq<u8>) -> Seq<u8> {
    encode_utf8(status.spec_line())
        + encode_utf8("\r\nContent-Length: "@)
        + decimal(body.len())
        + encode_utf8("\r\nContent-Type: "@)
        + encode_utf8(content_type.spec_mime())
        + encode_utf8("\r\nConnection: close\r\n\r\n"@)
        + body
}

/// The decimal digits of `n`, in ASCII.
pub fn decimal_digits(n: usize) -> (r: Vec<u8>)
    ensures
        r@ == decimal(n as nat),
    decreases n,
{
    if n < 10 {
        vec![(n as u8) + 48]
    } else {
        let mut r = decimal_digits(n / 10);
        r.push(((n % 10) as u8) + 48);
        r
    }
}

/// Appends the bytes of `s` to `out`.
fn push_str(out: &mut Vec<u8>, s: &str)
    ensures
        final(out)@ == old(out)@ + encode_utf8(s@),
{
    let b = s.as_bytes();
    let mut i: usize = 0;
    while i < b.len()
        invariant
            b@ == encode_utf8(s@),
            i <= b@.len(),
            out@ == old(out)@ + b@.take(i as int),
        decreases b@.len() - i,
    {
        out.push(b[i]);
        i = i + 1;
        assert(b@.take(i as int) =~= b@.take(i - 1).push(b@[i - 1]));
    }
    assert(b@.take(b@.len() as int) =~= b@);
}

/// Appends `bytes` to `out`.
fn push_bytes(out: &mut Vec<u8>, bytes: &[u8])
    ensures
        final(out)@ == old(out)@ + bytes@,
{
    let mut i: usize = 0;
    while i < bytes.len()
        invariant
            i <= bytes@.len(),
            out@ == old(out)@ + bytes@.take(i as int),
        decreases bytes@.len() - i,
    {
        out.push(bytes[i]);
        i = i + 1;
        assert(bytes@.take(i as int) =~= bytes@.take(i - 1).push(bytes@[i - 1]));
    }
    assert(bytes@.take(bytes@.len() as int) =~= bytes@);
}

/// Frames `body` as a complete HTTP/1.1 response. `Content-Length` is the
/// byte length of `body` exactly.
pub fn frame_response(status: Status, content_type: ContentType, body: &[u8]) -> (r: Vec<u8>)
    ensures
        r@ == spec_frame(status, content_type, body@),
{
    let mut out: Vec<u8> = Vec::new();
    push_str(&mut out, status.line());
    push_str(&mut out, "\r\nContent-Length: ");
    let digits = decimal_digits(body.len());
    push_bytes(&mut out, digits.as_slice());
    push_str(&mut out, "\r\nContent-Type: ");
    push_str(&mut out, content_type.mime());
    push_str(&mut out, "\r\nConnection: close\r\n\r\n");
    push_bytes(&mut out, body);
    out
}

} // verus!
