use vstd::prelude::*;
use crate::mime::{spec_mime_for_extension, spec_plain_mime};

verus! {

#[verifier::external_type_specification]
#[verifier::external_body]
pub struct ExBody(tide::Body);

#[verifier::external_type_specification]
#[verifier::external_body]
pub struct ExResponse(tide::Response);

#[verifier::external_type_specification]
#[verifier::external_body]
pub struct ExMime(tide::http::Mime);

#[verifier::external_type_specification]
#[verifier::external_body]
pub struct ExTideError(tide::Error);

/// The text a body holds.
pub uninterp spec fn spec_body_text(b: tide::Body) -> Seq<char>;

/// The media type a body carries, as its essence text.
pub uninterp spec fn spec_body_mime(b: tide::Body) -> Seq<char>;

/// The essence text of a media type value.
pub uninterp spec fn spec_mime_essence(m: tide::http::Mime) -> Seq<char>;

/// The status code a response carries.
pub uninterp spec fn spec_response_status(r: tide::Response) -> u16;

/// The text of the body a response holds.
pub uninterp spec fn spec_response_body_text(r: tide::Response) -> Seq<char>;

/// The media type of the body a response holds, as its essence text.
pub uninterp spec fn spec_response_body_mime(r: tide::Response) -> Seq<char>;

/// Relies on tide::Body::from_string: a body over exactly the given text,
/// at the default plain-text media type.
#[verifier::external_body]
pub(crate) fn body_from_string(s: String) -> (r: tide::Body)
    ensures
        spec_body_text(r) == s@,
        spec_body_mime(r) == spec_plain_mime(),
{
    tide::Body::from_string(s)
}

/// Relies on tide::Body::set_mime: replaces the body's media type and
/// leaves its text alone.
#[verifier::external_body]
pub(crate) fn body_set_mime(b: &mut tide::Body, mime: tide::http::Mime)
    ensures
        spec_body_text(*final(b)) == spec_body_text(*old(b)),
        spec_body_mime(*final(b)) == spec_mime_essence(mime),
{
    b.set_mime(mime)
}

/// Relies on tide::http::Mime::from_extension, a fixed table from filename
/// extension to media type: a known extension gets its table entry, every
/// other extension gets nothing.
#[verifier::external_body]
pub(crate) fn mime_from_extension(ext: &str) -> (r: Option<tide::http::Mime>)
    ensures
        match r {
            Some(m) => spec_mime_for_extension(ext@) == Some(spec_mime_essence(m)),
            None => spec_mime_for_extension(ext@) is None,
        },
{
    tide::http::Mime::from_extension(ext)
}

/// Relies on tide::Response::new: a response carrying the given status. It
/// accepts any value convertible to a known status code and panics on the
/// rest; 200 always converts.
#[verifier::external_body]
pub(crate) fn response_new(status: u16) -> (r: tide::Response)
    requires
        status == 200,
    ensures
        spec_response_status(r) == status,
{
    tide::Response::new(status)
}

/// Relies on tide::Response::set_body: stores the given body in the
/// response, copying its media type into the Content-Type header where
/// none was set yet, and leaves the status alone.
#[verifier::external_body]
pub(crate) fn response_set_body(resp: &mut tide::Response, body: tide::Body)
    ensures
        spec_response_status(*final(resp)) == spec_response_status(*old(resp)),
        spec_response_body_text(*final(resp)) == spec_body_text(body),
        spec_response_body_mime(*final(resp)) == spec_body_mime(body),
{
    resp.set_body(body)
}

/// Relies on tide::Error's From impl for std errors: wraps a render error
/// unchanged for the hosting HTTP layer to report.
#[verifier::external_body]
pub(crate) fn tide_error_from_tera(e: tera::Error) -> tide::Error {
    tide::Error::from(e)
}

} // verus!
