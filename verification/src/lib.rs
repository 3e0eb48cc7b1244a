//! Adapter between the tera template engine and the tide web framework.
//!
//! The adapter renders a named template against a context of variable
//! bindings and wraps the output either as a [`tide::Body`] or as a full
//! [`tide::Response`] with status 200, inferring the body's media type
//! from the template identifier's filename extension.

use vstd::prelude::*;

pub mod context;
pub mod mime;
pub mod paths;
pub mod prelude;
pub mod tera_api;
pub mod tide_api;

pub use crate::context::build_context;
pub use crate::paths::template_extension;

verus! {

use crate::mime::spec_template_mime;
use crate::tera_api::tera_render;
use crate::tide_api::{
    body_from_string, body_set_mime, mime_from_extension, response_new, response_set_body,
    spec_body_mime, spec_body_text, spec_response_body_mime, spec_response_status,
    tide_error_from_tera,
};

/// Wraps already-rendered text as a body whose media type follows the
/// template identifier's filename extension: the extension's table entry
/// where the table knows it, plain text otherwise.
pub fn body_with_mime(text: String, template_name: &str) -> (r: tide::Body)
    ensures
        spec_body_text(r) == text@,
        spec_body_mime(r) == spec_template_mime(template_name@),
{
    let mut body = body_from_string(text);
    match crate::paths::template_extension(template_name) {
        Some(ext) => match mime_from_extension(ext) {
            Some(m) => {
                body_set_mime(&mut body, m);
            },
            None => {},
        },
        None => {},
    }
    body
}

/// This extension trait adds the two render operations to `tera::Tera`.
pub trait TideTeraExt {
    /// Renders the named template against the context into a body. On
    /// success the body's media type follows the template identifier's
    /// filename extension; a failure of the underlying render is handed
    /// back unchanged.
    fn render_body(&self, template_name: &str, context: &tera::Context) -> (r: Result<
        tide::Body,
        tide::Error,
    >)
        ensures
            r matches Ok(body) ==> spec_body_mime(body) == spec_template_mime(template_name@),
    ;

    /// Renders the named template against the context into a response
    /// with status 200, holding the same body that `render_body` yields;
    /// a failure of the underlying render is handed back unchanged.
    fn render_response(&self, template_name: &str, context: &tera::Context) -> (r: Result<
        tide::Response,
        tide::Error,
    >)
        ensures
            r matches Ok(resp) ==> spec_response_status(resp) == 200 && spec_response_body_mime(
                resp,
            ) == spec_template_mime(template_name@),
    ;
}

impl TideTeraExt for tera::Tera {
    fn render_body(&self, template_name: &str, context: &tera::Context) -> (r: Result<
        tide::Body,
        tide::Error,
    >) {
        match tera_render(self, template_name, context) {
            Ok(text) => Ok(body_with_mime(text, template_name)),
            Err(e) => Err(tide_error_from_tera(e)),
        }
    }

    fn render_response(&self, template_name: &str, context: &tera::Context) -> (r: Result<
        tide::Response,
        tide::Error,
    >) {
        let mut response = response_new(200);
        match self.render_body(template_name, context) {
            Ok(body) => {
                response_set_body(&mut response, body);
                Ok(response)
            },
            Err(e) => Err(e),
        }
    }
}

} // verus!
