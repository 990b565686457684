use vstd::prelude::*;

use crate::error::ApiError;

verus! {

/// What the controller hands back for one command.
pub enum ControllerReply {
    /// The command succeeded and produced a body, an opaque byte sequence
    /// holding structured text.
    Body(Vec<u8>),
    /// The command succeeded and intrinsically returns nothing.
    Empty,
    /// The controller rejected or failed the command; the text is its
    /// diagnostic.
    Failure(String),
}

/// The text that the lossy byte-to-text conversion produces for `b`. The
/// conversion is a function of the bytes alone, so it is left without a
/// definition and pinned down only by [`reply_body_text`].
pub uninterp spec fn text_of_bytes(b: Seq<u8>) -> Seq<char>;

/// Relies on `String::from_utf8_lossy`: the text depends on the bytes alone.
/// The conversion is lossy only on invalid byte sequences; a reply body is
/// known-valid structured text, so nothing is lost on it.
#[verifier::external_body]
fn reply_body_text(b: &Vec<u8>) -> (r: String)
    ensures
        r@ == text_of_bytes(b@),
{
    String::from_utf8_lossy(b).to_string()
}

/// Translate one controller reply into the shape of a method that declares an
/// optional string result: a body becomes its text, an intrinsically empty
/// reply becomes no value, and a controller failure becomes the classified
/// controller error carrying the controller's diagnostic.
pub fn translate_optional(rep: ControllerReply) -> (r: Result<Option<String>, ApiError>)
    ensures
        rep matches ControllerReply::Body(b) ==> r matches Ok(o) && o matches Some(t) && t@
            == text_of_bytes(b@),
        rep is Empty ==> (r matches Ok(o) && o is None),
        rep matches ControllerReply::Failure(m) ==> r matches Err(e) && e matches
            ApiError::Controller(d) && d@ == m@,
{
    match rep {
        ControllerReply::Body(b) => Ok(Some(reply_body_text(&b))),
        ControllerReply::Empty => Ok(None),
        ControllerReply::Failure(m) => Err(ApiError::Controller(m)),
    }
}

/// Translate one controller reply into the shape of a method that declares a
/// plain string result: a body becomes its text; a reply without a body is a
/// controller-side failure for such a method, as is a controller failure.
pub fn translate_text(rep: ControllerReply) -> (r: Result<String, ApiError>)
    ensures
        rep matches ControllerReply::Body(b) ==> r matches Ok(t) && t@ == text_of_bytes(b@),
        rep is Empty ==> (r matches Err(e) && e matches ApiError::Controller(d) && d@
            == "the controller returned no body for this call"@),
        rep matches ControllerReply::Failure(m) ==> r matches Err(e) && e matches
            ApiError::Controller(d) && d@ == m@,
{
    match rep {
        ControllerReply::Body(b) => Ok(reply_body_text(&b)),
        ControllerReply::Empty => Err(
            ApiError::Controller("the controller returned no body for this call".to_owned()),
        ),
        ControllerReply::Failure(m) => Err(ApiError::Controller(m)),
    }
}

} // verus!
