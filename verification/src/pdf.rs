//! The payload of a document that is handed over for protected storage, and
//! the viewer preferences that protect it.

use vstd::prelude::*;
use vstd::string::StringExecFns;
use crate::parsers::{base64_decoded, decode_base64, decoding_view};

verus! {

/// Viewer preference that hides the viewer's tool bar.
pub const HIDE_TOOLBAR: &'static str = "HideToolbar";

/// Viewer preference that hides the viewer's menu bar.
pub const HIDE_MENUBAR: &'static str = "HideMenubar";

/// Viewer preference that hides the viewer's window controls.
pub const HIDE_WINDOW_UI: &'static str = "HideWindowUI";

/// What becomes of a payload given what the base64 decoder made of it: the
/// bytes, or the message that reports the decoding error.
pub open spec fn payload_of(decoded: Result<Seq<u8>, Seq<char>>) -> Result<Seq<u8>, Seq<char>> {
    match decoded {
        Ok(bytes) => Ok(bytes),
        Err(error) => Err("Base64 Error: "@ + error),
    }
}

/// Turns the outcome of the base64 decoder into the payload, or into the
/// message that reports the error.
pub fn payload_from(decoded: Result<Vec<u8>, String>) -> (r: Result<Vec<u8>, String>)
    ensures
        decoding_view(r) == payload_of(decoding_view(decoded)),
{
    match decoded {
        Ok(bytes) => Ok(bytes),
        Err(error) => Err(String::from_str("Base64 Error: ").concat(error.as_str())),
    }
}

/// Decodes the base64 text of a document.
pub fn decode_pdf_payload(pdf_base64: &str) -> (r: Result<Vec<u8>, String>)
    ensures
        decoding_view(r) == payload_of(base64_decoded(pdf_base64@)),
{
    payload_from(decode_base64(pdf_base64))
}

} // verus!
