//! Why a header could not be decoded.

use vstd::prelude::*;
use crate::format::{lower_hex, push_lower_hex};

verus! {

/// The reason a decode failed.
#[derive(Clone, Copy, Debug, PartialEq, Eq, Structural)]
pub enum DecodeErrorKind {
    /// The buffer is smaller than the layer's header.
    TooShort,
    /// The type or protocol tag names no layer this library decodes.
    UnrecognizedTag(u16),
}

/// A failed decode: its kind, and a message for people that names the layer
/// and, for an unrecognized tag, its value.
#[derive(Clone, Debug)]
pub struct DecodeError {
    pub kind: DecodeErrorKind,
    pub msg: String,
}

/// The message of an error of `kind` raised by the decoder of `layer`, whose
/// next-layer tag is called `tag_name`.
pub open spec fn error_message(layer: Seq<char>, tag_name: Seq<char>, kind: DecodeErrorKind) -> Seq<char> {
    match kind {
        DecodeErrorKind::TooShort => "Cannot decode "@ + layer + " packet because it is not long enough."@,
        DecodeErrorKind::UnrecognizedTag(v) => "Cannot decode "@ + layer + " packet: unrecognized "@
            + tag_name + ", received 0x"@ + lower_hex(v as nat),
    }
}

impl DecodeError {
    pub(crate) fn new(layer: &str, tag_name: &str, kind: DecodeErrorKind) -> (e: DecodeError)
        ensures
            e.kind == kind,
            e.msg@ == error_message(layer@, tag_name@, kind),
    {
        let mut msg = String::from_str("Cannot decode ");
        msg.append(layer);
        match kind {
            DecodeErrorKind::TooShort => {
                msg.append(" packet because it is not long enough.");
            },
            DecodeErrorKind::UnrecognizedTag(v) => {
                msg.append(" packet: unrecognized ");
                msg.append(tag_name);
                msg.append(", received 0x");
                push_lower_hex(&mut msg, v as u64);
            },
        }
        assert(msg@ =~= error_message(layer@, tag_name@, kind));
        DecodeError { kind, msg }
    }

    /// The error as one line of text, `Decode error: ` followed by its message.
    pub fn to_string(&self) -> (r: String)
        ensures
            r@ == "Decode error: "@ + self.msg@,
    {
        let mut r = String::from_str("Decode error: ");
        r.append(self.msg.as_str());
        r
    }
}

} // verus!
