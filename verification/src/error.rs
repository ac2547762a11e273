//! What can go wrong while a video is resolved into playable addresses.

use vstd::prelude::*;
use crate::text::same_text;

verus! {

/// A piece of text by which something is located in a page, a script or an
/// address.
#[derive(Clone, Copy, Debug, PartialEq, Eq, Structural)]
pub enum Marker {
    /// The start of the `n` token in a media address.
    NToken,
    /// The start of the player script's path in a video page.
    PlayerPath,
    /// The quote that ends the player script's path.
    PlayerPathEnd,
    /// The head of the function that decrypts the `n` token.
    NFunction,
    /// The end of the function that decrypts the `n` token.
    NFunctionEnd,
    /// The head of the function that descrambles a signature.
    SignatureFunction,
    /// The end of the function that descrambles a signature.
    SignatureFunctionEnd,
}

/// Why a video could not be resolved.
#[derive(Clone, Copy, Debug, PartialEq, Eq, Structural)]
pub enum ResolveError {
    /// No format carries the picture.
    NoVideoFormat,
    /// No format carries sound.
    NoAudioFormat,
    /// A marker was not found where it was looked for.
    MarkerNotFound(Marker),
    /// A signature cipher has fewer than three fields, or a field too
    /// short to hold its name.
    CipherFields,
    /// A field of a signature cipher is not percent-encoded text.
    CipherEscape,
    /// A signature has more characters than there are positions to name
    /// them by.
    SignatureTooLong,
    /// A descrambled signature names a position outside the signature.
    PositionOutOfRange,
}

/// What kind of failure a decoder reports.
#[derive(Debug, PartialEq, Eq)]
pub enum DecodeKind {
    /// The answer does not have the shape that was asked for; holds the
    /// decoder's message.
    Shape(String),
    /// Anything else: the answer is no JSON at all, or could not be read.
    Other,
}

/// Why an answer of the platform could not be decoded.
#[derive(Debug, PartialEq, Eq)]
pub struct DecodeError {
    /// Where in the answer the failure was met.
    pub index: usize,
    /// The character that was met there.
    pub character: Option<char>,
    pub kind: DecodeKind,
}

/// What to do about an answer that could not be decoded.
#[derive(Clone, Copy, Debug, PartialEq, Eq, Structural)]
pub enum Severity {
    /// The video is not to be had, by age or otherwise: say so and go on.
    Notice,
    /// The answer has a shape that is not known: give up.
    Fatal,
}

impl DecodeError {
    /// The failure says that the answer holds no streaming data: it has
    /// no place and no character, and its message is that the field
    /// `streamingData` is missing.
    pub open spec fn is_unavailable(&self) -> bool {
        &&& self.index == 0
        &&& self.character is None
        &&& self.kind is Shape
        &&& self.kind->Shape_0@ == "missing field `streamingData`"@
    }

    /// Whether this failure of the answer for a video is a notice or
    /// fatal: a notice where the answer holds no streaming data, fatal in
    /// every other case.
    pub fn severity(&self) -> (r: Severity)
        ensures
            r == (if self.is_unavailable() {
                Severity::Notice
            } else {
                Severity::Fatal
            }),
    {
        if self.index != 0 || self.character.is_some() {
            return Severity::Fatal;
        }
        match &self.kind {
            DecodeKind::Shape(message) => if same_text(
                message.as_str(),
                "missing field `streamingData`",
            ) {
                Severity::Notice
            } else {
                Severity::Fatal
            },
            DecodeKind::Other => Severity::Fatal,
        }
    }
}

} // verus!
