//! Turning the picked formats of a video into playable addresses.
//!
//! The addresses are hidden in one of two ways, and a function of the
//! platform's player script undoes each. This module does not run the
//! script. It says which function to call with which argument, and makes
//! the address from what the function answered.

use vstd::prelude::*;
use crate::cipher::{
    cipher_parts, descramble, descrambled, n_token, n_token_of, parse_cipher, position_text,
    positions, signed_url, substitute_n, with_n_token, CipherText, SignatureCipher, MAX_SIGNATURE,
};
use crate::config::{video_command, video_player, CommandText, PlayerCommand};
use crate::error::{Marker, ResolveError};
use crate::text::same_text;
use crate::video::AdaptiveFormat;

verus! {

/// How the address of a format is hidden.
#[derive(Debug, PartialEq, Eq)]
pub enum Hidden {
    /// The address holds a token that has to be replaced.
    Token { url: String },
    /// The address has to be put together from a signature cipher.
    Cipher(SignatureCipher),
}

/// How an address is hidden, as plain text.
pub enum HiddenText {
    Token { url: Seq<char> },
    Cipher(CipherText),
}

impl View for Hidden {
    type V = HiddenText;

    open spec fn view(&self) -> HiddenText {
        match self {
            Hidden::Token { url } => HiddenText::Token { url: url@ },
            Hidden::Cipher(parts) => HiddenText::Cipher(parts@),
        }
    }
}

/// A hidden address and the argument for the function that uncovers it.
#[derive(Debug, PartialEq, Eq)]
pub struct Challenge {
    pub hidden: Hidden,
    pub argument: String,
}

/// A challenge as plain text.
pub struct ChallengeText {
    pub hidden: HiddenText,
    pub argument: Seq<char>,
}

impl View for Challenge {
    type V = ChallengeText;

    open spec fn view(&self) -> ChallengeText {
        ChallengeText { hidden: self.hidden@, argument: self.argument@ }
    }
}

/// One call of a function of the player script.
#[derive(Debug, PartialEq, Eq)]
pub struct ScriptCall {
    /// `f` uncovers a token, `s` descrambles a signature.
    pub function: &'static str,
    pub argument: String,
}

/// The challenge that a format poses. An address given plainly has to
/// hold a token, which is the argument. A signature cipher has to come
/// apart; the argument names the positions of its signature.
pub open spec fn challenge_of(f: AdaptiveFormat) -> Result<ChallengeText, ResolveError> {
    match f {
        AdaptiveFormat::Video { url, .. } | AdaptiveFormat::Audio { url, .. } => match n_token(
            url@,
        ) {
            Some(token) => Ok(
                ChallengeText { hidden: HiddenText::Token { url: url@ }, argument: token },
            ),
            None => Err(ResolveError::MarkerNotFound(Marker::NToken)),
        },
        AdaptiveFormat::VideoCipher { signature_cipher, .. } | AdaptiveFormat::AudioCipher {
            signature_cipher,
            ..
        } => match cipher_parts(signature_cipher@) {
            Ok(parts) => if parts.signature.len() <= MAX_SIGNATURE {
                Ok(
                    ChallengeText {
                        hidden: HiddenText::Cipher(parts),
                        argument: position_text(parts.signature.len()),
                    },
                )
            } else {
                Err(ResolveError::SignatureTooLong)
            },
            Err(e) => Err(e),
        },
    }
}

/// The address that a challenge gives once its function has answered.
pub open spec fn solved(hidden: HiddenText, answer: Seq<char>) -> Result<Seq<char>, ResolveError> {
    match hidden {
        HiddenText::Token { url } => match with_n_token(url, answer) {
            Some(new) => Ok(new),
            None => Err(ResolveError::MarkerNotFound(Marker::NToken)),
        },
        HiddenText::Cipher(parts) => match descrambled(parts.signature, answer) {
            Some(signature) => Ok(signed_url(parts, signature)),
            None => Err(ResolveError::PositionOutOfRange),
        },
    }
}

/// The name of the function that uncovers an address.
pub open spec fn function_for(hidden: HiddenText) -> Seq<char> {
    match hidden {
        HiddenText::Token { .. } => "f"@,
        HiddenText::Cipher(_) => "s"@,
    }
}

/// `r` holds the text `expected`, or the same error.
pub open spec fn gives<T: View>(r: Result<T, ResolveError>, expected: Result<T::V, ResolveError>) -> bool {
    match (r, expected) {
        (Ok(value), Ok(text)) => value@ == text,
        (Err(e), Err(x)) => e == x,
        _ => false,
    }
}

impl Challenge {
    /// The challenge that `format` poses.
    pub fn of(format: &AdaptiveFormat) -> (r: Result<Challenge, ResolveError>)
        ensures
            gives(r, challenge_of(*format)),
    {
        match format {
            AdaptiveFormat::Video { url, .. } => Challenge::of_url(url),
            AdaptiveFormat::Audio { url, .. } => Challenge::of_url(url),
            AdaptiveFormat::VideoCipher { signature_cipher, .. } => Challenge::of_cipher(
                signature_cipher,
            ),
            AdaptiveFormat::AudioCipher { signature_cipher, .. } => Challenge::of_cipher(
                signature_cipher,
            ),
        }
    }

    fn of_url(url: &String) -> (r: Result<Challenge, ResolveError>)
        ensures
            gives(
                r,
                match n_token(url@) {
                    Some(token) => Ok(
                        ChallengeText { hidden: HiddenText::Token { url: url@ }, argument: token },
                    ),
                    None => Err(ResolveError::MarkerNotFound(Marker::NToken)),
                },
            ),
    {
        match n_token_of(url.as_str()) {
            Ok(token) => Ok(Challenge { hidden: Hidden::Token { url: url.clone() }, argument: token }),
            Err(e) => Err(e),
        }
    }

    fn of_cipher(cipher: &String) -> (r: Result<Challenge, ResolveError>)
        ensures
            gives(
                r,
                match cipher_parts(cipher@) {
                    Ok(parts) => if parts.signature.len() <= MAX_SIGNATURE {
                        Ok(
                            ChallengeText {
                                hidden: HiddenText::Cipher(parts),
                                argument: position_text(parts.signature.len()),
                            },
                        )
                    } else {
                        Err(ResolveError::SignatureTooLong)
                    },
                    Err(e) => Err(e),
                },
            ),
    {
        let parts = match parse_cipher(cipher.as_str()) {
            Ok(parts) => parts,
            Err(e) => {
                return Err(e);
            },
        };
        let len = crate::text::chars_of(parts.signature.as_str()).len();
        match positions(len) {
            Ok(argument) => Ok(Challenge { hidden: Hidden::Cipher(parts), argument }),
            Err(e) => Err(e),
        }
    }

    /// The call that uncovers the address.
    pub fn call(&self) -> (r: ScriptCall)
        ensures
            r.function@ == function_for(self.hidden@),
            r.argument@ == self.argument@,
    {
        let function = match &self.hidden {
            Hidden::Token { .. } => "f",
            Hidden::Cipher(_) => "s",
        };
        ScriptCall { function, argument: self.argument.clone() }
    }

    /// The address, made from what the function answered: for a token,
    /// the address with `answer` in the token's place; for a cipher, the
    /// cipher's address with its signature in the order that `answer`
    /// gives.
    pub fn solve(&self, answer: &str) -> (r: Result<String, ResolveError>)
        ensures
            gives(r, solved(self.hidden@, answer@)),
    {
        match &self.hidden {
            Hidden::Token { url } => substitute_n(url.as_str(), answer),
            Hidden::Cipher(parts) => match descramble(parts.signature.as_str(), answer) {
                Ok(signature) => Ok(parts.sign(signature.as_str())),
                Err(e) => Err(e),
            },
        }
    }
}

/// A video on the way to being played: the challenges of its picture and
/// of its sound, and the address of the picture once it is uncovered.
#[derive(Debug, PartialEq, Eq)]
pub struct Resolution {
    pub video: Challenge,
    pub audio: Challenge,
    pub video_url: Option<String>,
    pub subtitle_url: Option<String>,
}

/// A resolution as plain text.
pub struct ResolutionText {
    pub video: ChallengeText,
    pub audio: ChallengeText,
    pub video_url: Option<Seq<char>>,
    pub subtitle_url: Option<Seq<char>>,
}

impl View for Resolution {
    type V = ResolutionText;

    open spec fn view(&self) -> ResolutionText {
        ResolutionText {
            video: self.video@,
            audio: self.audio@,
            video_url: crate::requests::text_of(self.video_url),
            subtitle_url: crate::requests::text_of(self.subtitle_url),
        }
    }
}

/// What is to be done next to play a video.
#[derive(Debug, PartialEq, Eq)]
pub enum Playback {
    /// Make the call that the resolution names and hand the answer to it.
    Pending(Resolution),
    /// Run the command.
    Ready(PlayerCommand),
}

/// A playback as plain text.
pub enum PlaybackText {
    Pending(ResolutionText),
    Ready(CommandText),
}

impl View for Playback {
    type V = PlaybackText;

    open spec fn view(&self) -> PlaybackText {
        match self {
            Playback::Pending(resolution) => PlaybackText::Pending(resolution@),
            Playback::Ready(command) => PlaybackText::Ready(command@),
        }
    }
}

/// The sound hides the same token as the picture, so that the answer for
/// the picture uncovers both.
pub open spec fn shares_token(state: ResolutionText) -> bool {
    &&& state.video.hidden is Token
    &&& state.audio.hidden is Token
    &&& state.video.argument == state.audio.argument
}

/// What follows when the pending call of a resolution is answered.
///
/// The first answer uncovers the picture. Where the sound hides the same
/// token as the picture, the same answer takes the token's place in the
/// address of the sound, and the video is ready; else the call for the
/// sound is pending. The second answer uncovers the sound.
pub open spec fn answered(state: ResolutionText, answer: Seq<char>) -> Result<
    PlaybackText,
    ResolveError,
> {
    match state.video_url {
        None => match solved(state.video.hidden, answer) {
            Ok(video_url) => if shares_token(state) {
                match solved(state.audio.hidden, answer) {
                    Ok(audio_url) => Ok(PlaybackText::Ready(video_command(video_url, audio_url))),
                    Err(e) => Err(e),
                }
            } else {
                Ok(PlaybackText::Pending(ResolutionText { video_url: Some(video_url), ..state }))
            },
            Err(e) => Err(e),
        },
        Some(video_url) => match solved(state.audio.hidden, answer) {
            Ok(audio_url) => Ok(PlaybackText::Ready(video_command(video_url, audio_url))),
            Err(e) => Err(e),
        },
    }
}

impl Resolution {
    /// The call to make next: for the picture while its address is
    /// hidden, then for the sound.
    pub fn call(&self) -> (r: ScriptCall)
        ensures
            r.function@ == function_for(
                if self.video_url is None {
                    self.video.hidden@
                } else {
                    self.audio.hidden@
                },
            ),
            r.argument@ == (if self.video_url is None {
                self.video.argument@
            } else {
                self.audio.argument@
            }),
    {
        if self.video_url.is_none() {
            self.video.call()
        } else {
            self.audio.call()
        }
    }

    /// Takes in the answer to the pending call.
    pub fn answer(self, answer: &str) -> (r: Result<Playback, ResolveError>)
        ensures
            gives(r, answered(self@, answer@)),
    {
        match self.video_url {
            None => {
                let video_url = match self.video.solve(answer) {
                    Ok(url) => url,
                    Err(e) => {
                        return Err(e);
                    },
                };
                let shared = match (&self.video.hidden, &self.audio.hidden) {
                    (Hidden::Token { .. }, Hidden::Token { .. }) => same_text(
                        self.video.argument.as_str(),
                        self.audio.argument.as_str(),
                    ),
                    _ => false,
                };
                if shared {
                    match self.audio.solve(answer) {
                        Ok(audio_url) => Ok(
                            Playback::Ready(video_player(video_url, audio_url, self.subtitle_url)),
                        ),
                        Err(e) => Err(e),
                    }
                } else {
                    Ok(
                        Playback::Pending(
                            Resolution {
                                video: self.video,
                                audio: self.audio,
                                video_url: Some(video_url),
                                subtitle_url: self.subtitle_url,
                            },
                        ),
                    )
                }
            },
            Some(video_url) => match self.audio.solve(answer) {
                Ok(audio_url) => Ok(
                    Playback::Ready(video_player(video_url, audio_url, self.subtitle_url)),
                ),
                Err(e) => Err(e),
            },
        }
    }
}

} // verus!
