//! The formats in which one video is offered.

use vstd::prelude::*;
use vstd::string::StringExecFns;
use crate::config::{stream_command, stream_player, AudioSelector, VideoSelector};
use crate::error::ResolveError;
use crate::number::{human_duration, parsed_i64, seconds_to_human};
use crate::requests::text_of;
use crate::resolve::{
    challenge_of, gives, Challenge, Playback, PlaybackText, Resolution, ResolutionText,
};
use crate::select::{picked_audio, picked_video, select_audio, select_video};
use crate::text::same_text;

verus! {

/// The audio track that an audio format carries.
#[derive(Debug, PartialEq, Eq)]
pub struct AudioTrack {
    pub display_name: String,
}

/// One representation of the audio or of the picture of a video. Its
/// address is either given plainly or held in a signature cipher.
#[derive(Debug, PartialEq, Eq)]
pub enum AdaptiveFormat {
    Video { bitrate: u32, height: u16, mime_type: String, url: String },
    VideoCipher { bitrate: u32, height: u16, mime_type: String, signature_cipher: String },
    Audio { audio_track: Option<AudioTrack>, bitrate: u32, mime_type: String, url: String },
    AudioCipher {
        audio_track: Option<AudioTrack>,
        bitrate: u32,
        mime_type: String,
        signature_cipher: String,
    },
}

impl AdaptiveFormat {
    /// This format carries the picture.
    pub open spec fn is_video(&self) -> bool {
        self is Video || self is VideoCipher
    }

    /// This format carries sound.
    pub open spec fn is_audio(&self) -> bool {
        self is Audio || self is AudioCipher
    }

    pub open spec fn spec_bitrate(&self) -> u32 {
        match self {
            AdaptiveFormat::Video { bitrate, .. } => *bitrate,
            AdaptiveFormat::VideoCipher { bitrate, .. } => *bitrate,
            AdaptiveFormat::Audio { bitrate, .. } => *bitrate,
            AdaptiveFormat::AudioCipher { bitrate, .. } => *bitrate,
        }
    }

    pub open spec fn spec_mime_type(&self) -> String {
        match self {
            AdaptiveFormat::Video { mime_type, .. } => *mime_type,
            AdaptiveFormat::VideoCipher { mime_type, .. } => *mime_type,
            AdaptiveFormat::Audio { mime_type, .. } => *mime_type,
            AdaptiveFormat::AudioCipher { mime_type, .. } => *mime_type,
        }
    }

    /// The height of the picture; 0 for a format that carries sound.
    pub open spec fn spec_height(&self) -> u16 {
        match self {
            AdaptiveFormat::Video { height, .. } => *height,
            AdaptiveFormat::VideoCipher { height, .. } => *height,
            _ => 0,
        }
    }

    pub open spec fn spec_audio_track(&self) -> Option<AudioTrack> {
        match self {
            AdaptiveFormat::Audio { audio_track, .. } => *audio_track,
            AdaptiveFormat::AudioCipher { audio_track, .. } => *audio_track,
            _ => None,
        }
    }

    /// Whether this format carries the picture.
    pub fn carries_video(&self) -> (r: bool)
        ensures
            r == self.is_video(),
            !r == self.is_audio(),
    {
        match self {
            AdaptiveFormat::Video { .. } => true,
            AdaptiveFormat::VideoCipher { .. } => true,
            _ => false,
        }
    }

    /// The bitrate.
    pub fn bitrate(&self) -> (r: u32)
        ensures
            r == self.spec_bitrate(),
    {
        match self {
            AdaptiveFormat::Video { bitrate, .. } => *bitrate,
            AdaptiveFormat::VideoCipher { bitrate, .. } => *bitrate,
            AdaptiveFormat::Audio { bitrate, .. } => *bitrate,
            AdaptiveFormat::AudioCipher { bitrate, .. } => *bitrate,
        }
    }

    /// The mime type.
    pub fn mime_type(&self) -> (r: &String)
        ensures
            *r == self.spec_mime_type(),
    {
        match self {
            AdaptiveFormat::Video { mime_type, .. } => mime_type,
            AdaptiveFormat::VideoCipher { mime_type, .. } => mime_type,
            AdaptiveFormat::Audio { mime_type, .. } => mime_type,
            AdaptiveFormat::AudioCipher { mime_type, .. } => mime_type,
        }
    }

    /// The height of the picture. Only a format that carries the picture
    /// has one.
    pub fn height(&self) -> (r: u16)
        requires
            self.is_video(),
        ensures
            r == self.spec_height(),
    {
        match self {
            AdaptiveFormat::Video { height, .. } => *height,
            AdaptiveFormat::VideoCipher { height, .. } => *height,
            _ => 0,
        }
    }

    /// The audio track, if this format carries sound and names one.
    pub fn audio_track(&self) -> (r: &Option<AudioTrack>)
        ensures
            *r == self.spec_audio_track(),
    {
        match self {
            AdaptiveFormat::Audio { audio_track, .. } => audio_track,
            AdaptiveFormat::AudioCipher { audio_track, .. } => audio_track,
            _ => &None,
        }
    }
}

/// One track of subtitles.
#[derive(Debug, PartialEq, Eq)]
pub struct CaptionTrack {
    pub base_url: String,
    pub name: String,
}

/// What a video says of itself.
#[derive(Debug, PartialEq, Eq)]
pub struct Microformat {
    pub title: String,
    pub description: Option<String>,
    pub length_seconds: String,
    pub is_family_safe: bool,
    pub is_unlisted: bool,
    pub view_count: String,
    pub category: String,
    pub owner_channel_name: String,
    pub upload_date: String,
}

/// How a video comes: as a live stream with a manifest, or in formats to
/// pick from.
#[derive(Debug, PartialEq, Eq)]
pub enum StreamingData {
    Stream { hls_manifest_url: String },
    Video { adaptive_formats: Vec<AdaptiveFormat> },
}

/// The platform's answer to the request for a video.
#[derive(Debug, PartialEq, Eq)]
pub struct VideoResponse {
    pub captions: Option<Vec<CaptionTrack>>,
    pub microformat: Microformat,
    pub streaming_data: StreamingData,
    pub video_id: String,
}

/// The first track at or after `from` whose name is `language`.
pub open spec fn caption_at(tracks: Seq<CaptionTrack>, language: Seq<char>, from: int) -> Option<int>
    decreases tracks.len() - from,
{
    if from < 0 || from >= tracks.len() {
        None
    } else if tracks[from].name@ == language {
        Some(from)
    } else {
        caption_at(tracks, language, from + 1)
    }
}

/// The address of the subtitles in `language`: that of the first track
/// with that name. `None` where no language is asked for, where the video
/// has no subtitles, and where no track has that name.
pub open spec fn caption_url(captions: Option<Vec<CaptionTrack>>, language: Option<&str>) -> Option<
    Seq<char>,
> {
    match (captions, language) {
        (Some(tracks), Some(language)) => match caption_at(tracks@, language@, 0) {
            Some(at) => Some(tracks@[at].base_url@),
            None => None,
        },
        _ => None,
    }
}

/// The address of the subtitles in `language`.
pub fn caption_url_of(captions: &Option<Vec<CaptionTrack>>, language: Option<&str>) -> (r: Option<
    String,
>)
    ensures
        text_of(r) == caption_url(*captions, language),
{
    match (captions, language) {
        (Some(tracks), Some(wanted)) => {
            let mut i: usize = 0;
            while i < tracks.len()
                invariant
                    i <= tracks.len(),
                    *captions == Some(*tracks),
                    language == Some(wanted),
                    caption_at(tracks@, wanted@, 0) == caption_at(tracks@, wanted@, i as int),
                decreases tracks.len() - i,
            {
                if same_text(tracks[i].name.as_str(), wanted) {
                    return Some(tracks[i].base_url.clone());
                }
                i += 1;
            }
            None
        },
        _ => None,
    }
}

/// One of two words.
pub open spec fn either(first: bool, yes: Seq<char>, no: Seq<char>) -> Seq<char> {
    if first {
        yes
    } else {
        no
    }
}

impl Microformat {
    /// What is said of a video before it is played: its title, its
    /// description if it has one, then its length in words and the rest,
    /// a line each. `length` is the length in seconds.
    pub open spec fn summary_text(self, length: int) -> Seq<char> {
        "Title: "@ + self.title@ + "\n"@ + (match self.description {
            Some(description) => "Description: "@ + description@ + "\n"@,
            None => Seq::empty(),
        }) + "\nLength: "@ + human_duration(length) + "\n"@ + either(
            self.is_family_safe,
            "F"@,
            "Not f"@,
        ) + "amily friendly\n"@ + either(self.is_unlisted, "U"@, "Not u"@) + "nlisted\nViews: "@
            + self.view_count@ + "\nCategory: "@ + self.category@ + "\nUploader: "@
            + self.owner_channel_name@ + "\nUploaded: "@ + self.upload_date@ + "\n\n"@
    }

    /// What is said of a video before it is played. `None` where the
    /// length is no number.
    pub fn summary(&self) -> (r: Option<String>)
        ensures
            match r {
                Some(text) => parsed_i64(self.length_seconds@) is Some && text@
                    == self.summary_text(parsed_i64(self.length_seconds@)->0),
                None => parsed_i64(self.length_seconds@) is None,
            },
    {
        let length = match seconds_to_human(self.length_seconds.clone()) {
            Some(length) => length,
            None => {
                return None;
            },
        };
        let mut text = "Title: ".to_owned();
        text.append(self.title.as_str());
        text.append("\n");
        match &self.description {
            Some(description) => {
                text.append("Description: ");
                text.append(description.as_str());
                text.append("\n");
            },
            None => {},
        }
        text.append("\nLength: ");
        text.append(length.as_str());
        text.append("\n");
        text.append(
            if self.is_family_safe {
                "F"
            } else {
                "Not f"
            },
        );
        text.append("amily friendly\n");
        text.append(
            if self.is_unlisted {
                "U"
            } else {
                "Not u"
            },
        );
        text.append("nlisted\nViews: ");
        text.append(self.view_count.as_str());
        text.append("\nCategory: ");
        text.append(self.category.as_str());
        text.append("\nUploader: ");
        text.append(self.owner_channel_name.as_str());
        text.append("\nUploaded: ");
        text.append(self.upload_date.as_str());
        text.append("\n\n");
        Some(text)
    }
}

/// How playing a video starts.
///
/// A live stream is ready to be played from its manifest. Of a video in
/// formats, the picture and the sound are picked, the picture first; where
/// one of them is missing, nothing can be played. The picked formats pose
/// their challenges, the picture's first, and the call for the picture is
/// pending.
pub open spec fn play_start(
    response: VideoResponse,
    video_policy: Seq<VideoSelector>,
    audio_policy: Seq<AudioSelector>,
    language: Option<&str>,
) -> Result<PlaybackText, ResolveError> {
    match response.streaming_data {
        StreamingData::Stream { hls_manifest_url } => Ok(
            PlaybackText::Ready(stream_command(hls_manifest_url@)),
        ),
        StreamingData::Video { adaptive_formats } => match picked_video(
            video_policy,
            adaptive_formats@,
        ) {
            None => Err(ResolveError::NoVideoFormat),
            Some(video) => match picked_audio(audio_policy, adaptive_formats@) {
                None => Err(ResolveError::NoAudioFormat),
                Some(audio) => match challenge_of(adaptive_formats@[video]) {
                    Err(e) => Err(e),
                    Ok(video) => match challenge_of(adaptive_formats@[audio]) {
                        Err(e) => Err(e),
                        Ok(audio) => Ok(
                            PlaybackText::Pending(
                                ResolutionText {
                                    video,
                                    audio,
                                    video_url: None,
                                    subtitle_url: caption_url(response.captions, language),
                                },
                            ),
                        ),
                    },
                },
            },
        },
    }
}

impl VideoResponse {
    /// Starts playing this video: picks the picture by `video_policy` and
    /// the sound by `audio_policy`, and the subtitles in `language`.
    pub fn play(
        self,
        video_policy: &Vec<VideoSelector>,
        audio_policy: &Vec<AudioSelector>,
        language: Option<&str>,
    ) -> (r: Result<Playback, ResolveError>)
        ensures
            gives(r, play_start(self, video_policy@, audio_policy@, language)),
    {
        let subtitle_url = caption_url_of(&self.captions, language);
        match self.streaming_data {
            StreamingData::Stream { hls_manifest_url } => Ok(
                Playback::Ready(stream_player(hls_manifest_url)),
            ),
            StreamingData::Video { adaptive_formats } => {
                let video = match select_video(&adaptive_formats, video_policy) {
                    Some(at) => at,
                    None => {
                        return Err(ResolveError::NoVideoFormat);
                    },
                };
                let audio = match select_audio(&adaptive_formats, audio_policy) {
                    Some(at) => at,
                    None => {
                        return Err(ResolveError::NoAudioFormat);
                    },
                };
                let video = match Challenge::of(&adaptive_formats[video]) {
                    Ok(challenge) => challenge,
                    Err(e) => {
                        return Err(e);
                    },
                };
                let audio = match Challenge::of(&adaptive_formats[audio]) {
                    Ok(challenge) => challenge,
                    Err(e) => {
                        return Err(e);
                    },
                };
                Ok(Playback::Pending(Resolution { video, audio, video_url: None, subtitle_url }))
            },
        }
    }
}

} // verus!
