use ytnav::config::{
    audio_selector, caption_language, stream_player, video_player, video_selector, PlayerCommand,
};
use ytnav::error::{Marker, ResolveError};
use ytnav::resolve::{Challenge, Hidden, Playback, Resolution};
use ytnav::video::{
    caption_url_of, AdaptiveFormat, CaptionTrack, Microformat, StreamingData, VideoResponse,
};

fn s(text: &str) -> String {
    text.to_string()
}

fn video(url: &str) -> AdaptiveFormat {
    AdaptiveFormat::Video { bitrate: 1, height: 720, mime_type: s("video/mp4"), url: s(url) }
}

fn audio(url: &str) -> AdaptiveFormat {
    AdaptiveFormat::Audio { audio_track: None, bitrate: 1, mime_type: s("audio/mp4"), url: s(url) }
}

fn video_cipher(cipher: &str) -> AdaptiveFormat {
    AdaptiveFormat::VideoCipher {
        bitrate: 1,
        height: 720,
        mime_type: s("video/mp4"),
        signature_cipher: s(cipher),
    }
}

fn audio_cipher(cipher: &str) -> AdaptiveFormat {
    AdaptiveFormat::AudioCipher {
        audio_track: None,
        bitrate: 1,
        mime_type: s("audio/mp4"),
        signature_cipher: s(cipher),
    }
}

fn microformat(length: &str) -> Microformat {
    Microformat {
        title: s("A title"),
        description: Some(s("About")),
        length_seconds: s(length),
        is_family_safe: true,
        is_unlisted: false,
        view_count: s("12"),
        category: s("Music"),
        owner_channel_name: s("Someone"),
        upload_date: s("2020-01-02"),
    }
}

fn response(formats: Vec<AdaptiveFormat>) -> VideoResponse {
    VideoResponse {
        captions: None,
        microformat: microformat("61"),
        streaming_data: StreamingData::Video { adaptive_formats: formats },
        video_id: s("vid"),
    }
}

fn play(formats: Vec<AdaptiveFormat>) -> Result<Playback, ResolveError> {
    response(formats).play(&video_selector(), &audio_selector(), caption_language())
}

fn pending(playback: Result<Playback, ResolveError>) -> Resolution {
    match playback {
        Ok(Playback::Pending(resolution)) => resolution,
        other => panic!("not pending: {other:?}"),
    }
}

fn mpv(video: &str, audio: &str) -> Playback {
    Playback::Ready(PlayerCommand {
        program: s("mpv"),
        args: vec![format!("--audio-file={audio}"), s(video)],
    })
}

#[test]
fn players() {
    let command = video_player(s("V"), s("A"), Some(s("S")));
    assert_eq!(command, PlayerCommand { program: s("mpv"), args: vec![s("--audio-file=A"), s("V")] });
    let command = stream_player(s("M"));
    assert_eq!(command, PlayerCommand { program: s("ffplay"), args: vec![s("M")] });
    assert_eq!(caption_language(), None);
}

#[test]
fn token_challenge() {
    let challenge = Challenge::of(&video("https://h/v?a=1&n=AB12&foo=1")).unwrap();
    assert_eq!(challenge.hidden, Hidden::Token { url: s("https://h/v?a=1&n=AB12&foo=1") });
    let call = challenge.call();
    assert_eq!((call.function, call.argument.as_str()), ("f", "AB12"));
    assert_eq!(challenge.solve("ZZ99"), Ok(s("https://h/v?a=1&n=ZZ99&foo=1")));
}

#[test]
fn cipher_challenge() {
    let challenge = Challenge::of(&audio_cipher("s=XYZ&sp=sig&url=http%3A%2F%2Fexample")).unwrap();
    let call = challenge.call();
    assert_eq!((call.function, call.argument.as_str()), ("s", "\u{0}\u{1}\u{2}"));
    assert_eq!(challenge.solve("\u{2}\u{1}\u{0}"), Ok(s("http://example&sig=ZYX")));
    assert_eq!(challenge.solve("\u{5}"), Err(ResolveError::PositionOutOfRange));
}

#[test]
fn challenge_errors() {
    let missing = ResolveError::MarkerNotFound(Marker::NToken);
    assert_eq!(Challenge::of(&video("https://h/v?a=1")).err(), Some(missing));
    assert_eq!(Challenge::of(&audio("")).err(), Some(missing));
    assert_eq!(Challenge::of(&video_cipher("s=XYZ")).err(), Some(ResolveError::CipherFields));
    assert_eq!(
        Challenge::of(&video_cipher("s=%&sp=sig&url=u")).err(),
        Some(ResolveError::CipherEscape)
    );
}

#[test]
fn two_tokens_take_one_answer() {
    let resolution = pending(play(vec![video("v?x&n=TOK&y"), audio("a?x&n=TOK&z")]));
    let call = resolution.call();
    assert_eq!((call.function, call.argument.as_str()), ("f", "TOK"));
    assert_eq!(resolution.answer("new"), Ok(mpv("v?x&n=new&y", "a?x&n=new&z")));
}

#[test]
fn two_different_tokens_take_two_answers() {
    let resolution = pending(play(vec![video("v?x&n=ONE&y"), audio("a?x&n=TWO&z")]));
    let call = resolution.call();
    assert_eq!((call.function, call.argument.as_str()), ("f", "ONE"));
    let resolution = pending(resolution.answer("one"));
    assert_eq!(resolution.video_url.as_deref(), Some("v?x&n=one&y"));
    let call = resolution.call();
    assert_eq!((call.function, call.argument.as_str()), ("f", "TWO"));
    assert_eq!(resolution.answer("two"), Ok(mpv("v?x&n=one&y", "a?x&n=two&z")));
}

#[test]
fn two_ciphers_take_two_answers() {
    let resolution = pending(play(vec![
        audio_cipher("s=ab&sp=sa&url=A"),
        video_cipher("s=xyz&sp=sv&url=V"),
    ]));
    let call = resolution.call();
    assert_eq!((call.function, call.argument.as_str()), ("s", "\u{0}\u{1}\u{2}"));
    let resolution = pending(resolution.answer("\u{2}\u{0}"));
    assert_eq!(resolution.video_url.as_deref(), Some("V&sv=zx"));
    let call = resolution.call();
    assert_eq!((call.function, call.argument.as_str()), ("s", "\u{0}\u{1}"));
    assert_eq!(resolution.answer("\u{1}\u{0}"), Ok(mpv("V&sv=zx", "A&sa=ba")));
}

#[test]
fn cipher_then_token_asks_for_the_token_too() {
    let resolution = pending(play(vec![video_cipher("s=xyz&sp=sv&url=V"), audio("a?x&n=TOK")]));
    assert_eq!(resolution.call().function, "s");
    let resolution = pending(resolution.answer("\u{0}"));
    let call = resolution.call();
    assert_eq!((call.function, call.argument.as_str()), ("f", "TOK"));
    assert_eq!(resolution.answer("new"), Ok(mpv("V&sv=x", "a?x&n=new")));
}

#[test]
fn token_then_cipher() {
    let resolution = pending(play(vec![video("v?x&n=TOK&y"), audio_cipher("s=ab&sp=sa&url=A")]));
    let resolution = pending(resolution.answer("new"));
    assert_eq!(resolution.video_url.as_deref(), Some("v?x&n=new&y"));
    assert_eq!(resolution.call().function, "s");
    assert_eq!(resolution.answer("\u{1}"), Ok(mpv("v?x&n=new&y", "A&sa=b")));
}

#[test]
fn answer_out_of_range_is_an_error() {
    let resolution = pending(play(vec![video_cipher("s=xyz&sp=sv&url=V"), audio("a?x&n=TOK")]));
    assert_eq!(resolution.answer("\u{3}"), Err(ResolveError::PositionOutOfRange));
}

#[test]
fn missing_formats_are_errors() {
    assert_eq!(play(Vec::new()), Err(ResolveError::NoVideoFormat));
    assert_eq!(play(vec![audio("a&n=1")]), Err(ResolveError::NoVideoFormat));
    assert_eq!(play(vec![video("v&n=1")]), Err(ResolveError::NoAudioFormat));
}

#[test]
fn errors_of_the_picture_come_before_errors_of_the_sound() {
    assert_eq!(
        play(vec![video("no token"), audio_cipher("broken")]),
        Err(ResolveError::MarkerNotFound(Marker::NToken))
    );
    assert_eq!(
        play(vec![video("v&n=1"), audio_cipher("broken")]),
        Err(ResolveError::CipherFields)
    );
}

#[test]
fn a_stream_is_ready_at_once() {
    let stream = VideoResponse {
        captions: None,
        microformat: microformat("0"),
        streaming_data: StreamingData::Stream { hls_manifest_url: s("https://m/x.m3u8") },
        video_id: s("vid"),
    };
    assert_eq!(
        stream.play(&video_selector(), &audio_selector(), None),
        Ok(Playback::Ready(PlayerCommand { program: s("ffplay"), args: vec![s("https://m/x.m3u8")] }))
    );
}

#[test]
fn the_picked_formats_are_the_ones_resolved() {
    let formats = vec![
        AdaptiveFormat::Video { bitrate: 9, height: 720, mime_type: s("video/mp4"), url: s("hi&n=1") },
        AdaptiveFormat::Video { bitrate: 5, height: 720, mime_type: s("video/mp4"), url: s("lo&n=2") },
        audio("a&n=3"),
    ];
    let resolution = pending(play(formats));
    assert_eq!(resolution.video.hidden, Hidden::Token { url: s("lo&n=2") });
    assert_eq!(resolution.audio.hidden, Hidden::Token { url: s("a&n=3") });
}

#[test]
fn captions_in_the_language_asked_for() {
    let tracks = Some(vec![
        CaptionTrack { base_url: s("de"), name: s("Deutsch") },
        CaptionTrack { base_url: s("en1"), name: s("English") },
        CaptionTrack { base_url: s("en2"), name: s("English") },
    ]);
    assert_eq!(caption_url_of(&tracks, Some("English")), Some(s("en1")));
    assert_eq!(caption_url_of(&tracks, Some("english")), None);
    assert_eq!(caption_url_of(&tracks, None), None);
    assert_eq!(caption_url_of(&None, Some("English")), None);
    let mut with_captions = response(vec![video("v&n=1"), audio("a&n=1")]);
    with_captions.captions = tracks;
    let resolution =
        pending(with_captions.play(&video_selector(), &audio_selector(), Some("Deutsch")));
    assert_eq!(resolution.subtitle_url.as_deref(), Some("de"));
}

#[test]
fn summary_with_description() {
    assert_eq!(
        microformat("61").summary().as_deref(),
        Some(
            "Title: A title\nDescription: About\n\nLength: 1 Minutes\nFamily friendly\nNot unlisted\nViews: 12\nCategory: Music\nUploader: Someone\nUploaded: 2020-01-02\n\n"
        )
    );
}

#[test]
fn summary_without_description() {
    let mut m = microformat("7");
    m.description = None;
    m.is_family_safe = false;
    m.is_unlisted = true;
    assert_eq!(
        m.summary().as_deref(),
        Some(
            "Title: A title\n\nLength: 7 Seconds\nNot family friendly\nUnlisted\nViews: 12\nCategory: Music\nUploader: Someone\nUploaded: 2020-01-02\n\n"
        )
    );
}

#[test]
fn summary_needs_a_length() {
    assert_eq!(microformat("long").summary(), None);
}
