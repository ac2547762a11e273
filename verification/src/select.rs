//! Picking the video and the audio format of a video by a ranked list of
//! criteria.
//!
//! Every criterion ranks a format by a key, of which less is better. A list
//! of criteria ranks by the keys in turn: a later criterion counts only
//! where all earlier ones tie. Of the formats that no other beats, the one
//! that comes first is picked.

use vstd::prelude::*;
use crate::config::{by_key, selector_key, AudioSelector, MediaFormat, Verdict, VideoSelector};
use crate::text::{chars_of, contains, find, same_text};
use crate::video::AdaptiveFormat;

verus! {

/// Compares two lists of keys from position `from` on: the first position
/// where they differ decides.
pub open spec fn lex(current: Seq<int>, candidate: Seq<int>, from: int) -> Verdict
    decreases current.len() - from,
{
    if from < 0 || from >= current.len() {
        Verdict::Same
    } else if by_key(current[from], candidate[from]) != Verdict::Same {
        by_key(current[from], candidate[from])
    } else {
        lex(current, candidate, from + 1)
    }
}

/// Swapping the two sides swaps `Better` and `Worse`.
pub proof fn lemma_lex_swap(a: Seq<int>, b: Seq<int>, from: int)
    requires
        a.len() == b.len(),
    ensures
        lex(a, b, from) == Verdict::Better <==> lex(b, a, from) == Verdict::Worse,
        lex(a, b, from) == Verdict::Worse <==> lex(b, a, from) == Verdict::Better,
        lex(a, b, from) == Verdict::Same <==> lex(b, a, from) == Verdict::Same,
    decreases a.len() - from,
{
    if from < 0 || from >= a.len() {
    } else if by_key(a[from], b[from]) != Verdict::Same {
    } else {
        lemma_lex_swap(a, b, from + 1);
    }
}

/// If `b` is no worse than `a` and `c` is no worse than `b`, then `c` is no
/// worse than `a`; and it is better as soon as one of the two steps is.
pub proof fn lemma_lex_chain(a: Seq<int>, b: Seq<int>, c: Seq<int>, from: int)
    requires
        a.len() == b.len(),
        b.len() == c.len(),
        lex(a, b, from) != Verdict::Worse,
        lex(b, c, from) != Verdict::Worse,
    ensures
        lex(a, c, from) != Verdict::Worse,
        lex(a, b, from) == Verdict::Better || lex(b, c, from) == Verdict::Better ==> lex(a, c, from)
            == Verdict::Better,
        lex(a, b, from) == Verdict::Same && lex(b, c, from) == Verdict::Same ==> lex(a, c, from)
            == Verdict::Same,
    decreases a.len() - from,
{
    if from < 0 || from >= a.len() {
    } else if by_key(a[from], b[from]) != Verdict::Same {
    } else if by_key(b[from], c[from]) != Verdict::Same {
    } else {
        lemma_lex_chain(a, b, c, from + 1);
    }
}

/// A format's mime type names the container `m`.
pub open spec fn has_container(f: AdaptiveFormat, m: MediaFormat) -> bool {
    contains(f.spec_mime_type()@, m.name())
}

/// A format carries an audio track whose name is `language`.
pub open spec fn speaks(f: AdaptiveFormat, language: Seq<char>) -> bool {
    match f.spec_audio_track() {
        Some(track) => track.display_name@ == language,
        None => false,
    }
}

/// The key of a format that has, or lacks, what a criterion asks for.
pub open spec fn flag_key(has: bool) -> int {
    if has {
        0
    } else {
        1
    }
}

/// The key by which one video criterion ranks a format; less is better.
pub open spec fn video_key(sel: VideoSelector, f: AdaptiveFormat) -> int {
    match sel {
        VideoSelector::Bitrate(s) => selector_key(s@, f.spec_bitrate() as int),
        VideoSelector::Quality(s) => selector_key(s@, f.spec_height() as int),
        VideoSelector::Format(m) => flag_key(has_container(f, m)),
    }
}

/// The key by which one audio criterion ranks a format; less is better.
pub open spec fn audio_key(sel: AudioSelector, f: AdaptiveFormat) -> int {
    match sel {
        AudioSelector::Bitrate(s) => selector_key(s@, f.spec_bitrate() as int),
        AudioSelector::Language(language) => flag_key(speaks(f, language@)),
        AudioSelector::Format(m) => flag_key(has_container(f, m)),
    }
}

/// The keys of a format under each video criterion, in the order of the
/// criteria.
pub open spec fn video_keys(policy: Seq<VideoSelector>, f: AdaptiveFormat) -> Seq<int> {
    Seq::new(policy.len(), |i: int| video_key(policy[i], f))
}

/// The keys of a format under each audio criterion, in the order of the
/// criteria.
pub open spec fn audio_keys(policy: Seq<AudioSelector>, f: AdaptiveFormat) -> Seq<int> {
    Seq::new(policy.len(), |i: int| audio_key(policy[i], f))
}

/// What the video criteria say of `candidate` held against `current`: the
/// first criterion that tells them apart decides.
pub open spec fn video_verdict(
    policy: Seq<VideoSelector>,
    current: AdaptiveFormat,
    candidate: AdaptiveFormat,
) -> Verdict {
    lex(video_keys(policy, current), video_keys(policy, candidate), 0)
}

/// What the audio criteria say of `candidate` held against `current`: the
/// first criterion that tells them apart decides.
pub open spec fn audio_verdict(
    policy: Seq<AudioSelector>,
    current: AdaptiveFormat,
    candidate: AdaptiveFormat,
) -> Verdict {
    lex(audio_keys(policy, current), audio_keys(policy, candidate), 0)
}

/// `at` is the video format to pick among the first `upto` formats: it
/// carries the picture, none of them beats it, and every one before it is
/// worse.
pub open spec fn is_best_video(
    policy: Seq<VideoSelector>,
    formats: Seq<AdaptiveFormat>,
    upto: int,
    at: int,
) -> bool {
    &&& 0 <= at < upto <= formats.len()
    &&& formats[at].is_video()
    &&& forall|j: int|
        0 <= j < upto && formats[j].is_video() ==> video_verdict(policy, formats[at], formats[j])
            != Verdict::Better
    &&& forall|j: int|
        0 <= j < at && formats[j].is_video() ==> video_verdict(policy, formats[at], formats[j])
            == Verdict::Worse
}

/// `at` is the audio format to pick among the first `upto` formats: it
/// carries sound, none of them beats it, and every one before it is worse.
pub open spec fn is_best_audio(
    policy: Seq<AudioSelector>,
    formats: Seq<AdaptiveFormat>,
    upto: int,
    at: int,
) -> bool {
    &&& 0 <= at < upto <= formats.len()
    &&& formats[at].is_audio()
    &&& forall|j: int|
        0 <= j < upto && formats[j].is_audio() ==> audio_verdict(policy, formats[at], formats[j])
            != Verdict::Better
    &&& forall|j: int|
        0 <= j < at && formats[j].is_audio() ==> audio_verdict(policy, formats[at], formats[j])
            == Verdict::Worse
}

/// The position of the video format to pick; `None` where no format
/// carries the picture.
pub open spec fn picked_video(policy: Seq<VideoSelector>, formats: Seq<AdaptiveFormat>) -> Option<int> {
    if exists|at: int| is_best_video(policy, formats, formats.len() as int, at) {
        Some(choose|at: int| is_best_video(policy, formats, formats.len() as int, at))
    } else {
        None
    }
}

/// The position of the audio format to pick; `None` where no format
/// carries sound.
pub open spec fn picked_audio(policy: Seq<AudioSelector>, formats: Seq<AdaptiveFormat>) -> Option<int> {
    if exists|at: int| is_best_audio(policy, formats, formats.len() as int, at) {
        Some(choose|at: int| is_best_audio(policy, formats, formats.len() as int, at))
    } else {
        None
    }
}

/// No format that carries the picture is among the first `upto`.
pub open spec fn no_video(formats: Seq<AdaptiveFormat>, upto: int) -> bool {
    forall|j: int| 0 <= j < upto && j < formats.len() ==> !formats[j].is_video()
}

/// No format that carries sound is among the first `upto`.
pub open spec fn no_audio(formats: Seq<AdaptiveFormat>, upto: int) -> bool {
    forall|j: int| 0 <= j < upto && j < formats.len() ==> !formats[j].is_audio()
}

/// Whether the mime type of `f` names the container `m`.
pub fn names_container(f: &AdaptiveFormat, m: &MediaFormat) -> (r: bool)
    ensures
        r == has_container(*f, *m),
{
    let text = chars_of(f.mime_type().as_str());
    let name = m.to_string();
    let pattern = chars_of(name.as_str());
    find(&text, &pattern, 0).is_some()
}

/// Whether `f` carries an audio track named `language`.
pub fn has_language(f: &AdaptiveFormat, language: &str) -> (r: bool)
    ensures
        r == speaks(*f, language@),
{
    match f.audio_track() {
        Some(track) => same_text(track.display_name.as_str(), language),
        None => false,
    }
}

fn rank_flags(current: bool, candidate: bool) -> (r: Verdict)
    ensures
        r == by_key(flag_key(current), flag_key(candidate)),
{
    if candidate && !current {
        Verdict::Better
    } else if candidate == current {
        Verdict::Same
    } else {
        Verdict::Worse
    }
}

fn height_or_zero(f: &AdaptiveFormat) -> (r: u16)
    ensures
        r == f.spec_height(),
{
    if f.carries_video() {
        f.height()
    } else {
        0
    }
}

/// What one video criterion says of `candidate` held against `current`.
pub fn video_criterion(sel: &VideoSelector, current: &AdaptiveFormat, candidate: &AdaptiveFormat) -> (r:
    Verdict)
    ensures
        r == by_key(video_key(*sel, *current), video_key(*sel, *candidate)),
{
    match sel {
        VideoSelector::Bitrate(s) => s.rank(current.bitrate(), candidate.bitrate()),
        VideoSelector::Quality(s) => s.rank(height_or_zero(current), height_or_zero(candidate)),
        VideoSelector::Format(m) => rank_flags(
            names_container(current, m),
            names_container(candidate, m),
        ),
    }
}

/// What one audio criterion says of `candidate` held against `current`.
pub fn audio_criterion(sel: &AudioSelector, current: &AdaptiveFormat, candidate: &AdaptiveFormat) -> (r:
    Verdict)
    ensures
        r == by_key(audio_key(*sel, *current), audio_key(*sel, *candidate)),
{
    match sel {
        AudioSelector::Bitrate(s) => s.rank(current.bitrate(), candidate.bitrate()),
        AudioSelector::Language(language) => rank_flags(
            has_language(current, language),
            has_language(candidate, language),
        ),
        AudioSelector::Format(m) => rank_flags(
            names_container(current, m),
            names_container(candidate, m),
        ),
    }
}

/// What the video criteria, taken in order, say of `candidate` held against
/// `current`.
pub fn compare_video(
    policy: &Vec<VideoSelector>,
    current: &AdaptiveFormat,
    candidate: &AdaptiveFormat,
) -> (r: Verdict)
    ensures
        r == video_verdict(policy@, *current, *candidate),
{
    let ghost a = video_keys(policy@, *current);
    let ghost b = video_keys(policy@, *candidate);
    let mut i: usize = 0;
    while i < policy.len()
        invariant
            i <= policy.len(),
            a == video_keys(policy@, *current),
            b == video_keys(policy@, *candidate),
            lex(a, b, 0) == lex(a, b, i as int),
        decreases policy.len() - i,
    {
        let v = video_criterion(&policy[i], current, candidate);
        if v != Verdict::Same {
            return v;
        }
        i += 1;
    }
    Verdict::Same
}

/// What the audio criteria, taken in order, say of `candidate` held against
/// `current`.
pub fn compare_audio(
    policy: &Vec<AudioSelector>,
    current: &AdaptiveFormat,
    candidate: &AdaptiveFormat,
) -> (r: Verdict)
    ensures
        r == audio_verdict(policy@, *current, *candidate),
{
    let ghost a = audio_keys(policy@, *current);
    let ghost b = audio_keys(policy@, *candidate);
    let mut i: usize = 0;
    while i < policy.len()
        invariant
            i <= policy.len(),
            a == audio_keys(policy@, *current),
            b == audio_keys(policy@, *candidate),
            lex(a, b, 0) == lex(a, b, i as int),
        decreases policy.len() - i,
    {
        let v = audio_criterion(&policy[i], current, candidate);
        if v != Verdict::Same {
            return v;
        }
        i += 1;
    }
    Verdict::Same
}

/// A list of keys ties with itself.
pub proof fn lemma_lex_self(a: Seq<int>, from: int)
    ensures
        lex(a, a, from) == Verdict::Same,
    decreases a.len() - from,
{
    if 0 <= from < a.len() {
        lemma_lex_self(a, from + 1);
    }
}

/// Two lists of keys that agree at every position tie.
pub proof fn lemma_lex_tie(a: Seq<int>, b: Seq<int>, from: int)
    requires
        a.len() == b.len(),
        forall|k: int| 0 <= k < a.len() ==> a[k] == b[k],
    ensures
        lex(a, b, from) == Verdict::Same,
    decreases a.len() - from,
{
    if 0 <= from < a.len() {
        lemma_lex_tie(a, b, from + 1);
    }
}

/// Where `from` beats the pick `at` of the formats before it, `from` is
/// the pick once it is counted in.
proof fn lemma_video_takes_over(
    policy: Seq<VideoSelector>,
    formats: Seq<AdaptiveFormat>,
    at: int,
    from: int,
)
    requires
        is_best_video(policy, formats, from, at),
        from < formats.len(),
        formats[from].is_video(),
        video_verdict(policy, formats[at], formats[from]) == Verdict::Better,
    ensures
        is_best_video(policy, formats, from + 1, from),
{
    let best = video_keys(policy, formats[at]);
    let new = video_keys(policy, formats[from]);
    lemma_lex_swap(best, new, 0);
    lemma_lex_self(new, 0);
    assert forall|j: int| 0 <= j < from && formats[j].is_video() implies video_verdict(
        policy,
        formats[from],
        formats[j],
    ) == Verdict::Worse by {
        let other = video_keys(policy, formats[j]);
        lemma_lex_swap(best, other, 0);
        lemma_lex_chain(other, best, new, 0);
        lemma_lex_swap(other, new, 0);
    }
}

/// Where `from` beats the pick `at` of the formats before it, `from` is
/// the pick once it is counted in.
proof fn lemma_audio_takes_over(
    policy: Seq<AudioSelector>,
    formats: Seq<AdaptiveFormat>,
    at: int,
    from: int,
)
    requires
        is_best_audio(policy, formats, from, at),
        from < formats.len(),
        formats[from].is_audio(),
        audio_verdict(policy, formats[at], formats[from]) == Verdict::Better,
    ensures
        is_best_audio(policy, formats, from + 1, from),
{
    let best = audio_keys(policy, formats[at]);
    let new = audio_keys(policy, formats[from]);
    lemma_lex_swap(best, new, 0);
    lemma_lex_self(new, 0);
    assert forall|j: int| 0 <= j < from && formats[j].is_audio() implies audio_verdict(
        policy,
        formats[from],
        formats[j],
    ) == Verdict::Worse by {
        let other = audio_keys(policy, formats[j]);
        lemma_lex_swap(best, other, 0);
        lemma_lex_chain(other, best, new, 0);
        lemma_lex_swap(other, new, 0);
    }
}

/// Picks the video format: of the formats that carry the picture and that
/// no other beats under `policy`, the first. `None` when no format carries
/// the picture.
pub fn select_video(formats: &Vec<AdaptiveFormat>, policy: &Vec<VideoSelector>) -> (r: Option<usize>)
    ensures
        match r {
            Some(at) => {
                &&& is_best_video(policy@, formats@, formats.len() as int, at as int)
                &&& picked_video(policy@, formats@) == Some(at as int)
            },
            None => {
                &&& no_video(formats@, formats.len() as int)
                &&& picked_video(policy@, formats@) is None
            },
        },
{
    let mut best: Option<usize> = None;
    let mut i: usize = 0;
    while i < formats.len()
        invariant
            i <= formats.len(),
            match best {
                Some(at) => is_best_video(policy@, formats@, i as int, at as int),
                None => no_video(formats@, i as int),
            },
        decreases formats.len() - i,
    {
        if formats[i].carries_video() {
            match best {
                None => {
                    proof {
                        lemma_lex_self(video_keys(policy@, formats@[i as int]), 0);
                    }
                    best = Some(i);
                },
                Some(at) => {
                    let v = compare_video(policy, &formats[at], &formats[i]);
                    if v == Verdict::Better {
                        proof {
                            lemma_video_takes_over(policy@, formats@, at as int, i as int);
                        }
                        best = Some(i);
                    }
                },
            }
        }
        i += 1;
    }
    proof {
        match best {
            Some(at) => {
                let other = choose|at: int|
                    is_best_video(policy@, formats@, formats.len() as int, at);
                lemma_video_pick_unique(policy@, formats@, at as int, other);
            },
            None => {},
        }
    }
    best
}

/// Picks the audio format: of the formats that carry sound and that no
/// other beats under `policy`, the first. `None` when no format carries
/// sound.
pub fn select_audio(formats: &Vec<AdaptiveFormat>, policy: &Vec<AudioSelector>) -> (r: Option<usize>)
    ensures
        match r {
            Some(at) => {
                &&& is_best_audio(policy@, formats@, formats.len() as int, at as int)
                &&& picked_audio(policy@, formats@) == Some(at as int)
            },
            None => {
                &&& no_audio(formats@, formats.len() as int)
                &&& picked_audio(policy@, formats@) is None
            },
        },
{
    let mut best: Option<usize> = None;
    let mut i: usize = 0;
    while i < formats.len()
        invariant
            i <= formats.len(),
            match best {
                Some(at) => is_best_audio(policy@, formats@, i as int, at as int),
                None => no_audio(formats@, i as int),
            },
        decreases formats.len() - i,
    {
        if !formats[i].carries_video() {
            match best {
                None => {
                    proof {
                        lemma_lex_self(audio_keys(policy@, formats@[i as int]), 0);
                    }
                    best = Some(i);
                },
                Some(at) => {
                    let v = compare_audio(policy, &formats[at], &formats[i]);
                    if v == Verdict::Better {
                        proof {
                            lemma_audio_takes_over(policy@, formats@, at as int, i as int);
                        }
                        best = Some(i);
                    }
                },
            }
        }
        i += 1;
    }
    proof {
        match best {
            Some(at) => {
                let other = choose|at: int|
                    is_best_audio(policy@, formats@, formats.len() as int, at);
                lemma_audio_pick_unique(policy@, formats@, at as int, other);
            },
            None => {},
        }
    }
    best
}

/// The pick is determined by the formats and the criteria: two positions
/// that both meet the description of the picked video format are one.
pub proof fn lemma_video_pick_unique(
    policy: Seq<VideoSelector>,
    formats: Seq<AdaptiveFormat>,
    a: int,
    b: int,
)
    requires
        is_best_video(policy, formats, formats.len() as int, a),
        is_best_video(policy, formats, formats.len() as int, b),
    ensures
        a == b,
{
    lemma_lex_swap(video_keys(policy, formats[a]), video_keys(policy, formats[b]), 0);
}

/// The pick is determined by the formats and the criteria: two positions
/// that both meet the description of the picked audio format are one.
pub proof fn lemma_audio_pick_unique(
    policy: Seq<AudioSelector>,
    formats: Seq<AdaptiveFormat>,
    a: int,
    b: int,
)
    requires
        is_best_audio(policy, formats, formats.len() as int, a),
        is_best_audio(policy, formats, formats.len() as int, b),
    ensures
        a == b,
{
    lemma_lex_swap(audio_keys(policy, formats[a]), audio_keys(policy, formats[b]), 0);
}

/// Of two video formats that every criterion ranks alike, the one that
/// comes first is kept: the pick never comes after a format that it ties
/// with.
pub proof fn lemma_video_first_seen_wins(
    policy: Seq<VideoSelector>,
    formats: Seq<AdaptiveFormat>,
    at: int,
    other: int,
)
    requires
        is_best_video(policy, formats, formats.len() as int, at),
        0 <= other < formats.len(),
        formats[other].is_video(),
        forall|k: int|
            0 <= k < policy.len() ==> video_key(policy[k], formats[at]) == video_key(
                policy[k],
                formats[other],
            ),
    ensures
        at <= other,
{
    lemma_lex_tie(video_keys(policy, formats[at]), video_keys(policy, formats[other]), 0);
}

/// Of two audio formats that every criterion ranks alike, the one that
/// comes first is kept: the pick never comes after a format that it ties
/// with.
pub proof fn lemma_audio_first_seen_wins(
    policy: Seq<AudioSelector>,
    formats: Seq<AdaptiveFormat>,
    at: int,
    other: int,
)
    requires
        is_best_audio(policy, formats, formats.len() as int, at),
        0 <= other < formats.len(),
        formats[other].is_audio(),
        forall|k: int|
            0 <= k < policy.len() ==> audio_key(policy[k], formats[at]) == audio_key(
                policy[k],
                formats[other],
            ),
    ensures
        at <= other,
{
    lemma_lex_tie(audio_keys(policy, formats[at]), audio_keys(policy, formats[other]), 0);
}

} // verus!
