//! User configuration: the ranked criteria by which a video and an audio
//! format are picked, and the commands that play what was picked.

use vstd::prelude::*;
use vstd::string::StringExecFns;

verus! {

/// How to pick among numbers: the highest, the lowest, or the one closest
/// to a target.
#[derive(Debug, PartialEq, Eq)]
pub enum Selector<T> {
    Highest,
    ClosestTo(T),
    Lowest,
}

/// A container format, as named in a mime type.
#[derive(Debug, PartialEq, Eq)]
pub enum MediaFormat {
    Mp4,
    Webm,
}

/// One criterion for picking a video format.
#[derive(Debug, PartialEq, Eq)]
pub enum VideoSelector {
    Bitrate(Selector<u32>),
    Quality(Selector<u16>),
    Format(MediaFormat),
}

/// One criterion for picking an audio format.
#[derive(Debug, PartialEq, Eq)]
pub enum AudioSelector {
    Bitrate(Selector<u32>),
    Language(&'static str),
    Format(MediaFormat),
}

/// A program to run and the arguments to run it with.
#[derive(Debug, PartialEq, Eq)]
pub struct PlayerCommand {
    pub program: String,
    pub args: Vec<String>,
}

/// A program and its arguments as plain text.
pub struct CommandText {
    pub program: Seq<char>,
    pub args: Seq<Seq<char>>,
}

impl View for PlayerCommand {
    type V = CommandText;

    open spec fn view(&self) -> CommandText {
        CommandText {
            program: self.program@,
            args: Seq::new(self.args@.len(), |i: int| self.args@[i]@),
        }
    }
}

/// What a criterion says of a candidate held against the current choice.
#[derive(Clone, Copy, Debug, PartialEq, Eq, Structural)]
pub enum Verdict {
    /// The candidate is worse than the current choice.
    Worse,
    /// The criterion does not tell the two apart.
    Same,
    /// The candidate is better than the current choice.
    Better,
}

/// How far apart two numbers are.
pub open spec fn distance(a: int, b: int) -> int {
    if a < b {
        b - a
    } else {
        a - b
    }
}

/// `Better` when `key` is strictly smaller than `current_key`, `Worse`
/// when it is strictly larger: criteria rank candidates by a key of which
/// less is better.
pub open spec fn by_key(current_key: int, key: int) -> Verdict {
    if key < current_key {
        Verdict::Better
    } else if key == current_key {
        Verdict::Same
    } else {
        Verdict::Worse
    }
}

/// The key by which a selector ranks the number `x`; less is better.
pub open spec fn selector_key(sel: Selector<int>, x: int) -> int {
    match sel {
        Selector::Highest => -x,
        Selector::ClosestTo(target) => distance(target, x),
        Selector::Lowest => x,
    }
}

/// The verdict of a selector on `candidate` held against `current`.
pub open spec fn judge(sel: Selector<int>, current: int, candidate: int) -> Verdict {
    by_key(selector_key(sel, current), selector_key(sel, candidate))
}

impl View for Selector<u32> {
    type V = Selector<int>;

    open spec fn view(&self) -> Selector<int> {
        match self {
            Selector::Highest => Selector::Highest,
            Selector::ClosestTo(target) => Selector::ClosestTo(*target as int),
            Selector::Lowest => Selector::Lowest,
        }
    }
}

impl View for Selector<u16> {
    type V = Selector<int>;

    open spec fn view(&self) -> Selector<int> {
        match self {
            Selector::Highest => Selector::Highest,
            Selector::ClosestTo(target) => Selector::ClosestTo(*target as int),
            Selector::Lowest => Selector::Lowest,
        }
    }
}

/// The verdict that an ordering stands for: `Greater` says that the
/// candidate is better.
pub open spec fn verdict_of(o: std::cmp::Ordering) -> Verdict {
    match o {
        std::cmp::Ordering::Less => Verdict::Worse,
        std::cmp::Ordering::Equal => Verdict::Same,
        std::cmp::Ordering::Greater => Verdict::Better,
    }
}

fn gap_u32(a: u32, b: u32) -> (r: u32)
    ensures
        r == distance(a as int, b as int),
{
    if a < b {
        b - a
    } else {
        a - b
    }
}

fn gap_u16(a: u16, b: u16) -> (r: u16)
    ensures
        r == distance(a as int, b as int),
{
    if a < b {
        b - a
    } else {
        a - b
    }
}

fn rank_u32(current_key: u32, key: u32) -> (r: Verdict)
    ensures
        r == by_key(current_key as int, key as int),
{
    if key < current_key {
        Verdict::Better
    } else if key == current_key {
        Verdict::Same
    } else {
        Verdict::Worse
    }
}

fn rank_u16(current_key: u16, key: u16) -> (r: Verdict)
    ensures
        r == by_key(current_key as int, key as int),
{
    if key < current_key {
        Verdict::Better
    } else if key == current_key {
        Verdict::Same
    } else {
        Verdict::Worse
    }
}

impl Verdict {
    /// The ordering that stands for this verdict.
    pub fn ordering(self) -> (o: std::cmp::Ordering)
        ensures
            verdict_of(o) == self,
    {
        match self {
            Verdict::Worse => std::cmp::Ordering::Less,
            Verdict::Same => std::cmp::Ordering::Equal,
            Verdict::Better => std::cmp::Ordering::Greater,
        }
    }
}

impl Selector<u32> {
    /// The verdict of this selector on `y` held against `x`.
    pub open spec fn verdict(&self, x: u32, y: u32) -> Verdict {
        judge(self@, x as int, y as int)
    }

    /// The verdict on `y` held against `x`.
    pub fn rank(&self, x: u32, y: u32) -> (r: Verdict)
        ensures
            r == self.verdict(x, y),
    {
        match self {
            Selector::Highest => rank_u32(y, x),
            Selector::ClosestTo(target) => rank_u32(gap_u32(*target, x), gap_u32(*target, y)),
            Selector::Lowest => rank_u32(x, y),
        }
    }

    /// Compares `y` with `x` under this selector: `Greater` when `y` is
    /// better than `x`, `Less` when it is worse.
    pub fn is_better(&self, x: u32, y: u32) -> (r: std::cmp::Ordering)
        ensures
            verdict_of(r) == self.verdict(x, y),
    {
        self.rank(x, y).ordering()
    }
}

impl Selector<u16> {
    /// The verdict of this selector on `y` held against `x`.
    pub open spec fn verdict(&self, x: u16, y: u16) -> Verdict {
        judge(self@, x as int, y as int)
    }

    /// The verdict on `y` held against `x`.
    pub fn rank(&self, x: u16, y: u16) -> (r: Verdict)
        ensures
            r == self.verdict(x, y),
    {
        match self {
            Selector::Highest => rank_u16(y, x),
            Selector::ClosestTo(target) => rank_u16(gap_u16(*target, x), gap_u16(*target, y)),
            Selector::Lowest => rank_u16(x, y),
        }
    }

    /// Compares `y` with `x` under this selector: `Greater` when `y` is
    /// better than `x`, `Less` when it is worse.
    pub fn is_better(&self, x: u16, y: u16) -> (r: std::cmp::Ordering)
        ensures
            verdict_of(r) == self.verdict(x, y),
    {
        self.rank(x, y).ordering()
    }
}

impl MediaFormat {
    /// The name of this format as it stands in a mime type.
    pub open spec fn name(&self) -> Seq<char> {
        match self {
            MediaFormat::Mp4 => "mp4"@,
            MediaFormat::Webm => "webm"@,
        }
    }

    /// The name of this format as it stands in a mime type.
    pub fn to_string(&self) -> (s: String)
        ensures
            s@ == self.name(),
    {
        match self {
            MediaFormat::Mp4 => "mp4".to_owned(),
            MediaFormat::Webm => "webm".to_owned(),
        }
    }
}

/// The command that plays a video from the address of its picture and the
/// address of its sound: `mpv`, told of the sound, with the picture. The
/// address of the subtitles is not handed on.
pub open spec fn video_command(video_url: Seq<char>, audio_url: Seq<char>) -> CommandText {
    CommandText { program: "mpv"@, args: seq!["--audio-file="@ + audio_url, video_url] }
}

/// The command that plays a live stream from the address of its manifest:
/// `ffplay` with the address.
pub open spec fn stream_command(hls_manifest_url: Seq<char>) -> CommandText {
    CommandText { program: "ffplay"@, args: seq![hls_manifest_url] }
}

/// The command that plays a video. `subtitle_url` is `None` where no
/// subtitles are asked for or none match.
pub fn video_player(video_url: String, audio_url: String, subtitle_url: Option<String>) -> (r:
    PlayerCommand)
    ensures
        r@ == video_command(video_url@, audio_url@),
{
    let mut sound = "--audio-file=".to_owned();
    sound.append(audio_url.as_str());
    let mut args: Vec<String> = Vec::new();
    args.push(sound);
    args.push(video_url);
    let r = PlayerCommand { program: "mpv".to_owned(), args };
    assert(r@.args =~= video_command(video_url@, audio_url@).args);
    r
}

/// The command that plays a live stream.
pub fn stream_player(hls_manifest_url: String) -> (r: PlayerCommand)
    ensures
        r@ == stream_command(hls_manifest_url@),
{
    let mut args: Vec<String> = Vec::new();
    args.push(hls_manifest_url);
    let r = PlayerCommand { program: "ffplay".to_owned(), args };
    assert(r@.args =~= stream_command(hls_manifest_url@).args);
    r
}

/// The language of the subtitles to play a video with; `None` for no
/// subtitles.
pub fn caption_language() -> (r: Option<&'static str>)
    ensures
        r is None,
{
    None
}

/// The video criteria used when the caller has none of their own: the
/// height closest to 720, then the lowest bitrate.
pub fn video_selector() -> (policy: Vec<VideoSelector>)
    ensures
        policy@ == seq![
            VideoSelector::Quality(Selector::ClosestTo(720u16)),
            VideoSelector::Bitrate(Selector::Lowest),
        ],
{
    let mut policy: Vec<VideoSelector> = Vec::new();
    policy.push(VideoSelector::Quality(Selector::ClosestTo(720u16)));
    policy.push(VideoSelector::Bitrate(Selector::Lowest));
    policy
}

/// The audio criteria used when the caller has none of their own: an
/// English track, then the lowest bitrate.
pub fn audio_selector() -> (policy: Vec<AudioSelector>)
    ensures
        policy@ == seq![
            AudioSelector::Language("English"),
            AudioSelector::Bitrate(Selector::Lowest),
        ],
{
    let mut policy: Vec<AudioSelector> = Vec::new();
    policy.push(AudioSelector::Language("English"));
    policy.push(AudioSelector::Bitrate(Selector::Lowest));
    policy
}

} // verus!
