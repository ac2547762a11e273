//! The pieces that the platform's answers are built from, and the rows
//! that each of them stands for.

use vstd::prelude::*;
use vstd::string::StringExecFns;
use crate::items::{
    details_text, empty_detail, gap_label, line_label, lines_detail, lines_text, no_lines,
    push_detail, push_label, push_line, raw_line, spaced_text, titles_text, Detail, Label, Line,
    Node, Rows, Span, SpanText, Style,
};

verus! {

/// The two lists hold what they held before and then `rows`.
pub open spec fn adds(
    titles_before: Seq<Label>,
    details_before: Seq<(Detail, Node)>,
    rows: Rows,
    titles: Seq<Label>,
    details: Seq<(Detail, Node)>,
) -> bool {
    &&& titles_text(titles) == titles_text(titles_before) + rows.titles
    &&& details_text(details) == details_text(details_before) + rows.details
}

/// What can be added to the rows of a page.
pub trait IntoWidgets: Sized {
    /// The rows that this stands for, and the token that it brings.
    spec fn rows(self) -> Rows;

    /// Adds the rows of this to the two lists, and gives the token that it
    /// brings, if any.
    fn into_widgets(self, titles: &mut Vec<Label>, info: &mut Vec<(Detail, Node)>) -> (token:
        Option<String>)
        ensures
            adds(old(titles)@, old(info)@, self.rows(), final(titles)@, final(info)@),
            token == self.rows().token,
    ;
}

/// The rows of all of `items`, in order, and the last token that one of
/// them brings.
pub open spec fn all_rows<T: IntoWidgets>(items: Seq<T>) -> Rows
    decreases items.len(),
{
    if items.len() == 0 {
        Rows::none()
    } else {
        all_rows(items.drop_last()).with_latest(items.last().rows())
    }
}

/// The rows of the first `upto + 1` items are the rows of the first
/// `upto` and then those of the next.
pub proof fn lemma_all_rows_step<T: IntoWidgets>(items: Seq<T>, upto: int)
    requires
        0 <= upto < items.len(),
    ensures
        all_rows(items.take(upto + 1)) == all_rows(items.take(upto)).with_latest(
            items[upto].rows(),
        ),
{
    assert(items.take(upto + 1).drop_last() =~= items.take(upto));
}

/// What was added in two steps was added.
pub proof fn lemma_adds_both(
    titles0: Seq<Label>,
    details0: Seq<(Detail, Node)>,
    first: Rows,
    titles1: Seq<Label>,
    details1: Seq<(Detail, Node)>,
    second: Rows,
    titles2: Seq<Label>,
    details2: Seq<(Detail, Node)>,
)
    requires
        adds(titles0, details0, first, titles1, details1),
        adds(titles1, details1, second, titles2, details2),
    ensures
        adds(titles0, details0, first.with(second), titles2, details2),
        adds(titles0, details0, first.with_latest(second), titles2, details2),
{
    assert(titles_text(titles0) + first.titles + second.titles =~= titles_text(titles0) + (
    first.titles + second.titles));
    assert(details_text(details0) + first.details + second.details =~= details_text(details0) + (
    first.details + second.details));
}

/// Nothing was added.
pub proof fn lemma_adds_none(titles: Seq<Label>, details: Seq<(Detail, Node)>)
    ensures
        adds(titles, details, Rows::none(), titles, details),
{
}

/// Adds one row to the two lists.
pub fn add_row(
    titles: &mut Vec<Label>,
    info: &mut Vec<(Detail, Node)>,
    label: Label,
    detail: Detail,
    node: Node,
)
    ensures
        adds(old(titles)@, old(info)@, Rows::row(label@, detail@, node), final(titles)@, final(info)@),
{
    push_label(titles, label);
    push_detail(info, detail, node);
    assert(titles_text(old(titles)@).push(label@) =~= titles_text(old(titles)@) + seq![label@]);
    assert(details_text(old(info)@).push((detail@, node)) =~= details_text(old(info)@) + seq![
        (detail@, node),
    ]);
}

/// The row that parts two groups of rows: an empty line with an empty
/// detail.
pub open spec fn gap_row() -> Rows {
    Rows::row(gap_label(), empty_detail(), Node::Nothing)
}

/// Adds the row that parts two groups of rows.
pub fn add_gap(titles: &mut Vec<Label>, info: &mut Vec<(Detail, Node)>)
    ensures
        adds(old(titles)@, old(info)@, gap_row(), final(titles)@, final(info)@),
{
    add_row(titles, info, Label::gap(), Detail::empty(), Node::Nothing);
}

pub struct BasicColorPaletteData {
    /// The highest byte is the opacity, the other three are red, green
    /// and blue.
    pub background_color: Option<u32>,
    pub foreground_title_color: u32,
    pub foreground_body_color: Option<u32>,
}

pub struct Color {
    pub basic_color_palette_data: BasicColorPaletteData,
}

pub struct SimpleText {
    pub simple_text: String,
}

pub struct Run {
    pub text: String,
    pub bold: Option<bool>,
    pub italics: Option<bool>,
}

/// Text in runs, each of which may be bold or in italics.
pub struct Text {
    pub runs: Vec<Run>,
}

impl Run {
    /// The span of this run on top of `style`: bold and in italics where
    /// the run or the style says so.
    pub open spec fn styled(self, style: Style) -> SpanText {
        SpanText {
            content: self.text@,
            style: Style {
                bold: style.bold || self.bold == Some(true),
                italic: style.italic || self.italics == Some(true),
                ..style
            },
        }
    }
}

impl Text {
    /// The line of the runs of this text, each on top of `style`.
    pub open spec fn styled(self, style: Style) -> Seq<SpanText> {
        Seq::new(self.runs@.len(), |i: int| self.runs@[i].styled(style))
    }

    /// The line of the runs of this text.
    pub open spec fn line(self) -> Seq<SpanText> {
        self.styled(Style::plain())
    }

    /// The line of the runs of this text, each on top of `style`.
    pub fn with_style(self, style: Style) -> (r: Line)
        ensures
            r@ == self.styled(style),
    {
        let mut line = Line::empty();
        let ghost runs = self.runs@;
        for run in it: self.runs
            invariant
                it.seq() == runs,
                line@ == Seq::new(it.index() as nat, |i: int| runs[i].styled(style)),
        {
            let bold = match run.bold {
                Some(true) => true,
                _ => style.bold,
            };
            let italic = match run.italics {
                Some(true) => true,
                _ => style.italic,
            };
            line.push(
                Span {
                    content: run.text,
                    style: Style {
                        fg: style.fg,
                        bg: style.bg,
                        bold,
                        italic,
                        underlined: style.underlined,
                        crossed_out: style.crossed_out,
                    },
                },
            );
        }
        line
    }

    /// The line of the runs of this text, underlined.
    pub fn underlined(self) -> (r: Line)
        ensures
            r@ == self.styled(Style::underline()),
    {
        self.with_style(Style::underlined())
    }

    /// The line of the runs of this text.
    pub fn into_line(self) -> (r: Line)
        ensures
            r@ == self.line(),
    {
        self.with_style(Style::default())
    }
}

pub struct MetadataBadgeRendererVideo {
    pub label: String,
}

pub struct MetadataBadgeRendererOwner {
    pub tooltip: String,
}

pub struct Badge<T> {
    pub metadata_badge_renderer: T,
}

pub struct AccessibilityData {
    pub label: String,
}

pub struct Accessibility {
    pub accessibility_data: AccessibilityData,
}

pub struct AccessibleText {
    pub accessibility: Accessibility,
}

impl AccessibleText {
    /// The words that say this text aloud.
    pub open spec fn label(self) -> Seq<char> {
        self.accessibility.accessibility_data.label@
    }

    /// The words that say this text aloud.
    pub fn into_label(self) -> (r: String)
        ensures
            r@ == self.label(),
    {
        self.accessibility.accessibility_data.label
    }
}

/// How many have seen a video: in words for a video, in runs for a stream.
pub enum ShortViewCountText {
    Video(AccessibleText),
    Stream(Text),
}

impl ShortViewCountText {
    pub open spec fn line(self) -> Seq<SpanText> {
        match self {
            ShortViewCountText::Video(text) => raw_line(text.label()),
            ShortViewCountText::Stream(text) => text.line(),
        }
    }

    pub fn into_line(self) -> (r: Line)
        ensures
            r@ == self.line(),
    {
        match self {
            ShortViewCountText::Video(text) => Line::raw(text.into_label()),
            ShortViewCountText::Stream(text) => text.into_line(),
        }
    }
}

/// The texts with `separator` between each two.
pub open spec fn joined(texts: Seq<Seq<char>>, separator: Seq<char>) -> Seq<char>
    decreases texts.len(),
{
    if texts.len() == 0 {
        Seq::empty()
    } else if texts.len() == 1 {
        texts[0]
    } else {
        joined(texts.drop_last(), separator) + separator + texts.last()
    }
}

/// The labels of badges of a video.
pub open spec fn labels(badges: Seq<Badge<MetadataBadgeRendererVideo>>) -> Seq<Seq<char>> {
    Seq::new(badges.len(), |i: int| badges[i].metadata_badge_renderer.label@)
}

/// The tooltips of badges of an owner.
pub open spec fn tooltips(badges: Seq<Badge<MetadataBadgeRendererOwner>>) -> Seq<Seq<char>> {
    Seq::new(badges.len(), |i: int| badges[i].metadata_badge_renderer.tooltip@)
}

/// The line that lists the badges of a video: `Badges: ` and their
/// labels, parted by commas.
pub open spec fn badges_line(badges: Seq<Badge<MetadataBadgeRendererVideo>>) -> Seq<SpanText> {
    raw_line("Badges: "@ + joined(labels(badges), ", "@))
}

/// The line that lists the badges of an owner: `Owner badges: ` and their
/// tooltips, parted by commas.
pub open spec fn owner_badges_line(badges: Seq<Badge<MetadataBadgeRendererOwner>>) -> Seq<
    SpanText,
> {
    raw_line("Owner badges: "@ + joined(tooltips(badges), ", "@))
}

/// `prefix` and then the labels of the badges, with `separator` between
/// each two.
pub fn join_labels(
    badges: Vec<Badge<MetadataBadgeRendererVideo>>,
    prefix: &str,
    separator: &str,
) -> (r: String)
    ensures
        r@ == prefix@ + joined(labels(badges@), separator@),
{
    let mut list = prefix.to_owned();
    let ghost all = labels(badges@);
    let mut first = true;
    for badge in it: badges
        invariant
            it.seq() == badges@,
            all == labels(badges@),
            first == (it.index() == 0),
            list@ == prefix@ + joined(all.take(it.index() as int), separator@),
    {
        proof {
            let upto = it.index() as int;
            assert(all.take(upto + 1).drop_last() =~= all.take(upto));
            if upto == 0 {
            }
        }
        if !first {
            list.append(separator);
        }
        list.append(badge.metadata_badge_renderer.label.as_str());
        first = false;
    }
    assert(all.take(all.len() as int) =~= all);
    list
}

/// `prefix` and then the tooltips of the badges, with `separator` between
/// each two.
pub fn join_tooltips(
    badges: Vec<Badge<MetadataBadgeRendererOwner>>,
    prefix: &str,
    separator: &str,
) -> (r: String)
    ensures
        r@ == prefix@ + joined(tooltips(badges@), separator@),
{
    let mut list = prefix.to_owned();
    let ghost all = tooltips(badges@);
    let mut first = true;
    for badge in it: badges
        invariant
            it.seq() == badges@,
            all == tooltips(badges@),
            first == (it.index() == 0),
            list@ == prefix@ + joined(all.take(it.index() as int), separator@),
    {
        proof {
            let upto = it.index() as int;
            assert(all.take(upto + 1).drop_last() =~= all.take(upto));
            if upto == 0 {
            }
        }
        if !first {
            list.append(separator);
        }
        list.append(badge.metadata_badge_renderer.tooltip.as_str());
        first = false;
    }
    assert(all.take(all.len() as int) =~= all);
    list
}

/// The line that lists the badges of a video.
pub fn badges_into_line(badges: Vec<Badge<MetadataBadgeRendererVideo>>) -> (r: Line)
    ensures
        r@ == badges_line(badges@),
{
    Line::raw(join_labels(badges, "Badges: ", ", "))
}

/// The line that lists the badges of an owner.
pub fn owner_badges_into_line(badges: Vec<Badge<MetadataBadgeRendererOwner>>) -> (r: Line)
    ensures
        r@ == owner_badges_line(badges@),
{
    Line::raw(join_tooltips(badges, "Owner badges: ", ", "))
}

/// The line of an empty span.
pub open spec fn blank_line() -> Seq<SpanText> {
    raw_line(Seq::empty())
}

/// The line of an empty span.
pub fn blank() -> (r: Line)
    ensures
        r@ == blank_line(),
{
    Line::raw(String::new())
}

/// The lines of `text`, if there is one: its line and a blank line.
pub open spec fn maybe_spaced(text: Option<Text>) -> Seq<Seq<SpanText>> {
    match text {
        Some(text) => seq![text.line(), blank_line()],
        None => Seq::empty(),
    }
}

/// The line of what is said aloud, if there is something.
pub open spec fn maybe_label(text: Option<AccessibleText>) -> Seq<Seq<SpanText>> {
    match text {
        Some(text) => seq![raw_line(text.label())],
        None => Seq::empty(),
    }
}

/// The line of a simple text, if there is one.
pub open spec fn maybe_simple(text: Option<SimpleText>) -> Seq<Seq<SpanText>> {
    match text {
        Some(text) => seq![raw_line(text.simple_text@)],
        None => Seq::empty(),
    }
}

/// The line that lists the badges of a video, if it has any.
pub open spec fn maybe_badges(badges: Option<Vec<Badge<MetadataBadgeRendererVideo>>>) -> Seq<
    Seq<SpanText>,
> {
    match badges {
        Some(badges) => seq![badges_line(badges@)],
        None => Seq::empty(),
    }
}

/// The line that lists the badges of an owner, if there are any.
pub open spec fn maybe_owner_badges(
    badges: Option<Vec<Badge<MetadataBadgeRendererOwner>>>,
) -> Seq<Seq<SpanText>> {
    match badges {
        Some(badges) => seq![owner_badges_line(badges@)],
        None => Seq::empty(),
    }
}

/// Adds the line of what is said aloud, if there is something.
pub fn push_maybe_label(lines: &mut Vec<Line>, text: Option<AccessibleText>)
    ensures
        lines_text(final(lines)@) == lines_text(old(lines)@) + maybe_label(text),
{
    match text {
        Some(text) => {
            push_line(lines, Line::raw(text.into_label()));
        },
        None => {},
    }
}

/// Adds the line of a simple text, if there is one.
pub fn push_maybe_simple(lines: &mut Vec<Line>, text: Option<SimpleText>)
    ensures
        lines_text(final(lines)@) == lines_text(old(lines)@) + maybe_simple(text),
{
    match text {
        Some(text) => {
            push_line(lines, Line::raw(text.simple_text));
        },
        None => {},
    }
}

/// Adds the line that lists the badges of a video, if it has any.
pub fn push_maybe_badges(
    lines: &mut Vec<Line>,
    badges: Option<Vec<Badge<MetadataBadgeRendererVideo>>>,
)
    ensures
        lines_text(final(lines)@) == lines_text(old(lines)@) + maybe_badges(badges),
{
    match badges {
        Some(badges) => {
            push_line(lines, badges_into_line(badges));
        },
        None => {},
    }
}

/// Adds the line that lists the badges of an owner, if there are any.
pub fn push_maybe_owner_badges(
    lines: &mut Vec<Line>,
    badges: Option<Vec<Badge<MetadataBadgeRendererOwner>>>,
)
    ensures
        lines_text(final(lines)@) == lines_text(old(lines)@) + maybe_owner_badges(badges),
{
    match badges {
        Some(badges) => {
            push_line(lines, owner_badges_into_line(badges));
        },
        None => {},
    }
}

/// A video in a list.
pub struct VideoRenderer {
    pub badges: Option<Vec<Badge<MetadataBadgeRendererVideo>>>,
    pub description_snippet: Option<Text>,
    pub length_text: Option<AccessibleText>,
    pub owner_badges: Option<Vec<Badge<MetadataBadgeRendererOwner>>>,
    pub owner_text: Text,
    pub published_time_text: Option<SimpleText>,
    pub short_view_count_text: ShortViewCountText,
    pub title: Text,
    pub video_id: String,
}

impl VideoRenderer {
    /// What is said of the video: who put it up, how many have seen it,
    /// what it is about, how long it is, when it came out, and its badges
    /// and those of its owner, as far as they are given.
    pub open spec fn lines(self) -> Seq<Seq<SpanText>> {
        seq![self.owner_text.line(), blank_line(), self.short_view_count_text.line(), blank_line()]
            + maybe_spaced(self.description_snippet) + maybe_label(self.length_text)
            + maybe_simple(self.published_time_text) + maybe_badges(self.badges)
            + maybe_owner_badges(self.owner_badges)
    }
}

impl IntoWidgets for VideoRenderer {
    /// One row: the title with space below it, what is said of the video,
    /// and the video to play.
    open spec fn rows(self) -> Rows {
        Rows::row(
            spaced_text(self.title.line()),
            lines_detail(self.lines(), true),
            Node::Video(self.video_id),
        )
    }

    fn into_widgets(self, titles: &mut Vec<Label>, info: &mut Vec<(Detail, Node)>) -> (token:
        Option<String>) {
        let ghost start = seq![
            self.owner_text.line(),
            blank_line(),
            self.short_view_count_text.line(),
            blank_line(),
        ];
        let mut lines = no_lines();
        push_line(&mut lines, self.owner_text.into_line());
        push_line(&mut lines, blank());
        push_line(&mut lines, self.short_view_count_text.into_line());
        push_line(&mut lines, blank());
        assert(lines_text(lines@) =~= start);
        match self.description_snippet {
            Some(text) => {
                push_line(&mut lines, text.into_line());
                push_line(&mut lines, blank());
                assert(lines_text(lines@) =~= start + maybe_spaced(Some(text)));
            },
            None => {},
        }
        push_maybe_label(&mut lines, self.length_text);
        push_maybe_simple(&mut lines, self.published_time_text);
        push_maybe_badges(&mut lines, self.badges);
        push_maybe_owner_badges(&mut lines, self.owner_badges);
        add_row(
            titles,
            info,
            Label::spaced(self.title.into_line()),
            Detail::lines(lines, true),
            Node::Video(self.video_id),
        );
        None
    }
}

/// Adds the rows of all of `items`, in order, and gives the last token
/// that one of them brings.
pub fn add_all<T: IntoWidgets>(
    items: Vec<T>,
    titles: &mut Vec<Label>,
    info: &mut Vec<(Detail, Node)>,
) -> (token: Option<String>)
    ensures
        adds(old(titles)@, old(info)@, all_rows(items@), final(titles)@, final(info)@),
        token == all_rows(items@).token,
{
    let mut token: Option<String> = None;
    proof {
        lemma_adds_none(titles@, info@);
    }
    for item in it: items
        invariant
            it.seq() == items@,
            adds(old(titles)@, old(info)@, all_rows(items@.take(it.index() as int)), titles@, info@),
            token == all_rows(items@.take(it.index() as int)).token,
    {
        let ghost titles_before = titles@;
        let ghost info_before = info@;
        let brought = item.into_widgets(titles, info);
        proof {
            lemma_all_rows_step(items@, it.index() as int);
            lemma_adds_both(
                old(titles)@,
                old(info)@,
                all_rows(items@.take(it.index() as int)),
                titles_before,
                info_before,
                item.rows(),
                titles@,
                info@,
            );
        }
        match brought {
            Some(brought) => {
                token = Some(brought);
            },
            None => {},
        }
    }
    assert(items@.take(items@.len() as int) =~= items@);
    token
}

/// The rows of the items from `from` on, up to the first that brings a
/// token, and that token. The items behind it are left out.
pub open spec fn rows_to_token<T: IntoWidgets>(items: Seq<T>, from: int) -> Rows
    decreases items.len() - from,
{
    if from < 0 || from >= items.len() {
        Rows::none()
    } else if items[from].rows().token is Some {
        items[from].rows()
    } else {
        Rows {
            titles: items[from].rows().titles + rows_to_token(items, from + 1).titles,
            details: items[from].rows().details + rows_to_token(items, from + 1).details,
            token: rows_to_token(items, from + 1).token,
        }
    }
}

/// Adds the rows of `items`, in order, up to the first item that brings a
/// token, and gives that token.
pub fn add_to_token<T: IntoWidgets>(
    items: Vec<T>,
    titles: &mut Vec<Label>,
    info: &mut Vec<(Detail, Node)>,
) -> (token: Option<String>)
    ensures
        adds(old(titles)@, old(info)@, rows_to_token(items@, 0), final(titles)@, final(info)@),
        token == rows_to_token(items@, 0).token,
{
    let ghost mut done = Rows::none();
    proof {
        lemma_adds_none(titles@, info@);
    }
    for item in it: items
        invariant
            it.seq() == items@,
            done.token is None,
            adds(old(titles)@, old(info)@, done, titles@, info@),
            rows_to_token(items@, 0).titles == done.titles + rows_to_token(
                items@,
                it.index() as int,
            ).titles,
            rows_to_token(items@, 0).details == done.details + rows_to_token(
                items@,
                it.index() as int,
            ).details,
            rows_to_token(items@, 0).token == rows_to_token(items@, it.index() as int).token,
    {
        let ghost titles_before = titles@;
        let ghost info_before = info@;
        let brought = item.into_widgets(titles, info);
        proof {
            lemma_adds_both(
                old(titles)@,
                old(info)@,
                done,
                titles_before,
                info_before,
                item.rows(),
                titles@,
                info@,
            );
            done = done.with(item.rows());
        }
        if brought.is_some() {
            return brought;
        }
    }
    None
}

pub struct BrowseEndpoint {
    pub browse_id: String,
    pub params: Option<String>,
}

pub struct Endpoint {
    pub browse_endpoint: BrowseEndpoint,
}

/// A short video.
pub struct ReelItemRenderer {
    pub headline: SimpleText,
    pub video_id: String,
    pub view_count_text: AccessibleText,
}

/// A game.
pub struct GameDetailsRenderer {
    pub title: SimpleText,
    pub endpoint: Endpoint,
    pub live_viewers_text: Option<AccessibleText>,
}

pub struct Game {
    pub game_details_renderer: GameDetailsRenderer,
}

pub struct GameCardRenderer {
    pub game: Game,
}

/// A detail that wraps and holds `text` as a string, or nothing where
/// there is no text.
pub open spec fn raw_or_empty(text: Option<Seq<char>>) -> crate::items::DetailText {
    match text {
        Some(text) => crate::items::raw_detail(text, true),
        None => lines_detail(Seq::empty(), true),
    }
}

impl IntoWidgets for GameDetailsRenderer {
    /// One row: the name of the game with space below it, how many watch
    /// it live if that is known, and the game to open.
    open spec fn rows(self) -> Rows {
        Rows::row(
            spaced_text(raw_line(self.title.simple_text@)),
            raw_or_empty(
                match self.live_viewers_text {
                    Some(text) => Some(text.label()),
                    None => None,
                },
            ),
            Node::Game(self.endpoint.browse_endpoint.browse_id, self.endpoint.browse_endpoint.params),
        )
    }

    fn into_widgets(self, titles: &mut Vec<Label>, info: &mut Vec<(Detail, Node)>) -> (token:
        Option<String>) {
        let detail = match self.live_viewers_text {
            Some(text) => Detail::raw(text.into_label(), true),
            None => Detail::lines(no_lines(), true),
        };
        add_row(
            titles,
            info,
            Label::spaced(Line::raw(self.title.simple_text)),
            detail,
            Node::Game(self.endpoint.browse_endpoint.browse_id, self.endpoint.browse_endpoint.params),
        );
        None
    }
}

impl IntoWidgets for GameCardRenderer {
    /// The row of the game.
    open spec fn rows(self) -> Rows {
        self.game.game_details_renderer.rows()
    }

    fn into_widgets(self, titles: &mut Vec<Label>, info: &mut Vec<(Detail, Node)>) -> (token:
        Option<String>) {
        self.game.game_details_renderer.into_widgets(titles, info)
    }
}

impl IntoWidgets for ReelItemRenderer {
    /// One row: the headline with space below it, how many have seen the
    /// video, and the video to play.
    open spec fn rows(self) -> Rows {
        Rows::row(
            spaced_text(raw_line(self.headline.simple_text@)),
            crate::items::raw_detail(self.view_count_text.label(), true),
            Node::Video(self.video_id),
        )
    }

    fn into_widgets(self, titles: &mut Vec<Label>, info: &mut Vec<(Detail, Node)>) -> (token:
        Option<String>) {
        add_row(
            titles,
            info,
            Label::spaced(Line::raw(self.headline.simple_text)),
            Detail::raw(self.view_count_text.into_label(), true),
            Node::Video(self.video_id),
        );
        None
    }
}

pub struct RichItemRendererContent {
    pub video_renderer: VideoRenderer,
}

impl IntoWidgets for RichItemRendererContent {
    /// The row of the video.
    open spec fn rows(self) -> Rows {
        self.video_renderer.rows()
    }

    fn into_widgets(self, titles: &mut Vec<Label>, info: &mut Vec<(Detail, Node)>) -> (token:
        Option<String>) {
        self.video_renderer.into_widgets(titles, info)
    }
}

pub struct RichItemRenderer<T> {
    pub content: T,
}

pub struct RichItem<T> {
    pub rich_item_renderer: RichItemRenderer<T>,
}

impl<T: IntoWidgets> IntoWidgets for RichItem<T> {
    /// The rows of what the item holds, without its token.
    open spec fn rows(self) -> Rows {
        Rows::none().with(self.rich_item_renderer.content.rows())
    }

    fn into_widgets(self, titles: &mut Vec<Label>, info: &mut Vec<(Detail, Node)>) -> (token:
        Option<String>) {
        proof {
            lemma_adds_none(titles@, info@);
        }
        let ghost titles_before = titles@;
        let ghost info_before = info@;
        let _ = self.rich_item_renderer.content.into_widgets(titles, info);
        proof {
            lemma_adds_both(
                titles_before,
                info_before,
                Rows::none(),
                titles_before,
                info_before,
                self.rich_item_renderer.content.rows(),
                titles@,
                info@,
            );
        }
        None
    }
}

/// What a section of the home page holds.
pub enum RichSectionItemRendererContent {
    Video(RichItemRendererContent),
    ReelItem { reel_item_renderer: ReelItemRenderer },
    Game { game_card_renderer: GameCardRenderer },
}

impl IntoWidgets for RichSectionItemRendererContent {
    /// The row of the video, of the short video or of the game.
    open spec fn rows(self) -> Rows {
        match self {
            RichSectionItemRendererContent::Video(content) => content.rows(),
            RichSectionItemRendererContent::ReelItem { reel_item_renderer } => reel_item_renderer.rows(),
            RichSectionItemRendererContent::Game { game_card_renderer } => game_card_renderer.rows(),
        }
    }

    fn into_widgets(self, titles: &mut Vec<Label>, info: &mut Vec<(Detail, Node)>) -> (token:
        Option<String>) {
        match self {
            RichSectionItemRendererContent::Video(content) => content.into_widgets(titles, info),
            RichSectionItemRendererContent::ReelItem { reel_item_renderer } => reel_item_renderer.into_widgets(
                titles,
                info,
            ),
            RichSectionItemRendererContent::Game { game_card_renderer } => game_card_renderer.into_widgets(
                titles,
                info,
            ),
        }
    }
}

pub struct RichShelfRenderer {
    pub contents: Vec<RichItem<RichSectionItemRendererContent>>,
    pub endpoint: Option<Endpoint>,
    pub subtitle: Option<Text>,
    pub title: Text,
}

pub struct RichSectionRendererContent {
    pub rich_shelf_renderer: RichShelfRenderer,
}

pub struct RichSectionRenderer {
    pub content: RichSectionRendererContent,
}

/// The line of `text`, or a line without spans where there is none.
pub open spec fn line_or_empty(text: Option<Text>) -> Seq<SpanText> {
    match text {
        Some(text) => text.line(),
        None => Seq::empty(),
    }
}

/// The line of `text`, or a line without spans where there is none.
pub fn into_line_or_empty(text: Option<Text>) -> (r: Line)
    ensures
        r@ == line_or_empty(text),
{
    match text {
        Some(text) => text.into_line(),
        None => Line::empty(),
    }
}

/// The game that an endpoint leads to; nothing without an endpoint.
pub open spec fn game_node(endpoint: Option<Endpoint>) -> Node {
    match endpoint {
        Some(endpoint) => Node::Game(endpoint.browse_endpoint.browse_id, endpoint.browse_endpoint.params),
        None => Node::Nothing,
    }
}

impl IntoWidgets for RichSectionRenderer {
    /// A heading row, which shows the underlined title and the subtitle
    /// and opens the game of the section if it has one; the rows of what
    /// the section holds; and a row that parts it from what follows.
    open spec fn rows(self) -> Rows {
        let shelf = self.content.rich_shelf_renderer;
        Rows::row(
            line_label(shelf.title.styled(Style::underline())),
            lines_detail(seq![line_or_empty(shelf.subtitle)], true),
            game_node(shelf.endpoint),
        ).with(all_rows(shelf.contents@)).with(gap_row())
    }

    fn into_widgets(self, titles: &mut Vec<Label>, info: &mut Vec<(Detail, Node)>) -> (token:
        Option<String>) {
        let shelf = self.content.rich_shelf_renderer;
        let ghost head = Rows::row(
            line_label(shelf.title.styled(Style::underline())),
            lines_detail(seq![line_or_empty(shelf.subtitle)], true),
            game_node(shelf.endpoint),
        );
        let node = match shelf.endpoint {
            Some(endpoint) => Node::Game(
                endpoint.browse_endpoint.browse_id,
                endpoint.browse_endpoint.params,
            ),
            None => Node::Nothing,
        };
        add_row(
            titles,
            info,
            Label::line(shelf.title.underlined()),
            Detail::line(into_line_or_empty(shelf.subtitle), true),
            node,
        );
        let ghost titles1 = titles@;
        let ghost info1 = info@;
        let _ = add_all(shelf.contents, titles, info);
        let ghost titles2 = titles@;
        let ghost info2 = info@;
        add_gap(titles, info);
        proof {
            lemma_adds_both(
                old(titles)@,
                old(info)@,
                head,
                titles1,
                info1,
                all_rows(shelf.contents@),
                titles2,
                info2,
            );
            lemma_adds_both(
                old(titles)@,
                old(info)@,
                head.with(all_rows(shelf.contents@)),
                titles2,
                info2,
                gap_row(),
                titles@,
                info@,
            );
        }
        None
    }
}

/// A video in a grid.
pub struct GridVideoRenderer {
    pub badges: Option<Vec<Badge<MetadataBadgeRendererVideo>>>,
    pub owner_badges: Option<Vec<Badge<MetadataBadgeRendererOwner>>>,
    pub published_time_text: Option<SimpleText>,
    pub short_byline_text: Text,
    pub short_view_count_text: Option<ShortViewCountText>,
    pub title: Text,
    pub video_id: String,
}

/// The line of how many have seen a video, if that is given.
pub open spec fn maybe_views(text: Option<ShortViewCountText>) -> Seq<Seq<SpanText>> {
    match text {
        Some(text) => seq![text.line()],
        None => Seq::empty(),
    }
}

impl GridVideoRenderer {
    /// What is said of the video: who put it up, when it came out, how
    /// many have seen it, and its badges and those of its owner, as far
    /// as they are given.
    pub open spec fn lines(self) -> Seq<Seq<SpanText>> {
        seq![self.short_byline_text.line(), blank_line()] + maybe_simple(self.published_time_text)
            + maybe_views(self.short_view_count_text) + maybe_badges(self.badges)
            + maybe_owner_badges(self.owner_badges)
    }
}

impl IntoWidgets for GridVideoRenderer {
    /// One row: the title with space below it, what is said of the video,
    /// and the video to play.
    open spec fn rows(self) -> Rows {
        Rows::row(
            spaced_text(self.title.line()),
            lines_detail(self.lines(), true),
            Node::Video(self.video_id),
        )
    }

    fn into_widgets(self, titles: &mut Vec<Label>, info: &mut Vec<(Detail, Node)>) -> (token:
        Option<String>) {
        let ghost start = seq![self.short_byline_text.line(), blank_line()];
        let mut lines = no_lines();
        push_line(&mut lines, self.short_byline_text.into_line());
        push_line(&mut lines, blank());
        assert(lines_text(lines@) =~= start);
        push_maybe_simple(&mut lines, self.published_time_text);
        match self.short_view_count_text {
            Some(text) => {
                let ghost before = lines_text(lines@);
                push_line(&mut lines, text.into_line());
                assert(lines_text(lines@) =~= before + maybe_views(Some(text)));
            },
            None => {},
        }
        push_maybe_badges(&mut lines, self.badges);
        push_maybe_owner_badges(&mut lines, self.owner_badges);
        add_row(
            titles,
            info,
            Label::spaced(self.title.into_line()),
            Detail::lines(lines, true),
            Node::Video(self.video_id),
        );
        None
    }
}

pub struct ContinuationCommand {
    pub token: String,
}

pub struct ContinuationEndpoint {
    pub continuation_command: ContinuationCommand,
}

/// The end of a list, with the token for what follows.
pub struct ContinuationItemRenderer {
    pub continuation_endpoint: ContinuationEndpoint,
}

impl IntoWidgets for ContinuationItemRenderer {
    /// No rows, and the token.
    open spec fn rows(self) -> Rows {
        Rows::end(self.continuation_endpoint.continuation_command.token)
    }

    fn into_widgets(self, titles: &mut Vec<Label>, info: &mut Vec<(Detail, Node)>) -> (token:
        Option<String>) {
        proof {
            lemma_adds_none(titles@, info@);
        }
        Some(self.continuation_endpoint.continuation_command.token)
    }
}

/// What a grid holds.
pub enum RichGridRendererContent {
    /// A video.
    RichItem(RichItem<RichItemRendererContent>),
    /// A section.
    RichSection { rich_section_renderer: RichSectionRenderer },
    /// A video in a grid.
    GridVideoRenderer { grid_video_renderer: GridVideoRenderer },
    /// A game.
    GameCard { game_card_renderer: GameCardRenderer },
    /// The end, with the token for what follows.
    ContinuationItem { continuation_item_renderer: ContinuationItemRenderer },
}

impl IntoWidgets for RichGridRendererContent {
    /// The rows of the video, the section or the game; or the token at
    /// the end.
    open spec fn rows(self) -> Rows {
        match self {
            RichGridRendererContent::RichItem(item) => item.rows(),
            RichGridRendererContent::RichSection { rich_section_renderer } => rich_section_renderer.rows(),
            RichGridRendererContent::GridVideoRenderer { grid_video_renderer } => grid_video_renderer.rows(),
            RichGridRendererContent::GameCard { game_card_renderer } => game_card_renderer.rows(),
            RichGridRendererContent::ContinuationItem {
                continuation_item_renderer,
            } => continuation_item_renderer.rows(),
        }
    }

    fn into_widgets(self, titles: &mut Vec<Label>, info: &mut Vec<(Detail, Node)>) -> (token:
        Option<String>) {
        match self {
            RichGridRendererContent::RichItem(item) => item.into_widgets(titles, info),
            RichGridRendererContent::RichSection {
                rich_section_renderer,
            } => rich_section_renderer.into_widgets(titles, info),
            RichGridRendererContent::GridVideoRenderer {
                grid_video_renderer,
            } => grid_video_renderer.into_widgets(titles, info),
            RichGridRendererContent::GameCard { game_card_renderer } => game_card_renderer.into_widgets(
                titles,
                info,
            ),
            RichGridRendererContent::ContinuationItem {
                continuation_item_renderer,
            } => continuation_item_renderer.into_widgets(titles, info),
        }
    }
}

/// A video on a card.
pub struct VideoCardRenderer {
    pub length_text: Option<AccessibleText>,
    pub metadata_text: SimpleText,
    pub owner_badges: Option<Vec<Badge<MetadataBadgeRendererOwner>>>,
    pub title: Text,
    pub video_id: String,
}

pub struct SearchEndpoint {
    pub query: String,
    /// `None` for a filter that is selected already.
    pub params: Option<String>,
}

pub struct SearchFilterRendererNavigationEndpoint {
    pub search_endpoint: SearchEndpoint,
}

/// A search that narrows the one at hand.
pub struct SearchRefinementCardRenderer {
    pub query: Text,
    pub search_endpoint: SearchFilterRendererNavigationEndpoint,
}

/// A card in a row of cards.
pub enum Card {
    Video { video_card_renderer: VideoCardRenderer },
    Game { game_card_renderer: GameCardRenderer },
    SearchRefinementCard { search_refinement_card_renderer: SearchRefinementCardRenderer },
}

/// The line that says how long a video is, if that is given.
pub open spec fn maybe_length(text: Option<AccessibleText>) -> Seq<Seq<SpanText>> {
    match text {
        Some(text) => seq![raw_line("Length: "@ + text.label())],
        None => Seq::empty(),
    }
}

/// The line that lists the badges of an owner one behind the other, if
/// there are any.
pub open spec fn maybe_packed_badges(
    badges: Option<Vec<Badge<MetadataBadgeRendererOwner>>>,
) -> Seq<Seq<SpanText>> {
    match badges {
        Some(badges) => seq![raw_line("Badges: "@ + joined(tooltips(badges@), Seq::empty()))],
        None => Seq::empty(),
    }
}

impl VideoCardRenderer {
    /// What is said of the video: the text that comes with it, its length
    /// and the badges of its owner, as far as they are given.
    pub open spec fn lines(self) -> Seq<Seq<SpanText>> {
        seq![raw_line(self.metadata_text.simple_text@), blank_line()] + maybe_length(
            self.length_text,
        ) + maybe_packed_badges(self.owner_badges)
    }
}

impl IntoWidgets for VideoCardRenderer {
    /// One row: the title with space below it, what is said of the video,
    /// and the video to play.
    open spec fn rows(self) -> Rows {
        Rows::row(
            spaced_text(self.title.line()),
            lines_detail(self.lines(), true),
            Node::Video(self.video_id),
        )
    }

    fn into_widgets(self, titles: &mut Vec<Label>, info: &mut Vec<(Detail, Node)>) -> (token:
        Option<String>) {
        let ghost start = seq![raw_line(self.metadata_text.simple_text@), blank_line()];
        let mut lines = no_lines();
        push_line(&mut lines, Line::raw(self.metadata_text.simple_text));
        push_line(&mut lines, blank());
        let ghost length = maybe_length(self.length_text);
        match self.length_text {
            Some(text) => {
                let mut length = "Length: ".to_owned();
                length.append(text.into_label().as_str());
                push_line(&mut lines, Line::raw(length));
            },
            None => {},
        }
        assert(lines_text(lines@) =~= start + length);
        match self.owner_badges {
            Some(badges) => {
                proof {
                    reveal_strlit("");
                    assert(""@ =~= Seq::<char>::empty());
                }
                push_line(&mut lines, Line::raw(join_tooltips(badges, "Badges: ", "")));
                assert(lines_text(lines@) =~= self.lines());
            },
            None => {},
        }
        add_row(
            titles,
            info,
            Label::spaced(self.title.into_line()),
            Detail::lines(lines, true),
            Node::Video(self.video_id),
        );
        None
    }
}

impl IntoWidgets for SearchRefinementCardRenderer {
    /// One row: the query, and the search for it.
    open spec fn rows(self) -> Rows {
        Rows::row(
            line_label(self.query.line()),
            lines_detail(Seq::empty(), true),
            Node::Search(self.search_endpoint.search_endpoint.query, None),
        )
    }

    fn into_widgets(self, titles: &mut Vec<Label>, info: &mut Vec<(Detail, Node)>) -> (token:
        Option<String>) {
        add_row(
            titles,
            info,
            Label::line(self.query.into_line()),
            Detail::lines(no_lines(), true),
            Node::Search(self.search_endpoint.search_endpoint.query, None),
        );
        None
    }
}

impl IntoWidgets for Card {
    /// The row of the video, of the game or of the search.
    open spec fn rows(self) -> Rows {
        match self {
            Card::Video { video_card_renderer } => video_card_renderer.rows(),
            Card::Game { game_card_renderer } => game_card_renderer.rows(),
            Card::SearchRefinementCard {
                search_refinement_card_renderer,
            } => search_refinement_card_renderer.rows(),
        }
    }

    fn into_widgets(self, titles: &mut Vec<Label>, info: &mut Vec<(Detail, Node)>) -> (token:
        Option<String>) {
        match self {
            Card::Video { video_card_renderer } => video_card_renderer.into_widgets(titles, info),
            Card::Game { game_card_renderer } => game_card_renderer.into_widgets(titles, info),
            Card::SearchRefinementCard {
                search_refinement_card_renderer,
            } => search_refinement_card_renderer.into_widgets(titles, info),
        }
    }
}

/// The title of a group of rows: in runs, or as a simple text.
pub enum Title {
    ReelShelfRenderer(Text),
    ItemSectionRenderer(SimpleText),
}

impl Title {
    /// The line of the title, underlined.
    pub open spec fn underlined_line(self) -> Seq<SpanText> {
        match self {
            Title::ReelShelfRenderer(text) => text.styled(Style::underline()),
            Title::ItemSectionRenderer(text) => seq![
                SpanText { content: text.simple_text@, style: Style::underline() },
            ],
        }
    }

    /// The line of the title.
    pub open spec fn line(self) -> Seq<SpanText> {
        match self {
            Title::ReelShelfRenderer(text) => text.line(),
            Title::ItemSectionRenderer(text) => raw_line(text.simple_text@),
        }
    }

    /// The line of the title, underlined.
    pub fn underlined(self) -> (r: Line)
        ensures
            r@ == self.underlined_line(),
    {
        match self {
            Title::ReelShelfRenderer(text) => text.underlined(),
            Title::ItemSectionRenderer(text) => Line::of(
                Span { content: text.simple_text, style: Style::underlined() },
            ),
        }
    }

    /// The line of the title.
    pub fn into_line(self) -> (r: Line)
        ensures
            r@ == self.line(),
    {
        match self {
            Title::ReelShelfRenderer(text) => text.into_line(),
            Title::ItemSectionRenderer(text) => Line::raw(text.simple_text),
        }
    }
}

pub struct RichListHeaderRenderer {
    pub title: Title,
    pub subtitle: Option<Text>,
}

pub struct Header {
    pub rich_list_header_renderer: RichListHeaderRenderer,
}

/// A row of cards under a heading.
pub struct HorizontalCardListRenderer {
    pub cards: Vec<Card>,
    pub header: Header,
}

/// The row that heads a group: the underlined title, with the subtitle as
/// its detail. It leads nowhere.
pub open spec fn heading_row(title: Title, subtitle: Option<Text>) -> Rows {
    Rows::row(
        line_label(title.underlined_line()),
        lines_detail(seq![line_or_empty(subtitle)], true),
        Node::Nothing,
    )
}

/// Adds the row that heads a group.
pub fn add_heading(
    titles: &mut Vec<Label>,
    info: &mut Vec<(Detail, Node)>,
    title: Title,
    subtitle: Option<Text>,
)
    ensures
        adds(old(titles)@, old(info)@, heading_row(title, subtitle), final(titles)@, final(info)@),
{
    add_row(
        titles,
        info,
        Label::line(title.underlined()),
        Detail::line(into_line_or_empty(subtitle), true),
        Node::Nothing,
    );
}

impl IntoWidgets for HorizontalCardListRenderer {
    /// The heading row and then the rows of the cards.
    open spec fn rows(self) -> Rows {
        heading_row(
            self.header.rich_list_header_renderer.title,
            self.header.rich_list_header_renderer.subtitle,
        ).with(all_rows(self.cards@))
    }

    fn into_widgets(self, titles: &mut Vec<Label>, info: &mut Vec<(Detail, Node)>) -> (token:
        Option<String>) {
        let ghost head = heading_row(
            self.header.rich_list_header_renderer.title,
            self.header.rich_list_header_renderer.subtitle,
        );
        add_heading(
            titles,
            info,
            self.header.rich_list_header_renderer.title,
            self.header.rich_list_header_renderer.subtitle,
        );
        let ghost titles1 = titles@;
        let ghost info1 = info@;
        let _ = add_all(self.cards, titles, info);
        proof {
            lemma_adds_both(
                old(titles)@,
                old(info)@,
                head,
                titles1,
                info1,
                all_rows(self.cards@),
                titles@,
                info@,
            );
        }
        None
    }
}

/// Short videos under a heading.
pub struct ReelShelfRenderer {
    pub items: Vec<RichSectionItemRendererContent>,
    pub title: Title,
}

impl IntoWidgets for ReelShelfRenderer {
    /// A row with the underlined title, and then the rows of the videos.
    open spec fn rows(self) -> Rows {
        Rows::row(line_label(self.title.underlined_line()), empty_detail(), Node::Nothing).with(
            all_rows(self.items@),
        )
    }

    fn into_widgets(self, titles: &mut Vec<Label>, info: &mut Vec<(Detail, Node)>) -> (token:
        Option<String>) {
        let ghost head = Rows::row(
            line_label(self.title.underlined_line()),
            empty_detail(),
            Node::Nothing,
        );
        add_row(titles, info, Label::line(self.title.underlined()), Detail::empty(), Node::Nothing);
        let ghost titles1 = titles@;
        let ghost info1 = info@;
        let _ = add_all(self.items, titles, info);
        proof {
            lemma_adds_both(
                old(titles)@,
                old(info)@,
                head,
                titles1,
                info1,
                all_rows(self.items@),
                titles@,
                info@,
            );
        }
        None
    }
}

pub struct GridRenderer {
    pub items: Vec<RichGridRendererContent>,
}

pub struct ExpandedShelfContentsRenderer {
    pub items: Vec<RichItemRendererContent>,
}

pub struct DetailedMetadataSnippet {
    pub snippet_text: Text,
}

/// A video in a list of search results.
pub struct VerticalListRendererItemVideoRenderer {
    pub video_id: String,
    pub title: Text,
    pub published_time_text: Option<SimpleText>,
    pub length_text: Option<AccessibleText>,
    pub badges: Option<Vec<Badge<MetadataBadgeRendererVideo>>>,
    pub owner_badges: Option<Vec<Badge<MetadataBadgeRendererOwner>>>,
    pub owner_text: Text,
    pub short_view_count_text: ShortViewCountText,
    pub detailed_metadata_snippets: Option<Vec<DetailedMetadataSnippet>>,
}

pub struct VerticalListRendererItem {
    pub video_renderer: VerticalListRendererItemVideoRenderer,
}

/// The lines of snippets, one each.
pub open spec fn snippet_lines(snippets: Seq<DetailedMetadataSnippet>) -> Seq<Seq<SpanText>> {
    Seq::new(snippets.len(), |i: int| snippets[i].snippet_text.line())
}

/// A line without spans and then the lines of the snippets, if snippets
/// are given.
pub open spec fn maybe_snippets(snippets: Option<Vec<DetailedMetadataSnippet>>) -> Seq<
    Seq<SpanText>,
> {
    match snippets {
        Some(snippets) => seq![Seq::<SpanText>::empty()] + snippet_lines(snippets@),
        None => Seq::empty(),
    }
}

impl VerticalListRendererItemVideoRenderer {
    /// What is said of the video: who put it up, how many have seen it,
    /// when it came out, how long it is, its badges and those of its
    /// owner, and what it is about, as far as they are given.
    pub open spec fn lines(self) -> Seq<Seq<SpanText>> {
        seq![self.owner_text.line(), blank_line(), self.short_view_count_text.line()]
            + maybe_simple(self.published_time_text) + maybe_label(self.length_text)
            + maybe_badges(self.badges) + maybe_owner_badges(self.owner_badges) + maybe_snippets(
            self.detailed_metadata_snippets,
        )
    }
}

impl IntoWidgets for VerticalListRendererItem {
    /// One row: the title with space below it, what is said of the video,
    /// and the video to play.
    open spec fn rows(self) -> Rows {
        Rows::row(
            spaced_text(self.video_renderer.title.line()),
            lines_detail(self.video_renderer.lines(), true),
            Node::Video(self.video_renderer.video_id),
        )
    }

    fn into_widgets(self, titles: &mut Vec<Label>, info: &mut Vec<(Detail, Node)>) -> (token:
        Option<String>) {
        let video = self.video_renderer;
        let ghost start = seq![
            video.owner_text.line(),
            blank_line(),
            video.short_view_count_text.line(),
        ];
        let mut lines = no_lines();
        push_line(&mut lines, video.owner_text.into_line());
        push_line(&mut lines, blank());
        push_line(&mut lines, video.short_view_count_text.into_line());
        assert(lines_text(lines@) =~= start);
        push_maybe_simple(&mut lines, video.published_time_text);
        push_maybe_label(&mut lines, video.length_text);
        push_maybe_badges(&mut lines, video.badges);
        push_maybe_owner_badges(&mut lines, video.owner_badges);
        let ghost before = lines_text(lines@);
        match video.detailed_metadata_snippets {
            Some(snippets) => {
                push_line(&mut lines, Line::empty());
                for snippet in it: snippets
                    invariant
                        it.seq() == snippets@,
                        lines_text(lines@) == before + seq![Seq::<SpanText>::empty()]
                            + snippet_lines(snippets@).take(it.index() as int),
                {
                    push_line(&mut lines, snippet.snippet_text.into_line());
                }
                assert(lines_text(lines@) =~= before + maybe_snippets(Some(snippets)));
            },
            None => {},
        }
        add_row(
            titles,
            info,
            Label::spaced(video.title.into_line()),
            Detail::lines(lines, true),
            Node::Video(video.video_id),
        );
        None
    }
}

pub struct VerticalListRenderer {
    pub items: Vec<VerticalListRendererItem>,
}

/// What a shelf holds.
pub enum ShelfRendererContent {
    Grid { grid_renderer: GridRenderer },
    ExpandedShelfContents { expanded_shelf_contents_renderer: ExpandedShelfContentsRenderer },
    VerticalList { vertical_list_renderer: VerticalListRenderer },
}

impl IntoWidgets for ShelfRendererContent {
    /// The rows of what the shelf holds. A grid ends at the first token,
    /// which it brings; a list brings none.
    open spec fn rows(self) -> Rows {
        match self {
            ShelfRendererContent::Grid { grid_renderer } => rows_to_token(grid_renderer.items@, 0),
            ShelfRendererContent::ExpandedShelfContents {
                expanded_shelf_contents_renderer,
            } => Rows::none().with(all_rows(expanded_shelf_contents_renderer.items@)),
            ShelfRendererContent::VerticalList { vertical_list_renderer } => Rows::none().with(
                all_rows(vertical_list_renderer.items@),
            ),
        }
    }

    fn into_widgets(self, titles: &mut Vec<Label>, info: &mut Vec<(Detail, Node)>) -> (token:
        Option<String>) {
        proof {
            lemma_adds_none(titles@, info@);
        }
        match self {
            ShelfRendererContent::Grid { grid_renderer } => add_to_token(
                grid_renderer.items,
                titles,
                info,
            ),
            ShelfRendererContent::ExpandedShelfContents { expanded_shelf_contents_renderer } => {
                let _ = add_all(expanded_shelf_contents_renderer.items, titles, info);
                proof {
                    lemma_adds_both(
                        old(titles)@,
                        old(info)@,
                        Rows::none(),
                        old(titles)@,
                        old(info)@,
                        all_rows(expanded_shelf_contents_renderer.items@),
                        titles@,
                        info@,
                    );
                }
                None
            },
            ShelfRendererContent::VerticalList { vertical_list_renderer } => {
                let _ = add_all(vertical_list_renderer.items, titles, info);
                proof {
                    lemma_adds_both(
                        old(titles)@,
                        old(info)@,
                        Rows::none(),
                        old(titles)@,
                        old(info)@,
                        all_rows(vertical_list_renderer.items@),
                        titles@,
                        info@,
                    );
                }
                None
            },
        }
    }
}

/// A shelf: a group of rows, which may have a heading.
pub struct ShelfRenderer {
    pub content: ShelfRendererContent,
    pub subtitle: Option<Text>,
    pub title: Option<Title>,
}

impl ShelfRenderer {
    /// The heading row of the shelf, if it has a title.
    pub open spec fn heading(self) -> Rows {
        match self.title {
            Some(title) => heading_row(title, self.subtitle),
            None => Rows::none(),
        }
    }
}

impl IntoWidgets for ShelfRenderer {
    /// The heading row, if the shelf has a title, and then the rows of
    /// what it holds, with their token.
    open spec fn rows(self) -> Rows {
        Rows { token: self.content.rows().token, ..self.heading().with(self.content.rows()) }
    }

    fn into_widgets(self, titles: &mut Vec<Label>, info: &mut Vec<(Detail, Node)>) -> (token:
        Option<String>) {
        match self.title {
            Some(title) => {
                add_heading(titles, info, title, self.subtitle);
            },
            None => {
                proof {
                    lemma_adds_none(titles@, info@);
                }
            },
        }
        let ghost titles1 = titles@;
        let ghost info1 = info@;
        let token = self.content.into_widgets(titles, info);
        proof {
            lemma_adds_both(
                old(titles)@,
                old(info)@,
                self.heading(),
                titles1,
                info1,
                self.content.rows(),
                titles@,
                info@,
            );
        }
        token
    }
}

pub struct WatchEndpoint {
    pub video_id: String,
}

pub struct CurrentVideoEndpoint {
    pub watch_endpoint: WatchEndpoint,
}

pub struct SubMenuItem {
    pub title: String,
    pub service_endpoint: ContinuationEndpoint,
}

pub struct SortFilterSubMenuRenderer {
    pub sub_menu_items: Vec<SubMenuItem>,
}

pub struct Menu {
    pub sort_filter_sub_menu_renderer: SortFilterSubMenuRenderer,
}

pub struct AppendContinuationItemsAction<T> {
    pub continuation_items: Vec<T>,
}

pub struct ContinueOnResponseReceivedAction<T> {
    pub append_continuation_items_action: AppendContinuationItemsAction<T>,
}

impl<T: IntoWidgets> IntoWidgets for ContinueOnResponseReceivedAction<T> {
    /// The rows of the items, and the last token that one of them brings.
    open spec fn rows(self) -> Rows {
        all_rows(self.append_continuation_items_action.continuation_items@)
    }

    fn into_widgets(self, titles: &mut Vec<Label>, info: &mut Vec<(Detail, Node)>) -> (token:
        Option<String>) {
        add_all(self.append_continuation_items_action.continuation_items, titles, info)
    }
}

} // verus!
