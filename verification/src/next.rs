//! What comes with a video: what it says of itself, its transcript, its
//! comments, the video that plays next, and what is recommended beside it.

use vstd::prelude::*;
use crate::comments::in_colour;
use crate::items::{
    details_text, empty_detail, int_to_colour, line_label, lines_detail, lines_text, no_lines,
    push_label, push_line, raw_label, raw_line, raw_span, spaced_text, titles_text, Detail, Label,
    Line, Node, Rows, Span, SpanText, Style,
};
use crate::renderers::{
    add_all, add_gap, add_row, adds, all_rows, blank, blank_line, gap_row, lemma_adds_both,
    lemma_adds_none, maybe_badges, maybe_label, maybe_owner_badges, maybe_simple,
    push_maybe_badges, push_maybe_label, push_maybe_owner_badges, push_maybe_simple,
    AccessibleText, Badge, CurrentVideoEndpoint, Endpoint, IntoWidgets, Menu,
    MetadataBadgeRendererOwner, MetadataBadgeRendererVideo, ShortViewCountText, SimpleText,
    SubMenuItem, Text,
};
use crate::text::{chars_of, split_lines, string_of_range, strings_text, sub_vec, text_lines};

verus! {

/// A video in the list of recommendations.
pub struct CompactVideoRenderer {
    pub badges: Option<Vec<Badge<MetadataBadgeRendererVideo>>>,
    /// A live stream has none.
    pub length_text: Option<AccessibleText>,
    pub long_byline_text: Text,
    pub owner_badges: Option<Vec<Badge<MetadataBadgeRendererOwner>>>,
    pub published_time_text: Option<SimpleText>,
    pub short_view_count_text: ShortViewCountText,
    pub title: SimpleText,
    pub video_id: String,
}

/// What the list of recommendations holds.
pub enum SecondaryResultsResult {
    CompactVideo { compact_video_renderer: CompactVideoRenderer },
    ContinuationItem { continuation_item_renderer: crate::renderers::ContinuationItemRenderer },
}

impl CompactVideoRenderer {
    /// What is said of the video: who put it up, how many have seen it,
    /// when it came out, how long it is, and its badges and those of its
    /// owner, as far as they are given.
    pub open spec fn lines(self) -> Seq<Seq<SpanText>> {
        seq![self.long_byline_text.line(), self.short_view_count_text.line()] + maybe_simple(
            self.published_time_text,
        ) + maybe_label(self.length_text) + maybe_badges(self.badges) + maybe_owner_badges(
            self.owner_badges,
        )
    }
}

impl IntoWidgets for CompactVideoRenderer {
    /// One row: the title with space below it, what is said of the video,
    /// and the video to play.
    open spec fn rows(self) -> Rows {
        Rows::row(
            spaced_text(raw_line(self.title.simple_text@)),
            lines_detail(self.lines(), false),
            Node::Video(self.video_id),
        )
    }

    fn into_widgets(self, titles: &mut Vec<Label>, info: &mut Vec<(Detail, Node)>) -> (token:
        Option<String>) {
        let ghost start = seq![self.long_byline_text.line(), self.short_view_count_text.line()];
        let mut lines = no_lines();
        push_line(&mut lines, self.long_byline_text.into_line());
        push_line(&mut lines, self.short_view_count_text.into_line());
        assert(lines_text(lines@) =~= start);
        push_maybe_simple(&mut lines, self.published_time_text);
        push_maybe_label(&mut lines, self.length_text);
        push_maybe_badges(&mut lines, self.badges);
        push_maybe_owner_badges(&mut lines, self.owner_badges);
        add_row(
            titles,
            info,
            Label::spaced(Line::raw(self.title.simple_text)),
            Detail::lines(lines, false),
            Node::Video(self.video_id),
        );
        None
    }
}

impl IntoWidgets for SecondaryResultsResult {
    /// The row of the video; or the token at the end of the list.
    open spec fn rows(self) -> Rows {
        match self {
            SecondaryResultsResult::CompactVideo {
                compact_video_renderer,
            } => compact_video_renderer.rows(),
            SecondaryResultsResult::ContinuationItem {
                continuation_item_renderer,
            } => continuation_item_renderer.rows(),
        }
    }

    fn into_widgets(self, titles: &mut Vec<Label>, info: &mut Vec<(Detail, Node)>) -> (token:
        Option<String>) {
        match self {
            SecondaryResultsResult::CompactVideo {
                compact_video_renderer,
            } => compact_video_renderer.into_widgets(titles, info),
            SecondaryResultsResult::ContinuationItem {
                continuation_item_renderer,
            } => continuation_item_renderer.into_widgets(titles, info),
        }
    }
}

pub struct SecondaryResultsInner {
    pub results: Vec<SecondaryResultsResult>,
}

pub struct SecondaryResultsOuter {
    pub secondary_results: SecondaryResultsInner,
}

pub struct TwoColumnWatchNextResults {
    pub secondary_results: SecondaryResultsOuter,
}

pub struct NextResponseContents {
    pub two_column_watch_next_results: TwoColumnWatchNextResults,
}

pub struct FactoidRenderer {
    pub accessibility_text: String,
}

pub struct Factoid {
    pub factoid_renderer: FactoidRenderer,
}

/// The head of what a video says of itself.
pub struct VideoDescriptionHeaderRenderer {
    pub title: Text,
    pub channel: SimpleText,
    pub factoid: Vec<Factoid>,
    pub channel_navigation_endpoint: Endpoint,
}

/// A stretch of a text that is drawn in a colour of its own.
#[derive(Clone, Copy)]
pub struct StyleRun {
    /// Where the stretch starts, counted in characters.
    pub start_index: usize,
    pub length: usize,
    /// The highest byte is the opacity, the other three are red, green
    /// and blue.
    pub font_color: u32,
}

pub struct AttributedDescriptionBodyText {
    pub content: String,
    pub style_runs: Vec<StyleRun>,
}

/// The body of what a video says of itself.
pub struct ExpandableVideoDescriptionBodyRenderer {
    pub attributed_description_body_text: AttributedDescriptionBodyText,
}

/// The lines of facts, one each.
pub open spec fn factoid_lines(facts: Seq<Factoid>) -> Seq<Seq<SpanText>> {
    Seq::new(facts.len(), |i: int| raw_line(facts[i].factoid_renderer.accessibility_text@))
}

impl VideoDescriptionHeaderRenderer {
    /// The name of the channel and then the facts, a line each.
    pub open spec fn lines(self) -> Seq<Seq<SpanText>> {
        seq![raw_line(self.channel.simple_text@)] + factoid_lines(self.factoid@)
    }
}

/// How far a text has been laid out in lines.
pub struct Flow {
    /// The lines that are full.
    pub lines: Seq<Seq<SpanText>>,
    /// The line that is being filled.
    pub current: Seq<SpanText>,
    /// Where the last stretch ended, by its own count.
    pub index: int,
    /// How many characters of the text are used up.
    pub pos: int,
}

/// The place `by` characters behind `pos`, or the end of a text of `len`
/// characters if that comes first.
pub open spec fn reach(pos: int, by: int, len: int) -> int {
    if by >= len - pos {
        len
    } else {
        pos + by
    }
}

/// The full lines and the current line after the first `upto` lines of
/// `section` are put behind them: the first goes on the current line, and
/// each further one starts a line of its own.
pub open spec fn poured(
    lines: Seq<Seq<SpanText>>,
    current: Seq<SpanText>,
    section: Seq<Seq<char>>,
    upto: int,
) -> (Seq<Seq<SpanText>>, Seq<SpanText>)
    decreases upto,
{
    if upto <= 0 {
        (lines, current)
    } else {
        let before = poured(lines, current, section, upto - 1);
        if upto == 1 {
            (before.0, before.1.push(raw_span(section[0])))
        } else {
            (before.0.push(before.1), raw_line(section[upto - 1]))
        }
    }
}

/// The layout after one more coloured stretch. The text between the last
/// stretch and this one is laid out line by line in the plain style; the
/// stretch itself goes on the current line in its colour.
pub open spec fn flow_step(content: Seq<char>, flow: Flow, run: StyleRun) -> Flow {
    let gap = if run.start_index >= flow.index {
        run.start_index - flow.index
    } else {
        0
    };
    let from = reach(flow.pos, gap, content.len() as int);
    let section = text_lines(content.subrange(flow.pos, from));
    let laid = poured(flow.lines, flow.current, section, section.len() as int);
    let to = reach(from, run.length as int, content.len() as int);
    Flow {
        lines: laid.0,
        current: laid.1.push(
            SpanText { content: content.subrange(from, to), style: in_colour(run.font_color) },
        ),
        index: if run.start_index + run.length <= usize::MAX {
            run.start_index + run.length
        } else {
            usize::MAX as int
        },
        pos: to,
    }
}

/// The layout after the first `upto` coloured stretches.
pub open spec fn flowed(content: Seq<char>, runs: Seq<StyleRun>, upto: int) -> Flow
    decreases upto,
{
    if upto <= 0 {
        Flow { lines: Seq::empty(), current: Seq::empty(), index: 0, pos: 0 }
    } else {
        flow_step(content, flowed(content, runs, upto - 1), runs[upto - 1])
    }
}

impl AttributedDescriptionBodyText {
    /// The lines of the text up to the end of its last coloured stretch.
    pub open spec fn lines(self) -> Seq<Seq<SpanText>> {
        let flow = flowed(self.content@, self.style_runs@, self.style_runs@.len() as int);
        flow.lines.push(flow.current)
    }

    /// Adds the lines of the text to `lines`.
    pub fn add_lines(self, lines: &mut Vec<Line>)
        ensures
            lines_text(final(lines)@) == lines_text(old(lines)@) + self.lines(),
    {
        let chars = chars_of(self.content.as_str());
        let len = chars.len();
        let ghost base = lines_text(lines@);
        let ghost runs = self.style_runs@;
        let mut current = Line::empty();
        let mut index: usize = 0;
        let mut pos: usize = 0;
        for run in it: self.style_runs
            invariant
                it.seq() == runs,
                chars@ == self.content@,
                len == chars.len(),
                pos <= len,
                lines_text(lines@) == base + flowed(chars@, runs, it.index() as int).lines,
                current@ == flowed(chars@, runs, it.index() as int).current,
                index == flowed(chars@, runs, it.index() as int).index,
                pos == flowed(chars@, runs, it.index() as int).pos,
        {
            let ghost flow = flowed(chars@, runs, it.index() as int);
            let gap = if run.start_index >= index {
                run.start_index - index
            } else {
                0
            };
            let from = if gap >= len - pos {
                len
            } else {
                pos + gap
            };
            let section = split_lines(&sub_vec(&chars, pos, from));
            let ghost section_text = text_lines(chars@.subrange(pos as int, from as int));
            let mut first = true;
            for line in lines_it: section
                invariant
                    lines_it.seq() == section@,
                    strings_text(section@) == section_text,
                    first == (lines_it.index() == 0),
                    lines_text(lines@) == base + poured(
                        flow.lines,
                        flow.current,
                        section_text,
                        lines_it.index() as int,
                    ).0,
                    current@ == poured(
                        flow.lines,
                        flow.current,
                        section_text,
                        lines_it.index() as int,
                    ).1,
            {
                if first {
                    current.push(Span::raw(line));
                    first = false;
                } else {
                    push_line(lines, current);
                    current = Line::raw(line);
                }
            }
            let to = if run.length >= len - from {
                len
            } else {
                from + run.length
            };
            current.push(
                Span {
                    content: string_of_range(&chars, from, to),
                    style: Style::coloured(Some(int_to_colour(run.font_color)), None),
                },
            );
            index = if run.length <= usize::MAX - run.start_index {
                run.start_index + run.length
            } else {
                usize::MAX
            };
            pos = to;
        }
        push_line(lines, current);
    }
}

/// A part of what a video says of itself.
pub enum StructuredDescriptionContentItem {
    VideoDescriptionHeader { video_description_header_renderer: VideoDescriptionHeaderRenderer },
    ExpandableVideoDescriptionBody {
        expandable_video_description_body_renderer: ExpandableVideoDescriptionBodyRenderer,
    },
}

impl StructuredDescriptionContentItem {
    /// The title that this part brings: a head brings the title of the
    /// video, with space below it.
    pub open spec fn titles(self) -> Seq<crate::items::LabelText> {
        match self {
            StructuredDescriptionContentItem::VideoDescriptionHeader {
                video_description_header_renderer,
            } => seq![spaced_text(video_description_header_renderer.title.line())],
            StructuredDescriptionContentItem::ExpandableVideoDescriptionBody { .. } => Seq::empty(),
        }
    }

    /// The lines that this part brings.
    pub open spec fn lines(self) -> Seq<Seq<SpanText>> {
        match self {
            StructuredDescriptionContentItem::VideoDescriptionHeader {
                video_description_header_renderer,
            } => video_description_header_renderer.lines(),
            StructuredDescriptionContentItem::ExpandableVideoDescriptionBody {
                expandable_video_description_body_renderer,
            } => expandable_video_description_body_renderer.attributed_description_body_text.lines(),
        }
    }

    /// Adds the title that this part brings to `titles` and its lines to
    /// `lines`.
    pub fn add(self, titles: &mut Vec<Label>, lines: &mut Vec<Line>)
        ensures
            titles_text(final(titles)@) == titles_text(old(titles)@) + self.titles(),
            lines_text(final(lines)@) == lines_text(old(lines)@) + self.lines(),
    {
        match self {
            StructuredDescriptionContentItem::VideoDescriptionHeader {
                video_description_header_renderer,
            } => {
                let head = video_description_header_renderer;
                let ghost base = lines_text(lines@);
                let ghost facts = head.factoid@;
                push_label(titles, Label::spaced(head.title.into_line()));
                push_line(lines, Line::raw(head.channel.simple_text));
                for fact in it: head.factoid
                    invariant
                        it.seq() == facts,
                        lines_text(lines@) == base + seq![raw_line(head.channel.simple_text@)]
                            + factoid_lines(facts).take(it.index() as int),
                {
                    push_line(lines, Line::raw(fact.factoid_renderer.accessibility_text));
                }
            },
            StructuredDescriptionContentItem::ExpandableVideoDescriptionBody {
                expandable_video_description_body_renderer,
            } => {
                expandable_video_description_body_renderer.attributed_description_body_text.add_lines(
                    lines,
                );
            },
        }
    }
}

pub struct StructuredDescriptionContentRenderer {
    pub items: Vec<StructuredDescriptionContentItem>,
}

pub struct StructuredDescriptionContent {
    pub structured_description_content_renderer: StructuredDescriptionContentRenderer,
}

/// The titles that the parts bring, in order.
pub open spec fn description_titles(items: Seq<StructuredDescriptionContentItem>) -> Seq<
    crate::items::LabelText,
>
    decreases items.len(),
{
    if items.len() == 0 {
        Seq::empty()
    } else {
        description_titles(items.drop_last()) + items.last().titles()
    }
}

/// The lines that the parts bring, in order.
pub open spec fn description_lines(items: Seq<StructuredDescriptionContentItem>) -> Seq<
    Seq<SpanText>,
>
    decreases items.len(),
{
    if items.len() == 0 {
        Seq::empty()
    } else {
        description_lines(items.drop_last()) + items.last().lines()
    }
}

impl StructuredDescriptionContent {
    /// What a video says of itself: the titles that its parts bring, and
    /// one detail of all their lines, which plays the video `video_id`.
    pub open spec fn rows(self, video_id: String) -> Rows {
        Rows {
            titles: description_titles(self.structured_description_content_renderer.items@),
            details: seq![
                (
                    lines_detail(
                        description_lines(self.structured_description_content_renderer.items@),
                        true,
                    ),
                    Node::Video(video_id),
                ),
            ],
            token: None,
        }
    }

    /// Adds what the video `video_id` says of itself.
    pub fn add(self, video_id: String, titles: &mut Vec<Label>, info: &mut Vec<(Detail, Node)>)
        ensures
            adds(old(titles)@, old(info)@, self.rows(video_id), final(titles)@, final(info)@),
    {
        let ghost items = self.structured_description_content_renderer.items@;
        let mut lines = no_lines();
        for item in it: self.structured_description_content_renderer.items
            invariant
                it.seq() == items,
                titles_text(titles@) == titles_text(old(titles)@) + description_titles(
                    items.take(it.index() as int),
                ),
                lines_text(lines@) == description_lines(items.take(it.index() as int)),
        {
            item.add(titles, &mut lines);
            proof {
                assert(items.take(it.index() + 1).drop_last() =~= items.take(it.index() as int));
            }
        }
        assert(items.take(items.len() as int) =~= items);
        let ghost expected = self.rows(video_id).details;
        let detail = Detail::lines(lines, true);
        crate::items::push_detail(info, detail, Node::Video(video_id));
        assert(details_text(info@) =~= details_text(old(info)@) + expected);
    }
}

pub struct EngagementPanelTitleHeaderRenderer {
    pub contextual_info: Text,
    pub menu: Menu,
}

pub struct CommentsSectionHeader {
    pub engagement_panel_title_header_renderer: EngagementPanelTitleHeaderRenderer,
}

pub struct GetTranscriptEndpoint {
    pub params: String,
}

pub struct ContinuationItemRendererContinuationEndpoint {
    pub get_transcript_endpoint: GetTranscriptEndpoint,
}

pub struct ContinuationItemRenderer {
    pub continuation_endpoint: ContinuationItemRendererContinuationEndpoint,
}

pub struct SearchableTranscriptContent {
    pub continuation_item_renderer: ContinuationItemRenderer,
}

impl IntoWidgets for SubMenuItem {
    /// One row: a way to sort the comments, which opens them sorted so.
    open spec fn rows(self) -> Rows {
        Rows::row(
            raw_label(self.title@),
            empty_detail(),
            Node::CommentSection(self.service_endpoint.continuation_command.token),
        )
    }

    fn into_widgets(self, titles: &mut Vec<Label>, info: &mut Vec<(Detail, Node)>) -> (token:
        Option<String>) {
        add_row(
            titles,
            info,
            Label::raw(self.title),
            Detail::empty(),
            Node::CommentSection(self.service_endpoint.continuation_command.token),
        );
        None
    }
}

impl IntoWidgets for CommentsSectionHeader {
    /// A row that counts the comments, and a row for each way to sort
    /// them.
    open spec fn rows(self) -> Rows {
        let header = self.engagement_panel_title_header_renderer;
        Rows::row(
            line_label(header.contextual_info.line().push(raw_span(" Comments"@))),
            empty_detail(),
            Node::Nothing,
        ).with(all_rows(header.menu.sort_filter_sub_menu_renderer.sub_menu_items@))
    }

    fn into_widgets(self, titles: &mut Vec<Label>, info: &mut Vec<(Detail, Node)>) -> (token:
        Option<String>) {
        let header = self.engagement_panel_title_header_renderer;
        let ghost head = Rows::row(
            line_label(header.contextual_info.line().push(raw_span(" Comments"@))),
            empty_detail(),
            Node::Nothing,
        );
        let mut title = header.contextual_info.into_line();
        title.push(Span::raw(" Comments".to_owned()));
        add_row(titles, info, Label::line(title), Detail::empty(), Node::Nothing);
        let ghost titles1 = titles@;
        let ghost info1 = info@;
        let _ = add_all(header.menu.sort_filter_sub_menu_renderer.sub_menu_items, titles, info);
        proof {
            lemma_adds_both(
                old(titles)@,
                old(info)@,
                head,
                titles1,
                info1,
                all_rows(header.menu.sort_filter_sub_menu_renderer.sub_menu_items@),
                titles@,
                info@,
            );
        }
        None
    }
}

/// A panel beside a video.
#[allow(inconsistent_fields)]
pub enum EngagementPanelSectionListRenderer {
    /// What the video says of itself.
    StructuredDescription { content: StructuredDescriptionContent },
    /// The comments and the ways to sort them.
    CommentsSection { header: CommentsSectionHeader },
    /// The transcript.
    SearchableTranscript { content: SearchableTranscriptContent },
    /// Advertising, which is left out.
    Ads {  },
}

pub struct EngagementPanel {
    pub engagement_panel_section_list_renderer: EngagementPanelSectionListRenderer,
}

impl EngagementPanel {
    /// The rows of a panel beside the video `video_id`.
    pub open spec fn rows(self, video_id: String) -> Rows {
        match self.engagement_panel_section_list_renderer {
            EngagementPanelSectionListRenderer::StructuredDescription { content } => content.rows(
                video_id,
            ),
            EngagementPanelSectionListRenderer::CommentsSection { header } => header.rows(),
            EngagementPanelSectionListRenderer::SearchableTranscript { content } => Rows::row(
                raw_label("Transcript"@),
                empty_detail(),
                Node::Transcript(
                    content.continuation_item_renderer.continuation_endpoint.get_transcript_endpoint.params,
                ),
            ),
            EngagementPanelSectionListRenderer::Ads {  } => Rows::none(),
        }
    }

    /// Adds the rows of a panel beside the video `video_id`.
    pub fn add(self, video_id: &String, titles: &mut Vec<Label>, info: &mut Vec<(Detail, Node)>)
        ensures
            adds(old(titles)@, old(info)@, self.rows(*video_id), final(titles)@, final(info)@),
    {
        match self.engagement_panel_section_list_renderer {
            EngagementPanelSectionListRenderer::StructuredDescription { content } => {
                content.add(video_id.clone(), titles, info);
            },
            EngagementPanelSectionListRenderer::CommentsSection { header } => {
                let _ = header.into_widgets(titles, info);
            },
            EngagementPanelSectionListRenderer::SearchableTranscript { content } => {
                add_row(
                    titles,
                    info,
                    Label::raw("Transcript".to_owned()),
                    Detail::empty(),
                    Node::Transcript(
                        content.continuation_item_renderer.continuation_endpoint
                            .get_transcript_endpoint.params,
                    ),
                );
            },
            EngagementPanelSectionListRenderer::Ads {  } => {
                proof {
                    lemma_adds_none(titles@, info@);
                }
            },
        }
    }
}

/// The rows of the panels beside the video `video_id`, in order.
pub open spec fn panel_rows(panels: Seq<EngagementPanel>, video_id: String) -> Rows
    decreases panels.len(),
{
    if panels.len() == 0 {
        Rows::none()
    } else {
        panel_rows(panels.drop_last(), video_id).with(panels.last().rows(video_id))
    }
}

pub struct ThumbnailOverlayTimeStatusRenderer {
    pub text: AccessibleText,
}

pub struct ThumbnailOverlay {
    pub thumbnail_overlay_time_status_renderer: ThumbnailOverlayTimeStatusRenderer,
}

/// The video that plays next.
pub struct PlayerOverlayAutoplayRenderer {
    pub video_title: SimpleText,
    pub byline: Text,
    pub thumbnail_overlays: Vec<ThumbnailOverlay>,
    pub video_id: String,
    pub published_time_text: SimpleText,
    pub short_view_count_text: AccessibleText,
}

pub struct Autoplay {
    pub player_overlay_autoplay_renderer: PlayerOverlayAutoplayRenderer,
}

pub struct PlayerOverlayRenderer {
    pub autoplay: Autoplay,
}

pub struct PlayerOverlays {
    pub player_overlay_renderer: PlayerOverlayRenderer,
}

/// The lines of overlays, one each: how long the video is.
pub open spec fn overlay_lines(overlays: Seq<ThumbnailOverlay>) -> Seq<Seq<SpanText>> {
    Seq::new(
        overlays.len(),
        |i: int| raw_line(overlays[i].thumbnail_overlay_time_status_renderer.text.label()),
    )
}

impl PlayerOverlayAutoplayRenderer {
    /// What is said of the video: its title, who put it up, when it came
    /// out, how many have seen it, and how long it is.
    pub open spec fn lines(self) -> Seq<Seq<SpanText>> {
        seq![
            raw_line(self.video_title.simple_text@),
            blank_line(),
            self.byline.line(),
            raw_line(self.published_time_text.simple_text@),
            raw_line(self.short_view_count_text.label()),
        ] + overlay_lines(self.thumbnail_overlays@)
    }
}

impl IntoWidgets for PlayerOverlayAutoplayRenderer {
    /// One row, headed `Autoplay video`: what is said of the video, and
    /// the video to play.
    open spec fn rows(self) -> Rows {
        Rows::row(
            spaced_text(raw_line("Autoplay video"@)),
            lines_detail(self.lines(), false),
            Node::Video(self.video_id),
        )
    }

    fn into_widgets(self, titles: &mut Vec<Label>, info: &mut Vec<(Detail, Node)>) -> (token:
        Option<String>) {
        let ghost start = seq![
            raw_line(self.video_title.simple_text@),
            blank_line(),
            self.byline.line(),
            raw_line(self.published_time_text.simple_text@),
            raw_line(self.short_view_count_text.label()),
        ];
        let ghost overlays = self.thumbnail_overlays@;
        let mut lines = no_lines();
        push_line(&mut lines, Line::raw(self.video_title.simple_text));
        push_line(&mut lines, blank());
        push_line(&mut lines, self.byline.into_line());
        push_line(&mut lines, Line::raw(self.published_time_text.simple_text));
        push_line(&mut lines, Line::raw(self.short_view_count_text.into_label()));
        for overlay in it: self.thumbnail_overlays
            invariant
                it.seq() == overlays,
                lines_text(lines@) == start + overlay_lines(overlays).take(it.index() as int),
        {
            push_line(
                &mut lines,
                Line::raw(overlay.thumbnail_overlay_time_status_renderer.text.into_label()),
            );
        }
        assert(overlay_lines(overlays).take(overlays.len() as int) =~= overlay_lines(overlays));
        add_row(
            titles,
            info,
            Label::spaced(Line::raw("Autoplay video".to_owned())),
            Detail::lines(lines, false),
            Node::Video(self.video_id),
        );
        None
    }
}

/// The answer to the request for what comes with a video.
pub struct NextResponse {
    pub contents: NextResponseContents,
    pub current_video_endpoint: CurrentVideoEndpoint,
    pub engagement_panels: Vec<EngagementPanel>,
    pub player_overlays: PlayerOverlays,
}

impl NextResponse {
    /// The rows of the panels, a row that parts them from the rest, the
    /// video that plays next, and what is recommended, with the last token
    /// among the recommendations.
    pub open spec fn rows(self) -> Rows {
        panel_rows(self.engagement_panels@, self.current_video_endpoint.watch_endpoint.video_id).with(
            gap_row(),
        ).with(
            self.player_overlays.player_overlay_renderer.autoplay.player_overlay_autoplay_renderer.rows(),
        ).with_latest(
            all_rows(
                self.contents.two_column_watch_next_results.secondary_results.secondary_results.results@,
            ),
        )
    }

    /// The rows of what comes with the video, and the token for more
    /// recommendations.
    pub fn into_widgets(self) -> (r: (Vec<Label>, Vec<(Detail, Node)>, Option<String>))
        ensures
            titles_text(r.0@) == self.rows().titles,
            details_text(r.1@) == self.rows().details,
            r.2 == self.rows().token,
    {
        let mut titles: Vec<Label> = Vec::new();
        let mut info: Vec<(Detail, Node)> = Vec::new();
        let ghost nothing = Seq::<Label>::empty();
        let ghost no_info = Seq::<(Detail, Node)>::empty();
        let ghost panels = self.engagement_panels@;
        let video_id = self.current_video_endpoint.watch_endpoint.video_id;
        proof {
            lemma_adds_none(titles@, info@);
        }
        for panel in it: self.engagement_panels
            invariant
                it.seq() == panels,
                adds(
                    nothing,
                    no_info,
                    panel_rows(panels.take(it.index() as int), video_id),
                    titles@,
                    info@,
                ),
        {
            let ghost titles_before = titles@;
            let ghost info_before = info@;
            panel.add(&video_id, &mut titles, &mut info);
            proof {
                assert(panels.take(it.index() + 1).drop_last() =~= panels.take(it.index() as int));
                lemma_adds_both(
                    nothing,
                    no_info,
                    panel_rows(panels.take(it.index() as int), video_id),
                    titles_before,
                    info_before,
                    panel.rows(video_id),
                    titles@,
                    info@,
                );
            }
        }
        assert(panels.take(panels.len() as int) =~= panels);
        let ghost first = panel_rows(panels, video_id);
        let ghost titles1 = titles@;
        let ghost info1 = info@;
        add_gap(&mut titles, &mut info);
        let ghost titles2 = titles@;
        let ghost info2 = info@;
        let next = self.player_overlays.player_overlay_renderer.autoplay.player_overlay_autoplay_renderer;
        let _ = next.into_widgets(&mut titles, &mut info);
        let ghost titles3 = titles@;
        let ghost info3 = info@;
        let results =
            self.contents.two_column_watch_next_results.secondary_results.secondary_results.results;
        let token = add_all(results, &mut titles, &mut info);
        proof {
            lemma_adds_both(nothing, no_info, first, titles1, info1, gap_row(), titles2, info2);
            lemma_adds_both(
                nothing,
                no_info,
                first.with(gap_row()),
                titles2,
                info2,
                next.rows(),
                titles3,
                info3,
            );
            lemma_adds_both(
                nothing,
                no_info,
                first.with(gap_row()).with(next.rows()),
                titles3,
                info3,
                all_rows(results@),
                titles@,
                info@,
            );
        }
        (titles, info, token)
    }
}

} // verus!
