//! The results of a search.

use vstd::prelude::*;
use vstd::string::StringExecFns;
use crate::comments::{int_to_maybe_colour, maybe_colour};
use crate::items::{
    colour_of, details_text, empty_detail, int_to_colour, line_label, lines_detail, lines_text,
    no_lines, push_line, raw_detail, raw_label, raw_line, raw_span, spaced_text, titles_text,
    underlined_label, Detail, DetailText, Label, LabelText, Line, Node, Rows, Span, SpanText,
    Style,
};
use crate::renderers::{
    add_all, add_gap, add_row, adds, all_rows, blank, blank_line, gap_row, lemma_adds_both,
    lemma_adds_none, AccessibleText, Color, ContinuationItemRenderer,
    ContinueOnResponseReceivedAction, CurrentVideoEndpoint, Endpoint, HorizontalCardListRenderer,
    IntoWidgets, ReelShelfRenderer, SearchFilterRendererNavigationEndpoint, ShelfRenderer,
    SimpleText, Text, VerticalListRendererItem,
};
use crate::text::same_text;

verus! {

/// The query that was probably meant.
pub struct DidYouMeanRenderer {
    pub corrected_query: Text,
    pub corrected_query_endpoint: SearchFilterRendererNavigationEndpoint,
}

pub struct ChannelRenderer {
    pub channel_id: String,
    pub title: SimpleText,
    pub description_snippet: Text,
}

pub struct ChildVideoRenderer {
    pub title: SimpleText,
    pub length_text: AccessibleText,
    pub video_id: String,
}

/// A video of a playlist.
pub struct Video {
    pub child_video_renderer: ChildVideoRenderer,
}

pub struct PlaylistRenderer {
    pub playlist_id: String,
    pub title: SimpleText,
    pub videos: Vec<Video>,
    pub thumbnail_text: Text,
    pub long_byline_text: Text,
}

/// What is shown where nothing was found.
pub struct BackgroundPromoRenderer {
    pub title: Text,
    pub body_text: Text,
}

/// Advertising, which is left out.
pub struct AdSlotRenderer {}

impl IntoWidgets for DidYouMeanRenderer {
    /// One row: `Did you mean: ` and the query, which opens the search
    /// for it.
    open spec fn rows(self) -> Rows {
        Rows::row(
            line_label(seq![raw_span("Did you mean: "@)] + self.corrected_query.line()),
            empty_detail(),
            Node::Search(
                self.corrected_query_endpoint.search_endpoint.query,
                self.corrected_query_endpoint.search_endpoint.params,
            ),
        )
    }

    fn into_widgets(self, titles: &mut Vec<Label>, info: &mut Vec<(Detail, Node)>) -> (token:
        Option<String>) {
        let ghost query = self.corrected_query.line();
        let mut title = self.corrected_query.into_line();
        title.spans.insert(0, Span::raw("Did you mean: ".to_owned()));
        assert(title@ =~= seq![raw_span("Did you mean: "@)] + query);
        add_row(
            titles,
            info,
            Label::line(title),
            Detail::empty(),
            Node::Search(
                self.corrected_query_endpoint.search_endpoint.query,
                self.corrected_query_endpoint.search_endpoint.params,
            ),
        );
        None
    }
}

impl IntoWidgets for ChannelRenderer {
    /// One row: the name of the channel with space below it, what it is
    /// about, and the channel to open.
    open spec fn rows(self) -> Rows {
        Rows::row(
            spaced_text(raw_line(self.title.simple_text@)),
            lines_detail(seq![self.description_snippet.line()], true),
            Node::Channel(self.channel_id, None),
        )
    }

    fn into_widgets(self, titles: &mut Vec<Label>, info: &mut Vec<(Detail, Node)>) -> (token:
        Option<String>) {
        add_row(
            titles,
            info,
            Label::spaced(Line::raw(self.title.simple_text)),
            Detail::line(self.description_snippet.into_line(), true),
            Node::Channel(self.channel_id, None),
        );
        None
    }
}

impl IntoWidgets for Video {
    /// One row: the title, the length, and the video to play.
    open spec fn rows(self) -> Rows {
        Rows::row(
            raw_label(self.child_video_renderer.title.simple_text@),
            raw_detail(self.child_video_renderer.length_text.label(), true),
            Node::Video(self.child_video_renderer.video_id),
        )
    }

    fn into_widgets(self, titles: &mut Vec<Label>, info: &mut Vec<(Detail, Node)>) -> (token:
        Option<String>) {
        add_row(
            titles,
            info,
            Label::raw(self.child_video_renderer.title.simple_text),
            Detail::raw(self.child_video_renderer.length_text.into_label(), true),
            Node::Video(self.child_video_renderer.video_id),
        );
        None
    }
}

impl PlaylistRenderer {
    /// The row of the playlist itself: its title with space below it, who
    /// made it and how much it holds, and the playlist to open.
    pub open spec fn head(self) -> Rows {
        Rows::row(
            spaced_text(raw_line(self.title.simple_text@)),
            lines_detail(seq![self.long_byline_text.line(), self.thumbnail_text.line()], true),
            Node::Playlist(self.playlist_id),
        )
    }
}

impl IntoWidgets for PlaylistRenderer {
    /// The row of the playlist, a row for each of its first videos, and a
    /// row that parts it from what follows.
    open spec fn rows(self) -> Rows {
        self.head().with(all_rows(self.videos@)).with(gap_row())
    }

    fn into_widgets(self, titles: &mut Vec<Label>, info: &mut Vec<(Detail, Node)>) -> (token:
        Option<String>) {
        let ghost head = self.head();
        let mut lines = no_lines();
        push_line(&mut lines, self.long_byline_text.into_line());
        push_line(&mut lines, self.thumbnail_text.into_line());
        assert(lines_text(lines@) =~= seq![
            self.long_byline_text.line(),
            self.thumbnail_text.line(),
        ]);
        add_row(
            titles,
            info,
            Label::spaced(Line::raw(self.title.simple_text)),
            Detail::lines(lines, true),
            Node::Playlist(self.playlist_id),
        );
        let ghost titles1 = titles@;
        let ghost info1 = info@;
        let _ = add_all(self.videos, titles, info);
        let ghost titles2 = titles@;
        let ghost info2 = info@;
        add_gap(titles, info);
        proof {
            lemma_adds_both(
                old(titles)@,
                old(info)@,
                head,
                titles1,
                info1,
                all_rows(self.videos@),
                titles2,
                info2,
            );
            lemma_adds_both(
                old(titles)@,
                old(info)@,
                head.with(all_rows(self.videos@)),
                titles2,
                info2,
                gap_row(),
                titles@,
                info@,
            );
        }
        None
    }
}

impl IntoWidgets for BackgroundPromoRenderer {
    /// One row: the title, with the text below it as its detail. It leads
    /// nowhere.
    open spec fn rows(self) -> Rows {
        Rows::row(
            line_label(self.title.line()),
            lines_detail(seq![self.body_text.line()], true),
            Node::Nothing,
        )
    }

    fn into_widgets(self, titles: &mut Vec<Label>, info: &mut Vec<(Detail, Node)>) -> (token:
        Option<String>) {
        add_row(
            titles,
            info,
            Label::line(self.title.into_line()),
            Detail::line(self.body_text.into_line(), true),
            Node::Nothing,
        );
        None
    }
}

/// One result of a search.
pub enum SectionListRendererContentItemSectionRendererContent {
    DidYouMean { did_you_mean_renderer: DidYouMeanRenderer },
    Channel { channel_renderer: ChannelRenderer },
    Video(VerticalListRendererItem),
    ReelShelf { reel_shelf_renderer: ReelShelfRenderer },
    Shelf { shelf_renderer: ShelfRenderer },
    Playlist { playlist_renderer: PlaylistRenderer },
    HorizontalCardList { horizontal_card_list_renderer: HorizontalCardListRenderer },
    BackgroundPromo { background_promo_renderer: BackgroundPromoRenderer },
    /// Advertising, which is left out.
    AdSlot { ad_slot_renderer: AdSlotRenderer },
}

impl SectionListRendererContentItemSectionRendererContent {
    /// The rows of the result; none for advertising.
    pub open spec fn inner(self) -> Rows {
        match self {
            SectionListRendererContentItemSectionRendererContent::DidYouMean {
                did_you_mean_renderer,
            } => did_you_mean_renderer.rows(),
            SectionListRendererContentItemSectionRendererContent::Channel {
                channel_renderer,
            } => channel_renderer.rows(),
            SectionListRendererContentItemSectionRendererContent::Video(item) => item.rows(),
            SectionListRendererContentItemSectionRendererContent::ReelShelf {
                reel_shelf_renderer,
            } => reel_shelf_renderer.rows(),
            SectionListRendererContentItemSectionRendererContent::Shelf {
                shelf_renderer,
            } => shelf_renderer.rows(),
            SectionListRendererContentItemSectionRendererContent::Playlist {
                playlist_renderer,
            } => playlist_renderer.rows(),
            SectionListRendererContentItemSectionRendererContent::HorizontalCardList {
                horizontal_card_list_renderer,
            } => horizontal_card_list_renderer.rows(),
            SectionListRendererContentItemSectionRendererContent::BackgroundPromo {
                background_promo_renderer,
            } => background_promo_renderer.rows(),
            SectionListRendererContentItemSectionRendererContent::AdSlot { .. } => Rows::none(),
        }
    }
}

impl IntoWidgets for SectionListRendererContentItemSectionRendererContent {
    /// The rows of the result, without any token.
    open spec fn rows(self) -> Rows {
        Rows::none().with(self.inner())
    }

    fn into_widgets(self, titles: &mut Vec<Label>, info: &mut Vec<(Detail, Node)>) -> (token:
        Option<String>) {
        proof {
            lemma_adds_none(titles@, info@);
        }
        let ghost inner = self.inner();
        let _ = match self {
            SectionListRendererContentItemSectionRendererContent::DidYouMean {
                did_you_mean_renderer,
            } => did_you_mean_renderer.into_widgets(titles, info),
            SectionListRendererContentItemSectionRendererContent::Channel {
                channel_renderer,
            } => channel_renderer.into_widgets(titles, info),
            SectionListRendererContentItemSectionRendererContent::Video(item) => item.into_widgets(
                titles,
                info,
            ),
            SectionListRendererContentItemSectionRendererContent::ReelShelf {
                reel_shelf_renderer,
            } => reel_shelf_renderer.into_widgets(titles, info),
            SectionListRendererContentItemSectionRendererContent::Shelf {
                shelf_renderer,
            } => shelf_renderer.into_widgets(titles, info),
            SectionListRendererContentItemSectionRendererContent::Playlist {
                playlist_renderer,
            } => playlist_renderer.into_widgets(titles, info),
            SectionListRendererContentItemSectionRendererContent::HorizontalCardList {
                horizontal_card_list_renderer,
            } => horizontal_card_list_renderer.into_widgets(titles, info),
            SectionListRendererContentItemSectionRendererContent::BackgroundPromo {
                background_promo_renderer,
            } => background_promo_renderer.into_widgets(titles, info),
            SectionListRendererContentItemSectionRendererContent::AdSlot { .. } => None,
        };
        proof {
            lemma_adds_both(
                old(titles)@,
                old(info)@,
                Rows::none(),
                old(titles)@,
                old(info)@,
                inner,
                titles@,
                info@,
            );
        }
        None
    }
}

/// A group of results.
pub struct SectionListRendererContentItemSectionRenderer {
    pub contents: Vec<SectionListRendererContentItemSectionRendererContent>,
}

impl IntoWidgets for SectionListRendererContentItemSectionRenderer {
    /// The rows of the results, in order, without any token.
    open spec fn rows(self) -> Rows {
        Rows::none().with(all_rows(self.contents@))
    }

    fn into_widgets(self, titles: &mut Vec<Label>, info: &mut Vec<(Detail, Node)>) -> (token:
        Option<String>) {
        proof {
            lemma_adds_none(titles@, info@);
        }
        let _ = add_all(self.contents, titles, info);
        proof {
            lemma_adds_both(
                old(titles)@,
                old(info)@,
                Rows::none(),
                old(titles)@,
                old(info)@,
                all_rows(self.contents@),
                titles@,
                info@,
            );
        }
        None
    }
}

/// What the list of results holds.
pub enum SectionListRendererContent {
    ItemSection { item_section_renderer: SectionListRendererContentItemSectionRenderer },
    ContinuationItem { continuation_item_renderer: ContinuationItemRenderer },
}

impl IntoWidgets for SectionListRendererContent {
    /// The rows of the group; or the token at the end of the list.
    open spec fn rows(self) -> Rows {
        match self {
            SectionListRendererContent::ItemSection {
                item_section_renderer,
            } => item_section_renderer.rows(),
            SectionListRendererContent::ContinuationItem {
                continuation_item_renderer,
            } => continuation_item_renderer.rows(),
        }
    }

    fn into_widgets(self, titles: &mut Vec<Label>, info: &mut Vec<(Detail, Node)>) -> (token:
        Option<String>) {
        match self {
            SectionListRendererContent::ItemSection {
                item_section_renderer,
            } => item_section_renderer.into_widgets(titles, info),
            SectionListRendererContent::ContinuationItem {
                continuation_item_renderer,
            } => continuation_item_renderer.into_widgets(titles, info),
        }
    }
}

/// One way to narrow or to sort a search.
pub struct SearchFilterRenderer {
    pub label: SimpleText,
    /// Given for a filter that is selected or cannot be had.
    pub status: Option<String>,
    /// Missing for the sort that is selected and for a filter that cannot
    /// be had.
    pub navigation_endpoint: Option<SearchFilterRendererNavigationEndpoint>,
    pub tooltip: String,
}

pub struct Filter {
    pub search_filter_renderer: SearchFilterRenderer,
}

pub struct SearchFilterGroupRenderer {
    pub filters: Vec<Filter>,
    pub title: SimpleText,
}

pub struct Group {
    pub search_filter_group_renderer: SearchFilterGroupRenderer,
}

pub struct SearchSubMenuRenderer {
    pub groups: Vec<Group>,
}

pub struct SubMenu {
    pub search_sub_menu_renderer: SearchSubMenuRenderer,
}

/// The style of a filter by its status: bold if it is selected, crossed
/// out if it cannot be had, plain else.
pub open spec fn status_style(status: Option<String>) -> Style {
    match status {
        Some(status) => if status@ == "FILTER_STATUS_SELECTED"@ {
            Style { bold: true, ..Style::plain() }
        } else if status@ == "FILTER_STATUS_DISABLED"@ {
            Style { crossed_out: true, ..Style::plain() }
        } else {
            Style::plain()
        },
        None => Style::plain(),
    }
}

/// The style of a filter by its status.
pub fn style_of_status(status: &Option<String>) -> (r: Style)
    ensures
        r == status_style(*status),
{
    let (bold, crossed_out) = match status {
        Some(status) => if same_text(status.as_str(), "FILTER_STATUS_SELECTED") {
            (true, false)
        } else if same_text(status.as_str(), "FILTER_STATUS_DISABLED") {
            (false, true)
        } else {
            (false, false)
        },
        None => (false, false),
    };
    Style { fg: None, bg: None, bold, italic: false, underlined: false, crossed_out }
}

/// The search that an endpoint leads to; nothing without an endpoint.
pub open spec fn search_node(endpoint: Option<SearchFilterRendererNavigationEndpoint>) -> Node {
    match endpoint {
        Some(endpoint) => Node::Search(
            endpoint.search_endpoint.query,
            endpoint.search_endpoint.params,
        ),
        None => Node::Nothing,
    }
}

impl IntoWidgets for Filter {
    /// One row: the name of the filter in the style of its status, what
    /// it does, and the search that it leads to.
    open spec fn rows(self) -> Rows {
        let filter = self.search_filter_renderer;
        Rows::row(
            line_label(
                seq![
                    SpanText { content: filter.label.simple_text@, style: status_style(filter.status) },
                ],
            ),
            raw_detail(filter.tooltip@, true),
            search_node(filter.navigation_endpoint),
        )
    }

    fn into_widgets(self, titles: &mut Vec<Label>, info: &mut Vec<(Detail, Node)>) -> (token:
        Option<String>) {
        let filter = self.search_filter_renderer;
        let style = style_of_status(&filter.status);
        let node = match filter.navigation_endpoint {
            Some(endpoint) => Node::Search(
                endpoint.search_endpoint.query,
                endpoint.search_endpoint.params,
            ),
            None => Node::Nothing,
        };
        add_row(
            titles,
            info,
            Label::line(Line::of(Span { content: filter.label.simple_text, style })),
            Detail::raw(filter.tooltip, true),
            node,
        );
        None
    }
}

/// A row that heads a group with an underlined word and leads nowhere.
pub open spec fn word_row(word: Seq<char>) -> Rows {
    Rows::row(underlined_label(word), empty_detail(), Node::Nothing)
}

/// Adds a row that heads a group with an underlined word.
pub fn add_word(titles: &mut Vec<Label>, info: &mut Vec<(Detail, Node)>, word: String)
    ensures
        adds(old(titles)@, old(info)@, word_row(word@), final(titles)@, final(info)@),
{
    add_row(titles, info, Label::underlined(word), Detail::empty(), Node::Nothing);
}

impl IntoWidgets for Group {
    /// A row with the underlined name of the group, and a row for each of
    /// its filters.
    open spec fn rows(self) -> Rows {
        word_row(self.search_filter_group_renderer.title.simple_text@).with(
            all_rows(self.search_filter_group_renderer.filters@),
        )
    }

    fn into_widgets(self, titles: &mut Vec<Label>, info: &mut Vec<(Detail, Node)>) -> (token:
        Option<String>) {
        let group = self.search_filter_group_renderer;
        let ghost head = word_row(group.title.simple_text@);
        add_word(titles, info, group.title.simple_text);
        let ghost titles1 = titles@;
        let ghost info1 = info@;
        let _ = add_all(group.filters, titles, info);
        proof {
            lemma_adds_both(
                old(titles)@,
                old(info)@,
                head,
                titles1,
                info1,
                all_rows(group.filters@),
                titles@,
                info@,
            );
        }
        None
    }
}

pub struct SectionListRenderer {
    pub contents: Vec<SectionListRendererContent>,
    pub sub_menu: SubMenu,
}

pub struct PrimaryContents {
    pub section_list_renderer: SectionListRenderer,
}

pub struct WatchCardHeroVideoRenderer {
    pub navigation_endpoint: CurrentVideoEndpoint,
    pub title: SimpleText,
    pub subtitle: SimpleText,
    pub length_text: AccessibleText,
}

pub struct CallToAction {
    pub watch_card_hero_video_renderer: WatchCardHeroVideoRenderer,
}

pub struct WatchCardRichHeaderRenderer {
    pub title: SimpleText,
    pub title_navigation_endpoint: Endpoint,
    pub subtitle: SimpleText,
    pub color_supported_datas: Color,
}

pub struct UniversalWatchCardRendererHeader {
    pub watch_card_rich_header_renderer: WatchCardRichHeaderRenderer,
}

pub struct WatchCardCompactVideoRenderer {
    pub title: SimpleText,
    pub subtitle: SimpleText,
    pub length_text: AccessibleText,
    pub navigation_endpoint: CurrentVideoEndpoint,
}

pub struct VerticalWatchCardListRendererItem {
    pub watch_card_compact_video_renderer: WatchCardCompactVideoRenderer,
}

pub struct VerticalWatchCardListRenderer {
    pub items: Vec<VerticalWatchCardListRendererItem>,
    pub view_all_endpoint: Endpoint,
}

pub struct List {
    pub vertical_watch_card_list_renderer: VerticalWatchCardListRenderer,
}

pub struct WatchCardSectionSequenceRenderer {
    pub lists: Vec<List>,
}

pub struct UniversalWatchCardRendererSection {
    pub watch_card_section_sequence_renderer: WatchCardSectionSequenceRenderer,
}

/// A card beside the results: a channel with some of its videos.
pub struct UniversalWatchCardRenderer {
    pub call_to_action: CallToAction,
    pub header: UniversalWatchCardRendererHeader,
    pub sections: Vec<UniversalWatchCardRendererSection>,
}

pub struct SecondarySearchContainerRendererContent {
    pub universal_watch_card_renderer: UniversalWatchCardRenderer,
}

pub struct SecondarySearchContainerRenderer {
    pub contents: Vec<SecondarySearchContainerRendererContent>,
}

pub struct SecondaryContents {
    pub secondary_search_container_renderer: SecondarySearchContainerRenderer,
}

pub struct TwoColumnSearchResultsRenderer {
    pub primary_contents: PrimaryContents,
    pub secondary_contents: Option<SecondaryContents>,
}

pub struct SearchResponseContents {
    pub two_column_search_results_renderer: TwoColumnSearchResultsRenderer,
}

/// The row of a video on a card: its title with space below it, what
/// stands under the title and the length, and the video to play.
pub open spec fn card_video_row(
    title: Seq<char>,
    subtitle: Seq<char>,
    length: Seq<char>,
    video_id: String,
) -> Rows {
    Rows::row(
        spaced_text(raw_line(title)),
        lines_detail(seq![raw_line(subtitle), blank_line(), raw_line(length)], true),
        Node::Video(video_id),
    )
}

/// Adds the row of a video on a card.
pub fn add_card_video(
    titles: &mut Vec<Label>,
    info: &mut Vec<(Detail, Node)>,
    title: String,
    subtitle: String,
    length: String,
    video_id: String,
)
    ensures
        adds(
            old(titles)@,
            old(info)@,
            card_video_row(title@, subtitle@, length@, video_id),
            final(titles)@,
            final(info)@,
        ),
{
    let mut lines = no_lines();
    push_line(&mut lines, Line::raw(subtitle));
    push_line(&mut lines, blank());
    push_line(&mut lines, Line::raw(length));
    assert(lines_text(lines@) =~= seq![raw_line(subtitle@), blank_line(), raw_line(length@)]);
    add_row(
        titles,
        info,
        Label::spaced(Line::raw(title)),
        Detail::lines(lines, true),
        Node::Video(video_id),
    );
}

impl IntoWidgets for VerticalWatchCardListRendererItem {
    /// The row of the video.
    open spec fn rows(self) -> Rows {
        let video = self.watch_card_compact_video_renderer;
        card_video_row(
            video.title.simple_text@,
            video.subtitle.simple_text@,
            video.length_text.label(),
            video.navigation_endpoint.watch_endpoint.video_id,
        )
    }

    fn into_widgets(self, titles: &mut Vec<Label>, info: &mut Vec<(Detail, Node)>) -> (token:
        Option<String>) {
        let video = self.watch_card_compact_video_renderer;
        add_card_video(
            titles,
            info,
            video.title.simple_text,
            video.subtitle.simple_text,
            video.length_text.into_label(),
            video.navigation_endpoint.watch_endpoint.video_id,
        );
        None
    }
}

impl IntoWidgets for List {
    /// The rows of the videos, and a row `View all`, which opens the
    /// channel.
    open spec fn rows(self) -> Rows {
        let list = self.vertical_watch_card_list_renderer;
        Rows::none().with(all_rows(list.items@)).with(
            Rows::row(
                raw_label("View all"@),
                empty_detail(),
                Node::Channel(
                    list.view_all_endpoint.browse_endpoint.browse_id,
                    list.view_all_endpoint.browse_endpoint.params,
                ),
            ),
        )
    }

    fn into_widgets(self, titles: &mut Vec<Label>, info: &mut Vec<(Detail, Node)>) -> (token:
        Option<String>) {
        let list = self.vertical_watch_card_list_renderer;
        let ghost all = Rows::row(
            raw_label("View all"@),
            empty_detail(),
            Node::Channel(
                list.view_all_endpoint.browse_endpoint.browse_id,
                list.view_all_endpoint.browse_endpoint.params,
            ),
        );
        proof {
            lemma_adds_none(titles@, info@);
        }
        let _ = add_all(list.items, titles, info);
        let ghost titles1 = titles@;
        let ghost info1 = info@;
        add_row(
            titles,
            info,
            Label::raw("View all".to_owned()),
            Detail::empty(),
            Node::Channel(
                list.view_all_endpoint.browse_endpoint.browse_id,
                list.view_all_endpoint.browse_endpoint.params,
            ),
        );
        proof {
            lemma_adds_both(
                old(titles)@,
                old(info)@,
                Rows::none(),
                old(titles)@,
                old(info)@,
                all_rows(list.items@),
                titles1,
                info1,
            );
            lemma_adds_both(
                old(titles)@,
                old(info)@,
                Rows::none().with(all_rows(list.items@)),
                titles1,
                info1,
                all,
                titles@,
                info@,
            );
        }
        None
    }
}

impl IntoWidgets for UniversalWatchCardRendererSection {
    /// The rows of the lists, in order.
    open spec fn rows(self) -> Rows {
        Rows::none().with(all_rows(self.watch_card_section_sequence_renderer.lists@))
    }

    fn into_widgets(self, titles: &mut Vec<Label>, info: &mut Vec<(Detail, Node)>) -> (token:
        Option<String>) {
        proof {
            lemma_adds_none(titles@, info@);
        }
        let _ = add_all(self.watch_card_section_sequence_renderer.lists, titles, info);
        proof {
            lemma_adds_both(
                old(titles)@,
                old(info)@,
                Rows::none(),
                old(titles)@,
                old(info)@,
                all_rows(self.watch_card_section_sequence_renderer.lists@),
                titles@,
                info@,
            );
        }
        None
    }
}

impl WatchCardRichHeaderRenderer {
    /// The colours of the title: its own on the background.
    pub open spec fn title_style(self) -> Style {
        Style {
            fg: Some(colour_of(self.color_supported_datas.basic_color_palette_data.foreground_title_color)),
            bg: maybe_colour(self.color_supported_datas.basic_color_palette_data.background_color),
            ..Style::plain()
        }
    }

    /// The colours of the text below the title: its own on the
    /// background.
    pub open spec fn body_style(self) -> Style {
        Style {
            fg: maybe_colour(self.color_supported_datas.basic_color_palette_data.foreground_body_color),
            bg: maybe_colour(self.color_supported_datas.basic_color_palette_data.background_color),
            ..Style::plain()
        }
    }
}

impl IntoWidgets for WatchCardRichHeaderRenderer {
    /// One row in the colours of the card: the title with space below it,
    /// what stands under the title, and the channel to open.
    open spec fn rows(self) -> Rows {
        Rows::row(
            LabelText { style: self.title_style(), ..spaced_text(raw_line(self.title.simple_text@)) },
            DetailText { style: self.body_style(), ..raw_detail(self.subtitle.simple_text@, true) },
            Node::Channel(self.title_navigation_endpoint.browse_endpoint.browse_id, None),
        )
    }

    fn into_widgets(self, titles: &mut Vec<Label>, info: &mut Vec<(Detail, Node)>) -> (token:
        Option<String>) {
        let palette = self.color_supported_datas.basic_color_palette_data;
        let fg = int_to_colour(palette.foreground_title_color);
        let bg = int_to_maybe_colour(palette.background_color);
        let body = int_to_maybe_colour(palette.foreground_body_color);
        let mut label = Label::spaced(Line::raw(self.title.simple_text));
        label.style = Style::coloured(Some(fg), bg);
        let mut detail = Detail::raw(self.subtitle.simple_text, true);
        detail.style = Style::coloured(body, bg);
        add_row(
            titles,
            info,
            label,
            detail,
            Node::Channel(self.title_navigation_endpoint.browse_endpoint.browse_id, None),
        );
        None
    }
}

impl IntoWidgets for WatchCardHeroVideoRenderer {
    /// The row of the video.
    open spec fn rows(self) -> Rows {
        card_video_row(
            self.title.simple_text@,
            self.subtitle.simple_text@,
            self.length_text.label(),
            self.navigation_endpoint.watch_endpoint.video_id,
        )
    }

    fn into_widgets(self, titles: &mut Vec<Label>, info: &mut Vec<(Detail, Node)>) -> (token:
        Option<String>) {
        add_card_video(
            titles,
            info,
            self.title.simple_text,
            self.subtitle.simple_text,
            self.length_text.into_label(),
            self.navigation_endpoint.watch_endpoint.video_id,
        );
        None
    }
}

impl IntoWidgets for SecondarySearchContainerRendererContent {
    /// The row of the channel, the row of its main video, and the rows of
    /// its lists of videos.
    open spec fn rows(self) -> Rows {
        let card = self.universal_watch_card_renderer;
        card.header.watch_card_rich_header_renderer.rows().with(
            card.call_to_action.watch_card_hero_video_renderer.rows(),
        ).with(all_rows(card.sections@))
    }

    fn into_widgets(self, titles: &mut Vec<Label>, info: &mut Vec<(Detail, Node)>) -> (token:
        Option<String>) {
        let card = self.universal_watch_card_renderer;
        let ghost head = card.header.watch_card_rich_header_renderer.rows();
        let ghost hero = card.call_to_action.watch_card_hero_video_renderer.rows();
        let _ = card.header.watch_card_rich_header_renderer.into_widgets(titles, info);
        let ghost titles1 = titles@;
        let ghost info1 = info@;
        let _ = card.call_to_action.watch_card_hero_video_renderer.into_widgets(titles, info);
        let ghost titles2 = titles@;
        let ghost info2 = info@;
        let _ = add_all(card.sections, titles, info);
        proof {
            lemma_adds_both(old(titles)@, old(info)@, head, titles1, info1, hero, titles2, info2);
            lemma_adds_both(
                old(titles)@,
                old(info)@,
                head.with(hero),
                titles2,
                info2,
                all_rows(card.sections@),
                titles@,
                info@,
            );
        }
        None
    }
}

/// The rows of search suggestions: a heading, a row for each suggestion,
/// which opens the search for it, and a row that parts them from what
/// follows. None where no suggestions are given.
pub open spec fn refinement_rows(refinements: Option<Vec<String>>) -> Rows {
    match refinements {
        Some(refinements) => Rows {
            titles: seq![underlined_label("Search suggestions"@)] + Seq::new(
                refinements@.len(),
                |i: int| raw_label(refinements@[i]@),
            ) + gap_row().titles,
            details: seq![(empty_detail(), Node::Nothing)] + Seq::new(
                refinements@.len(),
                |i: int| (empty_detail(), Node::Search(refinements@[i], None)),
            ) + gap_row().details,
            token: None,
        },
        None => Rows::none(),
    }
}

/// Adds the rows of search suggestions.
pub fn add_refinements(
    titles: &mut Vec<Label>,
    info: &mut Vec<(Detail, Node)>,
    refinements: Option<Vec<String>>,
)
    ensures
        adds(old(titles)@, old(info)@, refinement_rows(refinements), final(titles)@, final(info)@),
{
    match refinements {
        Some(refinements) => {
            let ghost all = refinements@;
            let ghost head_titles = titles_text(old(titles)@) + seq![
                underlined_label("Search suggestions"@),
            ];
            let ghost head_details = details_text(old(info)@) + seq![
                (empty_detail(), Node::Nothing),
            ];
            add_word(titles, info, "Search suggestions".to_owned());
            for refinement in it: refinements
                invariant
                    it.seq() == all,
                    titles_text(titles@) == head_titles + Seq::new(
                        it.index() as nat,
                        |i: int| raw_label(all[i]@),
                    ),
                    details_text(info@) == head_details + Seq::new(
                        it.index() as nat,
                        |i: int| (empty_detail(), Node::Search(all[i], None)),
                    ),
            {
                add_row(
                    titles,
                    info,
                    Label::raw(refinement.clone()),
                    Detail::empty(),
                    Node::Search(refinement, None),
                );
            }
            add_gap(titles, info);
            assert(titles_text(titles@) =~= titles_text(old(titles)@) + refinement_rows(
                Some(refinements),
            ).titles);
            assert(details_text(info@) =~= details_text(old(info)@) + refinement_rows(
                Some(refinements),
            ).details);
        },
        None => {
            proof {
                lemma_adds_none(titles@, info@);
            }
        },
    }
}

/// The rows of the cards beside the results and a row that parts them
/// from what follows. None where no cards are given.
pub open spec fn secondary_rows(secondary: Option<SecondaryContents>) -> Rows {
    match secondary {
        Some(secondary) => Rows::none().with(
            all_rows(secondary.secondary_search_container_renderer.contents@),
        ).with(gap_row()),
        None => Rows::none(),
    }
}

/// Adds the rows of the cards beside the results.
pub fn add_secondary(
    titles: &mut Vec<Label>,
    info: &mut Vec<(Detail, Node)>,
    secondary: Option<SecondaryContents>,
)
    ensures
        adds(old(titles)@, old(info)@, secondary_rows(secondary), final(titles)@, final(info)@),
{
    proof {
        lemma_adds_none(titles@, info@);
    }
    match secondary {
        Some(secondary) => {
            let contents = secondary.secondary_search_container_renderer.contents;
            let _ = add_all(contents, titles, info);
            let ghost titles1 = titles@;
            let ghost info1 = info@;
            add_gap(titles, info);
            proof {
                lemma_adds_both(
                    old(titles)@,
                    old(info)@,
                    Rows::none(),
                    old(titles)@,
                    old(info)@,
                    all_rows(contents@),
                    titles1,
                    info1,
                );
                lemma_adds_both(
                    old(titles)@,
                    old(info)@,
                    Rows::none().with(all_rows(contents@)),
                    titles1,
                    info1,
                    gap_row(),
                    titles@,
                    info@,
                );
            }
        },
        None => {},
    }
}

/// The answer to a search.
pub struct SearchResponse {
    pub contents: SearchResponseContents,
    pub estimated_results: String,
    pub refinements: Option<Vec<String>>,
}

impl SearchResponse {
    /// The row that says how many results there are.
    pub open spec fn count_row(self) -> Rows {
        Rows::row(
            spaced_text(raw_line(self.estimated_results@ + " results"@)),
            empty_detail(),
            Node::Nothing,
        )
    }

    /// The rows of a search: how many results there are; the suggestions;
    /// the filters, group by group, under a heading; a row that parts
    /// them from the rest; the cards beside the results; and the results,
    /// with the last token among them.
    pub open spec fn rows(self) -> Rows {
        let columns = self.contents.two_column_search_results_renderer;
        let list = columns.primary_contents.section_list_renderer;
        self.count_row().with(refinement_rows(self.refinements)).with(word_row("Filters"@)).with(
            all_rows(list.sub_menu.search_sub_menu_renderer.groups@),
        ).with(gap_row()).with(secondary_rows(columns.secondary_contents)).with_latest(
            all_rows(list.contents@),
        )
    }

    /// The rows of this search, and the token for more results.
    pub fn into_widgets(self) -> (r: (Vec<Label>, Vec<(Detail, Node)>, Option<String>))
        ensures
            titles_text(r.0@) == self.rows().titles,
            details_text(r.1@) == self.rows().details,
            r.2 == self.rows().token,
    {
        let mut titles: Vec<Label> = Vec::new();
        let mut info: Vec<(Detail, Node)> = Vec::new();
        let ghost nothing = Seq::<Label>::empty();
        let ghost no_info = Seq::<(Detail, Node)>::empty();
        let ghost count = self.count_row();
        let ghost suggestions = refinement_rows(self.refinements);
        let columns = self.contents.two_column_search_results_renderer;
        let list = columns.primary_contents.section_list_renderer;
        let ghost groups = all_rows(list.sub_menu.search_sub_menu_renderer.groups@);
        let ghost cards = secondary_rows(columns.secondary_contents);
        let ghost results = all_rows(list.contents@);

        let mut found = self.estimated_results;
        found.append(" results");
        add_row(&mut titles, &mut info, Label::spaced(Line::raw(found)), Detail::empty(), Node::Nothing);
        let ghost titles1 = titles@;
        let ghost info1 = info@;
        add_refinements(&mut titles, &mut info, self.refinements);
        let ghost titles2 = titles@;
        let ghost info2 = info@;
        add_word(&mut titles, &mut info, "Filters".to_owned());
        let ghost titles3 = titles@;
        let ghost info3 = info@;
        let _ = add_all(list.sub_menu.search_sub_menu_renderer.groups, &mut titles, &mut info);
        let ghost titles4 = titles@;
        let ghost info4 = info@;
        add_gap(&mut titles, &mut info);
        let ghost titles5 = titles@;
        let ghost info5 = info@;
        add_secondary(&mut titles, &mut info, columns.secondary_contents);
        let ghost titles6 = titles@;
        let ghost info6 = info@;
        let token = add_all(list.contents, &mut titles, &mut info);
        proof {
            let a = count;
            let b = a.with(suggestions);
            let c = b.with(word_row("Filters"@));
            let d = c.with(groups);
            let e = d.with(gap_row());
            let f = e.with(cards);
            lemma_adds_both(nothing, no_info, a, titles1, info1, suggestions, titles2, info2);
            lemma_adds_both(nothing, no_info, b, titles2, info2, word_row("Filters"@), titles3, info3);
            lemma_adds_both(nothing, no_info, c, titles3, info3, groups, titles4, info4);
            lemma_adds_both(nothing, no_info, d, titles4, info4, gap_row(), titles5, info5);
            lemma_adds_both(nothing, no_info, e, titles5, info5, cards, titles6, info6);
            lemma_adds_both(nothing, no_info, f, titles6, info6, results, titles@, info@);
        }
        (titles, info, token)
    }
}

/// The answer to the request for more results of a search.
pub struct SearchContinuationResponse {
    pub on_response_received_commands: Vec<
        ContinueOnResponseReceivedAction<SectionListRendererContent>,
    >,
}

impl SearchContinuationResponse {
    /// The rows of all groups, in order, and the last token among them.
    pub open spec fn rows(self) -> Rows {
        all_rows(self.on_response_received_commands@)
    }

    /// Adds the rows of the results, and gives the token for what
    /// follows.
    pub fn into_widgets(self, titles: &mut Vec<Label>, info: &mut Vec<(Detail, Node)>) -> (token:
        Option<String>)
        ensures
            adds(old(titles)@, old(info)@, self.rows(), final(titles)@, final(info)@),
            token == self.rows().token,
    {
        add_all(self.on_response_received_commands, titles, info)
    }
}

} // verus!
