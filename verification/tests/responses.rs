use ytnav::items::{Colour, Content, Detail, Label, Line, Node, Span, Style};
use ytnav::next::{
    AttributedDescriptionBodyText, Autoplay, CommentsSectionHeader, CompactVideoRenderer,
    EngagementPanel, EngagementPanelSectionListRenderer, EngagementPanelTitleHeaderRenderer,
    ExpandableVideoDescriptionBodyRenderer, Factoid, FactoidRenderer, GetTranscriptEndpoint,
    NextResponse, NextResponseContents, PlayerOverlayAutoplayRenderer, PlayerOverlayRenderer,
    PlayerOverlays, SearchableTranscriptContent, SecondaryResultsInner, SecondaryResultsOuter,
    SecondaryResultsResult, StructuredDescriptionContent, StructuredDescriptionContentItem,
    StructuredDescriptionContentRenderer, StyleRun, ThumbnailOverlay,
    ThumbnailOverlayTimeStatusRenderer, TwoColumnWatchNextResults, VideoDescriptionHeaderRenderer,
};
use ytnav::renderers::{
    Accessibility, AccessibilityData, AccessibleText, AppendContinuationItemsAction,
    BasicColorPaletteData, BrowseEndpoint, Color, ContinuationCommand, ContinuationEndpoint,
    ContinuationItemRenderer, ContinueOnResponseReceivedAction, CurrentVideoEndpoint, Endpoint,
    Menu, Run, SearchEndpoint, SearchFilterRendererNavigationEndpoint, ShortViewCountText,
    SimpleText, SortFilterSubMenuRenderer, SubMenuItem, Text, WatchEndpoint,
};
use ytnav::search::{
    style_of_status, AdSlotRenderer, BackgroundPromoRenderer, CallToAction, ChannelRenderer,
    ChildVideoRenderer, DidYouMeanRenderer, Filter, Group, List, PlaylistRenderer,
    PrimaryContents, SearchContinuationResponse, SearchFilterGroupRenderer, SearchFilterRenderer,
    SearchResponse, SearchResponseContents, SearchSubMenuRenderer, SecondaryContents,
    SecondarySearchContainerRenderer, SecondarySearchContainerRendererContent,
    SectionListRenderer, SectionListRendererContent,
    SectionListRendererContentItemSectionRenderer,
    SectionListRendererContentItemSectionRendererContent, SubMenu, TwoColumnSearchResultsRenderer,
    UniversalWatchCardRenderer, UniversalWatchCardRendererHeader,
    UniversalWatchCardRendererSection, VerticalWatchCardListRenderer,
    VerticalWatchCardListRendererItem, Video, WatchCardCompactVideoRenderer,
    WatchCardHeroVideoRenderer, WatchCardRichHeaderRenderer, WatchCardSectionSequenceRenderer,
};
use ytnav::transcript::{
    Action, InitialSegment, LanguageMenu, LanguageMenuSortFilterSubMenuRenderer,
    LanguageMenuSortFilterSubMenuRendererSubMenuItem,
    LanguageMenuSortFilterSubMenuRendererSubMenuItemContinuation, ReloadContinuationData,
    TranscriptFooterRenderer, TranscriptRenderer, TranscriptRendererContent, TranscriptResponse,
    TranscriptSearchPanelRenderer, TranscriptSearchPanelRendererBody,
    TranscriptSearchPanelRendererFooter, TranscriptSegmentListRenderer,
    TranscriptSegmentRenderer, UpdateEngagementPanelAction, UpdateEngagementPanelActionContent,
};

fn s(text: &str) -> String {
    text.to_string()
}

fn simple(text: &str) -> SimpleText {
    SimpleText { simple_text: s(text) }
}

fn text(runs: &[&str]) -> Text {
    Text { runs: runs.iter().map(|run| Run { text: s(run), bold: None, italics: None }).collect() }
}

fn said(label: &str) -> AccessibleText {
    AccessibleText { accessibility: Accessibility { accessibility_data: AccessibilityData { label: s(label) } } }
}

fn end(t: &str) -> ContinuationItemRenderer {
    ContinuationItemRenderer {
        continuation_endpoint: ContinuationEndpoint {
            continuation_command: ContinuationCommand { token: s(t) },
        },
    }
}

fn endpoint(id: &str, params: Option<&str>) -> Endpoint {
    Endpoint { browse_endpoint: BrowseEndpoint { browse_id: s(id), params: params.map(s) } }
}

fn watch(id: &str) -> CurrentVideoEndpoint {
    CurrentVideoEndpoint { watch_endpoint: WatchEndpoint { video_id: s(id) } }
}

fn plain() -> Style {
    Style::default()
}

fn raw(content: &str) -> Line {
    Line { spans: vec![Span { content: s(content), style: plain() }] }
}

fn no_spans() -> Line {
    Line { spans: Vec::new() }
}

fn spaced(first: Line) -> Label {
    Label { content: Content::Lines(vec![first, no_spans()]), style: plain() }
}

fn one_line(first: Line) -> Label {
    Label { content: Content::Lines(vec![first]), style: plain() }
}

fn raw_label(content: &str) -> Label {
    Label { content: Content::Raw(s(content)), style: plain() }
}

fn underlined(content: &str) -> Label {
    one_line(Line {
        spans: vec![Span { content: s(content), style: Style { underlined: true, ..plain() } }],
    })
}

fn lines(lines: Vec<Line>, wrap: bool) -> Detail {
    Detail { content: Content::Lines(lines), style: plain(), wrap }
}

fn raw_detail(content: &str, wrap: bool) -> Detail {
    Detail { content: Content::Raw(s(content)), style: plain(), wrap }
}

fn nothing() -> Detail {
    lines(Vec::new(), false)
}

fn gap() -> (Label, (Detail, Node)) {
    (one_line(no_spans()), (nothing(), Node::Nothing))
}

fn body(content: &str, runs: &[(usize, usize, u32)]) -> Vec<Line> {
    let text = AttributedDescriptionBodyText {
        content: s(content),
        style_runs: runs
            .iter()
            .map(|&(start_index, length, font_color)| StyleRun { start_index, length, font_color })
            .collect(),
    };
    let mut out = vec![raw("before")];
    text.add_lines(&mut out);
    assert_eq!(out.remove(0), raw("before"));
    out
}

fn span(content: &str) -> Span {
    Span { content: s(content), style: plain() }
}

fn red(content: &str) -> Span {
    Span {
        content: s(content),
        style: Style { fg: Some(Colour { red: 255, green: 0, blue: 0 }), ..plain() },
    }
}

const RED: u32 = 0xFFFF0000;

#[test]
fn description_without_coloured_stretch_is_one_empty_line() {
    assert_eq!(body("all of this is dropped", &[]), vec![no_spans()]);
    assert_eq!(body("", &[]), vec![no_spans()]);
}

#[test]
fn description_lays_out_text_and_stretches() {
    assert_eq!(
        body("Hello #tag and more", &[(6, 4, RED)]),
        vec![Line { spans: vec![span("Hello "), red("#tag")] }]
    );
    assert_eq!(
        body("one\ntwo\nthree #x\nfour #y tail", &[(14, 2, RED), (22, 2, RED)]),
        vec![
            Line { spans: vec![span("one")] },
            Line { spans: vec![span("two")] },
            // The text between the stretches starts with a line feed: its
            // first line is empty and still goes on the line at hand.
            Line { spans: vec![span("three "), red("#x"), span("")] },
            Line { spans: vec![span("four "), red("#y")] },
        ]
    );
}

#[test]
fn description_stretch_at_the_start_and_side_by_side() {
    assert_eq!(
        body("#a#b rest", &[(0, 2, RED), (2, 2, RED)]),
        vec![Line { spans: vec![red("#a"), red("#b")] }]
    );
}

#[test]
fn description_line_feed_right_before_a_stretch_starts_no_line() {
    // The text before the stretch is "a\n", which has the one line "a".
    assert_eq!(body("a\n#b", &[(2, 2, RED)]), vec![Line { spans: vec![span("a"), red("#b")] }]);
    assert_eq!(
        body("a\r\nb\r\n\r\n#c", &[(8, 2, RED)]),
        vec![
            Line { spans: vec![span("a")] },
            Line { spans: vec![span("b")] },
            Line { spans: vec![span(""), red("#c")] },
        ]
    );
}

#[test]
fn description_counts_characters_and_stops_at_the_end() {
    assert_eq!(
        body("\u{e9}\u{4e16} \u{1f600}x", &[(3, 1, RED)]),
        vec![Line { spans: vec![span("\u{e9}\u{4e16} "), red("\u{1f600}")] }]
    );
    assert_eq!(
        body("abc", &[(1, 10, RED), (20, 5, RED)]),
        vec![Line { spans: vec![span("a"), red("bc"), red("")] }]
    );
    assert_eq!(
        body("abc", &[(usize::MAX, usize::MAX, RED)]),
        vec![Line { spans: vec![span("abc"), red("")] }]
    );
}

#[test]
fn description_stretch_that_starts_before_the_last_one_ended_follows_it() {
    assert_eq!(
        body("abcdef", &[(2, 2, RED), (1, 1, RED)]),
        vec![Line { spans: vec![span("ab"), red("cd"), red("e")] }]
    );
}

fn compact(id: &str) -> SecondaryResultsResult {
    SecondaryResultsResult::CompactVideo {
        compact_video_renderer: CompactVideoRenderer {
            badges: None,
            length_text: Some(said("4 minutes")),
            long_byline_text: text(&["By"]),
            owner_badges: None,
            published_time_text: Some(simple("today")),
            short_view_count_text: ShortViewCountText::Video(said("8 views")),
            title: simple(id),
            video_id: s(id),
        },
    }
}

fn panel(inner: EngagementPanelSectionListRenderer) -> EngagementPanel {
    EngagementPanel { engagement_panel_section_list_renderer: inner }
}

fn next_response(panels: Vec<EngagementPanel>, results: Vec<SecondaryResultsResult>) -> NextResponse {
    NextResponse {
        contents: NextResponseContents {
            two_column_watch_next_results: TwoColumnWatchNextResults {
                secondary_results: SecondaryResultsOuter {
                    secondary_results: SecondaryResultsInner { results },
                },
            },
        },
        current_video_endpoint: watch("current"),
        engagement_panels: panels,
        player_overlays: PlayerOverlays {
            player_overlay_renderer: PlayerOverlayRenderer {
                autoplay: Autoplay {
                    player_overlay_autoplay_renderer: PlayerOverlayAutoplayRenderer {
                        video_title: simple("Up next"),
                        byline: text(&["Them"]),
                        thumbnail_overlays: vec![ThumbnailOverlay {
                            thumbnail_overlay_time_status_renderer: ThumbnailOverlayTimeStatusRenderer {
                                text: said("9 minutes"),
                            },
                        }],
                        video_id: s("auto"),
                        published_time_text: simple("a year ago"),
                        short_view_count_text: said("1M views"),
                    },
                },
            },
        },
    }
}

fn autoplay_row() -> (Label, (Detail, Node)) {
    (
        spaced(raw("Autoplay video")),
        (
            lines(
                vec![raw("Up next"), raw(""), raw("Them"), raw("a year ago"), raw("1M views"), raw("9 minutes")],
                false,
            ),
            Node::Video(s("auto")),
        ),
    )
}

#[test]
fn next_response_with_nothing_beside_the_video() {
    let (titles, info, token) = next_response(Vec::new(), Vec::new()).into_widgets();
    assert_eq!(titles, vec![gap().0, autoplay_row().0]);
    assert_eq!(info, vec![gap().1, autoplay_row().1]);
    assert_eq!(token, None);
}

#[test]
fn next_response_in_full() {
    let description = panel(EngagementPanelSectionListRenderer::StructuredDescription {
        content: StructuredDescriptionContent {
            structured_description_content_renderer: StructuredDescriptionContentRenderer {
                items: vec![
                    StructuredDescriptionContentItem::VideoDescriptionHeader {
                        video_description_header_renderer: VideoDescriptionHeaderRenderer {
                            title: text(&["The video"]),
                            channel: simple("Channel"),
                            factoid: vec![
                                Factoid { factoid_renderer: FactoidRenderer { accessibility_text: s("10 likes") } },
                                Factoid { factoid_renderer: FactoidRenderer { accessibility_text: s("20 views") } },
                            ],
                            channel_navigation_endpoint: endpoint("chan", None),
                        },
                    },
                    StructuredDescriptionContentItem::ExpandableVideoDescriptionBody {
                        expandable_video_description_body_renderer: ExpandableVideoDescriptionBodyRenderer {
                            attributed_description_body_text: AttributedDescriptionBodyText {
                                content: s("see #this"),
                                style_runs: vec![StyleRun { start_index: 4, length: 5, font_color: RED }],
                            },
                        },
                    },
                ],
            },
        },
    });
    let comments = panel(EngagementPanelSectionListRenderer::CommentsSection {
        header: CommentsSectionHeader {
            engagement_panel_title_header_renderer: EngagementPanelTitleHeaderRenderer {
                contextual_info: text(&["1.2K"]),
                menu: Menu {
                    sort_filter_sub_menu_renderer: SortFilterSubMenuRenderer {
                        sub_menu_items: vec![
                            SubMenuItem { title: s("Top"), service_endpoint: end("top").continuation_endpoint },
                            SubMenuItem { title: s("Newest"), service_endpoint: end("new").continuation_endpoint },
                        ],
                    },
                },
            },
        },
    });
    let transcript = panel(EngagementPanelSectionListRenderer::SearchableTranscript {
        content: SearchableTranscriptContent {
            continuation_item_renderer: ytnav::next::ContinuationItemRenderer {
                continuation_endpoint: ytnav::next::ContinuationItemRendererContinuationEndpoint {
                    get_transcript_endpoint: GetTranscriptEndpoint { params: s("tp") },
                },
            },
        },
    });
    let ads = panel(EngagementPanelSectionListRenderer::Ads {});
    let results = vec![
        compact("r1"),
        SecondaryResultsResult::ContinuationItem { continuation_item_renderer: end("more") },
    ];
    let (titles, info, token) =
        next_response(vec![ads, description, transcript, comments], results).into_widgets();
    assert_eq!(token, Some(s("more")));
    assert_eq!(
        titles,
        vec![
            spaced(raw("The video")),
            raw_label("Transcript"),
            one_line(Line { spans: vec![span("1.2K"), span(" Comments")] }),
            raw_label("Top"),
            raw_label("Newest"),
            gap().0,
            autoplay_row().0,
            spaced(raw("r1")),
        ]
    );
    assert_eq!(
        info,
        vec![
            (
                lines(
                    vec![
                        raw("Channel"),
                        raw("10 likes"),
                        raw("20 views"),
                        Line { spans: vec![span("see "), red("#this")] },
                    ],
                    true
                ),
                Node::Video(s("current"))
            ),
            (nothing(), Node::Transcript(s("tp"))),
            (nothing(), Node::Nothing),
            (nothing(), Node::CommentSection(s("top"))),
            (nothing(), Node::CommentSection(s("new"))),
            gap().1,
            autoplay_row().1,
            (
                lines(vec![raw("By"), raw("8 views"), raw("today"), raw("4 minutes")], false),
                Node::Video(s("r1"))
            ),
        ]
    );
}

#[test]
fn description_without_head_has_a_detail_and_no_title() {
    let description = panel(EngagementPanelSectionListRenderer::StructuredDescription {
        content: StructuredDescriptionContent {
            structured_description_content_renderer: StructuredDescriptionContentRenderer { items: Vec::new() },
        },
    });
    let (titles, info, _) = next_response(vec![description], Vec::new()).into_widgets();
    assert_eq!(titles.len(), 2);
    assert_eq!(info.len(), 3);
    assert_eq!(info[0], (lines(Vec::new(), true), Node::Video(s("current"))));
}

fn transcript_action(languages: &[(&str, bool, &str)], segments: &[(&str, &str)]) -> Action {
    Action {
        update_engagement_panel_action: UpdateEngagementPanelAction {
            content: UpdateEngagementPanelActionContent {
                transcript_renderer: TranscriptRenderer {
                    content: TranscriptRendererContent {
                        transcript_search_panel_renderer: TranscriptSearchPanelRenderer {
                            body: TranscriptSearchPanelRendererBody {
                                transcript_segment_list_renderer: TranscriptSegmentListRenderer {
                                    initial_segments: segments
                                        .iter()
                                        .map(|(said, at)| InitialSegment {
                                            transcript_segment_renderer: TranscriptSegmentRenderer {
                                                snippet: text(&[said]),
                                                start_time_text: simple(at),
                                            },
                                        })
                                        .collect(),
                                },
                            },
                            footer: TranscriptSearchPanelRendererFooter {
                                transcript_footer_renderer: TranscriptFooterRenderer {
                                    language_menu: LanguageMenu {
                                        sort_filter_sub_menu_renderer: LanguageMenuSortFilterSubMenuRenderer {
                                            sub_menu_items: languages
                                                .iter()
                                                .map(|(title, selected, token)| {
                                                    LanguageMenuSortFilterSubMenuRendererSubMenuItem {
                                                        title: s(title),
                                                        selected: *selected,
                                                        continuation:
                                                            LanguageMenuSortFilterSubMenuRendererSubMenuItemContinuation {
                                                                reload_continuation_data: ReloadContinuationData {
                                                                    continuation: s(token),
                                                                },
                                                            },
                                                    }
                                                })
                                                .collect(),
                                        },
                                    },
                                },
                            },
                        },
                    },
                },
            },
        },
    }
}

#[test]
fn transcript_rows() {
    let response = TranscriptResponse {
        actions: vec![transcript_action(
            &[("English", true, "en"), ("Deutsch", false, "de")],
            &[("hello", "0:00"), ("world", "0:05")],
        )],
    };
    let (titles, info) = response.into_widgets();
    assert_eq!(
        titles,
        vec![
            underlined("Other languages"),
            underlined("English"),
            one_line(raw("Deutsch")),
            spaced(raw("hello")),
            spaced(raw("world")),
        ]
    );
    assert_eq!(
        info,
        vec![
            (nothing(), Node::Nothing),
            (nothing(), Node::Transcript(s("en"))),
            (nothing(), Node::Transcript(s("de"))),
            (raw_detail("0:00", false), Node::Nothing),
            (raw_detail("0:05", false), Node::Nothing),
        ]
    );
    let (titles, info) = TranscriptResponse { actions: Vec::new() }.into_widgets();
    assert_eq!((titles.len(), info.len()), (0, 0));
}

#[test]
fn filter_styles_by_status() {
    assert_eq!(style_of_status(&None), plain());
    assert_eq!(style_of_status(&Some(s("FILTER_STATUS_SELECTED"))), Style { bold: true, ..plain() });
    assert_eq!(
        style_of_status(&Some(s("FILTER_STATUS_DISABLED"))),
        Style { crossed_out: true, ..plain() }
    );
    assert_eq!(style_of_status(&Some(s("filter_status_selected"))), plain());
}

fn search_to(query: &str, params: Option<&str>) -> SearchFilterRendererNavigationEndpoint {
    SearchFilterRendererNavigationEndpoint {
        search_endpoint: SearchEndpoint { query: s(query), params: params.map(s) },
    }
}

fn filter(label: &str, status: Option<&str>, to: Option<SearchFilterRendererNavigationEndpoint>) -> Filter {
    Filter {
        search_filter_renderer: SearchFilterRenderer {
            label: simple(label),
            status: status.map(s),
            navigation_endpoint: to,
            tooltip: s("tip"),
        },
    }
}

fn section(contents: Vec<SectionListRendererContentItemSectionRendererContent>) -> SectionListRendererContent {
    SectionListRendererContent::ItemSection {
        item_section_renderer: SectionListRendererContentItemSectionRenderer { contents },
    }
}

fn search_response(
    refinements: Option<Vec<String>>,
    groups: Vec<Group>,
    secondary: Option<SecondaryContents>,
    contents: Vec<SectionListRendererContent>,
) -> SearchResponse {
    SearchResponse {
        contents: SearchResponseContents {
            two_column_search_results_renderer: TwoColumnSearchResultsRenderer {
                primary_contents: PrimaryContents {
                    section_list_renderer: SectionListRenderer {
                        contents,
                        sub_menu: SubMenu { search_sub_menu_renderer: SearchSubMenuRenderer { groups } },
                    },
                },
                secondary_contents: secondary,
            },
        },
        estimated_results: s("1234"),
        refinements,
    }
}

#[test]
fn search_with_nothing_found() {
    let (titles, info, token) = search_response(None, Vec::new(), None, Vec::new()).into_widgets();
    assert_eq!(titles, vec![spaced(raw("1234 results")), underlined("Filters"), gap().0]);
    assert_eq!(info, vec![(nothing(), Node::Nothing), (nothing(), Node::Nothing), gap().1]);
    assert_eq!(token, None);
}

#[test]
fn search_suggestions_and_filters() {
    let groups = vec![Group {
        search_filter_group_renderer: SearchFilterGroupRenderer {
            filters: vec![
                filter("Today", Some("FILTER_STATUS_SELECTED"), None),
                filter("HD", None, Some(search_to("q", Some("hd")))),
            ],
            title: simple("Upload date"),
        },
    }];
    let (titles, info, _) =
        search_response(Some(vec![s("cats"), s("dogs")]), groups, None, Vec::new()).into_widgets();
    assert_eq!(
        titles,
        vec![
            spaced(raw("1234 results")),
            underlined("Search suggestions"),
            raw_label("cats"),
            raw_label("dogs"),
            gap().0,
            underlined("Filters"),
            underlined("Upload date"),
            one_line(Line { spans: vec![Span { content: s("Today"), style: Style { bold: true, ..plain() } }] }),
            one_line(raw("HD")),
            gap().0,
        ]
    );
    assert_eq!(info[2], (nothing(), Node::Search(s("cats"), None)));
    assert_eq!(info[3], (nothing(), Node::Search(s("dogs"), None)));
    assert_eq!(info[7], (raw_detail("tip", true), Node::Nothing));
    assert_eq!(info[8], (raw_detail("tip", true), Node::Search(s("q"), Some(s("hd")))));
    assert_eq!(info.len(), 10);
}

#[test]
fn search_results_of_each_kind() {
    let contents = vec![
        section(vec![
            SectionListRendererContentItemSectionRendererContent::DidYouMean {
                did_you_mean_renderer: DidYouMeanRenderer {
                    corrected_query: text(&["rust ", "lang"]),
                    corrected_query_endpoint: search_to("rust lang", Some("p")),
                },
            },
            SectionListRendererContentItemSectionRendererContent::AdSlot { ad_slot_renderer: AdSlotRenderer {} },
            SectionListRendererContentItemSectionRendererContent::Channel {
                channel_renderer: ChannelRenderer {
                    channel_id: s("chan"),
                    title: simple("A channel"),
                    description_snippet: text(&["about"]),
                },
            },
            SectionListRendererContentItemSectionRendererContent::Playlist {
                playlist_renderer: PlaylistRenderer {
                    playlist_id: s("pl"),
                    title: simple("A list"),
                    videos: vec![Video {
                        child_video_renderer: ChildVideoRenderer {
                            title: simple("First"),
                            length_text: said("1 minute"),
                            video_id: s("v1"),
                        },
                    }],
                    thumbnail_text: text(&["12 videos"]),
                    long_byline_text: text(&["Maker"]),
                },
            },
            SectionListRendererContentItemSectionRendererContent::BackgroundPromo {
                background_promo_renderer: BackgroundPromoRenderer {
                    title: text(&["No results"]),
                    body_text: text(&["Try again"]),
                },
            },
        ]),
        SectionListRendererContent::ContinuationItem { continuation_item_renderer: end("first") },
        SectionListRendererContent::ContinuationItem { continuation_item_renderer: end("last") },
    ];
    let (titles, info, token) = search_response(None, Vec::new(), None, contents).into_widgets();
    assert_eq!(token, Some(s("last")));
    assert_eq!(
        titles.into_iter().skip(3).collect::<Vec<_>>(),
        vec![
            one_line(Line { spans: vec![span("Did you mean: "), span("rust "), span("lang")] }),
            spaced(raw("A channel")),
            spaced(raw("A list")),
            raw_label("First"),
            gap().0,
            one_line(raw("No results")),
        ]
    );
    assert_eq!(
        info.into_iter().skip(3).collect::<Vec<_>>(),
        vec![
            (nothing(), Node::Search(s("rust lang"), Some(s("p")))),
            (lines(vec![raw("about")], true), Node::Channel(s("chan"), None)),
            (lines(vec![raw("Maker"), raw("12 videos")], true), Node::Playlist(s("pl"))),
            (raw_detail("1 minute", true), Node::Video(s("v1"))),
            gap().1,
            (lines(vec![raw("Try again")], true), Node::Nothing),
        ]
    );
}

#[test]
fn search_card_beside_the_results() {
    let card = UniversalWatchCardRenderer {
        call_to_action: CallToAction {
            watch_card_hero_video_renderer: WatchCardHeroVideoRenderer {
                navigation_endpoint: watch("hero"),
                title: simple("Hero"),
                subtitle: simple("sub"),
                length_text: said("3 minutes"),
            },
        },
        header: UniversalWatchCardRendererHeader {
            watch_card_rich_header_renderer: WatchCardRichHeaderRenderer {
                title: simple("Artist"),
                title_navigation_endpoint: endpoint("artist", Some("dropped")),
                subtitle: simple("Singer"),
                color_supported_datas: Color {
                    basic_color_palette_data: BasicColorPaletteData {
                        background_color: Some(0xFF000080),
                        foreground_title_color: 0xFFFFFFFF,
                        foreground_body_color: None,
                    },
                },
            },
        },
        sections: vec![UniversalWatchCardRendererSection {
            watch_card_section_sequence_renderer: WatchCardSectionSequenceRenderer {
                lists: vec![List {
                    vertical_watch_card_list_renderer: VerticalWatchCardListRenderer {
                        items: vec![VerticalWatchCardListRendererItem {
                            watch_card_compact_video_renderer: WatchCardCompactVideoRenderer {
                                title: simple("Song"),
                                subtitle: simple("2M views"),
                                length_text: said("4 minutes"),
                                navigation_endpoint: watch("song"),
                            },
                        }],
                        view_all_endpoint: endpoint("artist", Some("all")),
                    },
                }],
            },
        }],
    };
    let secondary = Some(SecondaryContents {
        secondary_search_container_renderer: SecondarySearchContainerRenderer {
            contents: vec![SecondarySearchContainerRendererContent { universal_watch_card_renderer: card }],
        },
    });
    let (titles, info, _) = search_response(None, Vec::new(), secondary, Vec::new()).into_widgets();
    let navy = Some(Colour { red: 0, green: 0, blue: 128 });
    let white = Some(Colour { red: 255, green: 255, blue: 255 });
    assert_eq!(
        titles.into_iter().skip(3).collect::<Vec<_>>(),
        vec![
            Label { style: Style { fg: white, bg: navy, ..plain() }, ..spaced(raw("Artist")) },
            spaced(raw("Hero")),
            spaced(raw("Song")),
            raw_label("View all"),
            gap().0,
        ]
    );
    assert_eq!(
        info.into_iter().skip(3).collect::<Vec<_>>(),
        vec![
            (
                Detail { style: Style { fg: None, bg: navy, ..plain() }, ..raw_detail("Singer", true) },
                Node::Channel(s("artist"), None)
            ),
            (lines(vec![raw("sub"), raw(""), raw("3 minutes")], true), Node::Video(s("hero"))),
            (lines(vec![raw("2M views"), raw(""), raw("4 minutes")], true), Node::Video(s("song"))),
            (nothing(), Node::Channel(s("artist"), Some(s("all")))),
            gap().1,
        ]
    );
}

#[test]
fn search_continuation_adds_to_the_rows_at_hand() {
    let response = SearchContinuationResponse {
        on_response_received_commands: vec![ContinueOnResponseReceivedAction {
            append_continuation_items_action: AppendContinuationItemsAction {
                continuation_items: vec![
                    section(vec![SectionListRendererContentItemSectionRendererContent::Channel {
                        channel_renderer: ChannelRenderer {
                            channel_id: s("c"),
                            title: simple("C"),
                            description_snippet: text(&[]),
                        },
                    }]),
                    SectionListRendererContent::ContinuationItem { continuation_item_renderer: end("t") },
                ],
            },
        }],
    };
    let mut titles = vec![Label::gap()];
    let mut info = vec![(Detail::empty(), Node::Nothing)];
    assert_eq!(response.into_widgets(&mut titles, &mut info), Some(s("t")));
    assert_eq!(titles, vec![gap().0, spaced(raw("C"))]);
    assert_eq!(info[1], (lines(vec![no_spans()], true), Node::Channel(s("c"), None)));
}
