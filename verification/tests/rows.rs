use ytnav::comments::{
    AuthorCommentBadge, AuthorCommentBadgeRenderer, Button, ButtonRenderer, Comment,
    CommentContinuationItemRenderer, CommentRenderer, CommentRepliesRenderer,
    CommentThreadRenderer, CommentsResponse, ContinuationItem, OnResponseReceivedEndpoint,
    PinnedCommentBadge, PinnedCommentBadgeRenderer, ReloadContinuationItemsCommand, Replies,
};
use ytnav::continuation::ContinuationResponse;
use ytnav::items::{
    int_to_colour, Colour, Content, Detail, Label, Line, Node, Span, Style,
};
use ytnav::renderers::{
    add_all, add_to_token, Accessibility, AccessibilityData, AccessibleText,
    AppendContinuationItemsAction, Badge, BasicColorPaletteData, BrowseEndpoint, Card, Color,
    ContinuationCommand, ContinuationEndpoint, ContinuationItemRenderer,
    ContinueOnResponseReceivedAction, DetailedMetadataSnippet, Endpoint,
    ExpandedShelfContentsRenderer, Game, GameCardRenderer, GameDetailsRenderer, GridRenderer,
    GridVideoRenderer, Header, HorizontalCardListRenderer, IntoWidgets,
    MetadataBadgeRendererOwner, MetadataBadgeRendererVideo, ReelItemRenderer, ReelShelfRenderer,
    RichGridRendererContent, RichItem, RichItemRenderer, RichItemRendererContent,
    RichListHeaderRenderer, RichSectionItemRendererContent, RichSectionRenderer,
    RichSectionRendererContent, RichShelfRenderer, Run, SearchEndpoint,
    SearchFilterRendererNavigationEndpoint, SearchRefinementCardRenderer, ShelfRenderer,
    ShelfRendererContent, ShortViewCountText, SimpleText, Text, Title, VerticalListRenderer,
    VerticalListRendererItem, VerticalListRendererItemVideoRenderer, VideoCardRenderer,
    VideoRenderer,
};

fn s(text: &str) -> String {
    text.to_string()
}

fn simple(text: &str) -> SimpleText {
    SimpleText { simple_text: s(text) }
}

fn text(runs: &[&str]) -> Text {
    Text { runs: runs.iter().map(|run| Run { text: s(run), bold: None, italics: None }).collect() }
}

fn said(label: &str) -> AccessibleText {
    AccessibleText { accessibility: Accessibility { accessibility_data: AccessibilityData { label: s(label) } } }
}

fn token(t: &str) -> ContinuationEndpoint {
    ContinuationEndpoint { continuation_command: ContinuationCommand { token: s(t) } }
}

fn end(t: &str) -> ContinuationItemRenderer {
    ContinuationItemRenderer { continuation_endpoint: token(t) }
}

fn endpoint(id: &str, params: Option<&str>) -> Endpoint {
    Endpoint { browse_endpoint: BrowseEndpoint { browse_id: s(id), params: params.map(s) } }
}

fn labels(names: &[&str]) -> Vec<Badge<MetadataBadgeRendererVideo>> {
    names
        .iter()
        .map(|n| Badge { metadata_badge_renderer: MetadataBadgeRendererVideo { label: s(n) } })
        .collect()
}

fn tooltips(names: &[&str]) -> Vec<Badge<MetadataBadgeRendererOwner>> {
    names
        .iter()
        .map(|n| Badge { metadata_badge_renderer: MetadataBadgeRendererOwner { tooltip: s(n) } })
        .collect()
}

fn plain() -> Style {
    Style::default()
}

fn raw(content: &str) -> Line {
    Line { spans: vec![Span { content: s(content), style: plain() }] }
}

fn line(runs: &[&str]) -> Line {
    Line { spans: runs.iter().map(|r| Span { content: s(r), style: plain() }).collect() }
}

fn no_spans() -> Line {
    Line { spans: Vec::new() }
}

fn spaced(first: Line) -> Label {
    Label { content: Content::Lines(vec![first, no_spans()]), style: plain() }
}

fn one_line(first: Line) -> Label {
    Label { content: Content::Lines(vec![first]), style: plain() }
}

fn underlined(content: &str) -> Label {
    one_line(Line {
        spans: vec![Span { content: s(content), style: Style { underlined: true, ..plain() } }],
    })
}

fn wrapped(lines: Vec<Line>) -> Detail {
    Detail { content: Content::Lines(lines), style: plain(), wrap: true }
}

fn nothing() -> Detail {
    Detail { content: Content::Lines(Vec::new()), style: plain(), wrap: false }
}

fn gap() -> (Label, (Detail, Node)) {
    (one_line(no_spans()), (nothing(), Node::Nothing))
}

fn rows_of<T: IntoWidgets>(item: T) -> (Vec<Label>, Vec<(Detail, Node)>, Option<String>) {
    let mut titles = Vec::new();
    let mut info = Vec::new();
    let token = item.into_widgets(&mut titles, &mut info);
    (titles, info, token)
}

fn video_renderer(id: &str) -> VideoRenderer {
    VideoRenderer {
        badges: None,
        description_snippet: None,
        length_text: None,
        owner_badges: None,
        owner_text: text(&["Owner"]),
        published_time_text: None,
        short_view_count_text: ShortViewCountText::Video(said("5 views")),
        title: text(&["Title ", id]),
        video_id: s(id),
    }
}

fn video_row(id: &str) -> (Label, (Detail, Node)) {
    (
        spaced(line(&["Title ", id])),
        (wrapped(vec![raw("Owner"), raw(""), raw("5 views"), raw("")]), Node::Video(s(id))),
    )
}

#[test]
fn colours_from_numbers() {
    assert_eq!(int_to_colour(0xFF112233), Colour { red: 0x11, green: 0x22, blue: 0x33 });
    assert_eq!(int_to_colour(0), Colour { red: 0, green: 0, blue: 0 });
    assert_eq!(int_to_colour(u32::MAX), Colour { red: 255, green: 255, blue: 255 });
    assert_eq!(int_to_colour(0x00010000), Colour { red: 1, green: 0, blue: 0 });
}

#[test]
fn text_runs_become_spans() {
    let t = Text {
        runs: vec![
            Run { text: s("a"), bold: Some(true), italics: None },
            Run { text: s("b"), bold: Some(false), italics: Some(true) },
            Run { text: s("c"), bold: None, italics: None },
        ],
    };
    assert_eq!(
        t.into_line(),
        Line {
            spans: vec![
                Span { content: s("a"), style: Style { bold: true, ..plain() } },
                Span { content: s("b"), style: Style { italic: true, ..plain() } },
                Span { content: s("c"), style: plain() },
            ]
        }
    );
    let u = Text { runs: vec![Run { text: s("a"), bold: Some(true), italics: Some(true) }] };
    assert_eq!(
        u.underlined(),
        Line {
            spans: vec![Span {
                content: s("a"),
                style: Style { bold: true, italic: true, underlined: true, ..plain() }
            }]
        }
    );
    assert_eq!(text(&[]).into_line(), no_spans());
}

#[test]
fn video_renderer_with_the_least() {
    let (titles, info, token) = rows_of(video_renderer("x"));
    assert_eq!(titles, vec![video_row("x").0]);
    assert_eq!(info, vec![video_row("x").1]);
    assert_eq!(token, None);
}

#[test]
fn video_renderer_with_everything() {
    let full = VideoRenderer {
        badges: Some(labels(&["New", "4K"])),
        description_snippet: Some(text(&["About ", "it"])),
        length_text: Some(said("3 minutes")),
        owner_badges: Some(tooltips(&["Verified"])),
        owner_text: text(&["Owner"]),
        published_time_text: Some(simple("1 day ago")),
        short_view_count_text: ShortViewCountText::Stream(text(&["9", " watching"])),
        title: text(&["T"]),
        video_id: s("id"),
    };
    let (titles, info, _) = rows_of(full);
    assert_eq!(titles, vec![spaced(raw("T"))]);
    assert_eq!(
        info,
        vec![(
            wrapped(vec![
                raw("Owner"),
                raw(""),
                line(&["9", " watching"]),
                raw(""),
                line(&["About ", "it"]),
                raw(""),
                raw("3 minutes"),
                raw("1 day ago"),
                raw("Badges: New, 4K"),
                raw("Owner badges: Verified"),
            ]),
            Node::Video(s("id"))
        )]
    );
}

#[test]
fn badges_without_any_name() {
    let mut v = video_renderer("x");
    v.badges = Some(Vec::new());
    v.owner_badges = Some(tooltips(&["a", "b", "c"]));
    let (_, info, _) = rows_of(v);
    match &info[0].0.content {
        Content::Lines(lines) => {
            assert_eq!(lines[4], raw("Badges: "));
            assert_eq!(lines[5], raw("Owner badges: a, b, c"));
        }
        other => panic!("{other:?}"),
    }
}

fn game(title: &str, viewers: Option<&str>) -> GameCardRenderer {
    GameCardRenderer {
        game: Game {
            game_details_renderer: GameDetailsRenderer {
                title: simple(title),
                endpoint: endpoint("gid", Some("gp")),
                live_viewers_text: viewers.map(said),
            },
        },
    }
}

#[test]
fn game_rows() {
    let (titles, info, token) = rows_of(game("Chess", Some("12 watching")));
    assert_eq!(titles, vec![spaced(raw("Chess"))]);
    assert_eq!(
        info,
        vec![(
            Detail { content: Content::Raw(s("12 watching")), style: plain(), wrap: true },
            Node::Game(s("gid"), Some(s("gp")))
        )]
    );
    assert_eq!(token, None);
    let (_, info, _) = rows_of(game("Chess", None));
    assert_eq!(info[0].0, wrapped(Vec::new()));
}

#[test]
fn grid_content_rows_and_token() {
    let (titles, info, token) = rows_of(RichGridRendererContent::RichItem(RichItem {
        rich_item_renderer: RichItemRenderer {
            content: RichItemRendererContent { video_renderer: video_renderer("a") },
        },
    }));
    assert_eq!((titles, info, token), (vec![video_row("a").0], vec![video_row("a").1], None));

    let (titles, info, token) = rows_of(RichGridRendererContent::ContinuationItem {
        continuation_item_renderer: end("more"),
    });
    assert_eq!((titles.len(), info.len(), token), (0, 0, Some(s("more"))));

    let grid_video = GridVideoRenderer {
        badges: Some(labels(&["CC"])),
        owner_badges: None,
        published_time_text: Some(simple("today")),
        short_byline_text: text(&["By"]),
        short_view_count_text: Some(ShortViewCountText::Video(said("1 view"))),
        title: text(&["G"]),
        video_id: s("g"),
    };
    let (titles, info, _) =
        rows_of(RichGridRendererContent::GridVideoRenderer { grid_video_renderer: grid_video });
    assert_eq!(titles, vec![spaced(raw("G"))]);
    assert_eq!(
        info,
        vec![(
            wrapped(vec![raw("By"), raw(""), raw("today"), raw("1 view"), raw("Badges: CC")]),
            Node::Video(s("g"))
        )]
    );
}

#[test]
fn section_has_heading_contents_and_gap() {
    let section = RichSectionRenderer {
        content: RichSectionRendererContent {
            rich_shelf_renderer: RichShelfRenderer {
                contents: vec![
                    RichItem {
                        rich_item_renderer: RichItemRenderer {
                            content: RichSectionItemRendererContent::Video(
                                RichItemRendererContent { video_renderer: video_renderer("a") },
                            ),
                        },
                    },
                    RichItem {
                        rich_item_renderer: RichItemRenderer {
                            content: RichSectionItemRendererContent::ReelItem {
                                reel_item_renderer: ReelItemRenderer {
                                    headline: simple("Short"),
                                    video_id: s("r"),
                                    view_count_text: said("7 views"),
                                },
                            },
                        },
                    },
                    RichItem {
                        rich_item_renderer: RichItemRenderer {
                            content: RichSectionItemRendererContent::Game {
                                game_card_renderer: game("Go", None),
                            },
                        },
                    },
                ],
                endpoint: Some(endpoint("shelf", None)),
                subtitle: None,
                title: text(&["Shelf"]),
            },
        },
    };
    let (titles, info, token) =
        rows_of(RichGridRendererContent::RichSection { rich_section_renderer: section });
    assert_eq!(token, None);
    assert_eq!(
        titles,
        vec![
            underlined("Shelf"),
            video_row("a").0,
            spaced(raw("Short")),
            spaced(raw("Go")),
            gap().0
        ]
    );
    assert_eq!(info.len(), 5);
    assert_eq!(info[0], (wrapped(vec![no_spans()]), Node::Game(s("shelf"), None)));
    assert_eq!(
        info[2],
        (
            Detail { content: Content::Raw(s("7 views")), style: plain(), wrap: true },
            Node::Video(s("r"))
        )
    );
    assert_eq!(info[4], gap().1);
}

fn grid_items(ids: &[&str]) -> Vec<RichGridRendererContent> {
    ids.iter()
        .map(|id| match id.strip_prefix("token:") {
            Some(t) => RichGridRendererContent::ContinuationItem { continuation_item_renderer: end(t) },
            None => RichGridRendererContent::GameCard { game_card_renderer: game(id, None) },
        })
        .collect()
}

#[test]
fn all_rows_keep_the_last_token() {
    let mut titles = vec![Label::gap()];
    let mut info = vec![(Detail::empty(), Node::Nothing)];
    let items = grid_items(&["a", "token:1", "b", "token:2", "c"]);
    assert_eq!(add_all(items, &mut titles, &mut info), Some(s("2")));
    assert_eq!(titles, vec![gap().0, spaced(raw("a")), spaced(raw("b")), spaced(raw("c"))]);
    assert_eq!(info.len(), 4);
    assert_eq!(add_all(grid_items(&["d"]), &mut titles, &mut info), None);
    assert_eq!(add_all(grid_items(&[]), &mut titles, &mut info), None);
    assert_eq!(titles.len(), 5);
}

#[test]
fn rows_to_the_first_token_leave_out_the_rest() {
    let mut titles = Vec::new();
    let mut info = Vec::new();
    let items = grid_items(&["a", "token:1", "b", "token:2"]);
    assert_eq!(add_to_token(items, &mut titles, &mut info), Some(s("1")));
    assert_eq!(titles, vec![spaced(raw("a"))]);
    assert_eq!(add_to_token(grid_items(&["c", "d"]), &mut titles, &mut info), None);
    assert_eq!(titles.len(), 3);
}

#[test]
fn shelf_with_and_without_title() {
    let shelf = ShelfRenderer {
        content: ShelfRendererContent::Grid {
            grid_renderer: GridRenderer { items: grid_items(&["a", "token:t", "b"]) },
        },
        subtitle: Some(text(&["sub"])),
        title: Some(Title::ItemSectionRenderer(simple("Shelf"))),
    };
    let (titles, info, token) = rows_of(shelf);
    assert_eq!(titles, vec![underlined("Shelf"), spaced(raw("a"))]);
    assert_eq!(info[0], (wrapped(vec![raw("sub")]), Node::Nothing));
    assert_eq!(token, Some(s("t")));

    let untitled = ShelfRenderer {
        content: ShelfRendererContent::ExpandedShelfContents {
            expanded_shelf_contents_renderer: ExpandedShelfContentsRenderer {
                items: vec![RichItemRendererContent { video_renderer: video_renderer("v") }],
            },
        },
        subtitle: Some(text(&["lost"])),
        title: None,
    };
    let (titles, info, token) = rows_of(untitled);
    assert_eq!((titles, info, token), (vec![video_row("v").0], vec![video_row("v").1], None));
}

#[test]
fn vertical_list_item_with_snippets() {
    let item = VerticalListRendererItem {
        video_renderer: VerticalListRendererItemVideoRenderer {
            video_id: s("id"),
            title: text(&["T"]),
            published_time_text: Some(simple("now")),
            length_text: Some(said("1 minute")),
            badges: None,
            owner_badges: None,
            owner_text: text(&["O"]),
            short_view_count_text: ShortViewCountText::Video(said("2 views")),
            detailed_metadata_snippets: Some(vec![
                DetailedMetadataSnippet { snippet_text: text(&["one"]) },
                DetailedMetadataSnippet { snippet_text: text(&["two", "!"]) },
            ]),
        },
    };
    let shelf = ShelfRendererContent::VerticalList {
        vertical_list_renderer: VerticalListRenderer { items: vec![item] },
    };
    let (titles, info, token) = rows_of(shelf);
    assert_eq!(titles, vec![spaced(raw("T"))]);
    assert_eq!(
        info,
        vec![(
            wrapped(vec![
                raw("O"),
                raw(""),
                raw("2 views"),
                raw("now"),
                raw("1 minute"),
                no_spans(),
                raw("one"),
                line(&["two", "!"]),
            ]),
            Node::Video(s("id"))
        )]
    );
    assert_eq!(token, None);
}

#[test]
fn card_list_rows() {
    let list = HorizontalCardListRenderer {
        cards: vec![
            Card::Video {
                video_card_renderer: VideoCardRenderer {
                    length_text: Some(said("2 hours")),
                    metadata_text: simple("meta"),
                    owner_badges: Some(tooltips(&["A", "B"])),
                    title: text(&["Card"]),
                    video_id: s("c"),
                },
            },
            Card::Game { game_card_renderer: game("Go", None) },
            Card::SearchRefinementCard {
                search_refinement_card_renderer: SearchRefinementCardRenderer {
                    query: text(&["cats ", "videos"]),
                    search_endpoint: SearchFilterRendererNavigationEndpoint {
                        search_endpoint: SearchEndpoint { query: s("cats videos"), params: Some(s("p")) },
                    },
                },
            },
        ],
        header: Header {
            rich_list_header_renderer: RichListHeaderRenderer {
                title: Title::ReelShelfRenderer(text(&["People also ", "watched"])),
                subtitle: None,
            },
        },
    };
    let (titles, info, token) = rows_of(list);
    assert_eq!(token, None);
    let under = Style { underlined: true, ..plain() };
    assert_eq!(
        titles[0],
        one_line(Line {
            spans: vec![
                Span { content: s("People also "), style: under },
                Span { content: s("watched"), style: under }
            ]
        })
    );
    assert_eq!(info[0], (wrapped(vec![no_spans()]), Node::Nothing));
    assert_eq!(titles[1], spaced(raw("Card")));
    assert_eq!(
        info[1],
        (
            wrapped(vec![raw("meta"), raw(""), raw("Length: 2 hours"), raw("Badges: AB")]),
            Node::Video(s("c"))
        )
    );
    assert_eq!(titles[3], one_line(line(&["cats ", "videos"])));
    // The search of a refinement card drops the parameters.
    assert_eq!(info[3], (wrapped(Vec::new()), Node::Search(s("cats videos"), None)));
    assert_eq!((titles.len(), info.len()), (4, 4));
}

#[test]
fn reel_shelf_rows() {
    let shelf = ReelShelfRenderer {
        items: vec![RichSectionItemRendererContent::Game { game_card_renderer: game("Go", None) }],
        title: Title::ItemSectionRenderer(simple("Shorts")),
    };
    let (titles, info, _) = rows_of(shelf);
    assert_eq!(titles, vec![underlined("Shorts"), spaced(raw("Go"))]);
    assert_eq!(info[0], (nothing(), Node::Nothing));
}

#[test]
fn title_lines() {
    assert_eq!(Title::ItemSectionRenderer(simple("x")).into_line(), raw("x"));
    assert_eq!(Title::ReelShelfRenderer(text(&["a", "b"])).into_line(), line(&["a", "b"]));
}

fn comment(author: &str) -> CommentRenderer {
    CommentRenderer {
        author_text: simple(author),
        author_endpoint: endpoint("chan", None),
        content_text: text(&["Nice"]),
        published_time_text: text(&["1 hour ago"]),
        author_is_channel_owner: false,
        vote_count: None,
        pinned_comment_badge: None,
        author_comment_badge: None,
        reply_count: None,
    }
}

fn colour(fg: u32, bg: Option<u32>) -> Color {
    Color {
        basic_color_palette_data: BasicColorPaletteData {
            background_color: bg,
            foreground_title_color: fg,
            foreground_body_color: None,
        },
    }
}

#[test]
fn comment_with_the_least() {
    let (titles, info, token) = rows_of(Comment::Comment { comment_renderer: Box::new(comment("Ann")) });
    assert_eq!(titles, vec![spaced(raw("Ann"))]);
    assert_eq!(
        info,
        vec![(wrapped(vec![raw("Nice"), raw(""), raw("1 hour ago")]), Node::Nothing)]
    );
    assert_eq!(token, None);
}

#[test]
fn comment_with_everything() {
    let mut c = comment("Ann");
    c.author_is_channel_owner = true;
    c.vote_count = Some(said("3 likes"));
    c.pinned_comment_badge = Some(PinnedCommentBadge {
        pinned_comment_badge_renderer: PinnedCommentBadgeRenderer {
            label: text(&["Pinned by ", "Bob"]),
            color: colour(0xFF0000FF, None),
        },
    });
    c.author_comment_badge = Some(AuthorCommentBadge {
        author_comment_badge_renderer: AuthorCommentBadgeRenderer {
            color: Some(colour(0x00FFFFFF, Some(0x00808080))),
            icon_tooltip: s("Verified"),
        },
    });
    c.reply_count = Some(501);
    let (_, info, _) = rows_of(Comment::Comment { comment_renderer: Box::new(c) });
    let blue = Style { fg: Some(Colour { red: 0, green: 0, blue: 255 }), ..plain() };
    let badge = Style {
        fg: Some(Colour { red: 255, green: 255, blue: 255 }),
        bg: Some(Colour { red: 128, green: 128, blue: 128 }),
        ..plain()
    };
    assert_eq!(
        info,
        vec![(
            wrapped(vec![
                raw("Nice"),
                raw(""),
                raw("1 hour ago"),
                raw("3 likes"),
                raw("Video uploader"),
                Line {
                    spans: vec![
                        Span { content: s("Pinned by "), style: blue },
                        Span { content: s("Bob"), style: blue }
                    ]
                },
                Line { spans: vec![Span { content: s("Verified"), style: badge }] },
                raw("501 replies"),
            ]),
            Node::Nothing
        )]
    );
}

#[test]
fn author_badge_without_colour_is_plain() {
    let mut c = comment("Ann");
    c.author_comment_badge = Some(AuthorCommentBadge {
        author_comment_badge_renderer: AuthorCommentBadgeRenderer { color: None, icon_tooltip: s("Member") },
    });
    c.reply_count = Some(0);
    let (_, info, _) = rows_of(Comment::Comment { comment_renderer: Box::new(c) });
    assert_eq!(
        info[0].0,
        wrapped(vec![raw("Nice"), raw(""), raw("1 hour ago"), raw("Member"), raw("0 replies")])
    );
}

fn replies(tokens: &[&str]) -> Option<Replies> {
    Some(Replies {
        comment_replies_renderer: CommentRepliesRenderer {
            contents: tokens
                .iter()
                .map(|t| ytnav::comments::Content { continuation_item_renderer: end(t) })
                .collect(),
        },
    })
}

fn thread(author: &str, tokens: Option<&[&str]>) -> ContinuationItem {
    ContinuationItem::CommentThread {
        comment_thread_renderer: Box::new(CommentThreadRenderer {
            comment: Comment::Comment { comment_renderer: Box::new(comment(author)) },
            replies: tokens.and_then(replies),
        }),
    }
}

#[test]
fn comment_threads_lead_to_their_replies() {
    let (_, info, token) = rows_of(thread("Ann", Some(&["first", "second"])));
    assert_eq!(info[0].1, Node::Comment(s("first")));
    assert_eq!(token, None);
    let (_, info, _) = rows_of(thread("Ann", None));
    assert_eq!(info[0].1, Node::Nothing);
    let (_, info, _) = rows_of(thread("Ann", Some(&[])));
    assert_eq!(info[0].1, Node::Nothing);
}

#[test]
fn comments_response_rows_and_last_token() {
    let response = CommentsResponse {
        on_response_received_endpoints: vec![
            OnResponseReceivedEndpoint {
                reload_continuation_items_command: ReloadContinuationItemsCommand {
                    continuation_items: vec![ContinuationItem::CommentsHeader {}],
                },
            },
            OnResponseReceivedEndpoint {
                reload_continuation_items_command: ReloadContinuationItemsCommand {
                    continuation_items: vec![
                        thread("Ann", Some(&["ra"])),
                        thread("Bob", None),
                        ContinuationItem::ContinuationItem { continuation_item_renderer: end("more") },
                    ],
                },
            },
        ],
    };
    let (titles, info, token) = rows_of(response);
    assert_eq!(titles, vec![spaced(raw("Ann")), spaced(raw("Bob"))]);
    assert_eq!(info[0].1, Node::Comment(s("ra")));
    assert_eq!(info[1].1, Node::Nothing);
    assert_eq!(token, Some(s("more")));
}

#[test]
fn replies_end_with_a_token() {
    let response = ContinuationResponse {
        on_response_received_actions: vec![ContinueOnResponseReceivedAction {
            append_continuation_items_action: AppendContinuationItemsAction {
                continuation_items: vec![
                    Comment::Comment { comment_renderer: Box::new(comment("Cy")) },
                    Comment::ContinuationItem {
                        continuation_item_renderer: CommentContinuationItemRenderer {
                            button: Button { button_renderer: ButtonRenderer { command: token("next") } },
                        },
                    },
                ],
            },
        }],
    };
    let mut titles = vec![Label::gap()];
    let mut info = vec![(Detail::empty(), Node::Nothing)];
    let token = response.into_widgets(&mut titles, &mut info);
    assert_eq!(token, Some(s("next")));
    assert_eq!(titles, vec![gap().0, spaced(raw("Cy"))]);
    assert_eq!(info.len(), 2);
}
