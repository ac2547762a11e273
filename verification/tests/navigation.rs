use ytnav::browser::{clamped, Browser, Command, Listing};
use ytnav::items::{Detail, Label, Node};
use ytnav::page::{Body, Fetch, NavError, Outcome, Page, Shape};

const BROWSE: &str = "https://www.youtube.com/youtubei/v1/browse";
const SEARCH: &str = "https://www.youtube.com/youtubei/v1/search";
const NEXT: &str = "https://www.youtube.com/youtubei/v1/next";
const TRANSCRIPT: &str = "https://www.youtube.com/youtubei/v1/get_transcript";

fn s(text: &str) -> String {
    text.to_string()
}

fn jar() -> Vec<String> {
    vec![s(".youtube.com\tTRUE\t/\tTRUE\t0\t__Secure-YEC\tVISITOR")]
}

fn no_jar() -> Vec<String> {
    Vec::new()
}

fn home(token: Option<&str>) -> Page {
    Page::Home { continuation: token.map(s) }
}

fn listing(nodes: Vec<Node>, token: Option<&str>) -> Listing {
    Listing {
        titles: nodes.iter().map(|_| Label::gap()).collect(),
        details: nodes.into_iter().map(|node| (Detail::empty(), node)).collect(),
        continuation: token.map(s),
    }
}

fn videos(n: usize) -> Vec<Node> {
    (0..n).map(|i| Node::Video(format!("v{i}"))).collect()
}

fn browse(fetch: &Fetch) -> &ytnav::requests::BrowseRequest {
    match &fetch.body {
        Body::Browse(request) => request,
        other => panic!("not a browse request: {other:?}"),
    }
}

#[test]
fn page_titles() {
    let from_home = |node: Node| Page::home().enter(&node, 0).0.to_string();
    assert_eq!(Page::home().to_string(), "Home");
    assert_eq!(from_home(Node::Header(s("t"))), "A category");
    assert_eq!(from_home(Node::Game(s("g"), None)), "A game");
    assert_eq!(from_home(Node::Search(s("rust verus"), None)), "rust verus");
    assert_eq!(from_home(Node::Transcript(s("p"))), "Transcript");
    assert_eq!(from_home(Node::CommentSection(s("c"))), "Comments");
    assert_eq!(from_home(Node::Comment(s("c"))), "A comment");
    assert_eq!(Page::home().recommendations(&Node::Video(s("v")), 0).0.to_string(), "Recommendations");
}

#[test]
fn entering_pushes_the_matching_page() {
    let start = home(Some("h"));
    let (page, outcome) = home(Some("h")).enter(&Node::Header(s("tok")), 3);
    assert_eq!(outcome, Outcome::Reload);
    assert_eq!(
        page,
        Page::Category { continuation: Some(s("tok")), previous: (Box::new(start), 3) }
    );
    let (page, _) = page.enter(&Node::Game(s("gid"), Some(s("gp"))), 1);
    match &page {
        Page::Game { browse_id, continuation, params, previous } => {
            assert_eq!((browse_id.as_str(), continuation, params.as_deref()), ("gid", &None, Some("gp")));
            assert_eq!(previous.1, 1);
            assert!(matches!(*previous.0, Page::Category { .. }));
        }
        other => panic!("{other:?}"),
    }
    let (page, _) = page.enter(&Node::Search(s("q"), Some(s("sp"))), 0);
    assert!(matches!(&page, Page::Search { query, params: Some(p), continuation: None, .. } if query == "q" && p == "sp"));
    let (page, _) = page.enter(&Node::Transcript(s("tp")), 0);
    assert!(matches!(&page, Page::Transcript { params, .. } if params == "tp"));
    let (page, _) = page.enter(&Node::CommentSection(s("cs")), 0);
    assert!(matches!(&page, Page::CommentSection { first_continuation, continuation: None, .. } if first_continuation == "cs"));
    let (page, outcome) = page.enter(&Node::Comment(s("cm")), 9);
    assert!(matches!(&page, Page::Comment { first_continuation, continuation: None, previous } if first_continuation == "cm" && previous.1 == 9));
    assert_eq!(outcome, Outcome::Reload);
}

#[test]
fn video_channel_playlist_and_nothing_leave_the_page() {
    let stay = |node: Node| home(Some("h")).enter(&node, 2);
    assert_eq!(stay(Node::Video(s("vid"))), (home(Some("h")), Outcome::Play(s("vid"))));
    assert_eq!(stay(Node::Channel(s("c"), None)), (home(Some("h")), Outcome::Unsupported));
    assert_eq!(stay(Node::Playlist(s("p"))), (home(Some("h")), Outcome::Unsupported));
    assert_eq!(stay(Node::Nothing), (home(Some("h")), Outcome::Idle));
}

#[test]
fn back_stack_round_trip() {
    let nodes = [
        Node::Header(s("t")),
        Node::Game(s("g"), None),
        Node::Search(s("q"), None),
        Node::Transcript(s("p")),
        Node::CommentSection(s("c")),
        Node::Comment(s("r")),
    ];
    let mut page = home(Some("start"));
    for (row, node) in nodes.iter().enumerate() {
        page = page.enter(node, row * 10).0;
    }
    page = page.search(s("again"), 77);
    page = page.recommendations(&Node::Video(s("v")), 88).0;
    let mut rows = Vec::new();
    for _ in 0..nodes.len() + 2 {
        let (before, row) = page.back();
        rows.push(row);
        page = before;
    }
    assert_eq!(page, home(Some("start")));
    assert_eq!(
        rows,
        vec![Some(88), Some(77), Some(50), Some(40), Some(30), Some(20), Some(10), Some(0)]
    );
    // The home page has nothing before it.
    assert_eq!(page.back(), (home(Some("start")), None));
}

#[test]
fn request_of_each_page() {
    let at = |node: Node| home(None).enter(&node, 0).0;

    let fetch = home(Some("old")).request(&no_jar()).unwrap();
    assert_eq!(fetch, Fetch { url: "https://www.youtube.com", body: Body::Get, shape: Shape::HomeGrid });

    let fetch = at(Node::Header(s("tok"))).request(&jar()).unwrap();
    assert_eq!((fetch.url, fetch.shape), (BROWSE, Shape::GridContinuation));
    assert_eq!(browse(&fetch).continuation.as_deref(), Some("tok"));
    assert_eq!(browse(&fetch).context.client.visitor_data.as_deref(), Some("VISITOR"));

    let fetch = at(Node::Game(s("gid"), Some(s("gp")))).request(&jar()).unwrap();
    assert_eq!((fetch.url, fetch.shape), (BROWSE, Shape::General));
    assert_eq!(browse(&fetch).browse_id.as_deref(), Some("gid"));
    assert_eq!(browse(&fetch).params.as_deref(), Some("gp"));
    assert_eq!(browse(&fetch).continuation, None);
    assert_eq!(browse(&fetch).context.client.visitor_data.as_deref(), Some("VISITOR"));

    let fetch = at(Node::Search(s("q"), Some(s("sp")))).request(&no_jar()).unwrap();
    assert_eq!((fetch.url, fetch.shape), (SEARCH, Shape::Search));
    match &fetch.body {
        Body::Search(r) => assert_eq!((r.query.as_str(), r.params.as_deref()), ("q", Some("sp"))),
        other => panic!("{other:?}"),
    }

    let fetch = home(None).recommendations(&Node::Video(s("vid")), 0).0.request(&no_jar()).unwrap();
    assert_eq!((fetch.url, fetch.shape), (NEXT, Shape::Next));
    match &fetch.body {
        Body::Next(r) => assert_eq!(r.video_id, "vid"),
        other => panic!("{other:?}"),
    }

    let fetch = at(Node::Transcript(s("tp"))).request(&no_jar()).unwrap();
    assert_eq!((fetch.url, fetch.shape), (TRANSCRIPT, Shape::Transcript));
    assert_eq!(browse(&fetch).params.as_deref(), Some("tp"));
    assert_eq!(browse(&fetch).context.client.visitor_data, None);

    let fetch = at(Node::CommentSection(s("first"))).request(&no_jar()).unwrap();
    assert_eq!((fetch.url, fetch.shape), (NEXT, Shape::Comments));
    assert_eq!(browse(&fetch).continuation.as_deref(), Some("first"));

    let fetch = at(Node::Comment(s("first"))).request(&no_jar()).unwrap();
    assert_eq!((fetch.url, fetch.shape), (NEXT, Shape::Replies));
    assert_eq!(browse(&fetch).continuation.as_deref(), Some("first"));
}

#[test]
fn category_and_game_cannot_ask_without_the_visitor() {
    let category = home(None).enter(&Node::Header(s("t")), 0).0;
    assert_eq!(category.request(&no_jar()), Err(NavError::NoVisitor));
    let game = home(None).enter(&Node::Game(s("g"), None), 0).0;
    assert_eq!(game.request(&no_jar()), Err(NavError::NoVisitor));
}

#[test]
fn loaded_keeps_the_token_but_for_category_and_transcript() {
    let mut page = home(None);
    page.loaded(Some(s("next")));
    assert_eq!(page, home(Some("next")));
    page.loaded(None);
    assert_eq!(page, home(None));

    let mut category = home(None).enter(&Node::Header(s("own")), 0).0;
    category.loaded(Some(s("other")));
    assert!(matches!(&category, Page::Category { continuation: Some(t), .. } if t == "own"));

    let mut transcript = home(None).enter(&Node::Transcript(s("p")), 0).0;
    let before = home(None).enter(&Node::Transcript(s("p")), 0).0;
    transcript.loaded(Some(s("other")));
    assert_eq!(transcript, before);

    let mut comments = home(None).enter(&Node::CommentSection(s("first")), 0).0;
    comments.loaded(Some(s("more")));
    assert!(matches!(&comments, Page::CommentSection { first_continuation, continuation: Some(t), .. } if first_continuation == "first" && t == "more"));
}

#[test]
fn continue_without_a_token_changes_nothing() {
    for node in [
        Node::Game(s("g"), None),
        Node::Search(s("q"), None),
        Node::Transcript(s("p")),
        Node::CommentSection(s("c")),
        Node::Comment(s("c")),
    ] {
        let mut page = home(None).enter(&node, 0).0;
        let before = home(None).enter(&node, 0).0;
        assert_eq!(page.continue_page(&jar()), Ok(None));
        assert_eq!(page, before);
    }
    let mut page = home(None);
    assert_eq!(page.continue_page(&no_jar()), Ok(None));
    assert_eq!(page, home(None));
}

#[test]
fn a_category_never_continues() {
    let mut page = home(None).enter(&Node::Header(s("t")), 0).0;
    assert_eq!(page.continue_page(&jar()), Ok(None));
    assert!(matches!(&page, Page::Category { continuation: Some(t), .. } if t == "t"));
}

#[test]
fn continue_hands_the_token_to_the_request() {
    let mut page = home(Some("tok"));
    let fetch = page.continue_page(&jar()).unwrap().unwrap();
    assert_eq!(page, home(None));
    assert_eq!((fetch.url, fetch.shape), (BROWSE, Shape::GridContinuation));
    assert_eq!(browse(&fetch).continuation.as_deref(), Some("tok"));
    assert_eq!(browse(&fetch).context.client.visitor_data.as_deref(), Some("VISITOR"));

    let mut search = home(None).search(s("q"), 0);
    search.loaded(Some(s("more")));
    let fetch = search.continue_page(&no_jar()).unwrap().unwrap();
    assert_eq!((fetch.url, fetch.shape), (SEARCH, Shape::SearchContinuation));
    assert_eq!(browse(&fetch).continuation.as_deref(), Some("more"));
    assert_eq!(browse(&fetch).context.client.visitor_data, None);

    let mut next = home(None).recommendations(&Node::Video(s("v")), 0).0;
    next.loaded(Some(s("more")));
    let fetch = next.continue_page(&jar()).unwrap().unwrap();
    assert_eq!((fetch.url, fetch.shape), (NEXT, Shape::NextContinuation));

    let mut comments = home(None).enter(&Node::CommentSection(s("c")), 0).0;
    comments.loaded(Some(s("more")));
    let fetch = comments.continue_page(&no_jar()).unwrap().unwrap();
    assert_eq!((fetch.url, fetch.shape), (NEXT, Shape::CommentsContinuation));

    let mut replies = home(None).enter(&Node::Comment(s("c")), 0).0;
    replies.loaded(Some(s("more")));
    let fetch = replies.continue_page(&no_jar()).unwrap().unwrap();
    assert_eq!((fetch.url, fetch.shape), (NEXT, Shape::Replies));
}

#[test]
fn continue_that_needs_the_visitor_fails_without_and_keeps_the_token() {
    let mut page = home(Some("tok"));
    assert_eq!(page.continue_page(&no_jar()), Err(NavError::NoVisitor));
    assert_eq!(page, home(Some("tok")));
}

#[test]
fn clamping() {
    assert_eq!(clamped(0, 0), 0);
    assert_eq!(clamped(5, 0), 0);
    assert_eq!(clamped(5, 3), 2);
    assert_eq!(clamped(2, 3), 2);
    assert_eq!(clamped(usize::MAX, usize::MAX), usize::MAX - 1);
}

fn loaded(nodes: Vec<Node>, token: Option<&str>) -> Browser {
    let mut browser = Browser::new();
    browser.loaded(listing(nodes, token));
    browser
}

#[test]
fn new_browser_is_at_home() {
    let browser = Browser::new();
    assert_eq!(browser.page, home(None));
    assert_eq!((browser.titles.len(), browser.details.len(), browser.selected), (0, 0, 0));
    assert!(matches!(browser.refresh(&no_jar()), Ok(Command::Load(f)) if f.shape == Shape::HomeGrid));
}

#[test]
fn loading_replaces_rows_and_clamps_the_selection() {
    let mut browser = loaded(videos(5), Some("t"));
    assert_eq!(browser.page, home(Some("t")));
    browser.selected = 4;
    browser.loaded(listing(videos(2), None));
    assert_eq!((browser.details.len(), browser.titles.len(), browser.selected), (2, 2, 1));
    assert_eq!(browser.page, home(None));
    browser.loaded(listing(Vec::new(), None));
    assert_eq!((browser.details.len(), browser.selected), (0, 0));
}

#[test]
fn moving_by_one_row() {
    let mut browser = loaded(videos(3), None);
    assert_eq!(browser.select_delta(true, &jar()), Ok(Command::Idle));
    assert_eq!(browser.selected, 1);
    assert_eq!(browser.select_delta(true, &jar()), Ok(Command::Idle));
    assert_eq!(browser.selected, 2);
    // At the last row, with nothing more to ask for, the selection stays.
    assert_eq!(browser.select_delta(true, &jar()), Ok(Command::Idle));
    assert_eq!(browser.selected, 2);
    assert_eq!(browser.select_delta(false, &jar()), Ok(Command::Idle));
    assert_eq!(browser.selected, 1);
    browser.selected = 0;
    assert_eq!(browser.select_delta(false, &jar()), Ok(Command::Idle));
    assert_eq!(browser.selected, 0);
}

#[test]
fn moving_in_an_empty_list_stays_at_the_top() {
    let mut browser = Browser::new();
    assert_eq!(browser.select_delta(true, &jar()), Ok(Command::Idle));
    assert_eq!(browser.selected, 0);
    assert_eq!(browser.select_page(true, 10, &jar()), Ok(Command::Idle));
    assert_eq!(browser.selected, 0);
}

#[test]
fn going_down_from_the_last_row_asks_for_more() {
    let mut browser = loaded(videos(3), Some("tok"));
    browser.selected = 1;
    assert_eq!(browser.select_delta(true, &jar()), Ok(Command::Idle));
    assert_eq!(browser.selected, 2);
    let command = browser.select_delta(true, &jar()).unwrap();
    match command {
        Command::More(fetch) => {
            assert_eq!(fetch.shape, Shape::GridContinuation);
            assert_eq!(browse(&fetch).continuation.as_deref(), Some("tok"));
        }
        other => panic!("{other:?}"),
    }
    assert_eq!((browser.selected, browser.pending), (2, Some(3)));
    assert_eq!(browser.page, home(None));
    browser.extended(listing(videos(2), Some("tok2")));
    assert_eq!((browser.details.len(), browser.titles.len()), (5, 5));
    assert_eq!((browser.selected, browser.pending), (3, None));
    assert_eq!(browser.page, home(Some("tok2")));
}

#[test]
fn more_rows_that_do_not_come_leave_the_selection_at_the_end() {
    let mut browser = loaded(videos(3), Some("tok"));
    browser.selected = 2;
    assert!(matches!(browser.select_delta(true, &jar()), Ok(Command::More(_))));
    browser.extended(listing(Vec::new(), None));
    assert_eq!((browser.details.len(), browser.selected), (3, 2));
    assert_eq!(browser.page, home(None));
}

#[test]
fn going_down_without_the_visitor_fails_and_changes_nothing() {
    let mut browser = loaded(videos(1), Some("tok"));
    assert_eq!(browser.select_delta(true, &no_jar()), Err(NavError::NoVisitor));
    assert_eq!((browser.selected, browser.pending), (0, None));
    assert_eq!(browser.page, home(Some("tok")));
}

#[test]
fn moving_by_half_a_screen() {
    let mut browser = loaded(videos(40), Some("tok"));
    assert_eq!(browser.select_page(true, 10, &jar()), Ok(Command::Idle));
    assert_eq!(browser.selected, 11);
    assert_eq!(browser.select_page(false, 10, &jar()), Ok(Command::Idle));
    assert_eq!(browser.selected, 2);
    assert_eq!(browser.select_page(false, 10, &jar()), Ok(Command::Idle));
    assert_eq!(browser.selected, 0);
    assert_eq!(browser.select_page(false, 0, &jar()), Ok(Command::Idle));
    assert_eq!(browser.selected, 0);
    // 28 + 10 + 1 = 39 is the last row: still at hand.
    browser.selected = 28;
    assert_eq!(browser.select_page(true, 10, &jar()), Ok(Command::Idle));
    assert_eq!(browser.selected, 39);
    // From 29 the move would pass the last row: more is asked for.
    browser.selected = 29;
    assert!(matches!(browser.select_page(true, 10, &jar()), Ok(Command::More(_))));
    assert_eq!((browser.selected, browser.pending), (29, Some(40)));
    browser.extended(listing(videos(1), None));
    assert_eq!(browser.selected, 40);
}

#[test]
fn half_screen_move_past_a_page_that_cannot_continue_stops_at_the_end() {
    let mut browser = loaded(videos(5), None);
    assert_eq!(browser.select_page(true, 100, &jar()), Ok(Command::Idle));
    assert_eq!(browser.selected, 4);
    assert_eq!(browser.select_page(true, usize::MAX, &jar()), Ok(Command::Idle));
    assert_eq!(browser.selected, 4);
}

#[test]
fn browser_continue_without_token_is_idle_and_keeps_rows() {
    let mut browser = loaded(videos(3), None);
    let titles = browser.titles.len();
    assert_eq!(browser.continue_page(&jar()), Ok(Command::Idle));
    assert_eq!((browser.titles.len(), browser.details.len()), (titles, 3));
    assert_eq!(browser.details[2].1, Node::Video(s("v2")));
    assert_eq!(browser.page, home(None));
}

#[test]
fn activating_a_row() {
    let nodes = vec![
        Node::Video(s("vid")),
        Node::Nothing,
        Node::Channel(s("c"), None),
        Node::Playlist(s("p")),
        Node::Search(s("q"), None),
    ];
    let mut browser = loaded(nodes, Some("h"));
    assert_eq!(browser.activate(&jar()), Ok(Command::Play(s("vid"))));
    browser.selected = 1;
    assert_eq!(browser.activate(&jar()), Ok(Command::Idle));
    browser.selected = 2;
    assert_eq!(browser.activate(&jar()), Ok(Command::Unsupported));
    browser.selected = 3;
    assert_eq!(browser.activate(&jar()), Ok(Command::Unsupported));
    assert_eq!((browser.page.to_string(), browser.selected, browser.details.len()), (s("Home"), 3, 5));
    browser.selected = 4;
    assert!(matches!(browser.activate(&jar()), Ok(Command::Load(f)) if f.shape == Shape::Search));
    assert_eq!(browser.selected, 0);
    assert_eq!(browser.page, home(Some("h")).search(s("q"), 4));
}

#[test]
fn activating_without_a_row_is_idle() {
    let mut browser = Browser::new();
    assert_eq!(browser.activate(&jar()), Ok(Command::Idle));
    assert_eq!(browser.page, home(None));
}

#[test]
fn activating_a_category_without_the_visitor_fails_on_the_new_page() {
    let mut browser = loaded(vec![Node::Header(s("t"))], None);
    assert_eq!(browser.activate(&no_jar()), Err(NavError::NoVisitor));
    assert_eq!(browser.page.to_string(), "A category");
    assert!(matches!(browser.refresh(&jar()), Ok(Command::Load(f)) if f.shape == Shape::GridContinuation));
}

#[test]
fn back_restores_the_row_and_clamps_it_after_the_load() {
    let mut browser = loaded(vec![Node::Nothing, Node::Nothing, Node::Search(s("q"), None)], Some("h"));
    browser.selected = 2;
    assert!(matches!(browser.activate(&jar()), Ok(Command::Load(_))));
    browser.loaded(listing(videos(9), Some("s")));
    browser.selected = 7;
    assert!(matches!(browser.back(&jar()), Ok(Command::Load(f)) if f.shape == Shape::HomeGrid));
    assert_eq!(browser.page, home(Some("h")));
    assert_eq!(browser.selected, 2);
    // The home page comes back shorter than it was.
    browser.loaded(listing(videos(2), None));
    assert_eq!(browser.selected, 1);
}

#[test]
fn back_at_home_moves_to_the_top() {
    let mut browser = loaded(videos(4), Some("h"));
    browser.selected = 3;
    assert_eq!(browser.back(&jar()), Ok(Command::Idle));
    assert_eq!((browser.selected, browser.details.len()), (0, 4));
    assert_eq!(browser.page, home(Some("h")));
}

#[test]
fn home_search_and_recommendations() {
    let mut browser = loaded(vec![Node::Nothing, Node::Video(s("vid"))], Some("h"));
    browser.selected = 1;
    assert!(matches!(browser.search(s("cats")), Command::Load(f) if f.shape == Shape::Search));
    assert_eq!(browser.page, home(Some("h")).search(s("cats"), 1));
    assert_eq!(browser.selected, 0);

    browser.selected = 1;
    assert!(matches!(browser.show_recommendations(), Command::Load(f) if f.shape == Shape::Next));
    assert_eq!(browser.page.to_string(), "Recommendations");
    assert_eq!(browser.selected, 0);
    // Row 0 holds no video.
    assert_eq!(browser.show_recommendations(), Command::Idle);
    assert_eq!(browser.page.to_string(), "Recommendations");

    assert!(matches!(browser.go_home(), Command::Load(f) if f.shape == Shape::HomeGrid));
    assert_eq!(browser.page, home(None));
    assert_eq!(browser.selected, 0);
}
