//! Where the user is: the current page, which owns the page it was
//! entered from, and so on back to the home page.

use vstd::prelude::*;
use crate::items::Node;
use crate::requests::{visitor_data, visitor_data_of, BrowseRequest, NextRequest, SearchRequest};

verus! {

/// The current page, with the pages that lead to it.
///
/// Every page but `Home` holds in `previous` the page it was entered from
/// and the row that was selected there.
#[derive(Debug, PartialEq, Eq)]
#[allow(inconsistent_fields)]
pub enum Page {
    Home { continuation: Option<String> },
    Category { continuation: Option<String>, previous: (Box<Page>, usize) },
    Game {
        browse_id: String,
        continuation: Option<String>,
        params: Option<String>,
        previous: (Box<Page>, usize),
    },
    /// The results of a search.
    Search {
        query: String,
        params: Option<String>,
        continuation: Option<String>,
        previous: (Box<Page>, usize),
    },
    /// What is recommended beside a video.
    Next { video_id: String, continuation: Option<String>, previous: (Box<Page>, usize) },
    Transcript { params: String, previous: (Box<Page>, usize) },
    /// The comments of a video.
    CommentSection {
        /// The token of the first comments.
        first_continuation: String,
        /// The token of the comments that follow.
        continuation: Option<String>,
        previous: (Box<Page>, usize),
    },
    /// The replies to a comment.
    Comment {
        first_continuation: String,
        continuation: Option<String>,
        previous: (Box<Page>, usize),
    },
}

/// What entering a row asks for.
#[derive(Debug, PartialEq, Eq)]
pub enum Outcome {
    /// The page has changed and has to be loaded.
    Reload,
    /// The video with this id is to be played; the page stays.
    Play(String),
    /// The row leads to a kind of page that cannot be shown; the page
    /// stays.
    Unsupported,
    /// The row cannot be entered; the page stays.
    Idle,
}

/// The shape in which an answer of the platform comes.
#[derive(Clone, Copy, Debug, PartialEq, Eq, Structural)]
pub enum Shape {
    /// The home page: a grid inside a web page, between `{"cont` and
    /// `1}}`.
    HomeGrid,
    /// More of a grid.
    GridContinuation,
    /// A game.
    General,
    /// The results of a search.
    Search,
    /// More results of a search.
    SearchContinuation,
    /// What is recommended beside a video.
    Next,
    /// More of what is recommended beside a video.
    NextContinuation,
    /// A transcript.
    Transcript,
    /// The first comments of a video.
    Comments,
    /// More comments of a video.
    CommentsContinuation,
    /// Replies to a comment.
    Replies,
}

/// What is sent with a request.
#[derive(Debug, PartialEq, Eq)]
pub enum Body {
    /// Nothing: the address is fetched as it is.
    Get,
    Browse(BrowseRequest),
    Search(SearchRequest),
    Next(NextRequest),
}

/// One request to the platform and the shape of its answer.
#[derive(Debug, PartialEq, Eq)]
pub struct Fetch {
    pub url: &'static str,
    pub body: Body,
    pub shape: Shape,
}

/// Why a page cannot ask for its content.
#[derive(Clone, Copy, Debug, PartialEq, Eq, Structural)]
pub enum NavError {
    /// The request has to name the visitor, and no cookie does.
    NoVisitor,
}

/// A copy of an optional string.
pub fn copy_of(s: &Option<String>) -> (r: Option<String>)
    ensures
        r == *s,
{
    match s {
        Some(text) => Some(text.clone()),
        None => None,
    }
}

impl Page {
    /// The home page, not yet loaded.
    pub fn home() -> (r: Page)
        ensures
            r == (Page::Home { continuation: None }),
    {
        Page::Home { continuation: None }
    }

    /// The page that this one was entered from, and the row that was
    /// selected there.
    pub open spec fn previous(self) -> Option<(Page, usize)> {
        match self {
            Page::Home { .. } => None,
            Page::Category { previous, .. } => Some((*previous.0, previous.1)),
            Page::Game { previous, .. } => Some((*previous.0, previous.1)),
            Page::Search { previous, .. } => Some((*previous.0, previous.1)),
            Page::Next { previous, .. } => Some((*previous.0, previous.1)),
            Page::Transcript { previous, .. } => Some((*previous.0, previous.1)),
            Page::CommentSection { previous, .. } => Some((*previous.0, previous.1)),
            Page::Comment { previous, .. } => Some((*previous.0, previous.1)),
        }
    }

    /// The page that this one was entered from.
    pub open spec fn parent(self) -> Option<Page> {
        match self.previous() {
            Some((page, _)) => Some(page),
            None => None,
        }
    }

    /// The token by which more of this page can be asked for.
    pub open spec fn continuation(self) -> Option<String> {
        match self {
            Page::Home { continuation } => continuation,
            Page::Category { continuation, .. } => continuation,
            Page::Game { continuation, .. } => continuation,
            Page::Search { continuation, .. } => continuation,
            Page::Next { continuation, .. } => continuation,
            Page::Transcript { .. } => None,
            Page::CommentSection { continuation, .. } => continuation,
            Page::Comment { continuation, .. } => continuation,
        }
    }

    /// This page with `token` as its continuation token. A transcript has
    /// none and stays as it is.
    pub open spec fn with_continuation(self, token: Option<String>) -> Page {
        match self {
            Page::Home { .. } => Page::Home { continuation: token },
            Page::Category { previous, .. } => Page::Category { continuation: token, previous },
            Page::Game { browse_id, params, previous, .. } => Page::Game {
                browse_id,
                continuation: token,
                params,
                previous,
            },
            Page::Search { query, params, previous, .. } => Page::Search {
                query,
                params,
                continuation: token,
                previous,
            },
            Page::Next { video_id, previous, .. } => Page::Next {
                video_id,
                continuation: token,
                previous,
            },
            Page::Transcript { .. } => self,
            Page::CommentSection { first_continuation, previous, .. } => Page::CommentSection {
                first_continuation,
                continuation: token,
                previous,
            },
            Page::Comment { first_continuation, previous, .. } => Page::Comment {
                first_continuation,
                continuation: token,
                previous,
            },
        }
    }

    /// How many pages lie between this page and the home page.
    pub open spec fn depth(self) -> nat
        decreases self,
    {
        match self {
            Page::Home { .. } => 0,
            Page::Category { previous, .. } => 1 + previous.0.depth(),
            Page::Game { previous, .. } => 1 + previous.0.depth(),
            Page::Search { previous, .. } => 1 + previous.0.depth(),
            Page::Next { previous, .. } => 1 + previous.0.depth(),
            Page::Transcript { previous, .. } => 1 + previous.0.depth(),
            Page::CommentSection { previous, .. } => 1 + previous.0.depth(),
            Page::Comment { previous, .. } => 1 + previous.0.depth(),
        }
    }

    /// The page that entering a row with `node` on `self` leads to, where
    /// row `selected` is the one entered; `None` where the page stays.
    pub open spec fn entered(self, node: Node, selected: usize) -> Option<Page> {
        let previous = (Box::new(self), selected);
        match node {
            Node::Header(token) => Some(Page::Category { continuation: Some(token), previous }),
            Node::Game(browse_id, params) => Some(
                Page::Game { browse_id, continuation: None, params, previous },
            ),
            Node::Search(query, params) => Some(
                Page::Search { query, params, continuation: None, previous },
            ),
            Node::Transcript(params) => Some(Page::Transcript { params, previous }),
            Node::CommentSection(first_continuation) => Some(
                Page::CommentSection { first_continuation, continuation: None, previous },
            ),
            Node::Comment(first_continuation) => Some(
                Page::Comment { first_continuation, continuation: None, previous },
            ),
            Node::Video(_) => None,
            Node::Channel(_, _) => None,
            Node::Playlist(_) => None,
            Node::Nothing => None,
        }
    }

    /// The request for this page's content has to name the visitor.
    pub open spec fn request_names_visitor(self) -> bool {
        self is Category || self is Game
    }

    /// `fetch` is the request for this page's content, fresh from its
    /// start, where `visitor` is the visitor data at hand.
    pub open spec fn is_request(self, visitor: Option<Seq<char>>, fetch: Fetch) -> bool {
        match self {
            Page::Home { .. } => {
                &&& fetch.url@ == "https://www.youtube.com"@
                &&& fetch.body is Get
                &&& fetch.shape == Shape::HomeGrid
            },
            Page::Category { continuation, .. } => {
                &&& fetch.url@ == "https://www.youtube.com/youtubei/v1/browse"@
                &&& fetch.body is Browse
                &&& fetch.body->Browse_0.carries(visitor, continuation, None, None, None)
                &&& fetch.shape == Shape::GridContinuation
            },
            Page::Game { browse_id, params, .. } => {
                &&& fetch.url@ == "https://www.youtube.com/youtubei/v1/browse"@
                &&& fetch.body is Browse
                &&& fetch.body->Browse_0.carries(visitor, None, Some(browse_id), params, None)
                &&& fetch.shape == Shape::General
            },
            Page::Search { query, params, .. } => {
                &&& fetch.url@ == "https://www.youtube.com/youtubei/v1/search"@
                &&& fetch.body is Search
                &&& fetch.body->Search_0.is_plain()
                &&& fetch.body->Search_0.query == query
                &&& fetch.body->Search_0.params == params
                &&& fetch.shape == Shape::Search
            },
            Page::Next { video_id, .. } => {
                &&& fetch.url@ == "https://www.youtube.com/youtubei/v1/next"@
                &&& fetch.body is Next
                &&& fetch.body->Next_0.is_plain()
                &&& fetch.body->Next_0.video_id == video_id
                &&& fetch.shape == Shape::Next
            },
            Page::Transcript { params, .. } => {
                &&& fetch.url@ == "https://www.youtube.com/youtubei/v1/get_transcript"@
                &&& fetch.body is Browse
                &&& fetch.body->Browse_0.carries(None, None, None, Some(params), None)
                &&& fetch.shape == Shape::Transcript
            },
            Page::CommentSection { first_continuation, .. } => {
                &&& fetch.url@ == "https://www.youtube.com/youtubei/v1/next"@
                &&& fetch.body is Browse
                &&& fetch.body->Browse_0.carries(None, Some(first_continuation), None, None, None)
                &&& fetch.shape == Shape::Comments
            },
            Page::Comment { first_continuation, .. } => {
                &&& fetch.url@ == "https://www.youtube.com/youtubei/v1/next"@
                &&& fetch.body is Browse
                &&& fetch.body->Browse_0.carries(None, Some(first_continuation), None, None, None)
                &&& fetch.shape == Shape::Replies
            },
        }
    }

    /// The request for this page's content, fresh from its start. A
    /// category and a game name the visitor that `cookies` hold, and
    /// cannot ask without.
    pub fn request(&self, cookies: &Vec<String>) -> (r: Result<Fetch, NavError>)
        ensures
            match r {
                Ok(fetch) => if self.request_names_visitor() {
                    visitor_data(cookies@) is Some && self.is_request(visitor_data(cookies@), fetch)
                } else {
                    self.is_request(None, fetch)
                },
                Err(e) => {
                    &&& e == NavError::NoVisitor
                    &&& self.request_names_visitor()
                    &&& visitor_data(cookies@) is None
                },
            },
    {
        match self {
            Page::Home { .. } => {
                let fetch = Fetch {
                    url: "https://www.youtube.com",
                    body: Body::Get,
                    shape: Shape::HomeGrid,
                };
                Ok(fetch)
            },
            Page::Category { continuation, .. } => {
                match visitor_data_of(cookies) {
                    Some(visitor) => {
                        let fetch = Fetch {
                            url: "https://www.youtube.com/youtubei/v1/browse",
                            body: Body::Browse(
                                BrowseRequest::build(
                                    Some(visitor),
                                    copy_of(continuation),
                                    None,
                                    None,
                                    None,
                                ),
                            ),
                            shape: Shape::GridContinuation,
                        };
                        Ok(fetch)
                    },
                    None => Err(NavError::NoVisitor),
                }
            },
            Page::Game { browse_id, params, .. } => {
                match visitor_data_of(cookies) {
                    Some(visitor) => {
                        let fetch = Fetch {
                            url: "https://www.youtube.com/youtubei/v1/browse",
                            body: Body::Browse(
                                BrowseRequest::build(
                                    Some(visitor),
                                    None,
                                    Some(browse_id.clone()),
                                    copy_of(params),
                                    None,
                                ),
                            ),
                            shape: Shape::General,
                        };
                        Ok(fetch)
                    },
                    None => Err(NavError::NoVisitor),
                }
            },
            Page::Search { query, params, .. } => {
                let fetch = Fetch {
                    url: "https://www.youtube.com/youtubei/v1/search",
                    body: Body::Search(SearchRequest::for_query(query.clone(), copy_of(params))),
                    shape: Shape::Search,
                };
                Ok(fetch)
            },
            Page::Next { video_id, .. } => {
                let fetch = Fetch {
                    url: "https://www.youtube.com/youtubei/v1/next",
                    body: Body::Next(NextRequest::for_video(video_id.clone())),
                    shape: Shape::Next,
                };
                Ok(fetch)
            },
            Page::Transcript { params, .. } => {
                let fetch = Fetch {
                    url: "https://www.youtube.com/youtubei/v1/get_transcript",
                    body: Body::Browse(
                        BrowseRequest::build(None, None, None, Some(params.clone()), None),
                    ),
                    shape: Shape::Transcript,
                };
                Ok(fetch)
            },
            Page::CommentSection { first_continuation, .. } => {
                let fetch = Fetch {
                    url: "https://www.youtube.com/youtubei/v1/next",
                    body: Body::Browse(
                        BrowseRequest::build(
                            None,
                            Some(first_continuation.clone()),
                            None,
                            None,
                            None,
                        ),
                    ),
                    shape: Shape::Comments,
                };
                Ok(fetch)
            },
            Page::Comment { first_continuation, .. } => {
                let fetch = Fetch {
                    url: "https://www.youtube.com/youtubei/v1/next",
                    body: Body::Browse(
                        BrowseRequest::build(
                            None,
                            Some(first_continuation.clone()),
                            None,
                            None,
                            None,
                        ),
                    ),
                    shape: Shape::Replies,
                };
                Ok(fetch)
            },
        }
    }

    /// A fresh load of this page keeps the token that comes with it.
    pub open spec fn keeps_token(self) -> bool {
        !(self is Category || self is Transcript)
    }

    /// This page after a fresh load that came with `token`: the token is
    /// kept, but by a category and a transcript, which stay as they are.
    pub open spec fn after_load(self, token: Option<String>) -> Page {
        if self.keeps_token() {
            self.with_continuation(token)
        } else {
            self
        }
    }

    /// More of this page can be asked for: it is of a kind that goes on,
    /// and it holds a token.
    pub open spec fn can_continue(self) -> bool {
        self.keeps_token() && self.continuation() is Some
    }

    /// The request for more of this page has to name the visitor.
    pub open spec fn continuation_names_visitor(self) -> bool {
        self is Home || self is Game || self is Next
    }

    /// `fetch` is the request for more of this page, where `visitor` is
    /// the visitor data at hand.
    pub open spec fn is_continuation_request(
        self,
        visitor: Option<Seq<char>>,
        fetch: Fetch,
    ) -> bool {
        &&& fetch.body is Browse
        &&& fetch.body->Browse_0.carries(visitor, self.continuation(), None, None, None)
        &&& match self {
            Page::Home { .. } | Page::Game { .. } => {
                &&& fetch.url@ == "https://www.youtube.com/youtubei/v1/browse"@
                &&& fetch.shape == Shape::GridContinuation
            },
            Page::Search { .. } => {
                &&& fetch.url@ == "https://www.youtube.com/youtubei/v1/search"@
                &&& fetch.shape == Shape::SearchContinuation
            },
            Page::Next { .. } => {
                &&& fetch.url@ == "https://www.youtube.com/youtubei/v1/next"@
                &&& fetch.shape == Shape::NextContinuation
            },
            Page::CommentSection { .. } => {
                &&& fetch.url@ == "https://www.youtube.com/youtubei/v1/next"@
                &&& fetch.shape == Shape::CommentsContinuation
            },
            Page::Comment { .. } => {
                &&& fetch.url@ == "https://www.youtube.com/youtubei/v1/next"@
                &&& fetch.shape == Shape::Replies
            },
            _ => false,
        }
    }

    /// Takes in the token that came with a fresh load of this page, or
    /// with more of it.
    pub fn loaded(&mut self, token: Option<String>)
        ensures
            *final(self) == old(self).after_load(token),
    {
        match self {
            Page::Home { continuation } => {
                *continuation = token;
            },
            Page::Game { continuation, .. } => {
                *continuation = token;
            },
            Page::Search { continuation, .. } => {
                *continuation = token;
            },
            Page::Next { continuation, .. } => {
                *continuation = token;
            },
            Page::CommentSection { continuation, .. } => {
                *continuation = token;
            },
            Page::Comment { continuation, .. } => {
                *continuation = token;
            },
            Page::Category { .. } => {},
            Page::Transcript { .. } => {},
        }
    }

    /// The request for more of this page, if more can be asked for. The
    /// page gives its token to the request and holds none until the answer
    /// brings the next one.
    ///
    /// A page that cannot go on stays as it is, and nothing is asked. The
    /// home page, a game and the recommendations name the visitor that
    /// `cookies` hold, and cannot ask without.
    pub fn continue_page(&mut self, cookies: &Vec<String>) -> (r: Result<Option<Fetch>, NavError>)
        ensures
            match r {
                Ok(None) => !old(self).can_continue() && *final(self) == *old(self),
                Ok(Some(fetch)) => {
                    &&& old(self).can_continue()
                    &&& *final(self) == old(self).with_continuation(None)
                    &&& if old(self).continuation_names_visitor() {
                        visitor_data(cookies@) is Some && old(self).is_continuation_request(
                            visitor_data(cookies@),
                            fetch,
                        )
                    } else {
                        old(self).is_continuation_request(None, fetch)
                    }
                },
                Err(e) => {
                    &&& e == NavError::NoVisitor
                    &&& old(self).can_continue()
                    &&& old(self).continuation_names_visitor()
                    &&& visitor_data(cookies@) is None
                    &&& *final(self) == *old(self)
                },
            },
    {
        let (can, names_visitor, url, shape) = match self {
            Page::Home { continuation } => (
                continuation.is_some(),
                true,
                "https://www.youtube.com/youtubei/v1/browse",
                Shape::GridContinuation,
            ),
            Page::Game { continuation, .. } => (
                continuation.is_some(),
                true,
                "https://www.youtube.com/youtubei/v1/browse",
                Shape::GridContinuation,
            ),
            Page::Search { continuation, .. } => (
                continuation.is_some(),
                false,
                "https://www.youtube.com/youtubei/v1/search",
                Shape::SearchContinuation,
            ),
            Page::Next { continuation, .. } => (
                continuation.is_some(),
                true,
                "https://www.youtube.com/youtubei/v1/next",
                Shape::NextContinuation,
            ),
            Page::CommentSection { continuation, .. } => (
                continuation.is_some(),
                false,
                "https://www.youtube.com/youtubei/v1/next",
                Shape::CommentsContinuation,
            ),
            Page::Comment { continuation, .. } => (
                continuation.is_some(),
                false,
                "https://www.youtube.com/youtubei/v1/next",
                Shape::Replies,
            ),
            Page::Category { .. } => (false, false, "", Shape::GridContinuation),
            Page::Transcript { .. } => (false, false, "", Shape::Transcript),
        };
        if !can {
            return Ok(None);
        }
        let visitor = if names_visitor {
            match visitor_data_of(cookies) {
                Some(data) => Some(data),
                None => {
                    return Err(NavError::NoVisitor);
                },
            }
        } else {
            None
        };
        let token = match self {
            Page::Home { continuation } => continuation.take(),
            Page::Game { continuation, .. } => continuation.take(),
            Page::Search { continuation, .. } => continuation.take(),
            Page::Next { continuation, .. } => continuation.take(),
            Page::CommentSection { continuation, .. } => continuation.take(),
            Page::Comment { continuation, .. } => continuation.take(),
            Page::Category { .. } => None,
            Page::Transcript { .. } => None,
        };
        Ok(
            Some(
                Fetch {
                    url,
                    body: Body::Browse(BrowseRequest::build(visitor, token, None, None, None)),
                    shape,
                },
            ),
        )
    }

    /// The title of this page.
    pub open spec fn title(self) -> Seq<char> {
        match self {
            Page::Home { .. } => "Home"@,
            Page::Category { .. } => "A category"@,
            Page::Game { .. } => "A game"@,
            Page::Search { query, .. } => query@,
            Page::Next { .. } => "Recommendations"@,
            Page::Transcript { .. } => "Transcript"@,
            Page::CommentSection { .. } => "Comments"@,
            Page::Comment { .. } => "A comment"@,
        }
    }

    /// The title of this page.
    pub fn to_string(&self) -> (r: String)
        ensures
            r@ == self.title(),
    {
        match self {
            Page::Home { .. } => "Home".to_owned(),
            Page::Category { .. } => "A category".to_owned(),
            Page::Game { .. } => "A game".to_owned(),
            Page::Search { query, .. } => query.clone(),
            Page::Next { .. } => "Recommendations".to_owned(),
            Page::Transcript { .. } => "Transcript".to_owned(),
            Page::CommentSection { .. } => "Comments".to_owned(),
            Page::Comment { .. } => "A comment".to_owned(),
        }
    }

    /// Enters the row `selected`, which holds `node`.
    ///
    /// A category, a game, a search, a transcript, a comment section and a
    /// comment lead to a page of their own, which keeps `self` and
    /// `selected` to go back to. A video is played and the page stays; a
    /// channel and a playlist cannot be shown; a row without a node does
    /// nothing.
    pub fn enter(self, node: &Node, selected: usize) -> (r: (Page, Outcome))
        ensures
            match self.entered(*node, selected) {
                Some(page) => r.0 == page && r.1 is Reload,
                None => r.0 == self && match *node {
                    Node::Video(id) => r.1 == Outcome::Play(id),
                    Node::Nothing => r.1 is Idle,
                    _ => r.1 is Unsupported,
                },
            },
    {
        match node {
            Node::Header(token) => (
                Page::Category {
                    continuation: Some(token.clone()),
                    previous: (Box::new(self), selected),
                },
                Outcome::Reload,
            ),
            Node::Game(browse_id, params) => (
                Page::Game {
                    browse_id: browse_id.clone(),
                    continuation: None,
                    params: copy_of(params),
                    previous: (Box::new(self), selected),
                },
                Outcome::Reload,
            ),
            Node::Search(query, params) => (
                Page::Search {
                    query: query.clone(),
                    params: copy_of(params),
                    continuation: None,
                    previous: (Box::new(self), selected),
                },
                Outcome::Reload,
            ),
            Node::Transcript(params) => (
                Page::Transcript { params: params.clone(), previous: (Box::new(self), selected) },
                Outcome::Reload,
            ),
            Node::CommentSection(first_continuation) => (
                Page::CommentSection {
                    first_continuation: first_continuation.clone(),
                    continuation: None,
                    previous: (Box::new(self), selected),
                },
                Outcome::Reload,
            ),
            Node::Comment(first_continuation) => (
                Page::Comment {
                    first_continuation: first_continuation.clone(),
                    continuation: None,
                    previous: (Box::new(self), selected),
                },
                Outcome::Reload,
            ),
            Node::Video(id) => (self, Outcome::Play(id.clone())),
            Node::Channel(_, _) => (self, Outcome::Unsupported),
            Node::Playlist(_) => (self, Outcome::Unsupported),
            Node::Nothing => (self, Outcome::Idle),
        }
    }

    /// Opens the search for `query` from row `selected` of this page.
    pub fn search(self, query: String, selected: usize) -> (r: Page)
        ensures
            r == (Page::Search {
                query,
                params: None,
                continuation: None,
                previous: (Box::new(self), selected),
            }),
            r.previous() == Some((self, selected)),
    {
        Page::Search {
            query,
            params: None,
            continuation: None,
            previous: (Box::new(self), selected),
        }
    }

    /// Opens what is recommended beside the video of row `selected`. The
    /// page stays where `node` is no video.
    pub fn recommendations(self, node: &Node, selected: usize) -> (r: (Page, bool))
        ensures
            match *node {
                Node::Video(video_id) => r.1 && r.0 == (Page::Next {
                    video_id,
                    continuation: None,
                    previous: (Box::new(self), selected),
                }) && r.0.previous() == Some((self, selected)),
                _ => !r.1 && r.0 == self,
            },
    {
        match node {
            Node::Video(video_id) => (
                Page::Next {
                    video_id: video_id.clone(),
                    continuation: None,
                    previous: (Box::new(self), selected),
                },
                true,
            ),
            _ => (self, false),
        }
    }

    /// Goes back: gives the page that this one was entered from and the
    /// row that was selected there. The home page stays, with no row.
    pub fn back(self) -> (r: (Page, Option<usize>))
        ensures
            match self.previous() {
                Some((page, selected)) => r.0 == page && r.1 == Some(selected),
                None => r.0 == self && r.1 is None,
            },
    {
        match self {
            Page::Home { continuation } => (Page::Home { continuation }, None),
            Page::Category { previous, .. } => (*previous.0, Some(previous.1)),
            Page::Game { previous, .. } => (*previous.0, Some(previous.1)),
            Page::Search { previous, .. } => (*previous.0, Some(previous.1)),
            Page::Next { previous, .. } => (*previous.0, Some(previous.1)),
            Page::Transcript { previous, .. } => (*previous.0, Some(previous.1)),
            Page::CommentSection { previous, .. } => (*previous.0, Some(previous.1)),
            Page::Comment { previous, .. } => (*previous.0, Some(previous.1)),
        }
    }
}

/// The page reached from `page` by going back `n` times.
pub open spec fn back_n(page: Page, n: nat) -> Page
    decreases n,
{
    if n == 0 {
        page
    } else {
        match page.previous() {
            Some((before, _)) => back_n(before, (n - 1) as nat),
            None => page,
        }
    }
}

/// Each page of `trail` but the first was entered from the one before it.
pub open spec fn is_trail(trail: Seq<Page>) -> bool {
    forall|i: int|
        0 < i < trail.len() ==> (#[trigger] trail[i]).parent() == Some(trail[i - 1])
}

/// Entering a row that leads to a page, then going back, gives the page
/// and the row that were left.
pub proof fn lemma_enter_then_back(page: Page, node: Node, selected: usize)
    requires
        page.entered(node, selected) is Some,
    ensures
        page.entered(node, selected)->0.previous() == Some((page, selected)),
        page.entered(node, selected)->0.depth() == page.depth() + 1,
{
}

/// Going back as many times as pages were entered gives the page that was
/// started from: after a trail of `n` entered pages, `n` steps back from
/// its last page end at its first. Where that is a home page, no page
/// stands before it.
pub proof fn lemma_back_undoes_trail(trail: Seq<Page>)
    requires
        trail.len() > 0,
        is_trail(trail),
    ensures
        back_n(trail.last(), (trail.len() - 1) as nat) == trail[0],
        trail[0] is Home ==> back_n(trail.last(), (trail.len() - 1) as nat).previous() is None,
    decreases trail.len(),
{
    if trail.len() > 1 {
        let shorter = trail.drop_last();
        assert(is_trail(shorter)) by {
            assert forall|i: int| 0 < i < shorter.len() implies (#[trigger] shorter[i]).parent()
                == Some(shorter[i - 1]) by {
            }
        }
        lemma_back_undoes_trail(shorter);
        let last = trail.len() - 1;
    }
}

/// Going back from a page as many times as it lies deep ends at a home
/// page, which has no page before it.
pub proof fn lemma_back_reaches_home(page: Page)
    ensures
        back_n(page, page.depth()) is Home,
        back_n(page, page.depth()).previous() is None,
    decreases page,
{
    match page.previous() {
        Some((before, _)) => {
            lemma_back_reaches_home(before);
        },
        None => {},
    }
}

} // verus!
