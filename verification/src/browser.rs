//! The navigation state machine: the current page, its rows and the
//! selected row. It takes what the user wants, says what has to be fetched
//! or played, and takes in what was fetched.

use vstd::prelude::*;
use crate::items::{Detail, Node, Label};
use crate::page::{Fetch, NavError, Outcome, Page};
use crate::requests::visitor_data;

verus! {

/// The rows that one answer of the platform holds, and the token by which
/// more can be asked for.
#[derive(Debug, PartialEq, Eq)]
pub struct Listing {
    pub titles: Vec<Label>,
    pub details: Vec<(Detail, Node)>,
    pub continuation: Option<String>,
}

/// What is to be done after the browser has taken in what the user wants.
#[derive(Debug, PartialEq, Eq)]
pub enum Command {
    /// Nothing but to draw again.
    Idle,
    /// Fetch the page fresh and hand the answer to `loaded`.
    Load(Fetch),
    /// Fetch more of the page and hand the answer to `extended`.
    More(Fetch),
    /// Play the video with this id.
    Play(String),
    /// Say that this kind of page cannot be shown.
    Unsupported,
}

/// The page that the user looks at, its rows, and the selected row.
#[derive(Debug, PartialEq, Eq)]
pub struct Browser {
    pub page: Page,
    pub titles: Vec<Label>,
    pub details: Vec<(Detail, Node)>,
    pub selected: usize,
    /// The row to select once the rows that were asked for have come.
    pub pending: Option<usize>,
}

/// The row nearest to `target` among `rows` rows; row 0 where there are
/// none.
pub open spec fn clamp_row(target: int, rows: int) -> int {
    if rows <= 0 {
        0
    } else if target < rows {
        target
    } else {
        rows - 1
    }
}

/// The row nearest to `target` among `rows` rows.
pub fn clamped(target: usize, rows: usize) -> (r: usize)
    ensures
        r == clamp_row(target as int, rows as int),
{
    if rows == 0 {
        0
    } else if target < rows {
        target
    } else {
        rows - 1
    }
}

impl Browser {
    /// The browser at the home page, before anything is loaded.
    pub fn new() -> (r: Browser)
        ensures
            r.page == (Page::Home { continuation: None }),
            r.titles@.len() == 0,
            r.details@.len() == 0,
            r.selected == 0,
            r.pending is None,
    {
        Browser {
            page: Page::home(),
            titles: Vec::new(),
            details: Vec::new(),
            selected: 0,
            pending: None,
        }
    }

    /// `r` is what asking for the current page gives with these cookies.
    pub open spec fn is_load(self, cookies: Seq<String>, r: Result<Command, NavError>) -> bool {
        match r {
            Ok(command) => {
                &&& command is Load
                &&& if self.page.request_names_visitor() {
                    visitor_data(cookies) is Some && self.page.is_request(
                        visitor_data(cookies),
                        command->Load_0,
                    )
                } else {
                    self.page.is_request(None, command->Load_0)
                }
            },
            Err(e) => {
                &&& e == NavError::NoVisitor
                &&& self.page.request_names_visitor()
                &&& visitor_data(cookies) is None
            },
        }
    }

    /// Asks for the current page afresh; the selected row stays, as far as
    /// the new rows reach.
    pub fn refresh(&self, cookies: &Vec<String>) -> (r: Result<Command, NavError>)
        ensures
            self.is_load(cookies@, r),
    {
        match self.page.request(cookies) {
            Ok(fetch) => Ok(Command::Load(fetch)),
            Err(e) => Err(e),
        }
    }

    /// Takes in a fresh load of the current page: its rows take the place
    /// of the old ones, the page keeps the token, and the selected row is
    /// the nearest that the new rows have.
    pub fn loaded(&mut self, listing: Listing)
        ensures
            final(self).page == old(self).page.after_load(listing.continuation),
            final(self).titles == listing.titles,
            final(self).details == listing.details,
            final(self).selected == clamp_row(
                old(self).selected as int,
                listing.details@.len() as int,
            ),
            final(self).pending is None,
    {
        self.page.loaded(listing.continuation);
        self.titles = listing.titles;
        self.details = listing.details;
        self.selected = clamped(self.selected, self.details.len());
        self.pending = None;
    }

    /// Takes in more of the current page: its rows are added behind the
    /// rows at hand, the page keeps the token, and the row that was
    /// waited for is selected, as far as the rows now reach.
    pub fn extended(&mut self, listing: Listing)
        ensures
            final(self).page == old(self).page.after_load(listing.continuation),
            final(self).titles@ == old(self).titles@ + listing.titles@,
            final(self).details@ == old(self).details@ + listing.details@,
            final(self).selected == clamp_row(
                match old(self).pending {
                    Some(target) => target as int,
                    None => old(self).selected as int,
                },
                (old(self).details@.len() + listing.details@.len()) as int,
            ),
            final(self).pending is None,
    {
        let mut listing = listing;
        self.page.loaded(listing.continuation);
        self.titles.append(&mut listing.titles);
        self.details.append(&mut listing.details);
        let target = match self.pending {
            Some(target) => target,
            None => self.selected,
        };
        self.selected = clamped(target, self.details.len());
        self.pending = None;
    }

    /// `r` and `after` are what asking for more of the current page gives
    /// with these cookies: where the page cannot go on, nothing is asked
    /// and nothing changes.
    pub open spec fn is_continuation(
        self,
        cookies: Seq<String>,
        r: Result<Command, NavError>,
        after: Browser,
    ) -> bool {
        if self.page.can_continue() {
            match r {
                Ok(command) => {
                    &&& command is More
                    &&& if self.page.continuation_names_visitor() {
                        visitor_data(cookies) is Some && self.page.is_continuation_request(
                            visitor_data(cookies),
                            command->More_0,
                        )
                    } else {
                        self.page.is_continuation_request(None, command->More_0)
                    }
                    &&& after == (Browser { page: self.page.with_continuation(None), ..self })
                },
                Err(e) => {
                    &&& e == NavError::NoVisitor
                    &&& self.page.continuation_names_visitor()
                    &&& visitor_data(cookies) is None
                    &&& after == self
                },
            }
        } else {
            r == Ok::<Command, NavError>(Command::Idle) && after == self
        }
    }

    /// Asks for more of the current page. Where the page holds no token,
    /// or is of a kind that does not go on, nothing is asked: the rows and
    /// the token stay as they are.
    pub fn continue_page(&mut self, cookies: &Vec<String>) -> (r: Result<Command, NavError>)
        ensures
            old(self).is_continuation(cookies@, r, *final(self)),
    {
        match self.page.continue_page(cookies) {
            Ok(Some(fetch)) => Ok(Command::More(fetch)),
            Ok(None) => Ok(Command::Idle),
            Err(e) => Err(e),
        }
    }

    /// Moves the selection to `target` if that row is at hand; asks for
    /// more rows first where `at_end` says that the rows at hand are used
    /// up and the page can go on.
    fn advance(&mut self, target: usize, at_end: bool, cookies: &Vec<String>) -> (r: Result<
        Command,
        NavError,
    >)
        ensures
            old(self).is_advance(target, at_end, cookies@, r, *final(self)),
    {
        if at_end {
            match self.continue_page(cookies) {
                Ok(Command::More(fetch)) => {
                    self.pending = Some(target);
                    return Ok(Command::More(fetch));
                },
                Ok(_) => {},
                Err(e) => {
                    return Err(e);
                },
            }
        }
        self.selected = clamped(target, self.details.len());
        Ok(Command::Idle)
    }

    /// `r` and `after` are what moving the selection forward to `target`
    /// gives. Where `at_end` holds and the page can go on, more rows are
    /// asked for and `target` waits for them; else the row nearest to
    /// `target` is selected at once.
    pub open spec fn is_advance(
        self,
        target: usize,
        at_end: bool,
        cookies: Seq<String>,
        r: Result<Command, NavError>,
        after: Browser,
    ) -> bool {
        if at_end && self.page.can_continue() {
            match r {
                Ok(command) => {
                    &&& command is More
                    &&& if self.page.continuation_names_visitor() {
                        visitor_data(cookies) is Some && self.page.is_continuation_request(
                            visitor_data(cookies),
                            command->More_0,
                        )
                    } else {
                        self.page.is_continuation_request(None, command->More_0)
                    }
                    &&& after == (Browser {
                        page: self.page.with_continuation(None),
                        pending: Some(target),
                        ..self
                    })
                },
                Err(e) => {
                    &&& e == NavError::NoVisitor
                    &&& self.page.continuation_names_visitor()
                    &&& visitor_data(cookies) is None
                    &&& after == self
                },
            }
        } else {
            &&& r == Ok::<Command, NavError>(Command::Idle)
            &&& after == (Browser {
                selected: clamp_row(target as int, self.details@.len() as int) as usize,
                ..self
            })
        }
    }

    /// The row `by` rows behind `from`, as far as numbers reach.
    pub open spec fn ahead(from: usize, by: usize) -> usize {
        if from + by <= usize::MAX {
            (from + by) as usize
        } else {
            usize::MAX
        }
    }

    /// The row `by` rows before `from`, as far as rows reach.
    pub open spec fn behind(from: usize, by: usize) -> usize {
        if by <= from {
            (from - by) as usize
        } else {
            0
        }
    }

    /// Moves the selection by one row. Going down from the last row asks
    /// for more rows first, if the page can go on.
    pub fn select_delta(&mut self, down: bool, cookies: &Vec<String>) -> (r: Result<
        Command,
        NavError,
    >)
        ensures
            if down {
                old(self).is_advance(
                    Self::ahead(old(self).selected, 1),
                    old(self).selected + 1 == old(self).details@.len(),
                    cookies@,
                    r,
                    *final(self),
                )
            } else {
                &&& r == Ok::<Command, NavError>(Command::Idle)
                &&& *final(self) == (Browser {
                    selected: Self::behind(old(self).selected, 1),
                    ..*old(self)
                })
            },
    {
        if down {
            let rows = self.details.len();
            let at_end = self.selected < rows && self.selected + 1 == rows;
            let target = step_ahead(self.selected, 1);
            self.advance(target, at_end, cookies)
        } else {
            self.selected = step_behind(self.selected, 1);
            Ok(Command::Idle)
        }
    }

    /// Moves the selection by about half a screen: down by one row more
    /// than `half_screen`, up by one row less. Going down to the last row
    /// or past it asks for more rows first, if the page can go on.
    pub fn select_page(&mut self, down: bool, half_screen: usize, cookies: &Vec<String>) -> (r:
        Result<Command, NavError>)
        ensures
            if down {
                old(self).is_advance(
                    Self::ahead(Self::ahead(old(self).selected, half_screen), 1),
                    old(self).details@.len() <= old(self).selected + half_screen + 1,
                    cookies@,
                    r,
                    *final(self),
                )
            } else {
                &&& r == Ok::<Command, NavError>(Command::Idle)
                &&& *final(self) == (Browser {
                    selected: Self::behind(old(self).selected, Self::behind(half_screen, 1)),
                    ..*old(self)
                })
            },
    {
        if down {
            let position = step_ahead(self.selected, half_screen);
            let target = step_ahead(position, 1);
            let at_end = self.details.len() <= target;
            self.advance(target, at_end, cookies)
        } else {
            self.selected = step_behind(self.selected, step_behind(half_screen, 1));
            Ok(Command::Idle)
        }
    }

    /// The node of the selected row, if there is such a row.
    pub open spec fn selected_node(self) -> Option<Node> {
        if self.selected < self.details@.len() {
            Some(self.details@[self.selected as int].1)
        } else {
            None
        }
    }

    /// Enters the selected row. Where it leads to a page, that page is
    /// the current one from now on, its first row is selected, and its
    /// content is asked for. A video is to be played; a row that leads
    /// nowhere changes nothing.
    pub fn activate(&mut self, cookies: &Vec<String>) -> (r: Result<Command, NavError>)
        ensures
            match old(self).selected_node() {
                Some(node) => match old(self).page.entered(node, old(self).selected) {
                    Some(page) => {
                        &&& *final(self) == (Browser { page, selected: 0, ..*old(self) })
                        &&& final(self).is_load(cookies@, r)
                    },
                    None => {
                        &&& *final(self) == *old(self)
                        &&& match node {
                            Node::Video(id) => r == Ok::<Command, NavError>(Command::Play(id)),
                            Node::Nothing => r == Ok::<Command, NavError>(Command::Idle),
                            _ => r == Ok::<Command, NavError>(Command::Unsupported),
                        }
                    },
                },
                None => r == Ok::<Command, NavError>(Command::Idle) && *final(self) == *old(self),
            },
    {
        if self.selected >= self.details.len() {
            return Ok(Command::Idle);
        }
        let mut page = Page::home();
        std::mem::swap(&mut self.page, &mut page);
        let (page, outcome) = page.enter(&self.details[self.selected].1, self.selected);
        self.page = page;
        match outcome {
            Outcome::Reload => {
                self.selected = 0;
                self.refresh(cookies)
            },
            Outcome::Play(id) => Ok(Command::Play(id)),
            Outcome::Unsupported => Ok(Command::Unsupported),
            Outcome::Idle => Ok(Command::Idle),
        }
    }

    /// Goes back to the page that the current one was entered from, with
    /// the row that was selected there, and asks for its content afresh.
    /// At the home page only the selection goes back to the first row.
    pub fn back(&mut self, cookies: &Vec<String>) -> (r: Result<Command, NavError>)
        ensures
            match old(self).page.previous() {
                Some((page, selected)) => {
                    &&& *final(self) == (Browser { page, selected, ..*old(self) })
                    &&& final(self).is_load(cookies@, r)
                },
                None => {
                    &&& *final(self) == (Browser { selected: 0, ..*old(self) })
                    &&& r == Ok::<Command, NavError>(Command::Idle)
                },
            },
    {
        let mut page = Page::home();
        std::mem::swap(&mut self.page, &mut page);
        let (page, selected) = page.back();
        self.page = page;
        match selected {
            Some(selected) => {
                self.selected = selected;
                self.refresh(cookies)
            },
            None => {
                self.selected = 0;
                Ok(Command::Idle)
            },
        }
    }

    /// Goes to the home page, forgetting the pages that led here, and asks
    /// for its content.
    pub fn go_home(&mut self) -> (r: Command)
        ensures
            *final(self) == (Browser {
                page: Page::Home { continuation: None },
                selected: 0,
                ..*old(self)
            }),
            r is Load,
            final(self).page.is_request(None, r->Load_0),
    {
        self.page = Page::home();
        self.selected = 0;
        let cookies: Vec<String> = Vec::new();
        match self.page.request(&cookies) {
            Ok(fetch) => Command::Load(fetch),
            Err(_) => Command::Idle,
        }
    }

    /// Opens the search for `query` from the selected row, and asks for
    /// its results.
    pub fn search(&mut self, query: String) -> (r: Command)
        ensures
            *final(self) == (Browser {
                page: Page::Search {
                    query,
                    params: None,
                    continuation: None,
                    previous: (Box::new(old(self).page), old(self).selected),
                },
                selected: 0,
                ..*old(self)
            }),
            r is Load,
            final(self).page.is_request(None, r->Load_0),
    {
        let mut page = Page::home();
        std::mem::swap(&mut self.page, &mut page);
        self.page = page.search(query, self.selected);
        self.selected = 0;
        let cookies: Vec<String> = Vec::new();
        match self.page.request(&cookies) {
            Ok(fetch) => Command::Load(fetch),
            Err(_) => Command::Idle,
        }
    }

    /// Opens what is recommended beside the video of the selected row, and
    /// asks for it. Where the selected row holds no video, nothing
    /// changes.
    pub fn show_recommendations(&mut self) -> (r: Command)
        ensures
            match old(self).selected_node() {
                Some(Node::Video(video_id)) => {
                    &&& *final(self) == (Browser {
                        page: Page::Next {
                            video_id,
                            continuation: None,
                            previous: (Box::new(old(self).page), old(self).selected),
                        },
                        selected: 0,
                        ..*old(self)
                    })
                    &&& r is Load
                    &&& final(self).page.is_request(None, r->Load_0)
                },
                _ => r is Idle && *final(self) == *old(self),
            },
    {
        if self.selected >= self.details.len() {
            return Command::Idle;
        }
        let mut page = Page::home();
        std::mem::swap(&mut self.page, &mut page);
        let (page, opened) = page.recommendations(&self.details[self.selected].1, self.selected);
        self.page = page;
        if !opened {
            return Command::Idle;
        }
        self.selected = 0;
        let cookies: Vec<String> = Vec::new();
        match self.page.request(&cookies) {
            Ok(fetch) => Command::Load(fetch),
            Err(_) => Command::Idle,
        }
    }
}

/// Asking for more of a page that holds no token changes nothing: the
/// rows, the token and the selection stay as they are, and nothing is
/// fetched.
pub proof fn lemma_continue_without_token(
    before: Browser,
    cookies: Seq<String>,
    r: Result<Command, NavError>,
    after: Browser,
)
    requires
        before.page.continuation() is None,
        before.is_continuation(cookies, r, after),
    ensures
        r == Ok::<Command, NavError>(Command::Idle),
        after.titles == before.titles,
        after.details == before.details,
        after.page == before.page,
        after.page.continuation() is None,
        after.selected == before.selected,
{
}

fn step_ahead(from: usize, by: usize) -> (r: usize)
    ensures
        r == Browser::ahead(from, by),
{
    if by <= usize::MAX - from {
        from + by
    } else {
        usize::MAX
    }
}

fn step_behind(from: usize, by: usize) -> (r: usize)
    ensures
        r == Browser::behind(from, by),
{
    if by <= from {
        from - by
    } else {
        0
    }
}

} // verus!
