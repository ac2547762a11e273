//! The comments under a video.

use vstd::prelude::*;
use vstd::string::StringExecFns;
use crate::items::{
    colour_of, int_to_colour, lines_detail, lines_text, no_lines, push_line, raw_line,
    spaced_text, Colour, Detail, Label, Line, Node, Rows, Span, SpanText, Style,
};
use crate::number::{decimal, decimal_string};
use crate::renderers::{
    add_all, add_row, adds, all_rows, blank, blank_line, lemma_adds_none, maybe_label,
    push_maybe_label, AccessibleText, Color, ContinuationEndpoint, ContinuationItemRenderer,
    Endpoint, IntoWidgets, SimpleText, Text,
};

verus! {

pub struct PinnedCommentBadgeRenderer {
    pub label: Text,
    pub color: Color,
}

pub struct PinnedCommentBadge {
    pub pinned_comment_badge_renderer: PinnedCommentBadgeRenderer,
}

pub struct AuthorCommentBadgeRenderer {
    pub color: Option<Color>,
    pub icon_tooltip: String,
}

pub struct AuthorCommentBadge {
    pub author_comment_badge_renderer: AuthorCommentBadgeRenderer,
}

/// One comment.
pub struct CommentRenderer {
    pub author_text: SimpleText,
    pub author_endpoint: Endpoint,
    pub content_text: Text,
    pub published_time_text: Text,
    pub author_is_channel_owner: bool,
    pub vote_count: Option<AccessibleText>,
    pub pinned_comment_badge: Option<PinnedCommentBadge>,
    pub author_comment_badge: Option<AuthorCommentBadge>,
    /// At most 501.
    pub reply_count: Option<u16>,
}

pub struct ButtonRenderer {
    pub command: ContinuationEndpoint,
}

pub struct Button {
    pub button_renderer: ButtonRenderer,
}

pub struct CommentContinuationItemRenderer {
    pub button: Button,
}

/// A comment, or the end of the replies to one.
pub enum Comment {
    Comment { comment_renderer: Box<CommentRenderer> },
    /// Comes among replies only.
    ContinuationItem { continuation_item_renderer: CommentContinuationItemRenderer },
}

/// The style that sets the colour of the text.
pub open spec fn in_colour(fg: u32) -> Style {
    Style { fg: Some(colour_of(fg)), ..Style::plain() }
}

/// The colour that a number stands for, if there is a number.
pub open spec fn maybe_colour(colour: Option<u32>) -> Option<Colour> {
    match colour {
        Some(colour) => Some(colour_of(colour)),
        None => None,
    }
}

/// The colour that a number stands for, if there is a number.
pub fn int_to_maybe_colour(colour: Option<u32>) -> (r: Option<Colour>)
    ensures
        r == maybe_colour(colour),
{
    match colour {
        Some(colour) => Some(int_to_colour(colour)),
        None => None,
    }
}

/// The line that says that the author put up the video, if so.
pub open spec fn maybe_uploader(is_owner: bool) -> Seq<Seq<SpanText>> {
    if is_owner {
        seq![raw_line("Video uploader"@)]
    } else {
        Seq::empty()
    }
}

/// The line of the badge of a pinned comment, in the colour of the badge.
pub open spec fn maybe_pinned(badge: Option<PinnedCommentBadge>) -> Seq<Seq<SpanText>> {
    match badge {
        Some(badge) => seq![
            badge.pinned_comment_badge_renderer.label.styled(
                in_colour(
                    badge.pinned_comment_badge_renderer.color.basic_color_palette_data.foreground_title_color,
                ),
            ),
        ],
        None => Seq::empty(),
    }
}

/// The line of the badge of an author, in the colours of the badge if it
/// has colours.
pub open spec fn maybe_author_badge(badge: Option<AuthorCommentBadge>) -> Seq<Seq<SpanText>> {
    match badge {
        Some(badge) => match badge.author_comment_badge_renderer.color {
            Some(colour) => seq![
                seq![
                    SpanText {
                        content: badge.author_comment_badge_renderer.icon_tooltip@,
                        style: Style {
                            fg: Some(colour_of(colour.basic_color_palette_data.foreground_title_color)),
                            bg: maybe_colour(colour.basic_color_palette_data.background_color),
                            ..Style::plain()
                        },
                    },
                ],
            ],
            None => seq![raw_line(badge.author_comment_badge_renderer.icon_tooltip@)],
        },
        None => Seq::empty(),
    }
}

/// The line that counts the replies, if they are counted.
pub open spec fn maybe_replies(count: Option<u16>) -> Seq<Seq<SpanText>> {
    match count {
        Some(count) => seq![raw_line(decimal(count as int) + " replies"@)],
        None => Seq::empty(),
    }
}

impl CommentRenderer {
    /// What is said of the comment: its text, when it was written, how it
    /// was voted on, whether its author put up the video, its badges, and
    /// how many replies it has, as far as they are given.
    pub open spec fn lines(self) -> Seq<Seq<SpanText>> {
        seq![self.content_text.line(), blank_line(), self.published_time_text.line()]
            + maybe_label(self.vote_count) + maybe_uploader(self.author_is_channel_owner)
            + maybe_pinned(self.pinned_comment_badge) + maybe_author_badge(
            self.author_comment_badge,
        ) + maybe_replies(self.reply_count)
    }

    /// One row: the author with space below, what is said of the comment,
    /// and `node`.
    pub open spec fn row(self, node: Node) -> Rows {
        Rows::row(
            spaced_text(raw_line(self.author_text.simple_text@)),
            lines_detail(self.lines(), true),
            node,
        )
    }

    /// Adds the row of this comment, which leads to `node`.
    pub fn add(self, titles: &mut Vec<Label>, info: &mut Vec<(Detail, Node)>, node: Node)
        ensures
            adds(old(titles)@, old(info)@, self.row(node), final(titles)@, final(info)@),
    {
        let ghost start = seq![
            self.content_text.line(),
            blank_line(),
            self.published_time_text.line(),
        ];
        let mut lines = no_lines();
        push_line(&mut lines, self.content_text.into_line());
        push_line(&mut lines, blank());
        push_line(&mut lines, self.published_time_text.into_line());
        assert(lines_text(lines@) =~= start);
        push_maybe_label(&mut lines, self.vote_count);
        let ghost before = lines_text(lines@);
        if self.author_is_channel_owner {
            push_line(&mut lines, Line::raw("Video uploader".to_owned()));
        }
        assert(lines_text(lines@) =~= before + maybe_uploader(self.author_is_channel_owner));
        let ghost before = lines_text(lines@);
        let ghost pinned = maybe_pinned(self.pinned_comment_badge);
        match self.pinned_comment_badge {
            Some(badge) => {
                let colour = int_to_colour(
                    badge.pinned_comment_badge_renderer.color.basic_color_palette_data.foreground_title_color,
                );
                push_line(
                    &mut lines,
                    badge.pinned_comment_badge_renderer.label.with_style(
                        Style::coloured(Some(colour), None),
                    ),
                );
            },
            None => {},
        }
        assert(lines_text(lines@) =~= before + pinned);
        let ghost before = lines_text(lines@);
        let ghost author = maybe_author_badge(self.author_comment_badge);
        match self.author_comment_badge {
            Some(badge) => match badge.author_comment_badge_renderer.color {
                Some(colour) => {
                    let fg = int_to_colour(colour.basic_color_palette_data.foreground_title_color);
                    let bg = int_to_maybe_colour(colour.basic_color_palette_data.background_color);
                    push_line(
                        &mut lines,
                        Line::of(
                            Span {
                                content: badge.author_comment_badge_renderer.icon_tooltip,
                                style: Style::coloured(Some(fg), bg),
                            },
                        ),
                    );
                },
                None => {
                    push_line(&mut lines, Line::raw(badge.author_comment_badge_renderer.icon_tooltip));
                },
            },
            None => {},
        }
        assert(lines_text(lines@) =~= before + author);
        let ghost before = lines_text(lines@);
        match self.reply_count {
            Some(count) => {
                let mut replies = decimal_string(count as i64);
                replies.append(" replies");
                push_line(&mut lines, Line::raw(replies));
            },
            None => {},
        }
        assert(lines_text(lines@) =~= before + maybe_replies(self.reply_count));
        add_row(
            titles,
            info,
            Label::spaced(Line::raw(self.author_text.simple_text)),
            Detail::lines(lines, true),
            node,
        );
    }
}

impl IntoWidgets for Comment {
    /// The row of the comment, which leads nowhere; or the token at the
    /// end of the replies.
    open spec fn rows(self) -> Rows {
        match self {
            Comment::Comment { comment_renderer } => comment_renderer.row(Node::Nothing),
            Comment::ContinuationItem { continuation_item_renderer } => Rows::end(
                continuation_item_renderer.button.button_renderer.command.continuation_command.token,
            ),
        }
    }

    fn into_widgets(self, titles: &mut Vec<Label>, info: &mut Vec<(Detail, Node)>) -> (token:
        Option<String>) {
        match self {
            Comment::Comment { comment_renderer } => {
                (*comment_renderer).add(titles, info, Node::Nothing);
                None
            },
            Comment::ContinuationItem { continuation_item_renderer } => {
                proof {
                    lemma_adds_none(titles@, info@);
                }
                Some(
                    continuation_item_renderer.button.button_renderer.command.continuation_command.token,
                )
            },
        }
    }
}

pub struct Content {
    pub continuation_item_renderer: ContinuationItemRenderer,
}

pub struct CommentRepliesRenderer {
    pub contents: Vec<Content>,
}

pub struct Replies {
    pub comment_replies_renderer: CommentRepliesRenderer,
}

/// A comment with what leads to its replies.
pub struct CommentThreadRenderer {
    pub comment: Comment,
    pub replies: Option<Replies>,
}

/// What a list of comments holds.
pub enum ContinuationItem {
    CommentThread { comment_thread_renderer: Box<CommentThreadRenderer> },
    ContinuationItem { continuation_item_renderer: ContinuationItemRenderer },
    /// The header, which is left out.
    CommentsHeader {  },
}

/// Where the row of a comment leads: to its replies, by the token of the
/// first of them; nowhere where it has none.
pub open spec fn replies_node(replies: Option<Replies>) -> Node {
    match replies {
        Some(replies) => if replies.comment_replies_renderer.contents@.len() > 0 {
            Node::Comment(
                replies.comment_replies_renderer.contents@[0].continuation_item_renderer.continuation_endpoint.continuation_command
                    .token,
            )
        } else {
            Node::Nothing
        },
        None => Node::Nothing,
    }
}

impl IntoWidgets for CommentThreadRenderer {
    /// The row of the comment, which leads to its replies. Where a token
    /// stands in the place of the comment, there is no row.
    open spec fn rows(self) -> Rows {
        match self.comment {
            Comment::Comment { comment_renderer } => comment_renderer.row(replies_node(self.replies)),
            Comment::ContinuationItem { .. } => Rows::none(),
        }
    }

    fn into_widgets(self, titles: &mut Vec<Label>, info: &mut Vec<(Detail, Node)>) -> (token:
        Option<String>) {
        let node = match self.replies {
            Some(replies) => {
                let mut contents = replies.comment_replies_renderer.contents;
                if contents.len() > 0 {
                    Node::Comment(
                        contents.swap_remove(
                            0,
                        ).continuation_item_renderer.continuation_endpoint.continuation_command.token,
                    )
                } else {
                    Node::Nothing
                }
            },
            None => Node::Nothing,
        };
        match self.comment {
            Comment::Comment { comment_renderer } => {
                (*comment_renderer).add(titles, info, node);
            },
            Comment::ContinuationItem { .. } => {
                proof {
                    lemma_adds_none(titles@, info@);
                }
            },
        }
        None
    }
}

impl IntoWidgets for ContinuationItem {
    /// The row of the comment; or the token at the end of the list.
    open spec fn rows(self) -> Rows {
        match self {
            ContinuationItem::CommentThread { comment_thread_renderer } => comment_thread_renderer.rows(),
            ContinuationItem::ContinuationItem {
                continuation_item_renderer,
            } => continuation_item_renderer.rows(),
            ContinuationItem::CommentsHeader {  } => Rows::none(),
        }
    }

    fn into_widgets(self, titles: &mut Vec<Label>, info: &mut Vec<(Detail, Node)>) -> (token:
        Option<String>) {
        match self {
            ContinuationItem::CommentThread { comment_thread_renderer } => {
                (*comment_thread_renderer).into_widgets(titles, info)
            },
            ContinuationItem::ContinuationItem {
                continuation_item_renderer,
            } => continuation_item_renderer.into_widgets(titles, info),
            ContinuationItem::CommentsHeader {  } => {
                proof {
                    lemma_adds_none(titles@, info@);
                }
                None
            },
        }
    }
}

pub struct ReloadContinuationItemsCommand {
    pub continuation_items: Vec<ContinuationItem>,
}

pub struct OnResponseReceivedEndpoint {
    pub reload_continuation_items_command: ReloadContinuationItemsCommand,
}

impl IntoWidgets for OnResponseReceivedEndpoint {
    /// The rows of the comments, and the last token among them.
    open spec fn rows(self) -> Rows {
        all_rows(self.reload_continuation_items_command.continuation_items@)
    }

    fn into_widgets(self, titles: &mut Vec<Label>, info: &mut Vec<(Detail, Node)>) -> (token:
        Option<String>) {
        add_all(self.reload_continuation_items_command.continuation_items, titles, info)
    }
}

/// The answer to the request for the comments of a video.
pub struct CommentsResponse {
    pub on_response_received_endpoints: Vec<OnResponseReceivedEndpoint>,
}

impl IntoWidgets for CommentsResponse {
    /// The rows of all comments, in order, and the last token among them.
    open spec fn rows(self) -> Rows {
        all_rows(self.on_response_received_endpoints@)
    }

    fn into_widgets(self, titles: &mut Vec<Label>, info: &mut Vec<(Detail, Node)>) -> (token:
        Option<String>) {
        add_all(self.on_response_received_endpoints, titles, info)
    }
}

} // verus!
