//! What a page shows: rows with a title, a detail and a node that says
//! what happens when the row is entered.

use vstd::prelude::*;

verus! {

/// What entering a row leads to.
#[derive(Debug, PartialEq, Eq)]
pub enum Node {
    /// A category; holds its continuation token.
    Header(String),
    /// A video; holds its id.
    Video(String),
    /// A game; holds its browse id and its parameters.
    Game(String, Option<String>),
    /// A search; holds the query and its parameters.
    Search(String, Option<String>),
    /// A channel; holds its id and its parameters.
    Channel(String, Option<String>),
    /// A playlist; holds its id.
    Playlist(String),
    /// The transcript of a video; holds its parameters.
    Transcript(String),
    /// The comments of a video; holds their continuation token.
    CommentSection(String),
    /// A comment with replies; holds the token of the first replies.
    Comment(String),
    /// The row can be looked at and not entered.
    Nothing,
}

/// A colour by its red, green and blue parts.
#[derive(Clone, Copy, Debug, PartialEq, Eq, Structural)]
pub struct Colour {
    pub red: u8,
    pub green: u8,
    pub blue: u8,
}

/// How a piece of text is drawn.
#[derive(Clone, Copy, Debug, PartialEq, Eq, Structural)]
pub struct Style {
    pub fg: Option<Colour>,
    pub bg: Option<Colour>,
    pub bold: bool,
    pub italic: bool,
    pub underlined: bool,
    pub crossed_out: bool,
}

/// A run of text in one style.
#[derive(Debug, PartialEq, Eq)]
pub struct Span {
    pub content: String,
    pub style: Style,
}

/// One line: spans side by side.
#[derive(Debug, PartialEq, Eq)]
pub struct Line {
    pub spans: Vec<Span>,
}

/// What a widget shows: a string that the widget breaks into lines itself,
/// or lines.
#[derive(Debug, PartialEq, Eq)]
pub enum Content {
    Raw(String),
    Lines(Vec<Line>),
}

/// The left side of a row: its title.
#[derive(Debug, PartialEq, Eq)]
pub struct Label {
    pub content: Content,
    pub style: Style,
}

/// The right side of a row.
#[derive(Debug, PartialEq, Eq)]
pub struct Detail {
    pub content: Content,
    pub style: Style,
    /// Whether long lines go on in the next line.
    pub wrap: bool,
}

/// A span as plain text.
pub struct SpanText {
    pub content: Seq<char>,
    pub style: Style,
}

/// What a widget shows, as plain text.
pub enum ContentText {
    Raw(Seq<char>),
    Lines(Seq<Seq<SpanText>>),
}

/// The left side of a row as plain text.
pub struct LabelText {
    pub content: ContentText,
    pub style: Style,
}

/// The right side of a row as plain text.
pub struct DetailText {
    pub content: ContentText,
    pub style: Style,
    pub wrap: bool,
}

impl View for Span {
    type V = SpanText;

    open spec fn view(&self) -> SpanText {
        SpanText { content: self.content@, style: self.style }
    }
}

impl View for Line {
    type V = Seq<SpanText>;

    open spec fn view(&self) -> Seq<SpanText> {
        Seq::new(self.spans@.len(), |i: int| self.spans@[i]@)
    }
}

/// The lines of a list of lines as plain text.
pub open spec fn lines_text(lines: Seq<Line>) -> Seq<Seq<SpanText>> {
    Seq::new(lines.len(), |i: int| lines[i]@)
}

impl View for Content {
    type V = ContentText;

    open spec fn view(&self) -> ContentText {
        match self {
            Content::Raw(text) => ContentText::Raw(text@),
            Content::Lines(lines) => ContentText::Lines(lines_text(lines@)),
        }
    }
}

impl View for Label {
    type V = LabelText;

    open spec fn view(&self) -> LabelText {
        LabelText { content: self.content@, style: self.style }
    }
}

impl View for Detail {
    type V = DetailText;

    open spec fn view(&self) -> DetailText {
        DetailText { content: self.content@, style: self.style, wrap: self.wrap }
    }
}

/// The titles of a list of rows as plain text.
pub open spec fn titles_text(titles: Seq<Label>) -> Seq<LabelText> {
    Seq::new(titles.len(), |i: int| titles[i]@)
}

/// The details of a list of rows as plain text, each with its node.
pub open spec fn details_text(details: Seq<(Detail, Node)>) -> Seq<(DetailText, Node)> {
    Seq::new(details.len(), |i: int| (details[i].0@, details[i].1))
}

impl Style {
    /// The style that changes nothing.
    pub open spec fn plain() -> Style {
        Style {
            fg: None,
            bg: None,
            bold: false,
            italic: false,
            underlined: false,
            crossed_out: false,
        }
    }

    /// The plain style, underlined.
    pub open spec fn underline() -> Style {
        Style { underlined: true, ..Style::plain() }
    }

    /// The plain style, underlined.
    pub fn underlined() -> (r: Style)
        ensures
            r == Style::underline(),
    {
        Style {
            fg: None,
            bg: None,
            bold: false,
            italic: false,
            underlined: true,
            crossed_out: false,
        }
    }

    /// The plain style in the given colours.
    pub fn coloured(fg: Option<Colour>, bg: Option<Colour>) -> (r: Style)
        ensures
            r == (Style { fg, bg, ..Style::plain() }),
    {
        Style { fg, bg, bold: false, italic: false, underlined: false, crossed_out: false }
    }
}

impl Default for Style {
    fn default() -> (r: Self)
        ensures
            r == Style::plain(),
    {
        Style {
            fg: None,
            bg: None,
            bold: false,
            italic: false,
            underlined: false,
            crossed_out: false,
        }
    }
}

/// The colour that a number stands for: its lowest byte is the blue part,
/// the next the green, the next the red; the highest byte is left out.
pub open spec fn colour_of(colour: u32) -> Colour {
    Colour {
        red: ((colour as int / 0x10000) % 0x100) as u8,
        green: ((colour as int / 0x100) % 0x100) as u8,
        blue: (colour as int % 0x100) as u8,
    }
}

/// The colour that a number stands for.
pub fn int_to_colour(colour: u32) -> (r: Colour)
    ensures
        r == colour_of(colour),
{
    let red: u32 = (colour / 0x10000) % 0x100;
    let green: u32 = (colour / 0x100) % 0x100;
    let blue: u32 = colour % 0x100;
    Colour { red: red as u8, green: green as u8, blue: blue as u8 }
}

/// A span of plain text in the plain style.
pub open spec fn raw_span(content: Seq<char>) -> SpanText {
    SpanText { content, style: Style::plain() }
}

/// A line that holds `content` as one plain span.
pub open spec fn raw_line(content: Seq<char>) -> Seq<SpanText> {
    seq![raw_span(content)]
}

/// A label of two lines: `line` and an empty line below it.
pub open spec fn spaced_text(line: Seq<SpanText>) -> LabelText {
    LabelText {
        content: ContentText::Lines(seq![line, Seq::<SpanText>::empty()]),
        style: Style::plain(),
    }
}

/// A label of one line.
pub open spec fn line_label(line: Seq<SpanText>) -> LabelText {
    LabelText { content: ContentText::Lines(seq![line]), style: Style::plain() }
}

/// A label that is given as a string.
pub open spec fn raw_label(content: Seq<char>) -> LabelText {
    LabelText { content: ContentText::Raw(content), style: Style::plain() }
}

/// A label of one underlined line.
pub open spec fn underlined_label(content: Seq<char>) -> LabelText {
    line_label(seq![SpanText { content, style: Style::underline() }])
}

/// A label of one empty line, which parts two groups of rows.
pub open spec fn gap_label() -> LabelText {
    line_label(Seq::<SpanText>::empty())
}

/// A detail without any text.
pub open spec fn empty_detail() -> DetailText {
    DetailText {
        content: ContentText::Lines(Seq::<Seq<SpanText>>::empty()),
        style: Style::plain(),
        wrap: false,
    }
}

/// A detail of the given lines.
pub open spec fn lines_detail(lines: Seq<Seq<SpanText>>, wrap: bool) -> DetailText {
    DetailText { content: ContentText::Lines(lines), style: Style::plain(), wrap }
}

/// A detail that is given as a string.
pub open spec fn raw_detail(content: Seq<char>, wrap: bool) -> DetailText {
    DetailText { content: ContentText::Raw(content), style: Style::plain(), wrap }
}

impl Span {
    /// The span of `content` in the plain style.
    pub fn raw(content: String) -> (r: Span)
        ensures
            r@ == raw_span(content@),
    {
        Span { content, style: Style::default() }
    }
}

impl Line {
    /// The line without any span.
    pub fn empty() -> (r: Line)
        ensures
            r@ == Seq::<SpanText>::empty(),
    {
        let r = Line { spans: Vec::new() };
        r
    }

    /// The line that holds `span` alone.
    pub fn of(span: Span) -> (r: Line)
        ensures
            r@ == seq![span@],
    {
        let mut spans: Vec<Span> = Vec::new();
        spans.push(span);
        let r = Line { spans };
        r
    }

    /// The line that holds `content` as one plain span.
    pub fn raw(content: String) -> (r: Line)
        ensures
            r@ == raw_line(content@),
    {
        Line::of(Span::raw(content))
    }

    /// Adds `span` at the end of the line.
    pub fn push(&mut self, span: Span)
        ensures
            final(self)@ == old(self)@.push(span@),
    {
        self.spans.push(span);
    }
}

/// Adds `line` at the end of `lines`.
pub fn push_line(lines: &mut Vec<Line>, line: Line)
    ensures
        lines_text(final(lines)@) == lines_text(old(lines)@).push(line@),
{
    lines.push(line);
}

/// The list without lines.
pub fn no_lines() -> (r: Vec<Line>)
    ensures
        lines_text(r@) == Seq::<Seq<SpanText>>::empty(),
{
    let r: Vec<Line> = Vec::new();
    r
}

impl Label {
    /// The label of two lines: `line` and an empty line below it.
    pub fn spaced(line: Line) -> (r: Label)
        ensures
            r@ == spaced_text(line@),
    {
        let mut lines = no_lines();
        push_line(&mut lines, line);
        push_line(&mut lines, Line::empty());
        let r = Label { content: Content::Lines(lines), style: Style::default() };
        assert(lines_text(lines@) =~= seq![line@, Seq::<SpanText>::empty()]);
        r
    }

    /// The label of one line.
    pub fn line(line: Line) -> (r: Label)
        ensures
            r@ == line_label(line@),
    {
        let mut lines = no_lines();
        push_line(&mut lines, line);
        let r = Label { content: Content::Lines(lines), style: Style::default() };
        r
    }

    /// The label that is given as a string.
    pub fn raw(content: String) -> (r: Label)
        ensures
            r@ == raw_label(content@),
    {
        Label { content: Content::Raw(content), style: Style::default() }
    }

    /// The label of one underlined line.
    pub fn underlined(content: String) -> (r: Label)
        ensures
            r@ == underlined_label(content@),
    {
        Label::line(Line::of(Span { content, style: Style::underlined() }))
    }

    /// The label of one empty line.
    pub fn gap() -> (r: Label)
        ensures
            r@ == gap_label(),
    {
        Label::line(Line::empty())
    }
}

impl Detail {
    /// The detail without any text.
    pub fn empty() -> (r: Detail)
        ensures
            r@ == empty_detail(),
    {
        Detail { content: Content::Lines(no_lines()), style: Style::default(), wrap: false }
    }

    /// The detail of the given lines.
    pub fn lines(lines: Vec<Line>, wrap: bool) -> (r: Detail)
        ensures
            r@ == lines_detail(lines_text(lines@), wrap),
    {
        Detail { content: Content::Lines(lines), style: Style::default(), wrap }
    }

    /// The detail of one line.
    pub fn line(line: Line, wrap: bool) -> (r: Detail)
        ensures
            r@ == lines_detail(seq![line@], wrap),
    {
        let mut lines = no_lines();
        push_line(&mut lines, line);
        Detail::lines(lines, wrap)
    }

    /// The detail that is given as a string.
    pub fn raw(content: String, wrap: bool) -> (r: Detail)
        ensures
            r@ == raw_detail(content@, wrap),
    {
        Detail { content: Content::Raw(content), style: Style::default(), wrap }
    }
}

/// The rows that something adds to a list, and the token that it brings.
pub struct Rows {
    pub titles: Seq<LabelText>,
    pub details: Seq<(DetailText, Node)>,
    pub token: Option<String>,
}

impl Rows {
    /// No rows and no token.
    pub open spec fn none() -> Rows {
        Rows { titles: Seq::empty(), details: Seq::empty(), token: None }
    }

    /// The one row of `title` and `detail`, which leads to `node`.
    pub open spec fn row(title: LabelText, detail: DetailText, node: Node) -> Rows {
        Rows { titles: seq![title], details: seq![(detail, node)], token: None }
    }

    /// No rows, and the token `token`.
    pub open spec fn end(token: String) -> Rows {
        Rows { titles: Seq::empty(), details: Seq::empty(), token: Some(token) }
    }

    /// These rows and then the rows of `next`, without any token.
    pub open spec fn with(self, next: Rows) -> Rows {
        Rows {
            titles: self.titles + next.titles,
            details: self.details + next.details,
            token: None,
        }
    }

    /// These rows and then the rows of `next`; the token is that of
    /// `next` if it brings one, else the one at hand.
    pub open spec fn with_latest(self, next: Rows) -> Rows {
        Rows {
            titles: self.titles + next.titles,
            details: self.details + next.details,
            token: if next.token is Some {
                next.token
            } else {
                self.token
            },
        }
    }

    /// The rows that stand in the two lists.
    pub open spec fn of(titles: Seq<Label>, details: Seq<(Detail, Node)>) -> Rows {
        Rows { titles: titles_text(titles), details: details_text(details), token: None }
    }
}

/// Adds `title` at the end of `titles`.
pub fn push_label(titles: &mut Vec<Label>, title: Label)
    ensures
        titles_text(final(titles)@) == titles_text(old(titles)@).push(title@),
{
    titles.push(title);
}

/// Adds `detail` with `node` at the end of `details`.
pub fn push_detail(details: &mut Vec<(Detail, Node)>, detail: Detail, node: Node)
    ensures
        details_text(final(details)@) == details_text(old(details)@).push((detail@, node)),
{
    details.push((detail, node));
}

} // verus!
