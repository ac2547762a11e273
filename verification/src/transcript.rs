//! The transcript of a video.

use vstd::prelude::*;
use crate::items::{
    details_text, empty_detail, line_label, raw_detail, spaced_text, titles_text,
    underlined_label, Detail, Label, Line, Node, Rows, Span, SpanText, Style,
};
use crate::renderers::{add_all, add_row, all_rows, lemma_adds_both, IntoWidgets, SimpleText, Text};

verus! {

/// A piece of what is said, and the time at which it is said.
pub struct TranscriptSegmentRenderer {
    pub snippet: Text,
    pub start_time_text: SimpleText,
}

pub struct InitialSegment {
    pub transcript_segment_renderer: TranscriptSegmentRenderer,
}

pub struct TranscriptSegmentListRenderer {
    pub initial_segments: Vec<InitialSegment>,
}

pub struct TranscriptSearchPanelRendererBody {
    pub transcript_segment_list_renderer: TranscriptSegmentListRenderer,
}

pub struct ReloadContinuationData {
    pub continuation: String,
}

pub struct LanguageMenuSortFilterSubMenuRendererSubMenuItemContinuation {
    pub reload_continuation_data: ReloadContinuationData,
}

/// A language in which the transcript can be had.
pub struct LanguageMenuSortFilterSubMenuRendererSubMenuItem {
    pub title: String,
    pub selected: bool,
    pub continuation: LanguageMenuSortFilterSubMenuRendererSubMenuItemContinuation,
}

pub struct LanguageMenuSortFilterSubMenuRenderer {
    pub sub_menu_items: Vec<LanguageMenuSortFilterSubMenuRendererSubMenuItem>,
}

pub struct LanguageMenu {
    pub sort_filter_sub_menu_renderer: LanguageMenuSortFilterSubMenuRenderer,
}

pub struct TranscriptFooterRenderer {
    pub language_menu: LanguageMenu,
}

pub struct TranscriptSearchPanelRendererFooter {
    pub transcript_footer_renderer: TranscriptFooterRenderer,
}

pub struct TranscriptSearchPanelRenderer {
    pub body: TranscriptSearchPanelRendererBody,
    pub footer: TranscriptSearchPanelRendererFooter,
}

pub struct TranscriptRendererContent {
    pub transcript_search_panel_renderer: TranscriptSearchPanelRenderer,
}

pub struct TranscriptRenderer {
    pub content: TranscriptRendererContent,
}

pub struct UpdateEngagementPanelActionContent {
    pub transcript_renderer: TranscriptRenderer,
}

pub struct UpdateEngagementPanelAction {
    pub content: UpdateEngagementPanelActionContent,
}

pub struct Action {
    pub update_engagement_panel_action: UpdateEngagementPanelAction,
}

/// The answer to the request for a transcript.
pub struct TranscriptResponse {
    pub actions: Vec<Action>,
}

/// The style of a language in the list: underlined if it is the one
/// selected.
pub open spec fn mark(selected: bool) -> Style {
    Style { underlined: selected, ..Style::plain() }
}

impl IntoWidgets for LanguageMenuSortFilterSubMenuRendererSubMenuItem {
    /// One row: the name of the language, underlined if it is the one
    /// selected, which opens the transcript in that language.
    open spec fn rows(self) -> Rows {
        Rows::row(
            line_label(seq![SpanText { content: self.title@, style: mark(self.selected) }]),
            empty_detail(),
            Node::Transcript(self.continuation.reload_continuation_data.continuation),
        )
    }

    fn into_widgets(self, titles: &mut Vec<Label>, info: &mut Vec<(Detail, Node)>) -> (token:
        Option<String>) {
        let style = Style {
            fg: None,
            bg: None,
            bold: false,
            italic: false,
            underlined: self.selected,
            crossed_out: false,
        };
        add_row(
            titles,
            info,
            Label::line(Line::of(Span { content: self.title, style })),
            Detail::empty(),
            Node::Transcript(self.continuation.reload_continuation_data.continuation),
        );
        None
    }
}

impl IntoWidgets for InitialSegment {
    /// One row: what is said, with space below it, and the time at which
    /// it is said. It leads nowhere.
    open spec fn rows(self) -> Rows {
        Rows::row(
            spaced_text(self.transcript_segment_renderer.snippet.line()),
            raw_detail(self.transcript_segment_renderer.start_time_text.simple_text@, false),
            Node::Nothing,
        )
    }

    fn into_widgets(self, titles: &mut Vec<Label>, info: &mut Vec<(Detail, Node)>) -> (token:
        Option<String>) {
        add_row(
            titles,
            info,
            Label::spaced(self.transcript_segment_renderer.snippet.into_line()),
            Detail::raw(self.transcript_segment_renderer.start_time_text.simple_text, false),
            Node::Nothing,
        );
        None
    }
}

impl Action {
    /// The languages in which the transcript can be had.
    pub open spec fn languages(self) -> Seq<LanguageMenuSortFilterSubMenuRendererSubMenuItem> {
        self.update_engagement_panel_action.content.transcript_renderer
            .content.transcript_search_panel_renderer.footer
            .transcript_footer_renderer.language_menu
            .sort_filter_sub_menu_renderer.sub_menu_items@
    }

    /// The pieces of the transcript.
    pub open spec fn segments(self) -> Seq<InitialSegment> {
        self.update_engagement_panel_action.content.transcript_renderer
            .content.transcript_search_panel_renderer.body
            .transcript_segment_list_renderer.initial_segments@
    }
}

impl IntoWidgets for Action {
    /// A heading for the languages, a row for each language, and a row
    /// for each piece of the transcript.
    open spec fn rows(self) -> Rows {
        Rows::row(underlined_label("Other languages"@), empty_detail(), Node::Nothing).with(
            all_rows(self.languages()),
        ).with(all_rows(self.segments()))
    }

    fn into_widgets(self, titles: &mut Vec<Label>, info: &mut Vec<(Detail, Node)>) -> (token:
        Option<String>) {
        let ghost head = Rows::row(
            underlined_label("Other languages"@),
            empty_detail(),
            Node::Nothing,
        );
        let ghost languages = all_rows(self.languages());
        let ghost segments = all_rows(self.segments());
        let panel =
            self.update_engagement_panel_action.content.transcript_renderer
                .content.transcript_search_panel_renderer;
        add_row(
            titles,
            info,
            Label::underlined("Other languages".to_owned()),
            Detail::empty(),
            Node::Nothing,
        );
        let ghost titles1 = titles@;
        let ghost info1 = info@;
        let _ = add_all(
            panel.footer.transcript_footer_renderer.language_menu
                .sort_filter_sub_menu_renderer.sub_menu_items,
            titles,
            info,
        );
        let ghost titles2 = titles@;
        let ghost info2 = info@;
        let _ = add_all(panel.body.transcript_segment_list_renderer.initial_segments, titles, info);
        proof {
            lemma_adds_both(
                old(titles)@,
                old(info)@,
                head,
                titles1,
                info1,
                languages,
                titles2,
                info2,
            );
            lemma_adds_both(
                old(titles)@,
                old(info)@,
                head.with(languages),
                titles2,
                info2,
                segments,
                titles@,
                info@,
            );
        }
        None
    }
}

impl TranscriptResponse {
    /// The rows of a transcript: those of each of its parts, in order.
    pub open spec fn rows(self) -> Rows {
        all_rows(self.actions@)
    }

    /// The rows of this transcript.
    pub fn into_widgets(self) -> (r: (Vec<Label>, Vec<(Detail, Node)>))
        ensures
            titles_text(r.0@) == self.rows().titles,
            details_text(r.1@) == self.rows().details,
    {
        let mut titles: Vec<Label> = Vec::new();
        let mut info: Vec<(Detail, Node)> = Vec::new();
        let _ = add_all(self.actions, &mut titles, &mut info);
        (titles, info)
    }
}

} // verus!
