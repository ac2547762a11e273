//! The answer to a request for more of a page.

use vstd::prelude::*;
use crate::items::{Detail, Label, Node, Rows};
use crate::renderers::{add_all, all_rows, ContinueOnResponseReceivedAction, IntoWidgets};

verus! {

/// More rows of a page, in groups.
pub struct ContinuationResponse<T> {
    pub on_response_received_actions: Vec<ContinueOnResponseReceivedAction<T>>,
}

impl<T: IntoWidgets> IntoWidgets for ContinuationResponse<T> {
    /// The rows of all groups, in order, and the last token that one of
    /// them brings.
    open spec fn rows(self) -> Rows {
        all_rows(self.on_response_received_actions@)
    }

    fn into_widgets(self, titles: &mut Vec<Label>, info: &mut Vec<(Detail, Node)>) -> (token:
        Option<String>) {
        add_all(self.on_response_received_actions, titles, info)
    }
}

} // verus!
