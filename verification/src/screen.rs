//! What a drawing of the board has to know of the cursor: which column
//! stands out, which row is highlighted, which card the detail view shows.

use vstd::prelude::*;
use crate::app::{cards_in, App, AppView};
use crate::model::Card;

verus! {

/// How the frame of a column is drawn.
#[derive(Clone, Copy, Debug, PartialEq, Eq, Structural)]
pub enum Border {
    /// The column has the focus.
    Focused,
    /// The column is headed "Done" and has no focus.
    Done,
    /// Any other column.
    Plain,
}

impl AppView {
    /// The frame of column `idx`: the focus counts before the heading.
    pub open spec fn border(self, idx: int) -> Border {
        if idx == self.col {
            Border::Focused
        } else if self.board[idx].title == "Done"@ {
            Border::Done
        } else {
            Border::Plain
        }
    }

    /// The row that is highlighted in column `idx`: the selected row, pulled
    /// back to the column's last card, in the focused column if it holds a
    /// card; none anywhere else.
    pub open spec fn highlighted_row(self, idx: int) -> Option<nat> {
        let n = cards_in(self.board, idx);
        if idx == self.col && n > 0 {
            Some(
                if self.row < n {
                    self.row
                } else {
                    (n - 1) as nat
                },
            )
        } else {
            None
        }
    }

    /// Whether the cursor stands on a card.
    pub open spec fn on_card(self) -> bool {
        self.row < cards_in(self.board, self.col as int)
    }
}

impl App {
    /// Says how the frame of column `idx` is to be drawn.
    pub fn border(&self, idx: usize) -> (b: Border)
        requires
            idx < self.board.columns@.len(),
        ensures
            b == self@.border(idx as int),
    {
        if idx == self.col {
            Border::Focused
        } else if self.board.columns[idx].title == "Done".to_owned() {
            Border::Done
        } else {
            Border::Plain
        }
    }

    /// Says which row of column `idx` is to be highlighted, if any.
    pub fn highlighted_row(&self, idx: usize) -> (row: Option<usize>)
        requires
            idx < self.board.columns@.len(),
        ensures
            match row {
                Some(r) => self@.highlighted_row(idx as int) == Some(r as nat),
                None => self@.highlighted_row(idx as int) is None,
            },
    {
        let n: usize = self.board.columns[idx].cards.len();
        if idx == self.col && n > 0 {
            Some(
                if self.row < n {
                    self.row
                } else {
                    n - 1
                },
            )
        } else {
            None
        }
    }

    /// The card that the detail view shows: the card under the cursor while
    /// the detail view is open, none while it is closed.
    pub fn detail_card(&self) -> (card: Option<&Card>)
        ensures
            card is Some <==> self.detail && self@.on_card(),
            card is Some ==> *card->0 == self.board.columns@[self.col as int].cards@[self.row as int],
    {
        if self.detail {
            self.focused_card()
        } else {
            None
        }
    }
}

} // verus!
