//! The cursor over a board and the operations that move it.

use vstd::prelude::*;
use crate::laws::lemma_move_conserves_cards;
use crate::model::{card_ids, Board, Card, ColumnView};

verus! {

/// What a key press can ask for.
#[derive(Clone, Copy, Debug, PartialEq, Eq, Structural)]
pub enum Action {
    Quit,
    CloseOrQuit,
    FocusLeft,
    FocusRight,
    SelectUp,
    SelectDown,
    MoveLeft,
    MoveRight,
    ToggleDetail,
    Refresh,
}

/// What came of one action.
#[derive(Clone, Debug, PartialEq, Eq)]
pub enum Outcome {
    /// The session goes on.
    Continue,
    /// The session is to end.
    Quit,
    /// A card went to another column; the session goes on.
    Relocated { card_id: String, column_id: String },
}

/// A board together with the cursor on it.
pub struct App {
    pub board: Board,
    pub col: usize,
    pub row: usize,
    pub detail: bool,
    pub banner: Option<String>,
}

/// `x` pulled into the range from `lo` to `hi`.
pub open spec fn clamp_int(x: int, lo: int, hi: int) -> int {
    if x < lo {
        lo
    } else if x > hi {
        hi
    } else {
        x
    }
}

/// How many cards column `col` holds; none where there is no such column.
pub open spec fn cards_in(board: Seq<ColumnView>, col: int) -> nat {
    if 0 <= col < board.len() {
        board[col].cards.len()
    } else {
        0
    }
}

/// The row nearest to `row` that column `col` has, or 0 for a column without cards.
pub open spec fn clamped_row(board: Seq<ColumnView>, col: int, row: int) -> nat {
    let n = cards_in(board, col);
    if n == 0 {
        0
    } else {
        clamp_int(row, 0, n - 1) as nat
    }
}

/// The state of an [`App`] as plain mathematical values.
pub struct AppView {
    pub board: Seq<ColumnView>,
    pub col: nat,
    pub row: nat,
    pub detail: bool,
    pub banner: Option<Seq<char>>,
}

impl AppView {
    /// The state in which a session starts on `board`: the cursor on the first
    /// column and the first card, no detail view, no banner.
    pub open spec fn initial(board: Seq<ColumnView>) -> AppView {
        AppView { board, col: 0, row: 0, detail: false, banner: None }
    }

    /// The cursor points at a column and a card that exist, or rests at 0
    /// where there is none.
    pub open spec fn cursor_valid(self) -> bool {
        &&& (self.board.len() == 0 ==> self.col == 0)
        &&& (self.board.len() > 0 ==> self.col < self.board.len())
        &&& (cards_in(self.board, self.col as int) == 0 ==> self.row == 0)
        &&& (cards_in(self.board, self.col as int) > 0 ==> self.row < cards_in(
            self.board,
            self.col as int,
        ))
    }

    /// The state after the row was pulled back into the focused column.
    pub open spec fn row_clamped(self) -> AppView {
        AppView { row: clamped_row(self.board, self.col as int, self.row as int), ..self }
    }

    /// The state after the focus moved by `delta` columns, stopping at either edge.
    pub open spec fn focused(self, delta: int) -> AppView {
        if self.board.len() == 0 {
            AppView { col: 0, row: 0, ..self }
        } else {
            let col = clamp_int(self.col + delta, 0, self.board.len() - 1) as nat;
            AppView { col, row: clamped_row(self.board, col as int, self.row as int), ..self }
        }
    }

    /// The state after the selection moved by `delta` rows inside the focused
    /// column, stopping at its first and its last card.
    pub open spec fn selected(self, delta: int) -> AppView {
        AppView { row: clamped_row(self.board, self.col as int, self.row + delta), ..self }
    }

    /// The state after the detail view was opened or closed.
    pub open spec fn detail_toggled(self) -> AppView {
        AppView { detail: !self.detail, ..self }
    }

    /// Whether the selected card can go `dir` columns to the right (to the
    /// left for a negative `dir`): there is a column to go to and a card to take.
    pub open spec fn can_move(self, dir: int) -> bool {
        &&& self.board.len() > 0
        &&& 0 <= self.col + dir < self.board.len()
        &&& cards_in(self.board, self.col as int) > 0
    }

    /// The board after the selected card left its column and was put below
    /// the last card of the column `dir` places further.
    pub open spec fn board_after_move(self, dir: int) -> Seq<ColumnView> {
        let src = self.col as int;
        let dst = self.col + dir;
        let card = self.board[src].cards[self.row as int];
        let taken = self.board.update(
            src,
            ColumnView { cards: self.board[src].cards.remove(self.row as int), ..self.board[src] },
        );
        taken.update(dst, ColumnView { cards: taken[dst].cards.push(card), ..taken[dst] })
    }

    /// The state after an attempt to move the selected card by `dir` columns:
    /// the card lies at the bottom of its new column with the cursor on it, or,
    /// where it cannot move, nothing has changed.
    pub open spec fn moved(self, dir: int) -> AppView {
        if self.can_move(dir) {
            let board = self.board_after_move(dir);
            let dst = self.col + dir;
            AppView { board, col: dst as nat, row: (board[dst].cards.len() - 1) as nat, ..self }
        } else {
            self
        }
    }

    /// The state after an action that stays inside the cursor: the focus, the
    /// selection and the detail view. The two move actions and `Refresh`
    /// change nothing here.
    pub open spec fn applied(self, a: Action) -> AppView {
        match a {
            Action::CloseOrQuit => AppView { detail: false, ..self },
            Action::FocusLeft => self.focused(-1),
            Action::FocusRight => self.focused(1),
            Action::SelectUp => self.selected(-1),
            Action::SelectDown => self.selected(1),
            Action::ToggleDetail => self.detail_toggled(),
            Action::Quit | Action::MoveLeft | Action::MoveRight | Action::Refresh => self,
        }
    }

    /// Whether the action ends the session: `Quit` always, `CloseOrQuit` when
    /// no detail view is open that it could close.
    pub open spec fn quits(self, a: Action) -> bool {
        a == Action::Quit || (a == Action::CloseOrQuit && !self.detail)
    }

    /// The state after any action, the two move actions carried out by one
    /// column to the left or to the right.
    pub open spec fn dispatched(self, a: Action) -> AppView {
        match a {
            Action::MoveLeft => self.moved(-1),
            Action::MoveRight => self.moved(1),
            _ => self.applied(a),
        }
    }

    /// What a move by `dir` columns reports: the card's id and the id of the
    /// column that received it, or nothing where the card cannot move.
    pub open spec fn move_report(self, dir: int) -> Option<(Seq<char>, Seq<char>)> {
        if self.can_move(dir) {
            Some((self.board[self.col as int].cards[self.row as int].id, self.board[self.col + dir].id))
        } else {
            None
        }
    }
}

/// What an outcome says, as plain values.
pub enum OutcomeView {
    Continue,
    Quit,
    Relocated { card_id: Seq<char>, column_id: Seq<char> },
}

impl View for Outcome {
    type V = OutcomeView;

    open spec fn view(&self) -> OutcomeView {
        match *self {
            Outcome::Continue => OutcomeView::Continue,
            Outcome::Quit => OutcomeView::Quit,
            Outcome::Relocated { card_id, column_id } => OutcomeView::Relocated {
                card_id: card_id@,
                column_id: column_id@,
            },
        }
    }
}

/// The outcome that a state owes to an action.
pub open spec fn outcome_of(s: AppView, a: Action) -> OutcomeView {
    match a {
        Action::MoveLeft => outcome_of_report(s.move_report(-1)),
        Action::MoveRight => outcome_of_report(s.move_report(1)),
        _ => if s.quits(a) {
            OutcomeView::Quit
        } else {
            OutcomeView::Continue
        },
    }
}

/// A move that took place is passed on with its report; one that did not
/// leaves the session as it was.
pub open spec fn outcome_of_report(r: Option<(Seq<char>, Seq<char>)>) -> OutcomeView {
    match r {
        Some((card_id, column_id)) => OutcomeView::Relocated { card_id, column_id },
        None => OutcomeView::Continue,
    }
}

/// A report of a move as plain text: the card's id, then the receiving column's.
pub open spec fn report_view(r: Option<(String, String)>) -> Option<(Seq<char>, Seq<char>)> {
    match r {
        Some((card, column)) => Some((card@, column@)),
        None => None,
    }
}

impl View for App {
    type V = AppView;

    open spec fn view(&self) -> AppView {
        AppView {
            board: self.board@,
            col: self.col as nat,
            row: self.row as nat,
            detail: self.detail,
            banner: match self.banner {
                Some(s) => Some(s@),
                None => None,
            },
        }
    }
}

impl App {
    /// The cursor is valid for the board it stands on.
    pub open spec fn wf(&self) -> bool {
        self@.cursor_valid()
    }

    /// Takes a board and puts the cursor on its first column and first card.
    pub fn new(board: Board) -> (app: App)
        ensures
            app.board == board,
            app.col == 0,
            app.row == 0,
            !app.detail,
            app.banner is None,
            app@ == AppView::initial(board@),
            app.wf(),
    {
        App { board, col: 0, row: 0, detail: false, banner: None }
    }

    fn clamp_row(&mut self)
        ensures
            final(self).board == old(self).board,
            final(self).col == old(self).col,
            final(self).detail == old(self).detail,
            final(self).banner == old(self).banner,
            final(self)@ == old(self)@.row_clamped(),
    {
        let len: usize = if self.col < self.board.columns.len() {
            self.board.columns[self.col].cards.len()
        } else {
            0
        };
        self.row = if len == 0 {
            0
        } else if self.row < len - 1 {
            self.row
        } else {
            len - 1
        };
    }

    /// Moves the focus by `delta` columns, stopping at the first and the last
    /// column, and pulls the row back into the newly focused column.
    pub fn focus(&mut self, delta: isize)
        ensures
            final(self).board == old(self).board,
            final(self).detail == old(self).detail,
            final(self).banner == old(self).banner,
            final(self)@ == old(self)@.focused(delta as int),
            final(self).wf(),
    {
        let n: usize = self.board.columns.len();
        if n == 0 {
            self.col = 0;
            self.row = 0;
            return ;
        }
        self.col = match self.col.checked_add_signed(delta) {
            Some(c) => if c < n - 1 {
                c
            } else {
                n - 1
            },
            None => if delta < 0 {
                0
            } else {
                n - 1
            },
        };
        self.clamp_row();
    }

    /// Moves the selection by `delta` rows inside the focused column, stopping
    /// at its first and its last card. The focus stays where it is.
    pub fn select(&mut self, delta: isize)
        requires
            old(self).wf(),
        ensures
            final(self).board == old(self).board,
            final(self).col == old(self).col,
            final(self).detail == old(self).detail,
            final(self).banner == old(self).banner,
            final(self)@ == old(self)@.selected(delta as int),
            final(self).wf(),
    {
        if self.board.columns.len() == 0 {
            self.row = 0;
            return ;
        }
        let len: usize = self.board.columns[self.col].cards.len();
        if len == 0 {
            self.row = 0;
            return ;
        }
        self.row = match self.row.checked_add_signed(delta) {
            Some(r) => if r < len - 1 {
                r
            } else {
                len - 1
            },
            None => if delta < 0 {
                0
            } else {
                len - 1
            },
        };
    }

    /// Opens the detail view, or closes it if it is open.
    pub fn toggle_detail(&mut self)
        ensures
            final(self).board == old(self).board,
            final(self).col == old(self).col,
            final(self).row == old(self).row,
            final(self).banner == old(self).banner,
            final(self).detail == !old(self).detail,
    {
        self.detail = !self.detail;
    }

    /// Carries out one action on the focus, the selection or the detail view
    /// and says whether the session is to end. The board is never touched:
    /// `MoveLeft`, `MoveRight` and `Refresh` change nothing here.
    pub fn apply(&mut self, a: Action) -> (quit: bool)
        requires
            old(self).wf(),
        ensures
            final(self).board == old(self).board,
            final(self).banner == old(self).banner,
            final(self)@ == old(self)@.applied(a),
            quit == old(self)@.quits(a),
            quit ==> *final(self) == *old(self),
            final(self).wf(),
    {
        match a {
            Action::Quit => {
                return true;
            },
            Action::CloseOrQuit => {
                if self.detail {
                    self.detail = false;
                } else {
                    return true;
                }
            },
            Action::FocusLeft => self.focus(-1),
            Action::FocusRight => self.focus(1),
            Action::SelectDown => self.select(1),
            Action::SelectUp => self.select(-1),
            Action::ToggleDetail => self.toggle_detail(),
            Action::Refresh => {},
            Action::MoveLeft | Action::MoveRight => {},
        }
        false
    }

    /// Carries out any action: a move action moves the selected card by one
    /// column, every other action goes to [`App::apply`].
    pub fn dispatch(&mut self, a: Action) -> (outcome: Outcome)
        requires
            old(self).wf(),
        ensures
            final(self)@ == old(self)@.dispatched(a),
            outcome@ == outcome_of(old(self)@, a),
            outcome@ is Quit ==> *final(self) == *old(self),
            final(self).banner == old(self).banner,
            final(self).wf(),
    {
        match a {
            Action::MoveLeft => Self::relocated(self.optimistic_move(-1)),
            Action::MoveRight => Self::relocated(self.optimistic_move(1)),
            _ => {
                if self.apply(a) {
                    Outcome::Quit
                } else {
                    Outcome::Continue
                }
            },
        }
    }

    fn relocated(report: Option<(String, String)>) -> (outcome: Outcome)
        ensures
            outcome@ == outcome_of_report(report_view(report)),
    {
        match report {
            Some((card_id, column_id)) => Outcome::Relocated { card_id, column_id },
            None => Outcome::Continue,
        }
    }

    /// The card under the cursor, if there is one.
    pub fn focused_card(&self) -> (card: Option<&Card>)
        ensures
            card is Some <==> self.row < cards_in(self.board@, self.col as int),
            card is Some ==> *card->0 == self.board.columns@[self.col as int].cards@[self.row as int],
    {
        if self.col < self.board.columns.len() && self.row < self.board.columns[self.col].cards.len() {
            Some(&self.board.columns[self.col].cards[self.row])
        } else {
            None
        }
    }

    /// Takes the selected card out of the focused column and puts it below the
    /// last card of the column `dir` places to the right (to the left for a
    /// negative `dir`). The cursor goes with the card. Reports the card's id
    /// and the receiving column's id; where there is no such column or no card
    /// to take, nothing changes and nothing is reported.
    pub fn optimistic_move(&mut self, dir: isize) -> (report: Option<(String, String)>)
        requires
            old(self).wf(),
        ensures
            final(self)@ == old(self)@.moved(dir as int),
            report_view(report) == old(self)@.move_report(dir as int),
            report is None ==> *final(self) == *old(self),
            card_ids(final(self).board@) == card_ids(old(self).board@),
            final(self).detail == old(self).detail,
            final(self).banner == old(self).banner,
            final(self).wf(),
    {
        let n: usize = self.board.columns.len();
        if n == 0 {
            return None;
        }
        let dst: usize = match self.col.checked_add_signed(dir) {
            Some(d) => d,
            None => { return None; },
        };
        if dst >= n {
            return None;
        }
        if self.board.columns[self.col].cards.is_empty() {
            return None;
        }
        proof {
            lemma_move_conserves_cards(self@, dir as int);
        }
        let ghost before = self@;
        let ghost src = self.col as int;
        let ghost row = self.row as int;
        let card = self.board.columns[self.col].cards.remove(self.row);
        let card_id = card.id.clone();
        let to_col_id = self.board.columns[dst].id.clone();
        let ghost taken = self.board@;
        proof {
            let cut = ColumnView { cards: before.board[src].cards.remove(row), ..before.board[src] };
            assert(taken[src].cards =~= cut.cards);
            assert(taken =~= before.board.update(src, cut));
        }

        self.board.columns[dst].cards.push(card);
        proof {
            let grown = ColumnView { cards: taken[dst as int].cards.push(card@), ..taken[dst as int] };
            assert(self.board@[dst as int].cards =~= grown.cards);
            assert(self.board@ =~= taken.update(dst as int, grown));
        }

        self.col = dst;
        self.clamp_row();
        if !self.board.columns[self.col].cards.is_empty() {
            self.row = self.board.columns[self.col].cards.len() - 1;
        }
        Some((card_id, to_col_id))
    }
}

} // verus!
