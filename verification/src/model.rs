//! The board: an ordered row of columns, each an ordered stack of cards.

use vstd::prelude::*;
use vstd::multiset::Multiset;

verus! {

/// One item of work.
#[derive(Clone, Debug, PartialEq, Eq)]
pub struct Card {
    pub id: String,
    pub title: String,
    pub description: String,
}

/// A named stack of cards; index 0 is the top.
#[derive(Clone, Debug, PartialEq, Eq)]
pub struct Column {
    pub id: String,
    pub title: String,
    pub cards: Vec<Card>,
}

/// All columns of a session, left to right.
#[derive(Clone, Debug, PartialEq, Eq)]
pub struct Board {
    pub columns: Vec<Column>,
}

/// What a card is, as text.
pub struct CardView {
    pub id: Seq<char>,
    pub title: Seq<char>,
    pub description: Seq<char>,
}

/// What a column is: its identity, its heading and its cards from top to bottom.
pub struct ColumnView {
    pub id: Seq<char>,
    pub title: Seq<char>,
    pub cards: Seq<CardView>,
}

impl View for Card {
    type V = CardView;

    open spec fn view(&self) -> CardView {
        CardView { id: self.id@, title: self.title@, description: self.description@ }
    }
}

impl View for Column {
    type V = ColumnView;

    open spec fn view(&self) -> ColumnView {
        ColumnView {
            id: self.id@,
            title: self.title@,
            cards: Seq::new(self.cards@.len(), |i: int| self.cards@[i]@),
        }
    }
}

impl View for Board {
    type V = Seq<ColumnView>;

    open spec fn view(&self) -> Seq<ColumnView> {
        Seq::new(self.columns@.len(), |i: int| self.columns@[i]@)
    }
}

/// The ids of the cards of one column, each as often as it occurs there.
pub open spec fn column_card_ids(cards: Seq<CardView>) -> Multiset<Seq<char>> {
    cards.map_values(|c: CardView| c.id).to_multiset()
}

/// The ids of the cards of all columns together, each as often as it occurs
/// on the board.
pub open spec fn card_ids(board: Seq<ColumnView>) -> Multiset<Seq<char>>
    decreases board.len(),
{
    if board.len() == 0 {
        Multiset::empty()
    } else {
        card_ids(board.drop_last()).add(column_card_ids(board.last().cards))
    }
}

/// No card id occurs twice on the board, in one column or in two.
pub open spec fn ids_unique(board: Seq<ColumnView>) -> bool {
    forall|id: Seq<char>| card_ids(board).count(id) <= 1
}

} // verus!
