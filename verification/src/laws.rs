//! What holds of the cursor operations taken together.

use vstd::prelude::*;
use vstd::multiset::Multiset;
use vstd::seq_lib::{to_multiset_build, to_multiset_remove};
use crate::model::{card_ids, column_card_ids, ids_unique, CardView, ColumnView};
use crate::app::{cards_in, Action, AppView};

verus! {

broadcast use vstd::multiset::group_multiset_axioms;

/// Replacing one column changes the board's card ids by exactly the
/// difference between the two columns.
pub proof fn lemma_card_ids_update(board: Seq<ColumnView>, i: int, column: ColumnView)
    requires
        0 <= i < board.len(),
    ensures
        card_ids(board.update(i, column)).add(column_card_ids(board[i].cards)) == card_ids(
            board,
        ).add(column_card_ids(column.cards)),
    decreases board.len(),
{
    let changed = board.update(i, column);
    let rest = board.drop_last();
    let was = column_card_ids(board[i].cards);
    let now = column_card_ids(column.cards);
    if i == board.len() - 1 {
        assert(changed.drop_last() =~= rest);
    } else {
        lemma_card_ids_update(rest, i, column);
        assert(changed.drop_last() =~= rest.update(i, column));
        assert(rest[i] == board[i]);
        assert forall|id: Seq<char>|
            card_ids(rest.update(i, column)).count(id) + was.count(id) == card_ids(rest).count(id)
                + now.count(id) by {
            assert(card_ids(rest.update(i, column)).add(was).count(id) == card_ids(rest).add(
                now,
            ).count(id));
        }
    }
    assert forall|id: Seq<char>|
        card_ids(changed).add(was).count(id) == card_ids(board).add(now).count(id) by {
        assert(card_ids(changed).count(id) == card_ids(changed.drop_last()).count(id)
            + column_card_ids(changed.last().cards).count(id));
        assert(card_ids(board).count(id) == card_ids(rest).count(id) + column_card_ids(
            board.last().cards,
        ).count(id));
    }
    assert(card_ids(changed).add(was) =~= card_ids(board).add(now));
}

/// A column that lost the card at `row` holds the ids it held but for that card's.
pub proof fn lemma_column_ids_remove(cards: Seq<CardView>, row: int)
    requires
        0 <= row < cards.len(),
    ensures
        column_card_ids(cards.remove(row)).insert(cards[row].id) == column_card_ids(cards),
{
    let ids = cards.map_values(|c: CardView| c.id);
    assert(cards.remove(row).map_values(|c: CardView| c.id) =~= ids.remove(row));
    to_multiset_remove(ids, row);
    ids.to_multiset_ensures();
    assert(ids.to_multiset().count(ids[row]) > 0);
    assert(ids.to_multiset().remove(ids[row]).insert(ids[row]) =~= ids.to_multiset());
}

/// A column that received a card holds the ids it held and that card's.
pub proof fn lemma_column_ids_push(cards: Seq<CardView>, card: CardView)
    ensures
        column_card_ids(cards.push(card)) == column_card_ids(cards).insert(card.id),
{
    let ids = cards.map_values(|c: CardView| c.id);
    assert(cards.push(card).map_values(|c: CardView| c.id) =~= ids.push(card.id));
    to_multiset_build(ids, card.id);
}

/// Moving a card neither loses a card id nor makes a second copy of one: the
/// ids on the board, counted with their multiplicity, are the same before and
/// after.
pub proof fn lemma_move_conserves_cards(s: AppView, dir: int)
    requires
        s.cursor_valid(),
    ensures
        card_ids(s.moved(dir).board) == card_ids(s.board),
{
    if s.can_move(dir) {
        let src = s.col as int;
        let dst = s.col + dir;
        let row = s.row as int;
        let card = s.board[src].cards[row];
        let cut = ColumnView { cards: s.board[src].cards.remove(row), ..s.board[src] };
        let taken = s.board.update(src, cut);
        let grown = ColumnView { cards: taken[dst].cards.push(card), ..taken[dst] };
        let placed = taken.update(dst, grown);
        lemma_card_ids_update(s.board, src, cut);
        lemma_column_ids_remove(s.board[src].cards, row);
        lemma_card_ids_update(taken, dst, grown);
        lemma_column_ids_push(taken[dst].cards, card);
        assert forall|id: Seq<char>| card_ids(placed).count(id) == card_ids(s.board).count(
            id,
        ) by {
            let lost = column_card_ids(s.board[src].cards);
            let kept = column_card_ids(cut.cards);
            let held = column_card_ids(taken[dst].cards);
            let gained = column_card_ids(grown.cards);
            assert(card_ids(taken).add(lost).count(id) == card_ids(s.board).add(kept).count(id));
            assert(card_ids(placed).add(held).count(id) == card_ids(taken).add(gained).count(id));
            assert(lost.count(id) == kept.insert(card.id).count(id));
            assert(gained.count(id) == held.insert(card.id).count(id));
        }
        assert(card_ids(placed) =~= card_ids(s.board));
        assert(s.moved(dir).board == placed);
    }
}

/// A board on which no card id occurs twice is still such a board after a move.
pub proof fn lemma_move_keeps_ids_unique(s: AppView, dir: int)
    requires
        s.cursor_valid(),
        ids_unique(s.board),
    ensures
        ids_unique(s.moved(dir).board),
{
    lemma_move_conserves_cards(s, dir);
}

/// A move changes no column's identity or heading, and adds or drops no column.
pub proof fn lemma_move_keeps_columns(s: AppView, dir: int)
    requires
        s.cursor_valid(),
    ensures
        s.moved(dir).board.len() == s.board.len(),
        forall|i: int|
            0 <= i < s.board.len() ==> s.moved(dir).board[i].id == s.board[i].id && s.moved(
                dir,
            ).board[i].title == s.board[i].title,
{
}

/// A move to the left from the first column, to the right from the last, or
/// from a column without cards in either direction changes nothing and
/// reports nothing.
pub proof fn lemma_move_at_edge_changes_nothing(s: AppView, dir: int)
    requires
        (dir < 0 && s.col == 0) || (dir > 0 && s.col + 1 >= s.board.len()) || cards_in(
            s.board,
            s.col as int,
        ) == 0,
    ensures
        s.moved(dir) == s,
        s.move_report(dir) is None,
{
}

/// After a move that took place the focus is on the receiving column and the
/// selection on its last card, which is the card that was moved; the report
/// names that card and that column.
pub proof fn lemma_cursor_follows_card(s: AppView, dir: int)
    requires
        s.cursor_valid(),
        s.can_move(dir),
    ensures
        s.moved(dir).col == s.col + dir,
        s.moved(dir).row + 1 == cards_in(s.moved(dir).board, s.col + dir),
        s.moved(dir).board[s.col + dir].cards.last() == s.board[s.col as int].cards[s.row as int],
        s.move_report(dir) == Some(
            (s.board[s.col as int].cards[s.row as int].id, s.moved(dir).board[s.col + dir].id),
        ),
{
}

/// `CloseOrQuit` closes an open detail view and lets the session go on;
/// with no detail view open it ends the session and changes nothing.
pub proof fn lemma_close_or_quit(s: AppView)
    ensures
        s.detail ==> !s.quits(Action::CloseOrQuit) && s.applied(Action::CloseOrQuit) == (AppView {
            detail: false,
            ..s
        }),
        !s.detail ==> s.quits(Action::CloseOrQuit) && s.applied(Action::CloseOrQuit) == s,
{
}

/// One call of one of the cursor's operations.
pub enum Step {
    Focus(int),
    Select(int),
    Apply(Action),
    Move(int),
}

/// The state after one operation.
pub open spec fn after_step(s: AppView, step: Step) -> AppView {
    match step {
        Step::Focus(delta) => s.focused(delta),
        Step::Select(delta) => s.selected(delta),
        Step::Apply(a) => s.applied(a),
        Step::Move(dir) => s.moved(dir),
    }
}

/// The state after a run of operations, carried out first to last.
pub open spec fn after_steps(s: AppView, steps: Seq<Step>) -> AppView
    decreases steps.len(),
{
    if steps.len() == 0 {
        s
    } else {
        after_step(after_steps(s, steps.drop_last()), steps.last())
    }
}

/// Every operation leaves a valid cursor valid.
pub proof fn lemma_step_keeps_cursor_valid(s: AppView, step: Step)
    requires
        s.cursor_valid(),
    ensures
        after_step(s, step).cursor_valid(),
{
}

/// No operation loses a card id or makes a second copy of one.
pub proof fn lemma_step_conserves_cards(s: AppView, step: Step)
    requires
        s.cursor_valid(),
    ensures
        card_ids(after_step(s, step).board) == card_ids(s.board),
{
    if let Step::Move(dir) = step {
        lemma_move_conserves_cards(s, dir);
    }
}

/// Whatever operations are carried out on whatever board, starting from a
/// valid cursor: after each of them the cursor is valid.
pub proof fn lemma_cursor_valid_after_each_step(s: AppView, steps: Seq<Step>, n: int)
    requires
        s.cursor_valid(),
        0 <= n <= steps.len(),
    ensures
        after_steps(s, steps.take(n)).cursor_valid(),
    decreases n,
{
    if n > 0 {
        lemma_cursor_valid_after_each_step(s, steps, n - 1);
        assert(steps.take(n).drop_last() =~= steps.take(n - 1));
        lemma_step_keeps_cursor_valid(after_steps(s, steps.take(n - 1)), steps[n - 1]);
    }
}

/// A session that starts on any board, the empty one included, has a valid
/// cursor after each of its operations.
pub proof fn lemma_session_cursor_valid(board: Seq<ColumnView>, steps: Seq<Step>, n: int)
    requires
        0 <= n <= steps.len(),
    ensures
        after_steps(AppView::initial(board), steps.take(n)).cursor_valid(),
{
    lemma_cursor_valid_after_each_step(AppView::initial(board), steps, n);
}

/// Whatever operations are carried out, moves among them, the board holds
/// the same card ids with the same multiplicity at the end as at the start;
/// if no id occurred twice at the start, none does at the end.
pub proof fn lemma_steps_conserve_cards(s: AppView, steps: Seq<Step>)
    requires
        s.cursor_valid(),
    ensures
        after_steps(s, steps).cursor_valid(),
        card_ids(after_steps(s, steps).board) == card_ids(s.board),
        ids_unique(s.board) ==> ids_unique(after_steps(s, steps).board),
    decreases steps.len(),
{
    if steps.len() > 0 {
        let before = after_steps(s, steps.drop_last());
        lemma_steps_conserve_cards(s, steps.drop_last());
        lemma_step_keeps_cursor_valid(before, steps.last());
        lemma_step_conserves_cards(before, steps.last());
    }
}

} // verus!
