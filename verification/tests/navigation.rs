use flowboard::app::App;
use flowboard::model::{Board, Card, Column};

fn card(id: &str) -> Card {
    Card { id: id.into(), title: String::new(), description: String::new() }
}

fn column(id: &str, cards: &[&str]) -> Column {
    Column { id: id.into(), title: id.into(), cards: cards.iter().map(|c| card(c)).collect() }
}

fn cursor_is_valid(app: &App) -> bool {
    let columns = &app.board.columns;
    let col_ok = if columns.is_empty() { app.col == 0 } else { app.col < columns.len() };
    let n = columns.get(app.col).map(|c| c.cards.len()).unwrap_or(0);
    let row_ok = if n == 0 { app.row == 0 } else { app.row < n };
    col_ok && row_ok
}

#[test]
fn new_starts_at_the_top_left() {
    let board = Board { columns: vec![column("a", &["1"])] };
    let app = App::new(board.clone());
    assert_eq!(app.board, board);
    assert_eq!((app.col, app.row), (0, 0));
    assert!(!app.detail);
    assert_eq!(app.banner, None);
}

#[test]
fn select_stops_at_both_ends() {
    let mut app = App::new(Board { columns: vec![column("C", &["x", "y"])] });
    app.select(1);
    assert_eq!(app.row, 1);
    app.select(1);
    assert_eq!(app.row, 1);
    app.select(-1);
    assert_eq!(app.row, 0);
    app.select(-1);
    assert_eq!(app.row, 0);
    assert_eq!(app.col, 0);
}

#[test]
fn select_takes_large_steps() {
    let mut app = App::new(Board { columns: vec![column("a", &["1", "2", "3", "4", "5"])] });
    app.select(3);
    assert_eq!(app.row, 3);
    app.select(-2);
    assert_eq!(app.row, 1);
    app.select(isize::MAX);
    assert_eq!(app.row, 4);
    app.select(isize::MIN);
    assert_eq!(app.row, 0);
    app.select(0);
    assert_eq!(app.row, 0);
}

#[test]
fn select_in_empty_column_stays_at_zero() {
    let mut app = App::new(Board { columns: vec![column("a", &[]), column("b", &["1"])] });
    app.select(1);
    assert_eq!((app.col, app.row), (0, 0));
    app.select(-1);
    assert_eq!((app.col, app.row), (0, 0));
}

#[test]
fn focus_stops_at_both_edges() {
    let mut app =
        App::new(Board { columns: vec![column("a", &[]), column("b", &[]), column("c", &[])] });
    app.focus(-1);
    assert_eq!(app.col, 0);
    app.focus(1);
    assert_eq!(app.col, 1);
    app.focus(1);
    assert_eq!(app.col, 2);
    app.focus(1);
    assert_eq!(app.col, 2);
    app.focus(-2);
    assert_eq!(app.col, 0);
    app.focus(isize::MAX);
    assert_eq!(app.col, 2);
    app.focus(isize::MIN);
    assert_eq!(app.col, 0);
}

#[test]
fn focus_pulls_the_row_into_the_new_column() {
    let mut app = App::new(Board {
        columns: vec![column("a", &["1", "2", "3"]), column("b", &["4", "5"]), column("c", &[])],
    });
    app.select(2);
    assert_eq!(app.row, 2);
    app.focus(1);
    assert_eq!((app.col, app.row), (1, 1));
    app.focus(1);
    assert_eq!((app.col, app.row), (2, 0));
    app.focus(-2);
    assert_eq!((app.col, app.row), (0, 0));
}

#[test]
fn focus_keeps_a_row_that_still_fits() {
    let mut app = App::new(Board {
        columns: vec![column("a", &["1", "2"]), column("b", &["3", "4", "5"])],
    });
    app.select(1);
    app.focus(1);
    assert_eq!((app.col, app.row), (1, 1));
}

#[test]
fn focus_repairs_a_cursor_set_out_of_range() {
    let mut app = App::new(Board { columns: vec![column("a", &["1"]), column("b", &[])] });
    app.col = 7;
    app.row = 9;
    app.focus(0);
    assert_eq!((app.col, app.row), (1, 0));
    app.col = usize::MAX;
    app.row = usize::MAX;
    app.focus(1);
    assert_eq!((app.col, app.row), (1, 0));
    app.row = 5;
    app.focus(-1);
    assert_eq!((app.col, app.row), (0, 0));
}

#[test]
fn cursor_stays_valid_on_one_empty_column() {
    let mut app = App::new(Board { columns: vec![column("a", &[])] });
    let deltas: [isize; 5] = [1, -1, 3, -3, 0];
    for d in deltas {
        app.focus(d);
        assert!(cursor_is_valid(&app));
        app.select(d);
        assert!(cursor_is_valid(&app));
        assert_eq!(app.optimistic_move(d), None);
        assert!(cursor_is_valid(&app));
        assert_eq!((app.col, app.row), (0, 0));
    }
}

#[test]
fn cursor_stays_valid_on_one_full_column() {
    let mut app = App::new(Board { columns: vec![column("a", &["1", "2", "3", "4"])] });
    let deltas: [isize; 7] = [1, 2, -1, 5, -7, 1, 0];
    for d in deltas {
        app.select(d);
        assert!(cursor_is_valid(&app));
        app.focus(d);
        assert!(cursor_is_valid(&app));
        app.optimistic_move(d);
        assert!(cursor_is_valid(&app));
        assert_eq!(app.board.columns[0].cards.len(), 4);
    }
}

#[test]
fn focused_card_is_the_card_under_the_cursor() {
    let mut app = App::new(Board { columns: vec![column("a", &["1", "2"]), column("b", &[])] });
    assert_eq!(app.focused_card(), Some(&card("1")));
    app.select(1);
    assert_eq!(app.focused_card(), Some(&card("2")));
    app.focus(1);
    assert_eq!(app.focused_card(), None);
}
