use ignis::grid::GridBuffer;
use ignis::key::Action;
use ignis::theme::Rgba;

fn grid(width: usize, height: usize, capacity: usize) -> GridBuffer {
    GridBuffer::new(width, height, capacity, Rgba::from_rgb(220, 220, 220), Rgba::from_rgb(25, 25, 25))
}

fn row_text(g: &GridBuffer, y: usize) -> String {
    let mut s = String::new();
    for x in 0..g.width() {
        s.push(g.cell(x, y).character);
    }
    s
}

#[test]
fn a_new_grid_is_blank_with_the_cursor_at_the_origin() {
    let g = grid(4, 3, 10);
    assert_eq!(g.width(), 4);
    assert_eq!(g.height(), 3);
    assert_eq!(g.cursor_x(), 0);
    assert_eq!(g.cursor_y(), 0);
    assert_eq!(g.scrollback_len(), 0);
    for y in 0..3 {
        assert_eq!(row_text(&g, y), "    ");
    }
}

#[test]
fn inserts_write_at_the_cursor_and_advance() {
    let mut g = grid(4, 2, 10);
    g.apply(Action::InsertChar('h'));
    g.apply(Action::InsertChar('i'));
    assert_eq!(row_text(&g, 0), "hi  ");
    assert_eq!(g.cursor_x(), 2);
    assert_eq!(g.cursor_y(), 0);
    let c = g.cell(0, 0);
    assert_eq!(c.foreground, Rgba::from_rgb(220, 220, 220));
    assert_eq!(c.background, Rgba::from_rgb(25, 25, 25));
}

#[test]
fn insert_at_the_last_column_wraps_once_before_writing() {
    let mut g = grid(3, 2, 10);
    g.apply(Action::InsertChar('a'));
    g.apply(Action::InsertChar('b'));
    assert_eq!(g.cursor_x(), 2);
    g.apply(Action::InsertChar('c'));
    assert_eq!(row_text(&g, 0), "ab ");
    assert_eq!(row_text(&g, 1), "c  ");
    assert_eq!(g.cursor_x(), 1);
    assert_eq!(g.cursor_y(), 1);
}

#[test]
fn movement_clamps_at_the_grid_edges() {
    let mut g = grid(3, 2, 10);
    g.apply(Action::MoveLeft);
    g.apply(Action::MoveUp);
    assert_eq!((g.cursor_x(), g.cursor_y()), (0, 0));
    for _ in 0..5 {
        g.apply(Action::MoveRight);
    }
    for _ in 0..5 {
        g.apply(Action::MoveDown);
    }
    assert_eq!((g.cursor_x(), g.cursor_y()), (2, 1));
    g.apply(Action::MoveLeft);
    assert_eq!((g.cursor_x(), g.cursor_y()), (1, 1));
}

#[test]
fn home_and_end_jump_within_the_row() {
    let mut g = grid(5, 2, 10);
    g.apply(Action::End);
    assert_eq!(g.cursor_x(), 4);
    g.apply(Action::Home);
    assert_eq!(g.cursor_x(), 0);
}

#[test]
fn backspace_moves_left_and_blanks_and_is_a_no_op_in_column_zero() {
    let mut g = grid(4, 2, 10);
    g.apply(Action::InsertChar('a'));
    g.apply(Action::InsertChar('b'));
    g.apply(Action::Backspace);
    assert_eq!(row_text(&g, 0), "a   ");
    assert_eq!(g.cursor_x(), 1);
    g.apply(Action::Backspace);
    assert_eq!(row_text(&g, 0), "    ");
    assert_eq!(g.cursor_x(), 0);
    g.apply(Action::Backspace);
    assert_eq!(row_text(&g, 0), "    ");
    assert_eq!(g.cursor_x(), 0);
}

#[test]
fn delete_blanks_in_place_without_moving() {
    let mut g = grid(4, 2, 10);
    g.apply(Action::InsertChar('a'));
    g.apply(Action::InsertChar('b'));
    g.apply(Action::Home);
    g.apply(Action::Delete);
    assert_eq!(row_text(&g, 0), " b  ");
    assert_eq!((g.cursor_x(), g.cursor_y()), (0, 0));
}

#[test]
fn newline_descends_and_scrolls_on_the_last_row() {
    let mut g = grid(3, 2, 10);
    g.apply(Action::InsertChar('a'));
    g.newline();
    assert_eq!((g.cursor_x(), g.cursor_y()), (0, 1));
    g.apply(Action::InsertChar('b'));
    g.newline();
    assert_eq!((g.cursor_x(), g.cursor_y()), (0, 1));
    assert_eq!(g.scrollback_len(), 1);
    assert_eq!(row_text(&g, 0), "b  ");
    assert_eq!(row_text(&g, 1), "   ");
    let evicted: String = g.scrollback_row(0).iter().map(|c| c.character).collect();
    assert_eq!(evicted, "a  ");
}

#[test]
fn rows_stay_exactly_width_cells_after_every_operation() {
    let mut g = grid(3, 2, 2);
    let actions = [
        Action::InsertChar('x'),
        Action::InsertChar('y'),
        Action::InsertChar('z'),
        Action::Backspace,
        Action::Delete,
        Action::MoveRight,
        Action::Submit,
        Action::Submit,
        Action::Submit,
        Action::Home,
        Action::End,
    ];
    for a in actions {
        g.apply(a);
        for y in 0..g.height() {
            assert_eq!(g.row(y).len(), g.width());
        }
        assert!(g.scrollback_len() <= g.capacity());
    }
}

#[test]
fn scrollback_is_bounded_and_evicts_oldest_first() {
    let mut g = grid(3, 2, 2);
    for mark in ['a', 'b', 'c'] {
        g.apply(Action::Home);
        g.apply(Action::InsertChar(mark));
        g.scroll();
    }
    assert_eq!(g.scrollback_len(), 2);
    let oldest: String = g.scrollback_row(0).iter().map(|c| c.character).collect();
    let newest: String = g.scrollback_row(1).iter().map(|c| c.character).collect();
    assert!(oldest.starts_with('b'));
    assert!(newest.starts_with('c'));
}

#[test]
fn a_one_column_grid_wraps_on_every_insert_and_stays_well_formed() {
    let mut g = grid(1, 2, 5);
    g.apply(Action::InsertChar('a'));
    assert_eq!((g.cursor_x(), g.cursor_y()), (0, 1));
    assert_eq!(row_text(&g, 0), " ");
    assert_eq!(row_text(&g, 1), "a");
    g.apply(Action::InsertChar('b'));
    assert_eq!((g.cursor_x(), g.cursor_y()), (0, 1));
    assert_eq!(row_text(&g, 0), "a");
    assert_eq!(row_text(&g, 1), "b");
    assert_eq!(g.scrollback_len(), 1);
}

#[test]
fn a_zero_capacity_scrollback_retains_nothing() {
    let mut g = grid(2, 2, 0);
    g.scroll();
    g.scroll();
    assert_eq!(g.scrollback_len(), 0);
}
