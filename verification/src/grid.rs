//! The character grid: a fixed-size rectangle of cells with a cursor and a
//! bounded scrollback. Every edit action keeps the grid rectangular, keeps the
//! cursor inside the grid, and never lets the scrollback outgrow its capacity;
//! rows only leave the live grid by scrolling into the scrollback, whose
//! eviction policy is strictly first-in first-out.

use vstd::prelude::*;
use vstd::pervasive::VecAdditionalExecFns;
use crate::key::Action;
use crate::theme::Rgba;

verus! {

/// One character position, carrying its own colors. Cells are replaced
/// wholesale on every edit, never mutated in place.
#[derive(Clone, Copy, Debug, PartialEq, Eq, Structural)]
pub struct Cell {
    pub character: char,
    pub foreground: Rgba,
    pub background: Rgba,
}

/// A blank cell: a space in the given colors.
pub open spec fn blank(fg: Rgba, bg: Rgba) -> Cell {
    Cell { character: ' ', foreground: fg, background: bg }
}

/// The scrollback after admitting one more evicted row: append, evicting the
/// oldest retained row first when the scrollback is full. A zero-capacity
/// scrollback retains nothing.
pub open spec fn pushed(sb: Seq<Seq<Cell>>, capacity: nat, row: Seq<Cell>) -> Seq<Seq<Cell>> {
    if capacity == 0 {
        sb
    } else if sb.len() < capacity {
        sb.push(row)
    } else {
        sb.drop_first().push(row)
    }
}

/// The scrollback after admitting a whole sequence of evicted rows in order.
pub open spec fn pushed_all(sb: Seq<Seq<Cell>>, capacity: nat, rows: Seq<Seq<Cell>>) -> Seq<
    Seq<Cell>,
>
    decreases rows.len(),
{
    if rows.len() == 0 {
        sb
    } else {
        pushed_all(pushed(sb, capacity, rows[0]), capacity, rows.drop_first())
    }
}

/// The mathematical state of a grid: dimensions, rectangular rows, cursor,
/// bounded scrollback and the default colors for newly blanked cells.
pub ghost struct GridModel {
    pub width: nat,
    pub height: nat,
    pub rows: Seq<Seq<Cell>>,
    pub cursor_x: nat,
    pub cursor_y: nat,
    pub scrollback: Seq<Seq<Cell>>,
    pub capacity: nat,
    pub default_fg: Rgba,
    pub default_bg: Rgba,
}

impl GridModel {
    /// The grid invariant: positive dimensions, exactly `height` rows of
    /// exactly `width` cells, the cursor inside the grid, and a scrollback of
    /// `width`-cell rows no longer than its capacity.
    pub open spec fn wf(self) -> bool {
        &&& self.width > 0
        &&& self.height > 0
        &&& self.rows.len() == self.height
        &&& (forall|i: int| 0 <= i < self.rows.len() ==> #[trigger] self.rows[i].len() == self.width)
        &&& self.cursor_x < self.width
        &&& self.cursor_y < self.height
        &&& self.scrollback.len() <= self.capacity
        &&& (forall|i: int|
            0 <= i < self.scrollback.len() ==> #[trigger] self.scrollback[i].len() == self.width)
    }

    /// The freshly initialized grid: all cells blank, cursor at the origin,
    /// empty scrollback.
    pub open spec fn init(width: nat, height: nat, capacity: nat, fg: Rgba, bg: Rgba) -> GridModel {
        GridModel {
            width,
            height,
            rows: Seq::new(height, |i: int| Seq::new(width, |j: int| blank(fg, bg))),
            cursor_x: 0,
            cursor_y: 0,
            scrollback: Seq::empty(),
            capacity,
            default_fg: fg,
            default_bg: bg,
        }
    }

    /// One fresh blank row in the grid's default colors.
    pub open spec fn blank_row(self) -> Seq<Cell> {
        Seq::new(self.width, |j: int| blank(self.default_fg, self.default_bg))
    }

    /// The grid after scrolling: row 0 moves into the scrollback (oldest
    /// scrollback row evicted first if at capacity) and a blank row enters at
    /// the bottom. The cursor does not move.
    pub open spec fn scrolled(self) -> GridModel {
        GridModel {
            rows: self.rows.drop_first().push(self.blank_row()),
            scrollback: pushed(self.scrollback, self.capacity, self.rows[0]),
            ..self
        }
    }

    /// The grid after a newline: the cursor returns to column 0 and moves
    /// down one row, scrolling when it already sits on the last row.
    pub open spec fn with_newline(self) -> GridModel {
        if self.cursor_y + 1 < self.height {
            GridModel { cursor_x: 0, cursor_y: self.cursor_y + 1, ..self }
        } else {
            let s = self.scrolled();
            GridModel { cursor_x: 0, ..s }
        }
    }

    /// The grid with `c` written at the cursor in the default colors. The
    /// cursor does not move.
    pub open spec fn written(self, c: char) -> GridModel {
        GridModel {
            rows: self.rows.update(
                self.cursor_y as int,
                self.rows[self.cursor_y as int].update(
                    self.cursor_x as int,
                    Cell { character: c, foreground: self.default_fg, background: self.default_bg },
                ),
            ),
            ..self
        }
    }

    /// The grid after inserting `c`: when the cursor sits in the last column
    /// a wrap happens first, so the character always lands inside the grid;
    /// then `c` is written at the cursor and the cursor advances within the
    /// row.
    pub open spec fn inserted(self, c: char) -> GridModel {
        let base = if self.cursor_x + 1 == self.width {
            self.with_newline()
        } else {
            self
        };
        let w = base.written(c);
        if base.cursor_x + 1 < base.width {
            GridModel { cursor_x: base.cursor_x + 1, ..w }
        } else {
            w
        }
    }

    /// The grid after a backspace: one column left and that cell blanked; a
    /// no-op in column 0.
    pub open spec fn backspaced(self) -> GridModel {
        if self.cursor_x == 0 {
            self
        } else {
            let moved = GridModel { cursor_x: (self.cursor_x - 1) as nat, ..self };
            moved.written(' ')
        }
    }

    /// The grid after one edit action. Movement clamps at the grid edges;
    /// `Delete` blanks the cell under the cursor in place; `Submit` acts on
    /// the grid as a newline; `NoOp` changes nothing.
    pub open spec fn step(self, action: Action) -> GridModel {
        match action {
            Action::InsertChar(c) => self.inserted(c),
            Action::Backspace => self.backspaced(),
            Action::Delete => self.written(' '),
            Action::MoveLeft => if self.cursor_x > 0 {
                GridModel { cursor_x: (self.cursor_x - 1) as nat, ..self }
            } else {
                self
            },
            Action::MoveRight => if self.cursor_x + 1 < self.width {
                GridModel { cursor_x: self.cursor_x + 1, ..self }
            } else {
                self
            },
            Action::MoveUp => if self.cursor_y > 0 {
                GridModel { cursor_y: (self.cursor_y - 1) as nat, ..self }
            } else {
                self
            },
            Action::MoveDown => if self.cursor_y + 1 < self.height {
                GridModel { cursor_y: self.cursor_y + 1, ..self }
            } else {
                self
            },
            Action::Home => GridModel { cursor_x: 0, ..self },
            Action::End => GridModel { cursor_x: (self.width - 1) as nat, ..self },
            Action::Submit => self.with_newline(),
            Action::NoOp => self,
        }
    }

    /// The grid after a whole sequence of edit actions, applied in order.
    pub open spec fn steps(self, actions: Seq<Action>) -> GridModel
        decreases actions.len(),
    {
        if actions.len() == 0 {
            self
        } else {
            self.step(actions[0]).steps(actions.drop_first())
        }
    }
}

/// Scrolling preserves the grid invariant.
proof fn lemma_scrolled_wf(m: GridModel)
    requires
        m.wf(),
    ensures
        m.scrolled().wf(),
        m.scrolled().width == m.width,
        m.scrolled().height == m.height,
        m.scrolled().capacity == m.capacity,
{
    let s = m.scrolled();
    assert(forall|i: int| 0 <= i < s.rows.len() ==> #[trigger] s.rows[i].len() == s.width);
    assert(forall|i: int|
        0 <= i < s.scrollback.len() ==> #[trigger] s.scrollback[i].len() == s.width);
}

/// A newline preserves the grid invariant.
proof fn lemma_newline_wf(m: GridModel)
    requires
        m.wf(),
    ensures
        m.with_newline().wf(),
        m.with_newline().width == m.width,
        m.with_newline().height == m.height,
        m.with_newline().capacity == m.capacity,
{
    if m.cursor_y + 1 >= m.height {
        lemma_scrolled_wf(m);
    }
}

/// Writing at the cursor preserves the grid invariant.
proof fn lemma_written_wf(m: GridModel, c: char)
    requires
        m.wf(),
    ensures
        m.written(c).wf(),
        m.written(c).width == m.width,
        m.written(c).height == m.height,
        m.written(c).capacity == m.capacity,
{
    let w = m.written(c);
    assert(forall|i: int| 0 <= i < w.rows.len() ==> #[trigger] w.rows[i].len() == w.width);
}

/// Every edit action preserves the grid invariant and the grid's dimensions
/// and scrollback capacity.
pub proof fn lemma_step_wf(m: GridModel, action: Action)
    requires
        m.wf(),
    ensures
        m.step(action).wf(),
        m.step(action).width == m.width,
        m.step(action).height == m.height,
        m.step(action).capacity == m.capacity,
{
    match action {
        Action::InsertChar(c) => {
            let base = if m.cursor_x + 1 == m.width {
                m.with_newline()
            } else {
                m
            };
            lemma_newline_wf(m);
            lemma_written_wf(base, c);
        },
        Action::Backspace => {
            if m.cursor_x > 0 {
                let moved = GridModel { cursor_x: (m.cursor_x - 1) as nat, ..m };
                lemma_written_wf(moved, ' ');
            }
        },
        Action::Delete => {
            lemma_written_wf(m, ' ');
        },
        Action::Submit => {
            lemma_newline_wf(m);
        },
        _ => {},
    }
}

/// Any sequence of edit actions preserves the grid invariant, the grid's
/// dimensions and its scrollback capacity. In particular every row still has
/// exactly `width` cells afterwards and the scrollback never outgrows its
/// capacity.
pub proof fn lemma_steps_wf(m: GridModel, actions: Seq<Action>)
    requires
        m.wf(),
    ensures
        m.steps(actions).wf(),
        m.steps(actions).width == m.width,
        m.steps(actions).height == m.height,
        m.steps(actions).capacity == m.capacity,
    decreases actions.len(),
{
    if actions.len() > 0 {
        lemma_step_wf(m, actions[0]);
        lemma_steps_wf(m.step(actions[0]), actions.drop_first());
    }
}

/// Whether an action merely moves the cursor.
pub open spec fn is_move(action: Action) -> bool {
    ||| action is MoveLeft
    ||| action is MoveRight
    ||| action is MoveUp
    ||| action is MoveDown
}

/// After any sequence of cursor movements from any valid cursor position,
/// the cursor is still inside the original grid rectangle: its column stays
/// in `[0, width)` and its row in `[0, height)`.
pub proof fn lemma_moves_keep_cursor_in_bounds(m: GridModel, actions: Seq<Action>)
    requires
        m.wf(),
        forall|i: int| 0 <= i < actions.len() ==> is_move(#[trigger] actions[i]),
    ensures
        m.steps(actions).cursor_x < m.width,
        m.steps(actions).cursor_y < m.height,
{
    lemma_steps_wf(m, actions);
}

/// Admitting rows one by one never lets the scrollback outgrow its capacity,
/// and what it retains is exactly the newest suffix of everything admitted:
/// the oldest rows are the ones evicted, first-in first-out.
pub proof fn lemma_pushed_all_fifo(sb: Seq<Seq<Cell>>, capacity: nat, rows: Seq<Seq<Cell>>)
    requires
        capacity > 0,
        sb.len() <= capacity,
    ensures
        pushed_all(sb, capacity, rows) == if sb.len() + rows.len() <= capacity {
            sb + rows
        } else {
            (sb + rows).skip(sb.len() + rows.len() - capacity)
        },
        pushed_all(sb, capacity, rows).len() <= capacity,
    decreases rows.len(),
{
    if rows.len() == 0 {
        assert(sb + rows =~= sb);
    } else {
        let sb2 = pushed(sb, capacity, rows[0]);
        let rest = rows.drop_first();
        if sb.len() < capacity {
            assert(sb2 =~= sb.push(rows[0]));
            assert(sb2 + rest =~= sb + rows);
        } else {
            assert(sb2 + rest =~= (sb + rows).skip(1));
        }
        lemma_pushed_all_fifo(sb2, capacity, rest);
        if sb2.len() + rest.len() <= capacity {
            assert(pushed_all(sb, capacity, rows) == sb2 + rest);
            if sb.len() + rows.len() > capacity {
                assert((sb + rows).skip(sb.len() + rows.len() - capacity) =~= sb2 + rest);
            }
        } else {
            assert((sb2 + rest).skip(sb2.len() + rest.len() - capacity) =~= (sb + rows).skip(
                sb.len() + rows.len() - capacity,
            ));
        }
    }
}

/// Filling an empty scrollback of capacity `c` with `c + k` rows retains
/// exactly the last `c` rows: the first `k` rows admitted are gone.
pub proof fn lemma_scrollback_evicts_oldest(capacity: nat, rows: Seq<Seq<Cell>>)
    requires
        capacity > 0,
        rows.len() >= capacity,
    ensures
        pushed_all(Seq::empty(), capacity, rows) == rows.skip(rows.len() - capacity),
        pushed_all(Seq::empty(), capacity, rows).len() == capacity,
{
    lemma_pushed_all_fifo(Seq::empty(), capacity, rows);
    assert(Seq::empty() + rows =~= rows);
    if rows.len() == capacity {
        assert(rows.skip(0) =~= rows);
    }
}

/// The rows a grid gives up over `n` consecutive scrolls, oldest first.
pub open spec fn evicted_rows(m: GridModel, n: nat) -> Seq<Seq<Cell>>
    decreases n,
{
    if n == 0 {
        Seq::empty()
    } else {
        seq![m.rows[0]] + evicted_rows(m.scrolled(), (n - 1) as nat)
    }
}

/// The grid after `n` consecutive scrolls.
pub open spec fn scrolled_times(m: GridModel, n: nat) -> GridModel
    decreases n,
{
    if n == 0 {
        m
    } else {
        scrolled_times(m.scrolled(), (n - 1) as nat)
    }
}

/// Over any run of consecutive scrolls the scrollback is exactly the bounded
/// first-in first-out policy applied to the evicted rows in eviction order:
/// rows leave the live grid only into the scrollback, and the scrollback in
/// turn drops only its oldest entries.
pub proof fn lemma_scrolls_feed_the_fifo(m: GridModel, n: nat)
    ensures
        scrolled_times(m, n).scrollback == pushed_all(
            m.scrollback,
            m.capacity,
            evicted_rows(m, n),
        ),
        scrolled_times(m, n).capacity == m.capacity,
    decreases n,
{
    if n > 0 {
        lemma_scrolls_feed_the_fifo(m.scrolled(), (n - 1) as nat);
        assert(evicted_rows(m, n)[0] == m.rows[0]);
        assert(evicted_rows(m, n).drop_first() =~= evicted_rows(m.scrolled(), (n - 1) as nat));
    }
}

/// Inserting with the cursor in the last column wraps exactly once before
/// writing: the new state is the wrapped state with the character written at
/// the start of its cursor row. The character is neither dropped nor written
/// out of bounds.
pub proof fn lemma_insert_at_last_column_wraps_once(m: GridModel, c: char)
    requires
        m.wf(),
        m.cursor_x == m.width - 1,
    ensures
        ({
            let w = m.with_newline();
            let r = m.step(Action::InsertChar(c));
            &&& r.cursor_y == w.cursor_y
            &&& r.rows == w.rows.update(
                w.cursor_y as int,
                w.rows[w.cursor_y as int].update(
                    0,
                    Cell { character: c, foreground: m.default_fg, background: m.default_bg },
                ),
            )
            &&& r.rows[w.cursor_y as int][0] == (Cell {
                character: c,
                foreground: m.default_fg,
                background: m.default_bg,
            })
            &&& w.cursor_y < r.rows.len()
            &&& 0 < r.rows[w.cursor_y as int].len()
        }),
{
    let w = m.with_newline();
    lemma_newline_wf(m);
    let r = m.step(Action::InsertChar(c));
    assert(w.cursor_x == 0);
    assert(r == if w.cursor_x + 1 < w.width {
        GridModel { cursor_x: w.cursor_x + 1, ..w.written(c) }
    } else {
        w.written(c)
    });
}

/// Inserting with the cursor anywhere before the last column does not wrap:
/// the character lands at the cursor and only the cursor column advances.
pub proof fn lemma_insert_before_last_column_no_wrap(m: GridModel, c: char)
    requires
        m.wf(),
        m.cursor_x + 1 < m.width,
    ensures
        ({
            let r = m.step(Action::InsertChar(c));
            &&& r.cursor_y == m.cursor_y
            &&& r.cursor_x == m.cursor_x + 1
            &&& r.rows == m.rows.update(
                m.cursor_y as int,
                m.rows[m.cursor_y as int].update(
                    m.cursor_x as int,
                    Cell { character: c, foreground: m.default_fg, background: m.default_bg },
                ),
            )
            &&& r.scrollback == m.scrollback
        }),
{
}

/// The live grid: a rectangle of cells owned together with its cursor,
/// scrollback and default colors. All mutation goes through `apply`,
/// `newline` and `scroll`, each of which refines the corresponding
/// transition on `GridModel`.
pub struct GridBuffer {
    width: usize,
    height: usize,
    cells: Vec<Vec<Cell>>,
    cursor_x: usize,
    cursor_y: usize,
    scrollback: Vec<Vec<Cell>>,
    capacity: usize,
    default_fg: Rgba,
    default_bg: Rgba,
}

impl View for GridBuffer {
    type V = GridModel;

    closed spec fn view(&self) -> GridModel {
        GridModel {
            width: self.width as nat,
            height: self.height as nat,
            rows: self.cells@.map_values(|r: Vec<Cell>| r@),
            cursor_x: self.cursor_x as nat,
            cursor_y: self.cursor_y as nat,
            scrollback: self.scrollback@.map_values(|r: Vec<Cell>| r@),
            capacity: self.capacity as nat,
            default_fg: self.default_fg,
            default_bg: self.default_bg,
        }
    }
}

impl GridBuffer {
    /// Builds one blank row in the grid's default colors.
    fn make_blank_row(&self) -> (r: Vec<Cell>)
        ensures
            r@ == self@.blank_row(),
    {
        let mut row: Vec<Cell> = Vec::new();
        let mut j: usize = 0;
        while j < self.width
            invariant
                j <= self.width,
                row@.len() == j,
                forall|k: int|
                    0 <= k < j ==> row@[k] == blank(self.default_fg, self.default_bg),
            decreases self.width - j,
        {
            row.push(Cell {
                character: ' ',
                foreground: self.default_fg,
                background: self.default_bg,
            });
            j = j + 1;
        }
        proof {
            assert(row@ =~= self@.blank_row());
        }
        row
    }

    /// Creates a blank grid of the given dimensions with an empty scrollback
    /// of the given capacity.
    pub fn new(width: usize, height: usize, capacity: usize, fg: Rgba, bg: Rgba) -> (g: GridBuffer)
        requires
            width >= 1,
            height >= 1,
        ensures
            g@ == GridModel::init(width as nat, height as nat, capacity as nat, fg, bg),
            g@.wf(),
    {
        let mut g = GridBuffer {
            width,
            height,
            cells: Vec::new(),
            cursor_x: 0,
            cursor_y: 0,
            scrollback: Vec::new(),
            capacity,
            default_fg: fg,
            default_bg: bg,
        };
        let mut i: usize = 0;
        while i < height
            invariant
                i <= height,
                g.width == width,
                g.height == height,
                g.capacity == capacity,
                g.cursor_x == 0,
                g.cursor_y == 0,
                g.default_fg == fg,
                g.default_bg == bg,
                g.scrollback@.len() == 0,
                g.cells@.len() == i,
                forall|k: int| 0 <= k < i ==> #[trigger] g.cells@[k]@ == g@.blank_row(),
            decreases height - i,
        {
            let row = g.make_blank_row();
            g.cells.push(row);
            i = i + 1;
        }
        proof {
            let m = GridModel::init(width as nat, height as nat, capacity as nat, fg, bg);
            assert(g@.rows =~= m.rows);
            assert(g@.scrollback =~= m.scrollback);
            assert(g@ == m);
            assert(forall|i2: int|
                0 <= i2 < m.rows.len() ==> #[trigger] m.rows[i2].len() == m.width);
        }
        g
    }

    /// The grid width in columns.
    pub fn width(&self) -> (w: usize)
        ensures
            w == self@.width,
    {
        self.width
    }

    /// The grid height in rows.
    pub fn height(&self) -> (h: usize)
        ensures
            h == self@.height,
    {
        self.height
    }

    /// The cursor column.
    pub fn cursor_x(&self) -> (x: usize)
        ensures
            x == self@.cursor_x,
    {
        self.cursor_x
    }

    /// The cursor row.
    pub fn cursor_y(&self) -> (y: usize)
        ensures
            y == self@.cursor_y,
    {
        self.cursor_y
    }

    /// The scrollback capacity fixed at construction.
    pub fn capacity(&self) -> (c: usize)
        ensures
            c == self@.capacity,
    {
        self.capacity
    }

    /// How many evicted rows the scrollback currently retains.
    pub fn scrollback_len(&self) -> (n: usize)
        ensures
            n == self@.scrollback.len(),
    {
        self.scrollback.len()
    }

    /// Reads the cell at column `x` of row `y` of the live grid.
    pub fn cell(&self, x: usize, y: usize) -> (c: Cell)
        requires
            self@.wf(),
            x < self@.width,
            y < self@.height,
        ensures
            c == self@.rows[y as int][x as int],
    {
        proof {
            assert(self@.rows[y as int] == self.cells@[y as int]@);
        }
        self.cells[y][x]
    }

    /// Reads a whole row of the live grid, for rendering.
    pub fn row(&self, y: usize) -> (r: &Vec<Cell>)
        requires
            self@.wf(),
            y < self@.height,
        ensures
            r@ == self@.rows[y as int],
    {
        &self.cells[y]
    }

    /// Reads a retained scrollback row, oldest first.
    pub fn scrollback_row(&self, i: usize) -> (r: &Vec<Cell>)
        requires
            i < self@.scrollback.len(),
        ensures
            r@ == self@.scrollback[i as int],
    {
        &self.scrollback[i]
    }

    /// Replaces the cell at column `x` of row `y`.
    fn set_cell(&mut self, x: usize, y: usize, c: Cell)
        requires
            y < old(self)@.rows.len(),
            x < old(self)@.rows[y as int].len(),
        ensures
            final(self)@ == (GridModel {
                rows: old(self)@.rows.update(
                    y as int,
                    old(self)@.rows[y as int].update(x as int, c),
                ),
                ..old(self)@
            }),
    {
        let mut row: Vec<Cell> = Vec::new();
        self.cells.set_and_swap(y, &mut row);
        row.set(x, c);
        self.cells.set_and_swap(y, &mut row);
        proof {
            assert(final(self)@.rows =~= old(self)@.rows.update(
                y as int,
                old(self)@.rows[y as int].update(x as int, c),
            ));
        }
    }

    /// Scrolls one row: row 0 moves into the scrollback (evicting the oldest
    /// retained row first when full) and a blank row enters at the bottom.
    /// The cursor stays where it is.
    pub fn scroll(&mut self)
        requires
            old(self)@.wf(),
        ensures
            final(self)@ == old(self)@.scrolled(),
            final(self)@.wf(),
    {
        let evicted = self.cells.remove(0);
        if self.capacity > 0 {
            if self.scrollback.len() == self.capacity {
                self.scrollback.remove(0);
            }
            self.scrollback.push(evicted);
        }
        let fresh = self.make_blank_row();
        self.cells.push(fresh);
        proof {
            assert(final(self)@.rows =~= old(self)@.scrolled().rows);
            assert(final(self)@.scrollback =~= old(self)@.scrolled().scrollback);
            assert(final(self)@ == old(self)@.scrolled());
            lemma_scrolled_wf(old(self)@);
        }
    }

    /// Moves the cursor to column 0 and down one row, scrolling when it
    /// already sits on the last row.
    pub fn newline(&mut self)
        requires
            old(self)@.wf(),
        ensures
            final(self)@ == old(self)@.with_newline(),
            final(self)@.wf(),
    {
        self.cursor_x = 0;
        if self.cursor_y + 1 < self.height {
            self.cursor_y = self.cursor_y + 1;
        } else {
            self.scroll();
        }
        proof {
            lemma_newline_wf(old(self)@);
        }
    }

    /// Writes `c` at the cursor in the default colors, wrapping first when
    /// the cursor sits in the last column, then advances the cursor within
    /// the row.
    fn insert_char(&mut self, c: char)
        requires
            old(self)@.wf(),
        ensures
            final(self)@ == old(self)@.inserted(c),
            final(self)@.wf(),
    {
        if self.cursor_x + 1 == self.width {
            self.newline();
        }
        let cell = Cell {
            character: c,
            foreground: self.default_fg,
            background: self.default_bg,
        };
        self.set_cell(self.cursor_x, self.cursor_y, cell);
        if self.cursor_x + 1 < self.width {
            self.cursor_x = self.cursor_x + 1;
        }
        proof {
            lemma_step_wf(old(self)@, Action::InsertChar(c));
        }
    }

    /// Applies one edit action, preserving the grid invariant. Movement
    /// clamps at the grid edges; nothing here can fail.
    pub fn apply(&mut self, action: Action)
        requires
            old(self)@.wf(),
        ensures
            final(self)@ == old(self)@.step(action),
            final(self)@.wf(),
    {
        match action {
            Action::InsertChar(c) => {
                self.insert_char(c);
            },
            Action::Backspace => {
                if self.cursor_x > 0 {
                    self.cursor_x = self.cursor_x - 1;
                    let cell = Cell {
                        character: ' ',
                        foreground: self.default_fg,
                        background: self.default_bg,
                    };
                    self.set_cell(self.cursor_x, self.cursor_y, cell);
                }
            },
            Action::Delete => {
                let cell = Cell {
                    character: ' ',
                    foreground: self.default_fg,
                    background: self.default_bg,
                };
                self.set_cell(self.cursor_x, self.cursor_y, cell);
            },
            Action::MoveLeft => {
                if self.cursor_x > 0 {
                    self.cursor_x = self.cursor_x - 1;
                }
            },
            Action::MoveRight => {
                if self.cursor_x + 1 < self.width {
                    self.cursor_x = self.cursor_x + 1;
                }
            },
            Action::MoveUp => {
                if self.cursor_y > 0 {
                    self.cursor_y = self.cursor_y - 1;
                }
            },
            Action::MoveDown => {
                if self.cursor_y + 1 < self.height {
                    self.cursor_y = self.cursor_y + 1;
                }
            },
            Action::Home => {
                self.cursor_x = 0;
            },
            Action::End => {
                self.cursor_x = self.width - 1;
            },
            Action::Submit => {
                self.newline();
            },
            Action::NoOp => {},
        }
        proof {
            lemma_step_wf(old(self)@, action);
        }
    }
}

} // verus!
