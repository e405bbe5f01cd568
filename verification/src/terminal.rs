//! The terminal emulator of one session: the screen model and the policy
//! that turns a change of the screen into a list of cell changes.
use vstd::prelude::*;
use vstd::arithmetic::div_mod::lemma_fundamental_div_mod_converse;
use vstd::arithmetic::mul::lemma_mul_is_distributive_add_other_way;
use crate::emulator::{
    alternate_screen, attributes_of, bell_count, blank_parser, cursor_hidden, cursor_of,
    emulator_alternate_screen, emulator_attributes, emulator_bell_count, emulator_cell,
    emulator_cursor, emulator_cursor_hidden, emulator_input_modes, emulator_new,
    emulator_process, emulator_scrollback, emulator_set_scrollback, emulator_set_size,
    emulator_title, fed, history_len, history_limit, input_modes_of, resized, screen_cells,
    screen_size, scrollback_of, title_of, CellData, RawCell, MAX_GRID_COLS, MIN_GRID_COLS,
    MIN_GRID_ROWS,
};
use crate::redraw::{
    cell_bytes, enter_alternate_bytes, goto_bytes, hide_bytes, is_drawn, leave_alternate,
    leave_alternate_bytes, push_bytes, push_cell, push_enter_alternate, push_goto, push_hide,
    push_reset, push_save_cursor, reset_bytes, save_cursor_bytes,
};
use crate::types::{
    Cell, CellAttributes, CellChange, CellChangeView, CellView, Color, Cursor, CursorPosition,
    CursorShape, Row, Screen, ScreenView, Size,
};

verus! {

/// The number of rows of history a terminal keeps; older rows are dropped.
pub const SCROLLBACK_ROWS: usize = 10000;

/// A terminal emulator: the `vt100` parser with the state the engine keeps
/// beside it.
pub struct Terminal {
    parser: vt100::Parser,
    size: Size,
    title: String,
    /// The frame that was on the screen after the last processing pass.
    prev_frame: Option<Vec<CellChange>>,
    /// Whether the terminal was resized since the last processing pass.
    resized: bool,
    /// Whether the last processing pass received an audible bell.
    bell: bool,
    /// The rows of history the parser keeps.
    history: usize,
}

/// The state of a terminal.
pub struct TerminalView {
    /// The state of the parser.
    pub emulator: vt100::Parser,
    /// The dimensions of the grid.
    pub size: Size,
    /// The last title that was not empty.
    pub title: Seq<char>,
    /// The frame that was on the screen after the last processing pass: the
    /// cells with their text, colours and attributes. `None` if nothing was
    /// processed since the terminal was made or resized.
    pub shown: Option<Seq<CellChangeView>>,
    /// Whether the terminal was resized since the last processing pass.
    pub resized: bool,
    /// Whether the last processing pass received an audible bell.
    pub bell: bool,
    /// The rows of history kept.
    pub history: usize,
}

/// The smaller of a coordinate and the last valid one for `extent` cells.
pub open spec fn clamped(at: u16, extent: u16) -> u16 {
    if at >= extent {
        (extent - 1) as u16
    } else {
        at
    }
}

/// The rows of the parser's grid for a terminal of `rows` rows: as many,
/// but no fewer than the emulator can work with.
pub open spec fn grid_rows(rows: u16) -> u16 {
    if rows < MIN_GRID_ROWS {
        MIN_GRID_ROWS
    } else {
        rows
    }
}

/// The columns of the parser's grid for a terminal of `cols` columns: as
/// many, but no fewer and no more than the emulator can work with.
pub open spec fn grid_cols(cols: u16) -> u16 {
    if cols < MIN_GRID_COLS {
        MIN_GRID_COLS
    } else if cols > MAX_GRID_COLS {
        MAX_GRID_COLS
    } else {
        cols
    }
}

/// The smaller of two extents.
pub open spec fn lesser(a: u16, b: u16) -> u16 {
    if a <= b {
        a
    } else {
        b
    }
}

/// Where the shown part of a grid begins, along one direction. `at` is the
/// cursor's coordinate, `extent` the terminal's rows or columns, `grid` the
/// grid's. Where the grid is larger than the terminal, the shown part
/// follows the cursor: it begins at the top or the left, and moves on only
/// as far as it takes to keep the cursor in it.
pub open spec fn shown_from(at: u16, extent: u16, grid: u16) -> u16 {
    if grid > extent && clamped(at, grid) >= extent {
        (clamped(at, grid) - extent + 1) as u16
    } else {
        0
    }
}

/// The bytes that draw `upto` cells of a row of a parser's grid on a grid of
/// `grid_cols` columns. The cells are taken from the row and column `from`
/// on, and drawn from the left of row `row`.
pub open spec fn row_bytes(
    e: vt100::Parser,
    from: (u16, u16),
    row: u16,
    upto: int,
    grid_cols: u16,
) -> Seq<u8>
    decreases upto,
{
    if upto <= 0 {
        Seq::empty()
    } else {
        let col = (upto - 1) as u16;
        let cell = screen_cells(e)[((row + from.0) as u16, (col + from.1) as u16)];
        row_bytes(e, from, row, upto - 1, grid_cols) + (if is_drawn(cell, col, grid_cols) {
            cell_bytes(row, col, cell)
        } else {
            Seq::empty()
        })
    }
}

/// The bytes that draw `width` cells of each of `upto` rows of a parser's
/// grid, taken from the row and column `from` on, from the top.
pub open spec fn rows_bytes(
    e: vt100::Parser,
    from: (u16, u16),
    upto: int,
    width: int,
    grid_cols: u16,
) -> Seq<u8>
    decreases upto,
{
    if upto <= 0 {
        Seq::empty()
    } else {
        rows_bytes(e, from, upto - 1, width, grid_cols) + row_bytes(
            e,
            from,
            (upto - 1) as u16,
            width,
            grid_cols,
        )
    }
}

impl TerminalView {
    /// The terminal has at least one row and one column, the parser's grid
    /// has the dimensions that go with them, the live screen is in view, and
    /// the history is bounded.
    pub open spec fn wf(self) -> bool {
        &&& self.size.valid()
        &&& screen_size(self.emulator) == (grid_rows(self.size.rows), grid_cols(self.size.cols))
        &&& scrollback_of(self.emulator) == 0
        &&& history_limit(self.emulator) == SCROLLBACK_ROWS
        &&& self.history == history_len(self.emulator)
        &&& self.history <= SCROLLBACK_ROWS
    }

    /// A terminal that was just made: a new parser, no title, nothing shown
    /// yet.
    pub open spec fn fresh(cols: u16, rows: u16) -> TerminalView {
        TerminalView {
            emulator: blank_parser(grid_rows(rows), grid_cols(cols), SCROLLBACK_ROWS),
            size: Size { cols, rows },
            title: Seq::empty(),
            shown: None,
            resized: false,
            bell: false,
            history: 0,
        }
    }

    /// Where the shown part of a parser's grid begins: row, then column.
    pub open spec fn shown_part(self, emulator: vt100::Parser) -> (u16, u16) {
        (
            shown_from(cursor_of(emulator).0, self.size.rows, grid_rows(self.size.rows)),
            shown_from(cursor_of(emulator).1, self.size.cols, grid_cols(self.size.cols)),
        )
    }

    /// Where the cursor of a parser stands on the shown part of its grid.
    pub open spec fn shown_cursor(self, emulator: vt100::Parser) -> CursorPosition {
        CursorPosition {
            row: (clamped(cursor_of(emulator).0, grid_rows(self.size.rows)) - self.shown_part(
                emulator,
            ).0) as u16,
            col: (clamped(cursor_of(emulator).1, grid_cols(self.size.cols)) - self.shown_part(
                emulator,
            ).1) as u16,
        }
    }

    /// The cell shown at a position of the grid: the parser's cell there,
    /// counted from where the shown part begins, and the default cell where
    /// the parser's grid does not reach.
    pub open spec fn cell(self, row: int, col: int) -> CellView {
        if col + self.shown_part(self.emulator).1 < grid_cols(self.size.cols) {
            CellView::of(
                screen_cells(self.emulator)[(
                    (row + self.shown_part(self.emulator).0) as u16,
                    (col + self.shown_part(self.emulator).1) as u16,
                )],
            )
        } else {
            CellView::blank()
        }
    }

    /// The cursor: the parser's position on the shown part of the grid,
    /// visible unless the application hid it, drawn as a block.
    pub open spec fn cursor(self) -> Cursor {
        Cursor {
            position: self.shown_cursor(self.emulator),
            visible: !cursor_hidden(self.emulator),
            shape: CursorShape::Block,
        }
    }

    /// One row of the grid.
    pub open spec fn row(self, row: int) -> Seq<CellView> {
        Seq::new(self.size.cols as nat, |col: int| self.cell(row, col))
    }

    /// The grid: `size.rows` rows of `size.cols` cells.
    pub open spec fn grid(self) -> Seq<Seq<CellView>> {
        Seq::new(self.size.rows as nat, |row: int| self.row(row))
    }

    /// The full screen state. The title is the last one that was not empty:
    /// an empty title report does not clear it.
    pub open spec fn screen(self) -> ScreenView {
        ScreenView {
            cells: self.grid(),
            cursor: self.cursor(),
            size: self.size,
            scrollback_len: self.history as u32,
            title: self.title,
        }
    }

    /// The change record of the cell at position `index` of the grid, read
    /// row by row.
    pub open spec fn change_at(self, index: int) -> CellChangeView {
        CellChangeView {
            row: (index / self.size.cols as int) as u16,
            col: (index % self.size.cols as int) as u16,
            cell: self.cell(index / self.size.cols as int, index % self.size.cols as int),
        }
    }

    /// The full frame as a list of changes: one for every cell of the grid,
    /// row by row from the top, each row from the left.
    pub open spec fn frame(self) -> Seq<CellChangeView> {
        Seq::new((self.size.rows * self.size.cols) as nat, |index: int| self.change_at(index))
    }

    /// The same terminal with another parser state.
    pub open spec fn showing(self, emulator: vt100::Parser) -> TerminalView {
        TerminalView { emulator, ..self }
    }

    /// The terminal after a chunk of output was processed. The parser has
    /// consumed the bytes; the title follows the parser's unless that is
    /// empty; the frame now on the screen is remembered; the bell flag tells
    /// whether the chunk rang the bell.
    pub open spec fn processed(self, data: Seq<u8>) -> TerminalView {
        let next = fed(self.emulator, data);
        TerminalView {
            emulator: next,
            size: self.size,
            title: if title_of(next).len() > 0 {
                title_of(next)
            } else {
                self.title
            },
            shown: Some(self.showing(next).frame()),
            resized: false,
            bell: bell_count(next) != bell_count(self.emulator),
            history: history_len(next),
        }
    }

    /// Whether processing `data` leaves the screen as the last pass left it:
    /// every cell with the text, the colours and the attributes it had.
    pub open spec fn unchanged_by(self, data: Seq<u8>) -> bool {
        self.shown == Some(self.showing(fed(self.emulator, data)).frame())
    }

    /// The changes that processing `data` reports: none where the screen is
    /// as the last pass left it, the full frame otherwise.
    pub open spec fn changes(self, data: Seq<u8>) -> Seq<CellChangeView> {
        if self.unchanged_by(data) {
            Seq::empty()
        } else {
            self.showing(fed(self.emulator, data)).frame()
        }
    }

    /// Whether a grid for `cols` by `rows` is no smaller, in either
    /// direction, than the grid the parser has.
    pub open spec fn grows_to(self, cols: u16, rows: u16) -> bool {
        grid_rows(rows) >= grid_rows(self.size.rows) && grid_cols(cols) >= grid_cols(self.size.cols)
    }

    /// The position of the cursor after a resize: where it stood, held
    /// inside the new bounds.
    pub open spec fn cursor_after_resize(self, cols: u16, rows: u16) -> CursorPosition {
        CursorPosition {
            row: clamped(self.cursor().position.row, rows),
            col: clamped(self.cursor().position.col, cols),
        }
    }

    /// The rows of the screen that a terminal of `rows` rows still shows.
    pub open spec fn kept_rows(self, rows: u16) -> u16 {
        lesser(self.size.rows, rows)
    }

    /// The columns of the screen that a terminal of `cols` columns still
    /// shows.
    pub open spec fn kept_cols(self, cols: u16) -> u16 {
        lesser(lesser(self.size.cols, cols), grid_cols(self.size.cols))
    }

    /// The bytes that draw the screen behind the alternate screen, where
    /// the alternate screen is in use: the cells of the primary screen that
    /// still fit, the style reset, its cursor, saved for the return, and the
    /// move to the alternate screen. Nothing where the primary screen is in
    /// use.
    pub open spec fn behind_bytes(self, cols: u16, rows: u16) -> Seq<u8> {
        if alternate_screen(self.emulator) {
            let behind = fed(self.emulator, leave_alternate_bytes());
            rows_bytes(
                behind,
                self.shown_part(behind),
                self.kept_rows(rows) as int,
                self.kept_cols(cols) as int,
                grid_cols(cols),
            ) + reset_bytes() + goto_bytes(
                clamped(self.shown_cursor(behind).row, rows),
                clamped(self.shown_cursor(behind).col, cols),
            ) + save_cursor_bytes() + enter_alternate_bytes()
        } else {
            Seq::empty()
        }
    }

    /// The bytes that draw the screen anew on a grid for `cols` by `rows`:
    /// the screen behind the alternate one, if that is in use; the cells
    /// that the smaller screen still shows, row by row; the drawing
    /// attributes in force; the input modes; the cursor where it stood, held
    /// inside the new bounds, and hidden if it was.
    pub open spec fn redraw_bytes(self, cols: u16, rows: u16) -> Seq<u8> {
        self.behind_bytes(cols, rows) + rows_bytes(
            self.emulator,
            self.shown_part(self.emulator),
            self.kept_rows(rows) as int,
            self.kept_cols(cols) as int,
            grid_cols(cols),
        ) + attributes_of(self.emulator) + input_modes_of(self.emulator) + goto_bytes(
            self.cursor_after_resize(cols, rows).row,
            self.cursor_after_resize(cols, rows).col,
        ) + hide_bytes(cursor_hidden(self.emulator))
    }

    /// The parser after a resize. A grid that does not shrink is resized in
    /// place. For a grid that shrinks a new parser takes over and draws the
    /// screen anew: the emulator cannot shrink a grid safely.
    pub open spec fn emulator_after_resize(self, cols: u16, rows: u16) -> vt100::Parser {
        if self.grows_to(cols, rows) {
            resized(self.emulator, grid_rows(rows), grid_cols(cols))
        } else {
            fed(
                blank_parser(grid_rows(rows), grid_cols(cols), SCROLLBACK_ROWS),
                self.redraw_bytes(cols, rows),
            )
        }
    }

    /// The terminal after a resize: new dimensions, and nothing remembered
    /// of what was shown, so that the next pass reports a full frame.
    pub open spec fn resized(self, cols: u16, rows: u16) -> TerminalView {
        let next = self.emulator_after_resize(cols, rows);
        TerminalView {
            emulator: next,
            size: Size { cols, rows },
            title: self.title,
            shown: None,
            resized: true,
            bell: self.bell,
            history: history_len(next),
        }
    }
}

/// The frame of a terminal is a matter of its parser and its size alone.
pub proof fn lemma_frame_of_grid(a: TerminalView, b: TerminalView)
    requires
        a.emulator == b.emulator,
        a.size == b.size,
    ensures
        a.frame() == b.frame(),
        a.grid() == b.grid(),
        a.cursor() == b.cursor(),
{
    assert forall|i: int| 0 <= i < a.frame().len() implies a.frame()[i] == b.frame()[i] by {
        assert(a.change_at(i) == b.change_at(i));
    }
    assert(a.frame() =~= b.frame());
    assert forall|r: int| 0 <= r < a.grid().len() implies a.grid()[r] == b.grid()[r] by {
        assert(a.row(r) =~= b.row(r));
    }
    assert(a.grid() =~= b.grid());
}

impl View for Terminal {
    type V = TerminalView;

    closed spec fn view(&self) -> TerminalView {
        TerminalView {
            emulator: self.parser,
            size: self.size,
            title: self.title@,
            shown: self.prev_frame.deep_view(),
            resized: self.resized,
            bell: self.bell,
            history: self.history,
        }
    }
}

fn grid_rows_for(rows: u16) -> (grid: u16)
    ensures
        grid == grid_rows(rows),
{
    if rows < MIN_GRID_ROWS {
        MIN_GRID_ROWS
    } else {
        rows
    }
}

fn grid_cols_for(cols: u16) -> (grid: u16)
    ensures
        grid == grid_cols(cols),
{
    if cols < MIN_GRID_COLS {
        MIN_GRID_COLS
    } else if cols > MAX_GRID_COLS {
        MAX_GRID_COLS
    } else {
        cols
    }
}

fn held(at: u16, extent: u16) -> (inside: u16)
    requires
        extent >= 1,
    ensures
        inside == clamped(at, extent),
        inside < extent,
{
    if at >= extent {
        extent - 1
    } else {
        at
    }
}

fn shown_from_of(at: u16, extent: u16, grid: u16) -> (from: u16)
    requires
        extent >= 1,
        grid >= 1,
    ensures
        from == shown_from(at, extent, grid),
        grid > extent ==> from + extent <= grid,
        grid <= extent ==> from == 0,
        from <= clamped(at, grid),
        clamped(at, grid) - from < extent,
{
    let on = held(at, grid);
    if grid > extent && on >= extent {
        on - extent + 1
    } else {
        0
    }
}

/// Appends the bytes that draw `width` cells of each of `upto` rows of a
/// parser's grid, taken from the row and column `from` on.
fn push_cells(
    parser: &vt100::Parser,
    out: &mut Vec<u8>,
    from: (u16, u16),
    upto: u16,
    width: u16,
    grid_cols: u16,
)
    requires
        scrollback_of(*parser) == 0,
        upto + from.0 <= screen_size(*parser).0,
        width + from.1 <= screen_size(*parser).1,
    ensures
        final(out)@ == old(out)@ + rows_bytes(*parser, from, upto as int, width as int, grid_cols),
{
    let mut row: u16 = 0;
    while row < upto
        invariant
            scrollback_of(*parser) == 0,
            upto + from.0 <= screen_size(*parser).0,
            width + from.1 <= screen_size(*parser).1,
            row <= upto,
            out@ == old(out)@ + rows_bytes(*parser, from, row as int, width as int, grid_cols),
        decreases upto - row,
    {
        let ghost above = out@;
        let mut col: u16 = 0;
        while col < width
            invariant
                scrollback_of(*parser) == 0,
                upto + from.0 <= screen_size(*parser).0,
                width + from.1 <= screen_size(*parser).1,
                row < upto,
                col <= width,
                out@ == above + row_bytes(*parser, from, row, col as int, grid_cols),
            decreases width - col,
        {
            if let Some(cell) = emulator_cell(parser, row + from.0, col + from.1) {
                if !cell.text.as_str().is_empty() && !cell.continuation && (!cell.wide || (col
                    < u16::MAX - 1 && col + 2 < grid_cols)) {
                    push_cell(out, row, col, &cell);
                }
            }
            assert(out@ =~= above + row_bytes(*parser, from, row, col + 1, grid_cols));
            col = col + 1;
        }
        assert(out@ =~= old(out)@ + rows_bytes(
            *parser,
            from,
            row + 1,
            width as int,
            grid_cols,
        ));
        row = row + 1;
    }
}

fn lesser_of(a: u16, b: u16) -> (least: u16)
    ensures
        least == lesser(a, b),
{
    if a <= b {
        a
    } else {
        b
    }
}

impl Terminal {
    /// The terminal's invariant.
    pub open spec fn wf(&self) -> bool {
        self@.wf()
    }

    /// Create a new terminal with the given size.
    ///
    /// The emulator needs a grid of at least two rows and three columns and
    /// of no more than 65527 columns. A terminal outside these bounds is
    /// drawn on the nearest grid inside them. A smaller terminal shows the
    /// part of the grid that its size covers, which follows the cursor; a
    /// wider one shows the default cell beyond the grid.
    pub fn new(cols: u16, rows: u16) -> (t: Self)
        requires
            cols >= 1,
            rows >= 1,
        ensures
            t.wf(),
            t@ == TerminalView::fresh(cols, rows),
            t@.cursor() == (Cursor {
                position: CursorPosition { row: 0, col: 0 },
                visible: true,
                shape: CursorShape::Block,
            }),
            forall|r: int, c: int|
                0 <= r < rows && 0 <= c < cols && c < grid_cols(cols) ==> #[trigger] t@.cell(r, c)
                    == CellView::of(CellData::blank()),
            t@.shown_part(t@.emulator) == (0u16, 0u16),
    {
        let parser = emulator_new(grid_rows_for(rows), grid_cols_for(cols), SCROLLBACK_ROWS);
        Self {
            parser,
            size: Size { cols, rows },
            title: String::new(),
            prev_frame: None,
            resized: false,
            bell: false,
            history: 0,
        }
    }

    /// Process input data from PTY.
    pub fn process(&mut self, data: &[u8]) -> (changes: Vec<CellChange>)
        requires
            old(self).wf(),
        ensures
            final(self).wf(),
            final(self)@ == old(self)@.processed(data@),
            changes.deep_view() == old(self)@.changes(data@),
            data@.len() == 0 ==> final(self)@.emulator == old(self)@.emulator,
    {
        let bells_before = emulator_bell_count(&self.parser);
        emulator_process(&mut self.parser, data);
        self.measure_history();
        self.bell = emulator_bell_count(&self.parser) != bells_before;

        let title = emulator_title(&self.parser);
        if !title.as_str().is_empty() {
            self.title = title;
        }
        let frame = self.compute_changes();
        proof {
            lemma_frame_of_grid(self@, old(self)@.showing(fed(old(self)@.emulator, data@)));
        }
        let unchanged = match &self.prev_frame {
            Some(shown) => same_frame(shown, &frame),
            None => false,
        };
        let changes = if unchanged {
            Vec::new()
        } else {
            copy_frame(&frame)
        };
        self.prev_frame = Some(frame);
        self.resized = false;
        changes
    }

    /// Count the rows of history the parser keeps: the view is moved as far
    /// back as it goes, its position is read, and the view is put back on
    /// the live screen.
    fn measure_history(&mut self)
        requires
            scrollback_of(old(self).parser) == 0,
        ensures
            final(self).parser == old(self).parser,
            final(self).history == history_len(old(self).parser),
            final(self).history <= history_limit(old(self).parser),
            final(self).size == old(self).size,
            final(self).title == old(self).title,
            final(self).prev_frame == old(self).prev_frame,
            final(self).resized == old(self).resized,
            final(self).bell == old(self).bell,
    {
        emulator_set_scrollback(&mut self.parser, usize::MAX);
        self.history = emulator_scrollback(&self.parser);
        emulator_set_scrollback(&mut self.parser, 0);
    }

    fn compute_changes(&self) -> (changes: Vec<CellChange>)
        requires
            self.wf(),
        ensures
            changes.deep_view() == self@.frame(),
    {
        let mut changes: Vec<CellChange> = Vec::new();
        let rows = self.size.rows;
        let cols = self.size.cols;
        let mut row: u16 = 0;
        while row < rows
            invariant
                self.wf(),
                rows == self.size.rows,
                cols == self.size.cols,
                row <= rows,
                changes@.len() == row * cols,
                forall|i: int| 0 <= i < changes@.len() ==> (#[trigger] changes@[i])@ == self@.change_at(i),
            decreases rows - row,
        {
            let mut col: u16 = 0;
            while col < cols
                invariant
                    self.wf(),
                    rows == self.size.rows,
                    cols == self.size.cols,
                    row < rows,
                    col <= cols,
                    changes@.len() == row * cols + col,
                    forall|i: int| 0 <= i < changes@.len() ==> (#[trigger] changes@[i])@ == self@.change_at(i),
                decreases cols - col,
            {
                proof {
                    lemma_fundamental_div_mod_converse(
                        row * cols + col,
                        cols as int,
                        row as int,
                        col as int,
                    );
                }
                changes.push(CellChange { row, col, cell: self.cell_at(row, col) });
                col = col + 1;
            }
            proof {
                lemma_mul_is_distributive_add_other_way(cols as int, row as int, 1);
            }
            row = row + 1;
        }
        changes
    }

    /// Get the full screen state.
    pub fn get_screen(&self) -> (screen: Screen)
        requires
            self.wf(),
        ensures
            screen@ == self@.screen(),
            screen@.wf(),
            screen@.scrollback_len <= SCROLLBACK_ROWS,
    {
        let mut cells: Vec<Row> = Vec::new();
        let mut row: u16 = 0;
        while row < self.size.rows
            invariant
                self.wf(),
                row <= self.size.rows,
                cells@.len() == row,
                forall|r: int| 0 <= r < row ==> (#[trigger] cells@[r]).deep_view() == self@.row(r),
            decreases self.size.rows - row,
        {
            let mut line: Vec<Cell> = Vec::new();
            let mut col: u16 = 0;
            while col < self.size.cols
                invariant
                    self.wf(),
                    row < self.size.rows,
                    col <= self.size.cols,
                    line@.len() == col,
                    forall|c: int| 0 <= c < col ==> (#[trigger] line@[c])@ == self@.cell(row as int, c),
                decreases self.size.cols - col,
            {
                line.push(self.cell_at(row, col));
                col = col + 1;
            }
            cells.push(line);
            row = row + 1;
        }
        let screen = Screen {
            cells,
            cursor: self.get_cursor_from_screen(),
            size: self.size,
            scrollback_len: self.history as u32,
            title: self.title.clone(),
        };
        assert(screen@.cells =~= self@.grid());
        screen
    }

    /// Get scrollback lines. Rows that left the screen cannot be read back:
    /// the result is empty, whatever number of lines is asked for.
    pub fn get_scrollback(&self, lines: u32) -> (rows: Vec<Row>)
        ensures
            rows@.len() == 0,
    {
        Vec::new()
    }

    /// The bytes that draw the screen anew on a grid for `cols` by `rows`.
    /// The parser is spent on it: to read the screen behind the alternate
    /// one, the parser is made to leave the alternate screen.
    fn redraw_sequence(&mut self, cols: u16, rows: u16) -> (bytes: Vec<u8>)
        requires
            old(self).wf(),
            cols >= 1,
            rows >= 1,
        ensures
            bytes@ == old(self)@.redraw_bytes(cols, rows),
            final(self).size == old(self).size,
            final(self).title == old(self).title,
            final(self).bell == old(self).bell,
    {
        let kept_rows = lesser_of(self.size.rows, rows);
        let kept_cols = lesser_of(lesser_of(self.size.cols, cols), grid_cols_for(self.size.cols));
        let width = grid_cols_for(cols);
        let mut shown: Vec<u8> = Vec::new();
        push_cells(&self.parser, &mut shown, self.shown_offsets(), kept_rows, kept_cols, width);
        let stood = self.shown_position();
        push_bytes(&mut shown, &emulator_attributes(&self.parser));
        push_bytes(&mut shown, &emulator_input_modes(&self.parser));
        push_goto(&mut shown, held(stood.row, rows), held(stood.col, cols));
        push_hide(&mut shown, emulator_cursor_hidden(&self.parser));

        let mut bytes: Vec<u8> = Vec::new();
        if emulator_alternate_screen(&self.parser) {
            let leave = leave_alternate();
            emulator_process(&mut self.parser, leave.as_slice());
            push_cells(&self.parser, &mut bytes, self.shown_offsets(), kept_rows, kept_cols, width);
            let behind = self.shown_position();
            push_reset(&mut bytes);
            push_goto(&mut bytes, held(behind.row, rows), held(behind.col, cols));
            push_save_cursor(&mut bytes);
            push_enter_alternate(&mut bytes);
        }
        push_bytes(&mut bytes, &shown);
        assert(bytes@ =~= old(self)@.redraw_bytes(cols, rows));
        bytes
    }

    /// Resize the terminal.
    ///
    /// A grid that does not shrink is resized in place. For a grid that
    /// shrinks a new parser takes over and is fed the bytes that draw the
    /// screen anew: for each cell that still fits its position, style and
    /// text, on the alternate screen and on the screen behind it; the
    /// drawing attributes in force; the input modes; the cursor where it
    /// stood, held inside the new bounds. What the new parser makes of these
    /// bytes is the emulator's. The emulator does not report its history,
    /// its scroll region, its origin mode or its saved cursor, so these
    /// start afresh; the title the terminal keeps itself. Either way
    /// nothing is remembered of what was shown, so that the next processing
    /// pass reports a full frame.
    pub fn resize(&mut self, cols: u16, rows: u16)
        requires
            old(self).wf(),
            cols >= 1,
            rows >= 1,
        ensures
            final(self).wf(),
            final(self)@ == old(self)@.resized(cols, rows),
    {
        let grid_rows = grid_rows_for(rows);
        let grid_cols = grid_cols_for(cols);
        if grid_rows >= grid_rows_for(self.size.rows) && grid_cols >= grid_cols_for(self.size.cols) {
            emulator_set_size(&mut self.parser, grid_rows, grid_cols);
        } else {
            let redraw = self.redraw_sequence(cols, rows);
            self.parser = emulator_new(grid_rows, grid_cols, SCROLLBACK_ROWS);
            emulator_process(&mut self.parser, redraw.as_slice());
        }
        self.size = Size { cols, rows };
        self.measure_history();
        // Forget what was shown, so that the next pass reports a full frame.
        self.prev_frame = None;
        self.resized = true;
    }

    /// Get cursor state.
    pub fn get_cursor(&self) -> (cursor: Cursor)
        requires
            self.wf(),
        ensures
            cursor == self@.cursor(),
            cursor.position.within(self@.size),
    {
        self.get_cursor_from_screen()
    }

    /// Get the current title.
    pub fn title(&self) -> (title: &str)
        ensures
            title@ == self@.title,
    {
        self.title.as_str()
    }

    /// Get terminal size.
    pub fn size(&self) -> (size: Size)
        ensures
            size == self@.size,
    {
        self.size
    }

    /// Whether the terminal was resized since the last processing pass, and
    /// so owes a full frame.
    pub fn needs_refresh(&self) -> (owed: bool)
        ensures
            owed == self@.resized,
    {
        self.resized
    }

    /// Whether the output processed last rang the bell.
    pub fn check_bell(&self) -> (rang: bool)
        ensures
            rang == self@.bell,
    {
        self.bell
    }

    /// Where the shown part of the parser's grid begins: row, then column.
    fn shown_offsets(&self) -> (from: (u16, u16))
        requires
            self.size.valid(),
            screen_size(self.parser) == (grid_rows(self.size.rows), grid_cols(self.size.cols)),
        ensures
            from == self@.shown_part(self@.emulator),
            from.0 + self.size.rows <= grid_rows(self.size.rows) || from.0 == 0,
            from.1 + self.size.cols <= grid_cols(self.size.cols) || from.1 == 0,
            from.0 + lesser(self.size.rows, grid_rows(self.size.rows)) <= grid_rows(self.size.rows),
            from.1 + lesser(self.size.cols, grid_cols(self.size.cols)) <= grid_cols(self.size.cols),
    {
        let (row, col) = emulator_cursor(&self.parser);
        (
            shown_from_of(row, self.size.rows, grid_rows_for(self.size.rows)),
            shown_from_of(col, self.size.cols, grid_cols_for(self.size.cols)),
        )
    }

    /// Where the cursor stands on the shown part of the grid.
    fn shown_position(&self) -> (position: CursorPosition)
        requires
            self.size.valid(),
            screen_size(self.parser) == (grid_rows(self.size.rows), grid_cols(self.size.cols)),
        ensures
            position == self@.shown_cursor(self@.emulator),
            position.within(self@.size),
    {
        let (row, col) = emulator_cursor(&self.parser);
        let grid_rows = grid_rows_for(self.size.rows);
        let grid_cols = grid_cols_for(self.size.cols);
        CursorPosition {
            row: held(row, grid_rows) - shown_from_of(row, self.size.rows, grid_rows),
            col: held(col, grid_cols) - shown_from_of(col, self.size.cols, grid_cols),
        }
    }

    fn get_cursor_from_screen(&self) -> (cursor: Cursor)
        requires
            self.wf(),
        ensures
            cursor == self@.cursor(),
            cursor.position.within(self@.size),
    {
        Cursor {
            position: self.shown_position(),
            visible: !emulator_cursor_hidden(&self.parser),
            shape: CursorShape::Block,
        }
    }

    fn cell_at(&self, row: u16, col: u16) -> (cell: Cell)
        requires
            self.wf(),
            row < self.size.rows,
            col < self.size.cols,
        ensures
            cell@ == self@.cell(row as int, col as int),
    {
        let from = self.shown_offsets();
        match emulator_cell(&self.parser, row + from.0, col + from.1) {
            Some(c) => convert_cell(&c),
            None => Cell::default(),
        }
    }
}

impl Clone for Terminal {
    /// A clone is a new terminal of the same size: what the terminal shows
    /// is not copied.
    fn clone(&self) -> (t: Self)
        ensures
            self.wf() ==> t.wf() && t@ == TerminalView::fresh(self@.size.cols, self@.size.rows),
    {
        let cols = if self.size.cols == 0 { 1 } else { self.size.cols };
        let rows = if self.size.rows == 0 { 1 } else { self.size.rows };
        Self::new(cols, rows)
    }
}

/// Whether two frames show the same: cell by cell the same place, text,
/// colours and attributes.
pub fn same_frame(a: &Vec<CellChange>, b: &Vec<CellChange>) -> (same: bool)
    ensures
        same == (a.deep_view() == b.deep_view()),
{
    if a.len() != b.len() {
        assert(a.deep_view().len() != b.deep_view().len());
        return false;
    }
    let mut i: usize = 0;
    while i < a.len()
        invariant
            a@.len() == b@.len(),
            i <= a@.len(),
            forall|j: int| 0 <= j < i ==> (#[trigger] a@[j])@ == b@[j]@,
        decreases a@.len() - i,
    {
        if a[i].row != b[i].row || a[i].col != b[i].col || !a[i].cell.same(&b[i].cell) {
            assert(a.deep_view()[i as int] != b.deep_view()[i as int]);
            return false;
        }
        i = i + 1;
    }
    assert(a.deep_view() =~= b.deep_view());
    true
}

/// A copy of a frame.
pub fn copy_frame(frame: &Vec<CellChange>) -> (copy: Vec<CellChange>)
    ensures
        copy.deep_view() == frame.deep_view(),
{
    let copy = frame.clone();
    assert(copy.deep_view() =~= frame.deep_view());
    copy
}

/// The cell the screen shows for a cell of the emulator.
pub fn convert_cell(cell: &RawCell) -> (out: Cell)
    ensures
        out@ == CellView::of(cell@),
{
    let default_fg = Color::new(255, 255, 255);
    let default_bg = Color::new(0, 0, 0);
    Cell {
        char: cell.text.clone(),
        fg: Color::from_vt100(cell.fg, default_fg),
        bg: Color::from_vt100(cell.bg, default_bg),
        attrs: CellAttributes::from_vt100_cell(cell),
    }
}

} // verus!
