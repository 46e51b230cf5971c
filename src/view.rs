use vstd::prelude::*;
use vstd::arithmetic::div_mod::{
    lemma_div_is_ordered,
    lemma_div_is_ordered_by_denominator,
    lemma_fundamental_div_mod,
    lemma_fundamental_div_mod_converse,
};
use crate::game::{is_grid, lemma_toggle_flips_one, lemma_toggle_twice, toggled, Game};

verus! {

pub const MIN_CELL_SIZE: usize = 1;

pub const MAX_CELL_SIZE: usize = 20;

/// The cell size in pixels that a new view starts with.
pub const INITIAL_CELL_SIZE: usize = 5;

/// How many cells one pan moves the view.
pub const PAN_STEP: usize = 2;

/// Cells larger than this many pixels are drawn with an outline.
pub const GRID_LINE_THRESHOLD: usize = 6;

/// The mathematical state of a view: the size of the grid in cells, of the
/// window in pixels, the edge of a cell in pixels and the grid coordinate at
/// the window's top left corner.
pub struct ViewWindow {
    pub grid_width: int,
    pub grid_height: int,
    pub window_width: int,
    pub window_height: int,
    pub cell_size: int,
    pub x_offset: int,
    pub y_offset: int,
}

/// How many whole cells of `cell_size` pixels fit in `extent` pixels.
pub open spec fn span(extent: int, cell_size: int) -> int {
    extent / cell_size
}

/// The distance in cells from the window's edge to its centre.
pub open spec fn half_span(extent: int, cell_size: int) -> int {
    (extent / 2) / cell_size
}

pub open spec fn clamp(x: int, hi: int) -> int {
    if x < 0 {
        0
    } else if x > hi {
        hi
    } else {
        x
    }
}

/// The visible rectangle of `v` lies inside the grid.
pub open spec fn visible_in_grid(v: ViewWindow) -> bool {
    &&& 0 <= v.x_offset < v.grid_width
    &&& 0 <= v.y_offset < v.grid_height
    &&& v.x_offset + span(v.window_width, v.cell_size) <= v.grid_width
    &&& v.y_offset + span(v.window_height, v.cell_size) <= v.grid_height
}

/// A window of this size shows a grid of this size at `cell_size`.
pub open spec fn fits(
    grid_width: int,
    grid_height: int,
    window_width: int,
    window_height: int,
    cell_size: int,
) -> bool {
    &&& span(window_width, cell_size) <= grid_width
    &&& span(window_height, cell_size) <= grid_height
}

/// The view's invariant: the cell size within its bounds, a window that shows
/// at least one cell at every size, and a visible rectangle inside the grid.
pub open spec fn view_wf(v: ViewWindow) -> bool {
    &&& MIN_CELL_SIZE <= v.cell_size <= MAX_CELL_SIZE
    &&& MAX_CELL_SIZE <= v.window_width <= usize::MAX
    &&& MAX_CELL_SIZE <= v.window_height <= usize::MAX
    &&& v.grid_width <= usize::MAX
    &&& v.grid_height <= usize::MAX
    &&& fits(v.grid_width, v.grid_height, v.window_width, v.window_height, v.cell_size)
    &&& visible_in_grid(v)
}

/// `v` at cell size `s`, the grid coordinate at the window's centre kept in
/// place as far as the grid's edges allow.
pub open spec fn rezoomed(v: ViewWindow, s: int) -> ViewWindow {
    ViewWindow {
        cell_size: s,
        x_offset: clamp(
            v.x_offset + half_span(v.window_width, v.cell_size) - half_span(v.window_width, s),
            v.grid_width - span(v.window_width, s),
        ),
        y_offset: clamp(
            v.y_offset + half_span(v.window_height, v.cell_size) - half_span(v.window_height, s),
            v.grid_height - span(v.window_height, s),
        ),
        ..v
    }
}

/// Zooming in: one pixel more per cell, unless the size is at its maximum.
pub open spec fn zoomed_in(v: ViewWindow) -> ViewWindow {
    if v.cell_size < MAX_CELL_SIZE {
        rezoomed(v, v.cell_size + 1)
    } else {
        v
    }
}

/// Zooming out: one pixel less per cell, unless the size is at its minimum or
/// the window would then show more than the grid holds.
pub open spec fn zoomed_out(v: ViewWindow) -> ViewWindow {
    if v.cell_size > MIN_CELL_SIZE && fits(
        v.grid_width,
        v.grid_height,
        v.window_width,
        v.window_height,
        v.cell_size - 1,
    ) {
        rezoomed(v, v.cell_size - 1)
    } else {
        v
    }
}

pub open spec fn panned(v: ViewWindow, x: int, y: int) -> ViewWindow {
    ViewWindow { x_offset: x, y_offset: y, ..v }
}

pub open spec fn panned_left(v: ViewWindow) -> ViewWindow {
    panned(v, clamp(v.x_offset - PAN_STEP, v.x_offset), v.y_offset)
}

pub open spec fn panned_right(v: ViewWindow) -> ViewWindow {
    panned(
        v,
        clamp(v.x_offset + PAN_STEP, v.grid_width - span(v.window_width, v.cell_size)),
        v.y_offset,
    )
}

pub open spec fn panned_up(v: ViewWindow) -> ViewWindow {
    panned(v, v.x_offset, clamp(v.y_offset - PAN_STEP, v.y_offset))
}

pub open spec fn panned_down(v: ViewWindow) -> ViewWindow {
    panned(
        v,
        v.x_offset,
        clamp(v.y_offset + PAN_STEP, v.grid_height - span(v.window_height, v.cell_size)),
    )
}

/// The grid cell `(row, col)` under the pixel `(x, y)` of the window, if it
/// lies inside the grid.
pub open spec fn cell_under(v: ViewWindow, x: int, y: int) -> Option<(int, int)> {
    let col = x / v.cell_size + v.x_offset;
    let row = y / v.cell_size + v.y_offset;
    if col < v.grid_width && row < v.grid_height {
        Some((row, col))
    } else {
        None
    }
}

/// An input event, as the view reads it.
#[derive(Clone, Copy, Debug, PartialEq, Eq, Structural)]
pub enum Input {
    Quit,
    ZoomIn,
    ZoomOut,
    PanLeft,
    PanRight,
    PanUp,
    PanDown,
    TogglePause,
    /// A click at the pixel `(x, y)` of the window.
    Click { x: usize, y: usize },
}

/// What the owner of the view does in answer to an input.
#[derive(Clone, Copy, Debug, PartialEq, Eq, Structural)]
pub enum Action {
    /// Stop the simulation and the window.
    Quit,
    /// Flip between running and paused.
    TogglePause,
    /// Invert this grid cell.
    ToggleCell { row: usize, col: usize },
    /// Nothing beyond the change of the view itself.
    Nothing,
}

/// The view after `input`.
pub open spec fn after_input(v: ViewWindow, input: Input) -> ViewWindow {
    match input {
        Input::ZoomIn => zoomed_in(v),
        Input::ZoomOut => zoomed_out(v),
        Input::PanLeft => panned_left(v),
        Input::PanRight => panned_right(v),
        Input::PanUp => panned_up(v),
        Input::PanDown => panned_down(v),
        _ => v,
    }
}

/// The view after each of `inputs` in turn.
pub open spec fn after_inputs(v: ViewWindow, inputs: Seq<Input>) -> ViewWindow
    decreases inputs.len(),
{
    if inputs.len() == 0 {
        v
    } else {
        after_inputs(after_input(v, inputs[0]), inputs.drop_first())
    }
}

/// What is to be done in answer to `input` on the view `v`.
pub open spec fn action_for(v: ViewWindow, input: Input) -> Action {
    match input {
        Input::Quit => Action::Quit,
        Input::TogglePause => Action::TogglePause,
        Input::Click { x, y } => match cell_under(v, x as int, y as int) {
            Some((row, col)) => Action::ToggleCell { row: row as usize, col: col as usize },
            None => Action::Nothing,
        },
        _ => Action::Nothing,
    }
}

/// Why a window cannot show a grid.
#[derive(Clone, Copy, Debug, PartialEq, Eq, Structural)]
pub enum ViewError {
    /// The window is narrower or lower than one cell at the largest size.
    WindowTooSmall,
    /// The window shows more columns than the grid has at the initial size.
    WindowTooWide,
    /// The window shows more rows than the grid has at the initial size.
    WindowTooTall,
}

/// The view of the grid in the window: its size and position.
pub struct Viewport {
    grid_width: usize,
    grid_height: usize,
    window_width: usize,
    window_height: usize,
    cellsize: usize,
    x_off: usize,
    y_off: usize,
}

impl View for Viewport {
    type V = ViewWindow;

    closed spec fn view(&self) -> ViewWindow {
        ViewWindow {
            grid_width: self.grid_width as int,
            grid_height: self.grid_height as int,
            window_width: self.window_width as int,
            window_height: self.window_height as int,
            cell_size: self.cellsize as int,
            x_offset: self.x_off as int,
            y_offset: self.y_off as int,
        }
    }
}

proof fn lemma_half_span_le_span(extent: int, s: int)
    requires
        extent >= 0,
        s > 0,
    ensures
        0 <= half_span(extent, s) <= span(extent, s),
{
    lemma_div_is_ordered(extent / 2, extent, s);
    lemma_div_is_ordered(0, extent / 2, s);
}

proof fn lemma_span_positive(extent: int, s: int)
    requires
        0 < s <= extent,
    ensures
        span(extent, s) >= 1,
{
    lemma_div_is_ordered(s, extent, s);
}

proof fn lemma_span_by_size(extent: int, s: int, t: int)
    requires
        extent >= 0,
        0 < s <= t,
    ensures
        span(extent, t) <= span(extent, s),
        half_span(extent, t) <= half_span(extent, s),
{
    lemma_div_is_ordered_by_denominator(extent, s, t);
    lemma_div_is_ordered_by_denominator(extent / 2, s, t);
}

proof fn lemma_rezoomed_wf(v: ViewWindow, s: int)
    requires
        view_wf(v),
        MIN_CELL_SIZE <= s <= MAX_CELL_SIZE,
        fits(v.grid_width, v.grid_height, v.window_width, v.window_height, s),
    ensures
        view_wf(rezoomed(v, s)),
{
    lemma_span_positive(v.window_width, s);
    lemma_span_positive(v.window_height, s);
}

/// The columns shown are twice the half span, plus one where the remainder
/// of the division carries over.
proof fn lemma_span_halves(extent: int, s: int)
    requires
        extent >= 0,
        s > 0,
    ensures
        span(extent, s) == 2 * half_span(extent, s) + if 2 * ((extent / 2) % s) + extent % 2 >= s {
            1int
        } else {
            0int
        },
        2 * half_span(extent, s) <= span(extent, s) <= 2 * half_span(extent, s) + 1,
{
    let a = extent / 2;
    let q = a / s;
    let r = a % s;
    lemma_fundamental_div_mod(a, s);
    assert(extent == 2 * a + extent % 2);
    assert(s * (2 * q) == 2 * (s * q)) by (nonlinear_arith);
    assert(s * (2 * q + 1) == 2 * (s * q) + s) by (nonlinear_arith);
    if 2 * r + extent % 2 < s {
        lemma_fundamental_div_mod_converse(extent, s, 2 * q, 2 * r + extent % 2);
    } else {
        lemma_fundamental_div_mod_converse(extent, s, 2 * q + 1, 2 * r + extent % 2 - s);
    }
}

/// One pixel more per cell shrinks the part of the window right of (or
/// below) its centre by at least as much as the part left of it.
proof fn lemma_far_side_shrinks(extent: int, s: int)
    requires
        extent >= 0,
        s > 0,
    ensures
        span(extent, s + 1) - half_span(extent, s + 1) <= span(extent, s) - half_span(extent, s),
{
    let a = extent / 2;
    let q = a / s;
    let q1 = a / (s + 1);
    lemma_span_halves(extent, s);
    lemma_span_halves(extent, s + 1);
    lemma_fundamental_div_mod(a, s);
    lemma_fundamental_div_mod(a, s + 1);
    lemma_div_is_ordered_by_denominator(a, s, s + 1);
    if q1 == q {
        assert((s + 1) * q == s * q + q) by (nonlinear_arith);
        assert(a % (s + 1) == a % s - q);
        lemma_div_is_ordered(0, a, s);
    }
}

/// Every input keeps the view's invariant, and so its visible rectangle
/// inside the grid.
pub proof fn lemma_input_keeps_view_in_grid(v: ViewWindow, input: Input)
    requires
        view_wf(v),
    ensures
        view_wf(after_input(v, input)),
{
    lemma_span_positive(v.window_width, v.cell_size);
    lemma_span_positive(v.window_height, v.cell_size);
    match input {
        Input::ZoomIn => {
            if v.cell_size < MAX_CELL_SIZE {
                lemma_span_by_size(v.window_width, v.cell_size, v.cell_size + 1);
                lemma_span_by_size(v.window_height, v.cell_size, v.cell_size + 1);
                lemma_rezoomed_wf(v, v.cell_size + 1);
            }
        },
        Input::ZoomOut => {
            if zoomed_out(v) != v {
                lemma_rezoomed_wf(v, v.cell_size - 1);
            }
        },
        _ => {},
    }
}

/// For any sequence of pans, zooms and other inputs, the visible rectangle
/// stays inside the grid.
pub proof fn lemma_inputs_keep_view_in_grid(v: ViewWindow, inputs: Seq<Input>)
    requires
        view_wf(v),
    ensures
        view_wf(after_inputs(v, inputs)),
        visible_in_grid(after_inputs(v, inputs)),
    decreases inputs.len(),
{
    if inputs.len() > 0 {
        lemma_input_keeps_view_in_grid(v, inputs[0]);
        lemma_inputs_keep_view_in_grid(after_input(v, inputs[0]), inputs.drop_first());
    }
}

/// Zooming in and then out restores the view exactly: the centre is kept
/// and a zoom in never has to be held back at the grid's edge.
pub proof fn lemma_zoom_round_trip(v: ViewWindow)
    requires
        view_wf(v),
        v.cell_size < MAX_CELL_SIZE,
    ensures
        zoomed_in(v).cell_size == v.cell_size + 1,
        zoomed_in(v).x_offset == v.x_offset + half_span(v.window_width, v.cell_size)
            - half_span(v.window_width, v.cell_size + 1),
        zoomed_in(v).y_offset == v.y_offset + half_span(v.window_height, v.cell_size)
            - half_span(v.window_height, v.cell_size + 1),
        zoomed_out(zoomed_in(v)) == v,
{
    let s = v.cell_size;
    lemma_span_by_size(v.window_width, s, s + 1);
    lemma_span_by_size(v.window_height, s, s + 1);
    lemma_far_side_shrinks(v.window_width, s);
    lemma_far_side_shrinks(v.window_height, s);
    lemma_input_keeps_view_in_grid(v, Input::ZoomIn);
}

/// `n` zooms in, one after the other.
pub open spec fn zoomed_in_times(v: ViewWindow, n: nat) -> ViewWindow
    decreases n,
{
    if n == 0 {
        v
    } else {
        zoomed_in_times(zoomed_in(v), (n - 1) as nat)
    }
}

/// `n` zooms out, one after the other.
pub open spec fn zoomed_out_times(v: ViewWindow, n: nat) -> ViewWindow
    decreases n,
{
    if n == 0 {
        v
    } else {
        zoomed_out_times(zoomed_out(v), (n - 1) as nat)
    }
}

proof fn lemma_zoomed_out_last(v: ViewWindow, n: nat)
    ensures
        zoomed_out_times(v, n + 1) == zoomed_out(zoomed_out_times(v, n)),
    decreases n,
{
    assert(zoomed_out_times(v, n + 1) == zoomed_out_times(zoomed_out(v), n));
    if n > 0 {
        lemma_zoomed_out_last(zoomed_out(v), (n - 1) as nat);
        assert(zoomed_out_times(v, n) == zoomed_out_times(zoomed_out(v), (n - 1) as nat));
    } else {
        assert(zoomed_out_times(zoomed_out(v), 0) == zoomed_out(v));
    }
}

/// Zooming in `n` times and then out `n` times restores the view exactly.
pub proof fn lemma_zoom_round_trip_times(v: ViewWindow, n: nat)
    requires
        view_wf(v),
        v.cell_size + n <= MAX_CELL_SIZE,
    ensures
        zoomed_out_times(zoomed_in_times(v, n), n) == v,
    decreases n,
{
    if n > 0 {
        let u = zoomed_in(v);
        let m = (n - 1) as nat;
        lemma_input_keeps_view_in_grid(v, Input::ZoomIn);
        lemma_zoom_round_trip(v);
        lemma_zoom_round_trip_times(u, m);
        lemma_zoomed_out_last(zoomed_in_times(u, m), m);
    }
}

/// A click at a pixel over the grid names one cell inside it; toggling that
/// cell inverts it and keeps every other, and toggling it again restores the
/// grid.
pub proof fn lemma_click_toggles_one_cell(v: ViewWindow, g: Seq<Seq<bool>>, x: nat, y: nat, row: int, col: int)
    requires
        view_wf(v),
        is_grid(g, v.grid_height, v.grid_width),
        cell_under(v, x as int, y as int) == Some((row, col)),
    ensures
        0 <= row < v.grid_height,
        0 <= col < v.grid_width,
        is_grid(toggled(g, row, col), v.grid_height, v.grid_width),
        forall|r: int, c: int|
            0 <= r < v.grid_height && 0 <= c < v.grid_width ==> #[trigger] toggled(g, row, col)[r][c]
                == if r == row && c == col {
                !g[r][c]
            } else {
                g[r][c]
            },
        toggled(toggled(g, row, col), row, col) == g,
{
    lemma_div_is_ordered(0, x as int, v.cell_size);
    lemma_div_is_ordered(0, y as int, v.cell_size);
    lemma_toggle_flips_one(g, v.grid_height, v.grid_width, row, col);
    lemma_toggle_twice(g, row, col);
}

impl Viewport {
    pub open spec fn wf(&self) -> bool {
        view_wf(self@)
    }

    fn rezoom(&mut self, s: usize)
        requires
            view_wf(old(self)@),
            MIN_CELL_SIZE <= s <= MAX_CELL_SIZE,
            fits(
                old(self)@.grid_width,
                old(self)@.grid_height,
                old(self)@.window_width,
                old(self)@.window_height,
                s as int,
            ),
        ensures
            final(self)@ == rezoomed(old(self)@, s as int),
            view_wf(final(self)@),
    {
        proof {
            lemma_half_span_le_span(self.window_width as int, self.cellsize as int);
            lemma_half_span_le_span(self.window_height as int, self.cellsize as int);
            lemma_half_span_le_span(self.window_width as int, s as int);
            lemma_half_span_le_span(self.window_height as int, s as int);
            lemma_rezoomed_wf(self@, s as int);
        }
        let x_mid = self.x_off + self.window_width / 2 / self.cellsize;
        let y_mid = self.y_off + self.window_height / 2 / self.cellsize;
        let x_half = self.window_width / 2 / s;
        let y_half = self.window_height / 2 / s;
        let x_max = self.grid_width - self.window_width / s;
        let y_max = self.grid_height - self.window_height / s;
        self.x_off = if x_mid < x_half {
            0
        } else if x_mid - x_half > x_max {
            x_max
        } else {
            x_mid - x_half
        };
        self.y_off = if y_mid < y_half {
            0
        } else if y_mid - y_half > y_max {
            y_max
        } else {
            y_mid - y_half
        };
        self.cellsize = s;
    }

    /// One pixel more per cell, the centre of the view kept in place.
    pub fn zoom_in(&mut self)
        requires
            old(self).wf(),
        ensures
            final(self).wf(),
            final(self)@ == zoomed_in(old(self)@),
    {
        if self.cellsize < MAX_CELL_SIZE {
            proof {
                lemma_span_by_size(self.window_width as int, self.cellsize as int, self.cellsize + 1);
                lemma_span_by_size(self.window_height as int, self.cellsize as int, self.cellsize + 1);
            }
            self.rezoom(self.cellsize + 1);
        }
    }

    /// One pixel less per cell, the centre of the view kept in place; nothing
    /// changes where the window would then show more than the grid holds.
    pub fn zoom_out(&mut self)
        requires
            old(self).wf(),
        ensures
            final(self).wf(),
            final(self)@ == zoomed_out(old(self)@),
    {
        if self.cellsize > MIN_CELL_SIZE {
            let s = self.cellsize - 1;
            if self.window_width / s <= self.grid_width && self.window_height / s <= self.grid_height {
                self.rezoom(s);
            }
        }
    }

    pub fn pan_left(&mut self)
        requires
            old(self).wf(),
        ensures
            final(self).wf(),
            final(self)@ == panned_left(old(self)@),
    {
        self.x_off = if self.x_off < PAN_STEP { 0 } else { self.x_off - PAN_STEP };
    }

    pub fn pan_right(&mut self)
        requires
            old(self).wf(),
        ensures
            final(self).wf(),
            final(self)@ == panned_right(old(self)@),
    {
        proof {
            lemma_span_positive(self.window_width as int, self.cellsize as int);
        }
        let x_max = self.grid_width - self.window_width / self.cellsize;
        self.x_off = if x_max - self.x_off < PAN_STEP { x_max } else { self.x_off + PAN_STEP };
    }

    pub fn pan_up(&mut self)
        requires
            old(self).wf(),
        ensures
            final(self).wf(),
            final(self)@ == panned_up(old(self)@),
    {
        self.y_off = if self.y_off < PAN_STEP { 0 } else { self.y_off - PAN_STEP };
    }

    pub fn pan_down(&mut self)
        requires
            old(self).wf(),
        ensures
            final(self).wf(),
            final(self)@ == panned_down(old(self)@),
    {
        proof {
            lemma_span_positive(self.window_height as int, self.cellsize as int);
        }
        let y_max = self.grid_height - self.window_height / self.cellsize;
        self.y_off = if y_max - self.y_off < PAN_STEP { y_max } else { self.y_off + PAN_STEP };
    }

    /// The grid cell `(row, col)` under the pixel `(x, y)` of the window, or
    /// `None` where that lies outside the grid.
    pub fn cell_at_pixel(&self, x: usize, y: usize) -> (r: Option<(usize, usize)>)
        requires
            self.wf(),
        ensures
            r matches Some((row, col)) ==> cell_under(self@, x as int, y as int) == Some(
                (row as int, col as int),
            ),
            r is None ==> cell_under(self@, x as int, y as int) is None,
    {
        let dc = x / self.cellsize;
        let dr = y / self.cellsize;
        if dc >= self.grid_width - self.x_off || dr >= self.grid_height - self.y_off {
            None
        } else {
            Some((dr + self.y_off, dc + self.x_off))
        }
    }

    /// Applies `input` to the view and says what else is to be done.
    pub fn handle(&mut self, input: Input) -> (a: Action)
        requires
            old(self).wf(),
        ensures
            final(self).wf(),
            final(self)@ == after_input(old(self)@, input),
            a == action_for(old(self)@, input),
    {
        match input {
            Input::Quit => Action::Quit,
            Input::ZoomIn => {
                self.zoom_in();
                Action::Nothing
            },
            Input::ZoomOut => {
                self.zoom_out();
                Action::Nothing
            },
            Input::PanLeft => {
                self.pan_left();
                Action::Nothing
            },
            Input::PanRight => {
                self.pan_right();
                Action::Nothing
            },
            Input::PanUp => {
                self.pan_up();
                Action::Nothing
            },
            Input::PanDown => {
                self.pan_down();
                Action::Nothing
            },
            Input::TogglePause => Action::TogglePause,
            Input::Click { x, y } => match self.cell_at_pixel(x, y) {
                Some((row, col)) => Action::ToggleCell { row, col },
                None => Action::Nothing,
            },
        }
    }

    /// The cells that the window shows, row by row: `rows()` rows of
    /// `columns()` cells from the view's offset on.
    pub fn visible_cells(&self, game: &Game) -> (r: Vec<Vec<bool>>)
        requires
            self.wf(),
            game.wf(),
            game.spec_width() == self@.grid_width,
            game.spec_height() == self@.grid_height,
        ensures
            r@.len() == span(self@.window_height, self@.cell_size),
            forall|i: int|
                0 <= i < r@.len() ==> (#[trigger] r@[i])@ == game@[self@.y_offset + i].subrange(
                    self@.x_offset,
                    self@.x_offset + span(self@.window_width, self@.cell_size),
                ),
    {
        let rows = self.window_height / self.cellsize;
        let cols = self.window_width / self.cellsize;
        let mut out: Vec<Vec<bool>> = Vec::new();
        let mut i: usize = 0;
        while i < rows
            invariant
                self.wf(),
                game.wf(),
                game.spec_width() == self@.grid_width,
                game.spec_height() == self@.grid_height,
                rows == span(self@.window_height, self@.cell_size),
                cols == span(self@.window_width, self@.cell_size),
                i <= rows,
                out@.len() == i,
                forall|k: int|
                    0 <= k < i ==> (#[trigger] out@[k])@ == game@[self@.y_offset + k].subrange(
                        self@.x_offset,
                        self@.x_offset + cols,
                    ),
            decreases rows - i,
        {
            let mut line: Vec<bool> = Vec::new();
            let mut j: usize = 0;
            while j < cols
                invariant
                    self.wf(),
                    game.wf(),
                    game.spec_width() == self@.grid_width,
                    game.spec_height() == self@.grid_height,
                    rows == span(self@.window_height, self@.cell_size),
                    cols == span(self@.window_width, self@.cell_size),
                    i < rows,
                    j <= cols,
                    line@.len() == j,
                    forall|k: int|
                        0 <= k < j ==> #[trigger] line@[k] == game@[self@.y_offset + i][self@.x_offset + k],
                decreases cols - j,
            {
                line.push(game.is_alive(self.y_off + i, self.x_off + j));
                j = j + 1;
            }
            assert(line@ =~= game@[self@.y_offset + i].subrange(self@.x_offset, self@.x_offset + cols));
            out.push(line);
            i = i + 1;
        }
        out
    }

    pub fn cell_size(&self) -> (r: usize)
        ensures
            r == self@.cell_size,
    {
        self.cellsize
    }

    pub fn x_offset(&self) -> (r: usize)
        ensures
            r == self@.x_offset,
    {
        self.x_off
    }

    pub fn y_offset(&self) -> (r: usize)
        ensures
            r == self@.y_offset,
    {
        self.y_off
    }

    /// How many columns of cells the window shows.
    pub fn columns(&self) -> (r: usize)
        requires
            self.wf(),
        ensures
            r == span(self@.window_width, self@.cell_size),
    {
        self.window_width / self.cellsize
    }

    /// How many rows of cells the window shows.
    pub fn rows(&self) -> (r: usize)
        requires
            self.wf(),
        ensures
            r == span(self@.window_height, self@.cell_size),
    {
        self.window_height / self.cellsize
    }

    /// Whether cells are drawn with an outline at the current size.
    pub fn shows_grid_lines(&self) -> (r: bool)
        ensures
            r == (self@.cell_size > GRID_LINE_THRESHOLD),
    {
        self.cellsize > GRID_LINE_THRESHOLD
    }

    /// A view at the initial cell size, centred on the grid; an error where
    /// the window cannot show the grid.
    pub fn new(grid_width: usize, grid_height: usize, window_width: usize, window_height: usize) -> (r: Result<Viewport, ViewError>)
        ensures
            r is Err <==> (window_width < MAX_CELL_SIZE || window_height < MAX_CELL_SIZE || !fits(
                grid_width as int,
                grid_height as int,
                window_width as int,
                window_height as int,
                INITIAL_CELL_SIZE as int,
            )),
            r == Err::<Viewport, ViewError>(ViewError::WindowTooSmall) <==> (window_width
                < MAX_CELL_SIZE || window_height < MAX_CELL_SIZE),
            r == Err::<Viewport, ViewError>(ViewError::WindowTooWide) <==> (window_width
                >= MAX_CELL_SIZE && window_height >= MAX_CELL_SIZE && span(
                window_width as int,
                INITIAL_CELL_SIZE as int,
            ) > grid_width),
            r matches Ok(v) ==> {
                &&& view_wf(v@)
                &&& v@.grid_width == grid_width
                &&& v@.grid_height == grid_height
                &&& v@.window_width == window_width
                &&& v@.window_height == window_height
                &&& v@.cell_size == INITIAL_CELL_SIZE
                &&& v@.x_offset == grid_width / 2 - span(window_width as int, INITIAL_CELL_SIZE as int) / 2
                &&& v@.y_offset == grid_height / 2 - span(window_height as int, INITIAL_CELL_SIZE as int) / 2
            },
    {
        if window_width < MAX_CELL_SIZE || window_height < MAX_CELL_SIZE {
            return Err(ViewError::WindowTooSmall);
        }
        let cols = window_width / INITIAL_CELL_SIZE;
        let rows = window_height / INITIAL_CELL_SIZE;
        if cols > grid_width {
            return Err(ViewError::WindowTooWide);
        }
        if rows > grid_height {
            return Err(ViewError::WindowTooTall);
        }
        proof {
            lemma_span_positive(window_width as int, INITIAL_CELL_SIZE as int);
            lemma_span_positive(window_height as int, INITIAL_CELL_SIZE as int);
        }
        Ok(Viewport {
            grid_width,
            grid_height,
            window_width,
            window_height,
            cellsize: INITIAL_CELL_SIZE,
            x_off: grid_width / 2 - cols / 2,
            y_off: grid_height / 2 - rows / 2,
        })
    }
}

} // verus!
