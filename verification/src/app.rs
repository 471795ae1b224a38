//! The session: the settings that key presses change, and the grid that is
//! recomputed from them.

use crate::fractal::Fractal;
use crate::grid::{
    callable_on, cleared, lemma_recomputation_is_determined, recomputed, single_valued, Cell,
    PixelGrid, Strategy,
};
use crate::input::{action_of, pressed_key_of, Action, ButtonArgs, Key};
use vstd::prelude::*;

verus! {

/// The iteration budget of a new session.
pub const STARTING_ITERATIONS: i32 = 204;

/// The amount by which one key press changes the iteration budget.
pub const ITERATIONS_STEP: i32 = 100;

/// One viewer session: the window it draws into, the size of a cell in
/// pixels, the iteration budget, the fractal kind and the current frame.
pub struct App {
    pixel_size: i32,
    iterations: i32,
    pixel_data: PixelGrid,
    window_width: i32,
    window_height: i32,
    fractal: Fractal,
}

/// A session as a mathematical value.
pub struct AppView {
    pub pixel_size: int,
    pub iterations: int,
    pub window_width: int,
    pub window_height: int,
    pub fractal: Fractal,
    pub pixel_data: Seq<Seq<Cell>>,
}

impl AppView {
    /// The number of columns of the grid: the cells of `pixel_size` pixels
    /// that fit into the window's width.
    pub open spec fn grid_width(self) -> int {
        self.window_width / self.pixel_size
    }

    /// The number of rows of the grid.
    pub open spec fn grid_height(self) -> int {
        self.window_height / self.pixel_size
    }

    /// The settings are in range: a cell has at least one pixel, the budget at
    /// least one iteration, and the window no negative side.
    pub open spec fn settings_in_range(self) -> bool {
        &&& 1 <= self.pixel_size <= i32::MAX
        &&& 1 <= self.iterations <= i32::MAX
        &&& 0 <= self.window_width <= i32::MAX
        &&& 0 <= self.window_height <= i32::MAX
    }

    /// The settings are in range and the grid has the dimensions that the
    /// window and the pixel size give.
    pub open spec fn wf(self) -> bool {
        &&& self.settings_in_range()
        &&& self.pixel_data.len() == self.grid_width()
        &&& forall|col: int|
            0 <= col < self.pixel_data.len() ==> (#[trigger] self.pixel_data[col]).len()
                == self.grid_height()
    }

    /// The session with its settings kept and its grid swapped for `pixel_data`.
    pub open spec fn with_grid(self, pixel_data: Seq<Seq<Cell>>) -> AppView {
        AppView { pixel_data, ..self }
    }

    /// The session with a new pixel size and a cleared grid of the dimensions
    /// that follow from it.
    pub open spec fn resized(self, pixel_size: int) -> AppView {
        AppView {
            pixel_size,
            pixel_data: cleared(
                (self.window_width / pixel_size) as nat,
                (self.window_height / pixel_size) as nat,
            ),
            ..self
        }
    }

    /// The session after a request to move the iteration budget by `delta`:
    /// the move is made if it leaves at least one iteration and the budget
    /// representable, and refused otherwise.
    pub open spec fn iterations_moved(self, delta: int) -> AppView {
        if 1 <= self.iterations + delta <= i32::MAX {
            AppView { iterations: self.iterations + delta, ..self }
        } else {
            self
        }
    }

    /// The session after a request to move the pixel size by `delta`: the move
    /// is made, and the grid cleared at its new dimensions, if it leaves a cell
    /// at least one pixel and the size representable; it is refused otherwise.
    pub open spec fn pixel_size_moved(self, delta: int) -> AppView {
        if 1 <= self.pixel_size + delta <= i32::MAX {
            self.resized(self.pixel_size + delta)
        } else {
            self
        }
    }

    /// The session with another fractal kind.
    pub open spec fn fractal_selected(self, fractal: Fractal) -> AppView {
        AppView { fractal, ..self }
    }

    /// The session after a press of `key`: `=` and `-` move the budget by
    /// `ITERATIONS_STEP`, `[` and `]` the pixel size by 1, the digits select
    /// the fractal kind, and no other key touches the session.
    pub open spec fn after_key(self, key: Key) -> AppView {
        match key {
            Key::Equals => self.iterations_moved(ITERATIONS_STEP as int),
            Key::Minus => self.iterations_moved(-ITERATIONS_STEP),
            Key::LeftBracket => self.pixel_size_moved(1),
            Key::RightBracket => self.pixel_size_moved(-1),
            Key::D1 => self.fractal_selected(Fractal::Mandelbrot),
            Key::D2 => self.fractal_selected(Fractal::Julia),
            Key::D3 => self.fractal_selected(Fractal::BurningShip),
            _ => self,
        }
    }

    /// The session after a button event: only a key press changes it.
    pub open spec fn after_button(self, args: ButtonArgs) -> AppView {
        match pressed_key_of(args) {
            Some(key) => self.after_key(key),
            None => self,
        }
    }
}

/// The action that a button event asks for: that of the key it presses.
pub open spec fn action_of_button(args: ButtonArgs) -> Action {
    match pressed_key_of(args) {
        Some(key) => action_of(key),
        None => Action::Nothing,
    }
}

impl View for App {
    type V = AppView;

    closed spec fn view(&self) -> AppView {
        AppView {
            pixel_size: self.pixel_size as int,
            iterations: self.iterations as int,
            window_width: self.window_width as int,
            window_height: self.window_height as int,
            fractal: self.fractal,
            pixel_data: self.pixel_data@,
        }
    }
}

impl App {
    /// The grid that the session holds.
    pub closed spec fn grid(&self) -> PixelGrid {
        self.pixel_data
    }

    /// The session is well formed: its view is, and the grid it holds is the
    /// rectangle that the view shows.
    pub open spec fn wf(&self) -> bool {
        &&& self@.wf()
        &&& self.grid().wf()
        &&& self.grid()@ == self@.pixel_data
        &&& self.grid().rows() == self@.grid_height()
    }

    /// A session for a window of the given size in pixels, with cells of
    /// `pixel_size` pixels, the starting budget and the Mandelbrot set. No cell
    /// of its grid is computed yet.
    pub fn new(window_width: i32, window_height: i32, pixel_size: i32) -> (app: App)
        requires
            0 <= window_width,
            0 <= window_height,
            1 <= pixel_size,
        ensures
            app.wf(),
            app@ == (AppView {
                pixel_size: pixel_size as int,
                iterations: STARTING_ITERATIONS as int,
                window_width: window_width as int,
                window_height: window_height as int,
                fractal: Fractal::Mandelbrot,
                pixel_data: cleared(
                    (window_width / pixel_size) as nat,
                    (window_height / pixel_size) as nat,
                ),
            }),
    {
        let width: usize = (window_width / pixel_size) as usize;
        let height: usize = (window_height / pixel_size) as usize;
        App {
            pixel_size,
            iterations: STARTING_ITERATIONS,
            pixel_data: PixelGrid::new(width, height),
            window_width,
            window_height,
            fractal: Fractal::Mandelbrot,
        }
    }

    /// Throws the grid away and builds a cleared one of the dimensions that the
    /// window and the pixel size give.
    pub fn reset_pixel_data_vecs(&mut self)
        requires
            old(self)@.settings_in_range(),
        ensures
            final(self).wf(),
            final(self)@ == old(self)@.resized(old(self)@.pixel_size),
    {
        let new_width: usize = (self.window_width / self.pixel_size) as usize;
        let new_height: usize = (self.window_height / self.pixel_size) as usize;
        self.pixel_data = PixelGrid::new(new_width, new_height);
    }

    /// Moves the iteration budget by `delta`, unless that would leave it below
    /// one iteration or beyond what it can hold; then nothing changes. The grid
    /// is stale until it is recomputed.
    pub fn set_iterations(&mut self, delta: i32)
        requires
            old(self).wf(),
        ensures
            final(self).wf(),
            final(self)@ == old(self)@.iterations_moved(delta as int),
    {
        match self.iterations.checked_add(delta) {
            Some(iterations) => {
                if iterations >= 1 {
                    self.iterations = iterations;
                }
            },
            None => {},
        }
    }

    /// Moves the pixel size by `delta` and clears the grid at its new
    /// dimensions, unless that would leave a cell smaller than one pixel or
    /// the size beyond what it can hold; then nothing changes.
    pub fn adjust_pixel_size(&mut self, delta: i32)
        requires
            old(self).wf(),
        ensures
            final(self).wf(),
            final(self)@ == old(self)@.pixel_size_moved(delta as int),
    {
        match self.pixel_size.checked_add(delta) {
            Some(pixel_size) => {
                if pixel_size >= 1 {
                    self.pixel_size = pixel_size;
                    self.reset_pixel_data_vecs();
                }
            },
            None => {},
        }
    }

    /// Selects the fractal kind. The grid is stale until it is recomputed.
    pub fn select_fractal(&mut self, fractal: Fractal)
        requires
            old(self).wf(),
        ensures
            final(self).wf(),
            final(self)@ == old(self)@.fractal_selected(fractal),
    {
        self.fractal = fractal;
    }

    /// Reacts to a button event: changes the settings that the pressed key
    /// stands for and returns what the caller has to do before the next frame
    /// is shown.
    pub fn handle_button(&mut self, args: &ButtonArgs) -> (action: Action)
        requires
            old(self).wf(),
        ensures
            final(self).wf(),
            final(self)@ == old(self)@.after_button(*args),
            action == action_of_button(*args),
    {
        match args.pressed_key() {
            Some(key) => {
                match key {
                    Key::Equals => self.set_iterations(ITERATIONS_STEP),
                    Key::Minus => self.set_iterations(-ITERATIONS_STEP),
                    Key::LeftBracket => self.adjust_pixel_size(1),
                    Key::RightBracket => self.adjust_pixel_size(-1),
                    Key::D1 => self.select_fractal(Fractal::Mandelbrot),
                    Key::D2 => self.select_fractal(Fractal::Julia),
                    Key::D3 => self.select_fractal(Fractal::BurningShip),
                    _ => {},
                }
                key.action()
            },
            None => Action::Nothing,
        }
    }

    /// Recomputes every cell of the grid from what `escape` returns for the
    /// session's fractal kind, the cell's position and the iteration budget.
    /// The settings stay as they are.
    pub fn update_pixel_data<F: Fn(Fractal, usize, usize, i32) -> i32 + Sync>(
        &mut self,
        strategy: Strategy,
        escape: &F,
    )
        requires
            old(self).wf(),
            callable_on(
                escape,
                old(self)@.fractal,
                old(self)@.iterations as i32,
                old(self)@.grid_width() as nat,
                old(self)@.grid_height() as nat,
            ),
        ensures
            final(self).wf(),
            final(self)@ == old(self)@.with_grid(final(self)@.pixel_data),
            recomputed(
                escape,
                old(self)@.fractal,
                old(self)@.iterations as i32,
                final(self)@.pixel_data,
            ),
    {
        self.pixel_data.recompute(strategy, self.fractal, self.iterations, escape);
    }

    /// The size of a cell in pixels.
    pub fn pixel_size(&self) -> (pixel_size: i32)
        ensures
            pixel_size == self@.pixel_size,
    {
        self.pixel_size
    }

    /// The iteration budget.
    pub fn iterations(&self) -> (iterations: i32)
        ensures
            iterations == self@.iterations,
    {
        self.iterations
    }

    /// The fractal kind.
    pub fn fractal(&self) -> (fractal: Fractal)
        ensures
            fractal == self@.fractal,
    {
        self.fractal
    }

    /// The width of the window in pixels.
    pub fn window_width(&self) -> (width: i32)
        ensures
            width == self@.window_width,
    {
        self.window_width
    }

    /// The height of the window in pixels.
    pub fn window_height(&self) -> (height: i32)
        ensures
            height == self@.window_height,
    {
        self.window_height
    }

    /// The number of columns of the grid.
    pub fn grid_width(&self) -> (width: usize)
        requires
            self.wf(),
        ensures
            width == self@.grid_width(),
    {
        self.pixel_data.width()
    }

    /// The number of rows of the grid.
    pub fn grid_height(&self) -> (height: usize)
        requires
            self.wf(),
        ensures
            height == self@.grid_height(),
    {
        self.pixel_data.height()
    }

    /// The current frame, for reading.
    pub fn pixel_data(&self) -> (grid: &PixelGrid)
        ensures
            *grid == self.grid(),
    {
        &self.pixel_data
    }
}

/// The frame is a function of the settings: two sessions with the same window,
/// pixel size, budget and fractal kind, both recomputed with an evaluator that
/// has one result for each position, show the same grid, whatever either of
/// them showed before.
pub proof fn lemma_frame_follows_from_settings<F: Fn(Fractal, usize, usize, i32) -> i32>(
    escape: &F,
    a: App,
    b: App,
)
    requires
        a.wf(),
        b.wf(),
        a@.with_grid(b@.pixel_data) == b@,
        single_valued(escape, a@.fractal, a@.iterations as i32),
        recomputed(escape, a@.fractal, a@.iterations as i32, a@.pixel_data),
        recomputed(escape, b@.fractal, b@.iterations as i32, b@.pixel_data),
    ensures
        a@ == b@,
{
    lemma_recomputation_is_determined(
        escape,
        a@.fractal,
        a@.iterations as i32,
        a.pixel_data,
        b.pixel_data,
    );
}

/// A change of pixel size keeps no cell of the old frame: once `resized`, the
/// session after a press of a bracket key, is recomputed, it shows the grid of
/// `fresh`, a session set up from nothing with the same settings and then
/// recomputed.
pub proof fn lemma_resize_keeps_no_old_cells<F: Fn(Fractal, usize, usize, i32) -> i32>(
    escape: &F,
    before: App,
    key: Key,
    resized: App,
    fresh: App,
)
    requires
        before.wf(),
        key == Key::LeftBracket || key == Key::RightBracket,
        resized.wf(),
        resized@ == before@.after_key(key).with_grid(resized@.pixel_data),
        fresh.wf(),
        fresh@ == resized@.with_grid(fresh@.pixel_data),
        single_valued(escape, resized@.fractal, resized@.iterations as i32),
        recomputed(escape, resized@.fractal, resized@.iterations as i32, resized@.pixel_data),
        recomputed(escape, fresh@.fractal, fresh@.iterations as i32, fresh@.pixel_data),
    ensures
        resized@.pixel_data == fresh@.pixel_data,
{
    lemma_frame_follows_from_settings(escape, resized, fresh);
}

} // verus!
