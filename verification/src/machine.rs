//! The interaction state machine: how discrete input events move the
//! edit cursor, toggle cells, navigate the four-item menu, and switch
//! the session between editing and running.

use crate::grid::{empty_grid, lemma_empty_grid_all_dead, Grid, GridView};
use crate::life::step;
use crate::scheduler::{step_tick, TICK_INTERVAL_MS};
use vstd::prelude::*;

verus! {

/// Width of the playable grid.
pub const GRID_WIDTH: usize = 79;

/// Height of the playable grid.
pub const GRID_HEIGHT: usize = 45;

/// Whether the session is editing the grid or running generations.
#[derive(Clone, Copy, Debug, PartialEq, Eq, Structural)]
pub enum Mode {
    Editing,
    Running,
}

/// The four menu tabs, in left-to-right order.
#[derive(Clone, Copy, Debug, PartialEq, Eq, Structural)]
pub enum MenuTab {
    Edit,
    Run,
    Clear,
    Quit,
}

/// The discrete input symbols the state machine consumes. How physical
/// keys map to these symbols is the input layer's concern, not ours.
#[derive(Clone, Copy, Debug, PartialEq, Eq, Structural)]
pub enum InputEvent {
    Up,
    Down,
    Left,
    Right,
    ToggleMenu,
    Confirm,
    Cancel,
}

/// The tab one step to the left, clamped at the leftmost tab.
pub open spec fn tab_left(t: MenuTab) -> MenuTab {
    match t {
        MenuTab::Edit => MenuTab::Edit,
        MenuTab::Run => MenuTab::Edit,
        MenuTab::Clear => MenuTab::Run,
        MenuTab::Quit => MenuTab::Clear,
    }
}

/// The tab one step to the right, clamped at the rightmost tab.
pub open spec fn tab_right(t: MenuTab) -> MenuTab {
    match t {
        MenuTab::Edit => MenuTab::Run,
        MenuTab::Run => MenuTab::Clear,
        MenuTab::Clear => MenuTab::Quit,
        MenuTab::Quit => MenuTab::Quit,
    }
}

/// Mathematical model of a session: the grid, the edit cursor, the
/// mode, the active menu tab if any, and the time of the last applied
/// generation (in milliseconds), if one was applied.
#[verifier::ext_equal]
pub ghost struct SessionView {
    pub grid: GridView,
    pub cursor_x: int,
    pub cursor_y: int,
    pub mode: Mode,
    pub menu: Option<MenuTab>,
    pub last_tick_ms: Option<int>,
}

impl SessionView {
    /// The grid has the fixed session dimensions and the cursor stays
    /// off the outermost rows and columns.
    pub open spec fn wf(self) -> bool {
        &&& self.grid.wf()
        &&& self.grid.width == GRID_WIDTH as int
        &&& self.grid.height == GRID_HEIGHT as int
        &&& 1 <= self.cursor_x <= GRID_WIDTH - 2
        &&& 1 <= self.cursor_y <= GRID_HEIGHT - 2
        &&& (self.last_tick_ms matches Some(t) ==> 0 <= t)
    }
}

/// The state a session starts in: empty grid, centered cursor, editing,
/// no menu tab active, no generation applied yet.
pub open spec fn initial_session() -> SessionView {
    SessionView {
        grid: empty_grid(GRID_WIDTH as int, GRID_HEIGHT as int),
        cursor_x: 40,
        cursor_y: 25,
        mode: Mode::Editing,
        menu: None,
        last_tick_ms: None,
    }
}

/// The full transition table of the state machine: what one input
/// event does to a session.
///
/// - `ToggleMenu` flips the menu between closed and the leftmost tab,
///   never touching the mode.
/// - Directional input moves the cursor only while editing with the
///   menu closed, clamped so the cursor keeps off the border; with a
///   tab active, `Left`/`Right` move the selection, clamped at the ends.
/// - `Confirm` with the menu closed toggles the cell under the cursor;
///   on `Edit` it returns to editing and closes the menu; on `Run` it
///   starts running; on `Clear` it first returns to editing (closing
///   the menu) if the session was running, then kills every cell.
/// - `Confirm` on `Quit` and `Cancel` end the session, changing nothing.
pub open spec fn step_event(s: SessionView, ev: InputEvent) -> SessionView {
    match ev {
        InputEvent::ToggleMenu => SessionView {
            menu: if s.menu is Some {
                None
            } else {
                Some(MenuTab::Edit)
            },
            ..s
        },
        InputEvent::Up => if s.menu is None && s.mode == Mode::Editing && s.cursor_y > 1 {
            SessionView { cursor_y: s.cursor_y - 1, ..s }
        } else {
            s
        },
        InputEvent::Down => if s.menu is None && s.mode == Mode::Editing && s.cursor_y
            < GRID_HEIGHT - 2 {
            SessionView { cursor_y: s.cursor_y + 1, ..s }
        } else {
            s
        },
        InputEvent::Left => match s.menu {
            None => if s.mode == Mode::Editing && s.cursor_x > 1 {
                SessionView { cursor_x: s.cursor_x - 1, ..s }
            } else {
                s
            },
            Some(t) => SessionView { menu: Some(tab_left(t)), ..s },
        },
        InputEvent::Right => match s.menu {
            None => if s.mode == Mode::Editing && s.cursor_x < GRID_WIDTH - 2 {
                SessionView { cursor_x: s.cursor_x + 1, ..s }
            } else {
                s
            },
            Some(t) => SessionView { menu: Some(tab_right(t)), ..s },
        },
        InputEvent::Confirm => match s.menu {
            None => SessionView { grid: s.grid.toggled(s.cursor_x, s.cursor_y), ..s },
            Some(MenuTab::Edit) => SessionView { mode: Mode::Editing, menu: None, ..s },
            Some(MenuTab::Run) => SessionView { mode: Mode::Running, ..s },
            Some(MenuTab::Clear) => if s.mode == Mode::Running {
                SessionView { mode: Mode::Editing, menu: None, grid: s.grid.cleared(), ..s }
            } else {
                SessionView { grid: s.grid.cleared(), ..s }
            },
            Some(MenuTab::Quit) => s,
        },
        InputEvent::Cancel => s,
    }
}

/// Whether this event ends the session: `Cancel` always does,
/// `Confirm` does exactly when the `Quit` tab is selected.
pub open spec fn terminates(s: SessionView, ev: InputEvent) -> bool {
    ev == InputEvent::Cancel || (ev == InputEvent::Confirm && s.menu == Some(MenuTab::Quit))
}

/// The session state: the single owner of the grid, threaded through
/// input handling and the scheduler.
pub struct Session {
    pub(crate) grid: Grid,
    pub(crate) cursor_x: usize,
    pub(crate) cursor_y: usize,
    pub(crate) mode: Mode,
    pub(crate) menu: Option<MenuTab>,
    pub(crate) last_tick_ms: Option<u64>,
}

impl View for Session {
    type V = SessionView;

    closed spec fn view(&self) -> SessionView {
        SessionView {
            grid: self.grid@,
            cursor_x: self.cursor_x as int,
            cursor_y: self.cursor_y as int,
            mode: self.mode,
            menu: self.menu,
            last_tick_ms: match self.last_tick_ms {
                Some(t) => Some(t as int),
                None => None,
            },
        }
    }
}

impl Session {
    /// Start a session: empty grid, centered cursor, editing mode.
    pub fn new() -> (s: Session)
        ensures
            s@ == initial_session(),
            s@.wf(),
    {
        let grid = Grid::new(GRID_WIDTH, GRID_HEIGHT);
        let s = Session {
            grid,
            cursor_x: 40,
            cursor_y: 25,
            mode: Mode::Editing,
            menu: None,
            last_tick_ms: None,
        };
        proof {
            assert(s@ =~= initial_session());
        }
        s
    }

    /// Read-only access to the current grid, for the rendering surface.
    pub fn grid(&self) -> (g: &Grid)
        ensures
            g@ == self@.grid,
    {
        &self.grid
    }

    /// The edit cursor's column.
    pub fn cursor_x(&self) -> (x: usize)
        ensures
            x as int == self@.cursor_x,
    {
        self.cursor_x
    }

    /// The edit cursor's row.
    pub fn cursor_y(&self) -> (y: usize)
        ensures
            y as int == self@.cursor_y,
    {
        self.cursor_y
    }

    /// Whether the session is editing or running.
    pub fn mode(&self) -> (m: Mode)
        ensures
            m == self@.mode,
    {
        self.mode
    }

    /// The active menu tab, if the menu is open.
    pub fn menu(&self) -> (m: Option<MenuTab>)
        ensures
            m == self@.menu,
    {
        self.menu
    }

    /// Apply one input event, following the transition table
    /// `step_event` exactly; the result says whether the session ends.
    pub fn handle_input(&mut self, ev: InputEvent) -> (quit: bool)
        requires
            old(self)@.wf(),
        ensures
            final(self)@ == step_event(old(self)@, ev),
            final(self)@.wf(),
            quit == terminates(old(self)@, ev),
    {
        match ev {
            InputEvent::ToggleMenu => {
                self.menu = match self.menu {
                    Some(_) => None,
                    None => Some(MenuTab::Edit),
                };
                false
            },
            InputEvent::Up => {
                if self.menu.is_none() && matches!(self.mode, Mode::Editing) && self.cursor_y > 1 {
                    self.cursor_y = self.cursor_y - 1;
                }
                false
            },
            InputEvent::Down => {
                if self.menu.is_none() && matches!(self.mode, Mode::Editing) && self.cursor_y
                    < GRID_HEIGHT - 2 {
                    self.cursor_y = self.cursor_y + 1;
                }
                false
            },
            InputEvent::Left => {
                match self.menu {
                    None => {
                        if matches!(self.mode, Mode::Editing) && self.cursor_x > 1 {
                            self.cursor_x = self.cursor_x - 1;
                        }
                    },
                    Some(t) => {
                        self.menu = Some(
                            match t {
                                MenuTab::Edit => MenuTab::Edit,
                                MenuTab::Run => MenuTab::Edit,
                                MenuTab::Clear => MenuTab::Run,
                                MenuTab::Quit => MenuTab::Clear,
                            },
                        );
                    },
                }
                false
            },
            InputEvent::Right => {
                match self.menu {
                    None => {
                        if matches!(self.mode, Mode::Editing) && self.cursor_x < GRID_WIDTH - 2 {
                            self.cursor_x = self.cursor_x + 1;
                        }
                    },
                    Some(t) => {
                        self.menu = Some(
                            match t {
                                MenuTab::Edit => MenuTab::Run,
                                MenuTab::Run => MenuTab::Clear,
                                MenuTab::Clear => MenuTab::Quit,
                                MenuTab::Quit => MenuTab::Quit,
                            },
                        );
                    },
                }
                false
            },
            InputEvent::Confirm => {
                match self.menu {
                    None => {
                        self.grid.toggle(self.cursor_x, self.cursor_y);
                        false
                    },
                    Some(MenuTab::Edit) => {
                        self.mode = Mode::Editing;
                        self.menu = None;
                        false
                    },
                    Some(MenuTab::Run) => {
                        self.mode = Mode::Running;
                        false
                    },
                    Some(MenuTab::Clear) => {
                        if matches!(self.mode, Mode::Running) {
                            self.mode = Mode::Editing;
                            self.menu = None;
                        }
                        self.grid.clear_stage();
                        false
                    },
                    Some(MenuTab::Quit) => true,
                }
            },
            InputEvent::Cancel => true,
        }
    }
}

/// Relies on time::precise_time_ns: the current value of a monotonic
/// high-resolution performance counter, in nanoseconds since an
/// unspecified epoch. Nothing can be promised of the value of a clock
/// read.
#[verifier::external_body]
fn monotonic_clock_ns() -> u64 {
    time::precise_time_ns()
}

impl Session {
    /// One scheduler poll with an explicit timestamp in milliseconds:
    /// apply one generation if running and the tick interval has
    /// elapsed, else change nothing.
    pub fn poll(&mut self, now_ms: u64)
        requires
            old(self)@.wf(),
        ensures
            final(self)@ == step_tick(old(self)@, now_ms as int),
            final(self)@.wf(),
    {
        if matches!(self.mode, Mode::Running) {
            let due = match self.last_tick_ms {
                None => true,
                Some(t) => now_ms >= t && now_ms - t >= TICK_INTERVAL_MS,
            };
            if due {
                let next = step(&self.grid);
                self.grid = next;
                self.last_tick_ms = Some(now_ms);
            }
        }
    }

    /// One scheduler poll at the current time, read from the monotonic
    /// clock. Whatever the clock returned, either exactly one
    /// generation was applied or nothing changed.
    pub fn poll_clock(&mut self)
        requires
            old(self)@.wf(),
        ensures
            final(self)@.wf(),
            exists|now: int| 0 <= now && final(self)@ == step_tick(old(self)@, now),
    {
        let ns = monotonic_clock_ns();
        let ms: u64 = ns / 1_000_000;
        self.poll(ms);
        proof {
            assert(0 <= ms as int && self@ == step_tick(old(self)@, ms as int));
        }
    }
}

/// Law: menu navigation is clamped at the ends. With a tab active,
/// `Left` and `Right` always leave some tab active; `Left` from the
/// leftmost tab and `Right` from the rightmost change nothing at all,
/// so no run of moves can leave the four tabs.
pub proof fn lemma_menu_navigation_bounds(s: SessionView)
    requires
        s.menu is Some,
    ensures
        step_event(s, InputEvent::Left).menu is Some,
        step_event(s, InputEvent::Right).menu is Some,
        s.menu == Some(MenuTab::Edit) ==> step_event(s, InputEvent::Left) == s,
        s.menu == Some(MenuTab::Quit) ==> step_event(s, InputEvent::Right) == s,
{
}

/// Law: while running with the menu closed, directional input changes
/// nothing: neither the cursor nor the grid.
pub proof fn lemma_running_gates_movement(s: SessionView, ev: InputEvent)
    requires
        s.mode == Mode::Running,
        s.menu is None,
        ev == InputEvent::Up || ev == InputEvent::Down || ev == InputEvent::Left || ev
            == InputEvent::Right,
    ensures
        step_event(s, ev) == s,
{
}

/// Law: confirming the `Clear` tab while running returns to editing,
/// closes the menu, and leaves every cell of the grid dead; the cursor
/// stays where it was.
pub proof fn lemma_clear_while_running(s: SessionView)
    requires
        s.wf(),
        s.mode == Mode::Running,
        s.menu == Some(MenuTab::Clear),
    ensures
        step_event(s, InputEvent::Confirm).mode == Mode::Editing,
        step_event(s, InputEvent::Confirm).menu is None,
        step_event(s, InputEvent::Confirm).grid.all_dead(),
        step_event(s, InputEvent::Confirm).cursor_x == s.cursor_x,
        step_event(s, InputEvent::Confirm).cursor_y == s.cursor_y,
{
    lemma_empty_grid_all_dead(s.grid.width, s.grid.height);
}

} // verus!

