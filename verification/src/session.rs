//! The session: what the program is doing between the start menu and the
//! running simulation, and how each input event moves it on.
//!
//! The session decides; it neither draws nor polls. The program around it
//! reports each event as it occurs, in the order in which it polls for them,
//! takes back a command, and lets the session carry the command out on the
//! board. Two commands concern the simulation speed, which the program keeps.

use vstd::prelude::*;
use crate::config::{ConfigError, valid_dimensions, validate_dimensions};
use crate::game::Game;
use crate::life::{blank, next_generation, toggled};

verus! {

/// Where the session stands.
#[derive(Clone, Copy, Debug, PartialEq, Eq, Structural)]
pub enum Phase {
    /// The title screen, left with Enter.
    StartMenu,
    /// The board is being set up by hand or at random; Enter starts the run.
    ChooseInitialState,
    /// The simulation runs, or rests while it is paused.
    Running,
}

/// What the user, or the clock, has just done.
#[derive(Clone, Copy, Debug, PartialEq, Eq, Structural)]
pub enum Event {
    Enter,
    Space,
    Up,
    Down,
    R,
    M,
    /// The primary button went down over the pixel `(px, py)`, counted from
    /// the top left corner of the board. A pointer to the left of the board
    /// or above it has a negative position.
    Click { px: i32, py: i32 },
    /// The restart button of the menu was pressed.
    RestartButton,
    /// The pause button of the menu was pressed.
    PauseButton,
    /// The time between two generations has passed.
    Tick,
}

/// What an event asks for, beyond the change of the session itself.
#[derive(Clone, Copy, Debug, PartialEq, Eq, Structural)]
pub enum Command {
    Nothing,
    /// Flip the cell at `(x, y)`.
    Toggle { x: usize, y: usize },
    /// Draw every cell afresh at random.
    Randomize,
    /// Move the board on by one generation.
    Advance,
    /// Start over with a blank board.
    Reset,
    /// Run the simulation faster.
    SpeedUp,
    /// Run the simulation slower.
    SpeedDown,
}

/// The state of one session: the configuration it was opened with, its
/// phase, and the two switches of the running simulation.
#[derive(Clone, Copy, Debug, PartialEq, Eq, Structural)]
pub struct Session {
    pub ncols: usize,
    pub nrows: usize,
    pub cell_size: usize,
    pub phase: Phase,
    pub paused: bool,
    pub menu_open: bool,
}

/// The session after the event `e` has reached the session `s`.
///
/// Enter leaves the start menu and, later, the setup of the board. While the
/// simulation runs, Space switches the pause and M the menu; the buttons of
/// the menu count only while the menu is open. Restart leads back to the
/// setup, with the pause released and the menu closed. Any other event leaves
/// the session as it is.
pub open spec fn next_session(s: Session, e: Event) -> Session {
    match s.phase {
        Phase::StartMenu => match e {
            Event::Enter => Session { phase: Phase::ChooseInitialState, ..s },
            _ => s,
        },
        Phase::ChooseInitialState => match e {
            Event::Enter => Session { phase: Phase::Running, ..s },
            _ => s,
        },
        Phase::Running => match e {
            Event::Space => Session { paused: !s.paused, ..s },
            Event::M => Session { menu_open: !s.menu_open, ..s },
            Event::PauseButton if s.menu_open => Session { paused: !s.paused, ..s },
            Event::RestartButton if s.menu_open => Session {
                phase: Phase::ChooseInitialState,
                paused: false,
                menu_open: false,
                ..s
            },
            _ => s,
        },
    }
}

/// The command that the event `e` gives rise to in the session `s`.
///
/// During the setup a click flips the cell under the pointer, found by
/// dividing the pixel position by the cell size and dropping the remainder,
/// and R randomizes the board. A click at a negative position is over no
/// cell and asks for nothing. While the simulation runs, Up and Down change
/// the speed, a tick advances the board unless the session is paused, and
/// the restart button of the open menu resets the board.
pub open spec fn command_for(s: Session, e: Event) -> Command {
    match s.phase {
        Phase::StartMenu => Command::Nothing,
        Phase::ChooseInitialState => match e {
            Event::Click { px, py } if s.cell_size > 0 && px >= 0 && py >= 0 => Command::Toggle {
                x: (px as int / s.cell_size as int) as usize,
                y: (py as int / s.cell_size as int) as usize,
            },
            Event::R => Command::Randomize,
            _ => Command::Nothing,
        },
        Phase::Running => match e {
            Event::Up => Command::SpeedUp,
            Event::Down => Command::SpeedDown,
            Event::Tick if !s.paused => Command::Advance,
            Event::RestartButton if s.menu_open => Command::Reset,
            _ => Command::Nothing,
        },
    }
}

impl Session {
    /// Opens a session for a board of `ncols` columns and `nrows` rows whose
    /// cells are drawn `cell_size` pixels wide, together with the blank board
    /// it starts from. The configuration is validated first: if a dimension
    /// or the cell size is zero, neither a session nor a board is made.
    pub fn open(ncols: usize, nrows: usize, cell_size: usize) -> (res: Result<
        (Session, Game),
        ConfigError,
    >)
        ensures
            res is Ok <==> valid_dimensions(nrows as nat, ncols as nat, cell_size as nat),
            res matches Ok((session, game)) ==> {
                &&& session == Session::initial(ncols, nrows, cell_size)
                &&& game.wf()
                &&& game.cols() == ncols
                &&& game.rows() == nrows
                &&& game@ == blank(ncols as nat, nrows as nat)
            },
            res matches Err(e) ==> e == ConfigError::InvalidConfiguration,
    {
        match validate_dimensions(nrows, ncols, cell_size) {
            Ok(()) => Ok((Session::new(ncols, nrows, cell_size), Game::new(ncols, nrows))),
            Err(e) => Err(e),
        }
    }

    /// The session at its start: in the start menu, not paused, the menu
    /// closed.
    pub open spec fn initial(ncols: usize, nrows: usize, cell_size: usize) -> Session {
        Session {
            ncols,
            nrows,
            cell_size,
            phase: Phase::StartMenu,
            paused: false,
            menu_open: false,
        }
    }

    /// A session at its start, for a board of `ncols` columns and `nrows`
    /// rows whose cells are drawn `cell_size` pixels wide.
    pub fn new(ncols: usize, nrows: usize, cell_size: usize) -> (session: Session)
        ensures
            session == Session::initial(ncols, nrows, cell_size),
    {
        Session {
            ncols,
            nrows,
            cell_size,
            phase: Phase::StartMenu,
            paused: false,
            menu_open: false,
        }
    }

    /// Takes in one event: moves the session on and returns the command that
    /// the event gives rise to.
    pub fn step(&mut self, event: Event) -> (command: Command)
        ensures
            *final(self) == next_session(*old(self), event),
            command == command_for(*old(self), event),
    {
        match self.phase {
            Phase::StartMenu => {
                if let Event::Enter = event {
                    self.phase = Phase::ChooseInitialState;
                }
                Command::Nothing
            },
            Phase::ChooseInitialState => match event {
                Event::Enter => {
                    self.phase = Phase::Running;
                    Command::Nothing
                },
                Event::Click { px, py } => {
                    if self.cell_size > 0 && px >= 0 && py >= 0 {
                        Command::Toggle {
                            x: px as usize / self.cell_size,
                            y: py as usize / self.cell_size,
                        }
                    } else {
                        Command::Nothing
                    }
                },
                Event::R => Command::Randomize,
                _ => Command::Nothing,
            },
            Phase::Running => match event {
                Event::Space => {
                    self.paused = !self.paused;
                    Command::Nothing
                },
                Event::Up => Command::SpeedUp,
                Event::Down => Command::SpeedDown,
                Event::M => {
                    self.menu_open = !self.menu_open;
                    Command::Nothing
                },
                Event::Tick => {
                    if self.paused {
                        Command::Nothing
                    } else {
                        Command::Advance
                    }
                },
                Event::PauseButton => {
                    if self.menu_open {
                        self.paused = !self.paused;
                    }
                    Command::Nothing
                },
                Event::RestartButton => {
                    if self.menu_open {
                        self.phase = Phase::ChooseInitialState;
                        self.paused = false;
                        self.menu_open = false;
                        Command::Reset
                    } else {
                        Command::Nothing
                    }
                },
                _ => Command::Nothing,
            },
        }
    }

    /// Carries out a command on the board. The two speed commands are not for
    /// the board, and leave it as it is.
    pub fn apply(&self, command: Command, game: &mut Game)
        ensures
            final(game).wf(),
            match command {
                Command::Toggle { x, y } => {
                    &&& final(game)@ == toggled(old(game)@, x as int, y as int)
                    &&& final(game).cols() == old(game).cols()
                    &&& final(game).rows() == old(game).rows()
                },
                Command::Advance => {
                    &&& final(game)@ == next_generation(old(game)@)
                    &&& final(game).cols() == old(game).cols()
                    &&& final(game).rows() == old(game).rows()
                },
                Command::Randomize => {
                    &&& final(game).cols() == old(game).cols()
                    &&& final(game).rows() == old(game).rows()
                },
                Command::Reset => {
                    &&& final(game)@ == blank(self.ncols as nat, self.nrows as nat)
                    &&& final(game).cols() == self.ncols
                    &&& final(game).rows() == self.nrows
                },
                Command::Nothing | Command::SpeedUp | Command::SpeedDown => {
                    &&& final(game)@ == old(game)@
                    &&& final(game).cols() == old(game).cols()
                    &&& final(game).rows() == old(game).rows()
                },
            },
    {
        proof {
            use_type_invariant(&*game);
        }
        match command {
            Command::Toggle { x, y } => game.toggle_cell_state(x, y),
            Command::Randomize => game.randomize(),
            Command::Advance => game.update(),
            Command::Reset => {
                *game = Game::new(self.ncols, self.nrows);
            },
            Command::Nothing | Command::SpeedUp | Command::SpeedDown => {},
        }
    }
}

} // verus!
