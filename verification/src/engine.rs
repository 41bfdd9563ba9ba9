//! Event dispatch: one step of the editor per key event.
//!
//! The editor owns the mode, the grid and the command buffer. Each key
//! event is interpreted under the current mode and yields the next state
//! plus one action for the caller to perform (quit, repaint the grid,
//! clear the input region, echo a submitted command, or nothing). The
//! whole transition is given by the spec function `step_model`.

use vstd::prelude::*;

use crate::buffer::CommandBuffer;
use crate::buffer::deleted_last;
use crate::grid::Direction;
use crate::grid::Grid;
use crate::mode::InputMode;

verus! {

/// The logical code carried by one key event.
#[derive(Clone, Copy, Debug, PartialEq, Eq, Structural)]
pub enum KeyCode {
    Char(char),
    Esc,
    Enter,
    Backspace,
    Null,
    Other,
}

/// One key event: a logical code and whether the control modifier was
/// held.
#[derive(Clone, Copy, Debug, PartialEq, Eq, Structural)]
pub struct KeyInput {
    pub code: KeyCode,
    pub ctrl: bool,
}

/// What the caller must do after one dispatch step.
#[derive(Debug, PartialEq, Eq)]
pub enum Action {
    /// Nothing beyond the routine input-line repaint.
    Stay,
    /// Leave the event loop and restore the terminal.
    Quit,
    /// Repaint the grid frame.
    RedrawPlane,
    /// Print the fixed write acknowledgement; persistence is a stub.
    WriteAck,
    /// Clear the input line region after leaving command mode.
    ClearRow,
    /// Echo the submitted text as a finalized line.
    Submit(String),
}

/// The mathematical image of the editor state.
pub struct EditorModel {
    pub mode: InputMode,
    pub grid: Grid,
    pub buf: Seq<char>,
}

impl EditorModel {
    /// The grid invariant carries over to the whole editor.
    pub open spec fn wf(self) -> bool {
        self.grid.wf()
    }
}

/// The mathematical image of an action.
pub enum ActionModel {
    Stay,
    Quit,
    RedrawPlane,
    WriteAck,
    ClearRow,
    Submit(Seq<char>),
}

/// The image of an executable action.
pub open spec fn action_model(a: Action) -> ActionModel {
    match a {
        Action::Stay => ActionModel::Stay,
        Action::Quit => ActionModel::Quit,
        Action::RedrawPlane => ActionModel::RedrawPlane,
        Action::WriteAck => ActionModel::WriteAck,
        Action::ClearRow => ActionModel::ClearRow,
        Action::Submit(s) => ActionModel::Submit(s@),
    }
}

/// Dispatch under movement mode: `q` quits, `w` acknowledges the write
/// stub, `i` repaints without moving, `h`/`j`/`k`/`l` move the cursor
/// and repaint, Escape toggles into command mode with an empty buffer,
/// and every other key is a no-op.
pub open spec fn step_key_mode(s: EditorModel, code: KeyCode) -> (EditorModel, ActionModel) {
    match code {
        KeyCode::Char(c) => if c == 'q' {
            (s, ActionModel::Quit)
        } else if c == 'w' {
            (s, ActionModel::WriteAck)
        } else if c == 'i' {
            (s, ActionModel::RedrawPlane)
        } else if c == 'h' {
            (EditorModel { grid: s.grid.spec_step(Direction::Left), ..s }, ActionModel::RedrawPlane)
        } else if c == 'j' {
            (EditorModel { grid: s.grid.spec_step(Direction::Down), ..s }, ActionModel::RedrawPlane)
        } else if c == 'k' {
            (EditorModel { grid: s.grid.spec_step(Direction::Up), ..s }, ActionModel::RedrawPlane)
        } else if c == 'l' {
            (
                EditorModel { grid: s.grid.spec_step(Direction::Right), ..s },
                ActionModel::RedrawPlane,
            )
        } else {
            (s, ActionModel::Stay)
        },
        KeyCode::Esc => (
            EditorModel { mode: InputMode::Cmd, buf: Seq::empty(), ..s },
            ActionModel::Stay,
        ),
        _ => (s, ActionModel::Stay),
    }
}

/// Dispatch under command mode: characters are appended, Backspace
/// deletes from the end, Escape toggles back with the buffer cleared and
/// the input region cleared, Enter echoes the buffered text and clears
/// the buffer, and every other key is a no-op.
pub open spec fn step_cmd_mode(s: EditorModel, code: KeyCode) -> (EditorModel, ActionModel) {
    match code {
        KeyCode::Char(c) => (EditorModel { buf: s.buf.push(c), ..s }, ActionModel::Stay),
        KeyCode::Backspace => (EditorModel { buf: deleted_last(s.buf), ..s }, ActionModel::Stay),
        KeyCode::Esc => (
            EditorModel { mode: InputMode::Key, buf: Seq::empty(), ..s },
            ActionModel::ClearRow,
        ),
        KeyCode::Enter => (EditorModel { buf: Seq::empty(), ..s }, ActionModel::Submit(s.buf)),
        _ => (s, ActionModel::Stay),
    }
}

/// One full dispatch step: a null code is ignored, a control-modified
/// `q` quits from either mode, and everything else goes to the handler
/// of the current mode.
pub open spec fn step_model(s: EditorModel, k: KeyInput) -> (EditorModel, ActionModel) {
    if k.code is Null {
        (s, ActionModel::Stay)
    } else if k.ctrl && k.code == KeyCode::Char('q') {
        (s, ActionModel::Quit)
    } else {
        match s.mode {
            InputMode::Key => step_key_mode(s, k.code),
            InputMode::Cmd => step_cmd_mode(s, k.code),
        }
    }
}

/// The editor: the current mode, the grid with its cursor, and the
/// command buffer.
#[derive(Debug)]
pub struct Editor {
    pub mode: InputMode,
    pub grid: Grid,
    pub buffer: CommandBuffer,
}

impl View for Editor {
    type V = EditorModel;

    open spec fn view(&self) -> EditorModel {
        EditorModel { mode: self.mode, grid: self.grid, buf: self.buffer@ }
    }
}

impl Editor {
    /// The editor invariant: the cursor lies inside the grid.
    pub open spec fn wf(self) -> bool {
        self@.wf()
    }

    /// A fresh session: movement mode, cursor at the centre cell, empty
    /// buffer.
    pub fn new(cols: usize, rows: usize) -> (e: Editor)
        requires
            1 <= cols,
            1 <= rows,
            cols + 2 <= usize::MAX,
            rows + 2 <= usize::MAX,
        ensures
            e.wf(),
            e@.mode == InputMode::Key,
            e@.grid.cols == cols,
            e@.grid.rows == rows,
            e@.grid.col == cols / 2,
            e@.grid.row == rows / 2,
            e@.buf == Seq::<char>::empty(),
    {
        Editor {
            mode: InputMode::Key,
            grid: Grid::new(cols, rows),
            buffer: CommandBuffer::new(),
        }
    }

    /// Applies one key event: moves to the state `step_model` gives and
    /// returns the action it gives.
    pub fn handle_key(&mut self, k: KeyInput) -> (act: Action)
        requires
            old(self).wf(),
        ensures
            final(self).wf(),
            final(self)@ == step_model(old(self)@, k).0,
            action_model(act) == step_model(old(self)@, k).1,
    {
        if let KeyCode::Null = k.code {
            return Action::Stay;
        }
        if k.ctrl {
            if let KeyCode::Char(c) = k.code {
                if c == 'q' {
                    return Action::Quit;
                }
            }
        }
        match self.mode {
            InputMode::Key => match k.code {
                KeyCode::Char(c) => {
                    if c == 'q' {
                        Action::Quit
                    } else if c == 'w' {
                        Action::WriteAck
                    } else if c == 'i' {
                        Action::RedrawPlane
                    } else if c == 'h' {
                        self.grid.step(Direction::Left);
                        Action::RedrawPlane
                    } else if c == 'j' {
                        self.grid.step(Direction::Down);
                        Action::RedrawPlane
                    } else if c == 'k' {
                        self.grid.step(Direction::Up);
                        Action::RedrawPlane
                    } else if c == 'l' {
                        self.grid.step(Direction::Right);
                        Action::RedrawPlane
                    } else {
                        Action::Stay
                    }
                },
                KeyCode::Esc => {
                    self.mode = self.mode.next();
                    self.buffer.clear();
                    Action::Stay
                },
                _ => Action::Stay,
            },
            InputMode::Cmd => match k.code {
                KeyCode::Char(c) => {
                    self.buffer.insert(c);
                    Action::Stay
                },
                KeyCode::Backspace => {
                    self.buffer.delete_last();
                    Action::Stay
                },
                KeyCode::Esc => {
                    self.mode = self.mode.next();
                    self.buffer.clear();
                    Action::ClearRow
                },
                KeyCode::Enter => {
                    let line = self.buffer.contents();
                    self.buffer.clear();
                    Action::Submit(line)
                },
                _ => Action::Stay,
            },
        }
    }
}

/// Dispatching any key event preserves the editor invariant and never
/// changes the grid dimensions.
pub proof fn lemma_step_model_wf(s: EditorModel, k: KeyInput)
    requires
        s.wf(),
    ensures
        step_model(s, k).0.wf(),
        step_model(s, k).0.grid.cols == s.grid.cols,
        step_model(s, k).0.grid.rows == s.grid.rows,
{
}

/// Toggling the mode twice with Escape returns to the original mode,
/// leaves the command buffer empty whatever it held before, and leaves
/// the grid untouched.
pub proof fn lemma_toggle_twice_clears(s: EditorModel, k: KeyInput)
    requires
        s.wf(),
        k.code is Esc,
    ensures
        step_model(step_model(s, k).0, k).0.mode == s.mode,
        step_model(step_model(s, k).0, k).0.buf == Seq::<char>::empty(),
        step_model(step_model(s, k).0, k).0.grid == s.grid,
{
}

/// Submitting echoes exactly the buffer contents present at submit time
/// and empties the buffer, so a second submit with no intervening insert
/// echoes an empty line.
pub proof fn lemma_submit_echoes_then_clears(s: EditorModel, k: KeyInput)
    requires
        s.wf(),
        s.mode is Cmd,
        k.code is Enter,
    ensures
        step_model(s, k).1 == ActionModel::Submit(s.buf),
        step_model(s, k).0.buf == Seq::<char>::empty(),
        step_model(s, k).0.mode is Cmd,
        step_model(step_model(s, k).0, k).1 == ActionModel::Submit(Seq::<char>::empty()),
{
}

} // verus!
