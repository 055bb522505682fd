//! A library for rendering several animated progress spinners on one
//! terminal, each bound to a fixed row.
//!
//! This crate holds the verified core: the frame animations, the spinner
//! state machine, and the planning of every terminal command sequence a
//! spinner issues. Executing those commands on a real terminal, and the
//! threads that repaint on a timer, live outside the verified library.

pub mod spinners;

use vstd::prelude::*;
use vstd::string::StringExecFns;

use crate::spinners::Animation;

verus! {

/// One terminal command, as the spinner core plans it. A terminal sink
/// executes these in order; the library only decides what they are.
#[derive(Clone, Debug, PartialEq, Eq)]
pub enum TermCommand {
    /// Move the cursor to the given absolute row.
    MoveToRow(u16),
    /// Clear the line the cursor is on.
    ClearLine,
    /// Print the text at the cursor.
    Print(String),
}

/// Why a spinner could not plan its terminal commands.
#[derive(Clone, Copy, Debug, PartialEq, Eq, Structural)]
pub enum SpinnerError {
    /// The spinner's row does not fit in the terminal's row addressing
    /// range, which is a 16-bit unsigned value.
    RowOutOfRange,
}

/// The text a repaint prints: the frame, one space, then the message.
pub open spec fn frame_line(frame: Seq<char>, msg: Seq<char>) -> Seq<char> {
    frame + " "@ + msg
}

/// The command sequence of one repaint cycle: move to the row, clear the
/// line, move to the row again, print the frame and message.
pub open spec fn is_repaint_seq(
    cmds: Seq<TermCommand>,
    row: u16,
    frame: Seq<char>,
    msg: Seq<char>,
) -> bool {
    &&& cmds.len() == 4
    &&& cmds[0] == TermCommand::MoveToRow(row)
    &&& cmds[1] == TermCommand::ClearLine
    &&& cmds[2] == TermCommand::MoveToRow(row)
    &&& cmds[3] matches TermCommand::Print(line) && line@ == frame_line(frame, msg)
}

/// The command sequence that blanks a row: move to the row, clear the line.
pub open spec fn clear_seq(row: u16) -> Seq<TermCommand> {
    seq![TermCommand::MoveToRow(row), TermCommand::ClearLine]
}

/// One logical spinner: an animation, a target row, a message, and the
/// running flag that coordinates the spinner with its repaint task.
///
/// The spinner itself never touches a terminal. It plans, as plain
/// [`TermCommand`] values, exactly what one repaint cycle or one final
/// clear writes; a caller executes those commands on the terminal sink
/// under its own mutual exclusion, one planned sequence per exclusive
/// access, so that two spinners' writes never interleave mid-sequence.
#[derive(Clone, Debug)]
pub struct Spinner {
    /// The frame animation, advanced once per repaint cycle.
    pub spinner: Animation,
    /// The terminal row this spinner owns.
    pub row: usize,
    /// The text printed after the frame.
    pub msg: String,
    /// Whether a repaint task should currently be repainting.
    pub running: bool,
}

impl Spinner {
    /// The spinner's invariant: its animation's index lies inside the
    /// animation's frame table.
    pub open spec fn wf(self) -> bool {
        self.spinner.inv()
    }

    /// A builder with the default configuration.
    pub fn builder() -> (r: SpinnerBuilder)
        ensures
            r.is_default(),
    {
        SpinnerBuilder::default()
    }

    /// Marks the spinner running and says whether a repaint task must be
    /// spawned: `true` exactly when the spinner was not running before.
    ///
    /// Starting an already-running spinner is a no-op: the flag stays set
    /// and no second task is called for, so one spinner never has two
    /// tasks racing on its row.
    pub fn start(&mut self) -> (spawn: bool)
        ensures
            final(self).spinner == old(self).spinner,
            final(self).row == old(self).row,
            final(self).msg@ == old(self).msg@,
            final(self).running,
            spawn == !old(self).running,
    {
        let spawn = !self.running;
        self.running = true;
        spawn
    }

    /// Plans one repaint cycle: advances the animation one frame and
    /// returns the commands that repaint the spinner's row with the new
    /// frame and the message. Fails, changing nothing, when the row does
    /// not fit the terminal's 16-bit row addressing.
    pub fn spin(&mut self) -> (r: Result<Vec<TermCommand>, SpinnerError>)
        requires
            old(self).wf(),
        ensures
            final(self).wf(),
            final(self).row == old(self).row,
            final(self).msg@ == old(self).msg@,
            final(self).running == old(self).running,
            old(self).row <= u16::MAX ==> {
                &&& final(self).spinner == old(self).spinner.stepped()
                &&& r matches Ok(cmds) && is_repaint_seq(
                    cmds@,
                    old(self).row as u16,
                    final(self).spinner.frame(),
                    old(self).msg@,
                )
            },
            old(self).row > u16::MAX ==> {
                &&& final(self).spinner == old(self).spinner
                &&& r == Err::<Vec<TermCommand>, SpinnerError>(SpinnerError::RowOutOfRange)
            },
    {
        if self.row > u16::MAX as usize {
            return Err(SpinnerError::RowOutOfRange);
        }
        let row: u16 = self.row as u16;
        let frame = self.spinner.next_frame();
        let mut line = frame.to_owned();
        line.append(" ");
        line.append(self.msg.as_str());
        let mut cmds: Vec<TermCommand> = Vec::new();
        cmds.push(TermCommand::MoveToRow(row));
        cmds.push(TermCommand::ClearLine);
        cmds.push(TermCommand::MoveToRow(row));
        cmds.push(TermCommand::Print(line));
        Ok(cmds)
    }

    /// Marks the spinner stopped and returns the commands that blank its
    /// row. The flag is cleared even when the row does not fit the
    /// terminal's 16-bit row addressing and the clear itself fails.
    ///
    /// Stopping a spinner that was never started, or stopping twice in a
    /// row, is safe: the plan is the same clear sequence each time.
    pub fn stop(&mut self) -> (r: Result<Vec<TermCommand>, SpinnerError>)
        ensures
            final(self).spinner == old(self).spinner,
            final(self).row == old(self).row,
            final(self).msg@ == old(self).msg@,
            !final(self).running,
            old(self).row <= u16::MAX ==> (r matches Ok(cmds) && cmds@ == clear_seq(
                old(self).row as u16,
            )),
            old(self).row > u16::MAX ==> r == Err::<Vec<TermCommand>, SpinnerError>(
                SpinnerError::RowOutOfRange,
            ),
    {
        self.running = false;
        if self.row > u16::MAX as usize {
            return Err(SpinnerError::RowOutOfRange);
        }
        let row: u16 = self.row as u16;
        let mut cmds: Vec<TermCommand> = Vec::new();
        cmds.push(TermCommand::MoveToRow(row));
        cmds.push(TermCommand::ClearLine);
        proof {
            assert(cmds@ =~= clear_seq(row));
        }
        Ok(cmds)
    }
}

/// Fluent configuration for a [`Spinner`], consumed by [`SpinnerBuilder::build`].
#[derive(Clone, Debug)]
pub struct SpinnerBuilder {
    /// The animation the spinner will use.
    pub spinner: Animation,
    /// The terminal row the spinner will own.
    pub row: usize,
    /// The text the spinner will print after the frame.
    pub msg: String,
}

impl SpinnerBuilder {
    /// The default configuration: the first dot animation at its first
    /// frame, row zero, and the message "Loading".
    pub open spec fn is_default(self) -> bool {
        &&& self.spinner == Animation::Dots2(0usize)
        &&& self.row == 0
        &&& self.msg@ == "Loading"@
    }

    /// Message to display after the spinner.
    pub fn msg(self, msg: String) -> (r: Self)
        ensures
            r.spinner == self.spinner,
            r.row == self.row,
            r.msg@ == msg@,
    {
        Self { msg, ..self }
    }

    /// Terminal row to display the spinner on.
    /// Defaults to 0.
    pub fn row(self, row: usize) -> (r: Self)
        ensures
            r.spinner == self.spinner,
            r.row == row,
            r.msg@ == self.msg@,
    {
        Self { row, ..self }
    }

    /// Animation to use for the spinner.
    /// Defaults to `Animation::Dots2(0)`.
    pub fn spinner(self, spinner: Animation) -> (r: Self)
        ensures
            r.spinner == spinner,
            r.row == self.row,
            r.msg@ == self.msg@,
    {
        Self { spinner, ..self }
    }

    /// Builds the spinner, idle: not yet running.
    pub fn build(self) -> (r: Spinner)
        ensures
            r.spinner == self.spinner,
            r.row == self.row,
            r.msg@ == self.msg@,
            !r.running,
    {
        Spinner { spinner: self.spinner, row: self.row, msg: self.msg, running: false }
    }

    /// Builds the spinner and marks it running; a fresh spinner was not
    /// running, so the caller must spawn its repaint task.
    pub fn start(self) -> (r: Spinner)
        ensures
            r.spinner == self.spinner,
            r.row == self.row,
            r.msg@ == self.msg@,
            r.running,
    {
        let mut spinner = self.build();
        spinner.start();
        spinner
    }
}

impl Default for SpinnerBuilder {
    /// The default configuration: `Animation::Dots2(0)`, row 0, message
    /// "Loading".
    fn default() -> (r: Self)
        ensures
            r.is_default(),
    {
        Self { spinner: Animation::Dots2(0), row: 0, msg: "Loading".to_owned() }
    }
}

} // verus!
