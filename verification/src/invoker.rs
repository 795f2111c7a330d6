//! The invoker: a button that triggers commands and keeps a two-stack
//! undo/redo history.
//!
//! Each `click` duplicates the held template command, executes the
//! duplicate and pushes it onto `prev`; the duplicate's recorded addend
//! is what later `unclick`/`reclick` replay, so history stays correct
//! even after the caller's addend cell changes. `unclick` moves the top
//! of `prev` through `undo` onto `next`; `reclick` moves the top of
//! `next` through `redo` back onto `prev`.

use vstd::prelude::*;

use crate::command::Command;
use crate::command::PreconditionViolation;

verus! {

/// A button holding a command template and the undo/redo history.
/// Both stacks are owned exclusively by the button and are most-recent
/// last; they grow and shrink only through `click`/`unclick`/`reclick`.
pub struct SimpleButton {
    /// The command duplicated and executed on each click.
    pub command: Command,
    /// Executed command instances, most recent last.
    pub prev: Vec<Command>,
    /// Undone command instances, most recent last.
    pub next: Vec<Command>,
}

impl SimpleButton {
    /// A button with empty history, holding `command` as its template.
    pub fn new(command: Command) -> (b: SimpleButton)
        ensures
            b.command == command,
            b.prev@ == Seq::<Command>::empty(),
            b.next@ == Seq::<Command>::empty(),
    {
        SimpleButton { command, prev: Vec::new(), next: Vec::new() }
    }

    /// Duplicates the template, executes the duplicate against the
    /// accumulator cell, pushes the executed duplicate onto `prev`, and
    /// reports the two trace lines emitted: the execution's line, then
    /// the click mark.
    pub fn click(&mut self, accumulator: &mut i32, live_addend: i32) -> (lines: Vec<String>)
        requires
            old(self).command.execute_fits(*old(accumulator) as int, live_addend),
        ensures
            final(self).command == old(self).command,
            final(self).prev@ == old(self).prev@.push(old(self).command.after_execute(live_addend)),
            final(self).next@ == old(self).next@,
            *final(accumulator) as int == old(self).command.acc_after_execute(
                *old(accumulator) as int,
                live_addend,
            ),
            lines@.len() == 2,
            lines@[0]@ == old(self).command.execute_line(*old(accumulator) as int, live_addend),
            lines@[1]@ == "*click*"@,
    {
        let mut duplicate = self.command.duplicate();
        let mut lines: Vec<String> = Vec::new();
        let line = duplicate.execute(accumulator, live_addend);
        lines.push(line);
        lines.push("*click*".to_owned());
        self.prev.push(duplicate);
        lines
    }

    /// Pops the most recent executed command, undoes it, and pushes it
    /// onto `next`; reports the undo's trace line, then the unclick
    /// mark. Fails, changing nothing, when `prev` is empty or the popped
    /// command never executed.
    pub fn unclick(&mut self, accumulator: &mut i32) -> (r: Result<
        Vec<String>,
        PreconditionViolation,
    >)
        requires
            old(self).prev@.len() > 0 && old(self).prev@.last().replay_ready() ==> old(
                self,
            ).prev@.last().undo_fits(*old(accumulator) as int),
        ensures
            if old(self).prev@.len() == 0 {
                &&& r matches Err(e) && e == PreconditionViolation::UnclickBeforeClick
                &&& final(self).command == old(self).command
                &&& final(self).prev@ == old(self).prev@
                &&& final(self).next@ == old(self).next@
                &&& *final(accumulator) == *old(accumulator)
            } else if old(self).prev@.last().replay_ready() {
                &&& r matches Ok(lines) && lines@.len() == 2 && lines@[0]@ == old(
                    self,
                ).prev@.last().undo_line(*old(accumulator) as int) && lines@[1]@ == "*kcilc*"@
                &&& final(self).command == old(self).command
                &&& final(self).prev@ == old(self).prev@.drop_last()
                &&& final(self).next@ == old(self).next@.push(old(self).prev@.last())
                &&& *final(accumulator) as int == old(self).prev@.last().acc_after_undo(
                    *old(accumulator) as int,
                )
            } else {
                &&& r matches Err(e) && e == PreconditionViolation::UndoBeforeExecute
                &&& final(self).command == old(self).command
                &&& final(self).prev@ == old(self).prev@
                &&& final(self).next@ == old(self).next@
                &&& *final(accumulator) == *old(accumulator)
            },
    {
        if self.prev.len() == 0 {
            return Err(PreconditionViolation::UnclickBeforeClick);
        }
        let popped = self.prev.pop().unwrap();
        match popped.undo(accumulator) {
            Ok(line) => {
                let mut lines: Vec<String> = Vec::new();
                lines.push(line);
                lines.push("*kcilc*".to_owned());
                self.next.push(popped);
                Ok(lines)
            },
            Err(violation) => {
                self.prev.push(popped);
                proof {
                    assert(self.prev@ =~= old(self).prev@);
                }
                Err(violation)
            },
        }
    }

    /// Pops the most recent undone command, redoes it, and pushes it
    /// back onto `prev`; reports the redo's trace line, then the reclick
    /// mark. Fails, changing nothing, when `next` is empty or the popped
    /// command never executed.
    pub fn reclick(&mut self, accumulator: &mut i32) -> (r: Result<
        Vec<String>,
        PreconditionViolation,
    >)
        requires
            old(self).next@.len() > 0 && old(self).next@.last().replay_ready() ==> old(
                self,
            ).next@.last().redo_fits(*old(accumulator) as int),
        ensures
            if old(self).next@.len() == 0 {
                &&& r matches Err(e) && e == PreconditionViolation::ReclickBeforeUnclick
                &&& final(self).command == old(self).command
                &&& final(self).prev@ == old(self).prev@
                &&& final(self).next@ == old(self).next@
                &&& *final(accumulator) == *old(accumulator)
            } else if old(self).next@.last().replay_ready() {
                &&& r matches Ok(lines) && lines@.len() == 2 && lines@[0]@ == old(
                    self,
                ).next@.last().redo_line(*old(accumulator) as int) && lines@[1]@ == "*click?*"@
                &&& final(self).command == old(self).command
                &&& final(self).prev@ == old(self).prev@.push(old(self).next@.last())
                &&& final(self).next@ == old(self).next@.drop_last()
                &&& *final(accumulator) as int == old(self).next@.last().acc_after_redo(
                    *old(accumulator) as int,
                )
            } else {
                &&& r matches Err(e) && e == PreconditionViolation::RedoBeforeExecute
                &&& final(self).command == old(self).command
                &&& final(self).prev@ == old(self).prev@
                &&& final(self).next@ == old(self).next@
                &&& *final(accumulator) == *old(accumulator)
            },
    {
        if self.next.len() == 0 {
            return Err(PreconditionViolation::ReclickBeforeUnclick);
        }
        let popped = self.next.pop().unwrap();
        match popped.redo(accumulator) {
            Ok(line) => {
                let mut lines: Vec<String> = Vec::new();
                lines.push(line);
                lines.push("*click?*".to_owned());
                self.prev.push(popped);
                Ok(lines)
            },
            Err(violation) => {
                self.next.push(popped);
                proof {
                    assert(self.next@ =~= old(self).next@);
                }
                Err(violation)
            },
        }
    }
}

} // verus!
