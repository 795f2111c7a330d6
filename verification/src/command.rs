//! The command abstraction and its two variants.
//!
//! A [`Command`] is a closed sum of the two concrete commands: [`Add`],
//! which mutates a shared accumulator cell, and the stateless
//! `DollarGiver`, whose actions are narration only. Each operation
//! returns the single trace line it emits.
//!
//! Arithmetic policy: additions and subtractions on the accumulator must
//! fit in `i32`; the bound is stated as a precondition, so the verified
//! operations never overflow and never panic.

use vstd::prelude::*;

use crate::trace::executing_line;
use crate::trace::format_executing;
use crate::trace::format_redoing;
use crate::trace::format_undoing;
use crate::trace::redoing_line;
use crate::trace::undoing_line;

verus! {

/// Where an [`Add`] command finds its addend at execute time.
#[derive(Clone, Copy, Debug, PartialEq, Eq, Structural)]
pub enum AddendSource {
    /// A fixed integer captured at construction.
    Fixed(i32),
    /// Read fresh from the caller's shared addend cell on every execute.
    Live,
}

/// "Increment the shared accumulator by an addend", together with the
/// captured state needed to reverse and replay it.
#[derive(Clone, Copy, Debug, PartialEq, Eq, Structural)]
pub struct Add {
    /// Where the addend comes from when the command executes.
    pub source: AddendSource,
    /// The addend actually used at the most recent execute; `None` until
    /// the first execute. Undo and redo replay this recorded value, not
    /// whatever the addend cell holds by then.
    pub last_addend: Option<i32>,
}

/// The single error kind: an operation was invoked before a required
/// prior call. Violations are meant to be fatal; callers that reproduce
/// the pattern's fail-fast behaviour terminate on them.
#[derive(Clone, Copy, Debug, PartialEq, Eq, Structural)]
pub enum PreconditionViolation {
    /// `undo` was called on a command that never executed.
    UndoBeforeExecute,
    /// `redo` was called on a command that never executed.
    RedoBeforeExecute,
    /// `unclick` was called with an empty `prev` stack.
    UnclickBeforeClick,
    /// `reclick` was called with an empty `next` stack.
    ReclickBeforeUnclick,
}

impl PreconditionViolation {
    /// The diagnostic text for this violation.
    pub open spec fn spec_message(self) -> Seq<char> {
        match self {
            PreconditionViolation::UndoBeforeExecute => "Undo should not be called before execute"@,
            PreconditionViolation::RedoBeforeExecute => "Redo should not be called before undo/execute"@,
            PreconditionViolation::UnclickBeforeClick => "You shouldn't unclick before clicking!"@,
            PreconditionViolation::ReclickBeforeUnclick => "You shouldn't reclick before unclicking!"@,
        }
    }

    /// The diagnostic message for this violation.
    pub fn message(&self) -> (m: String)
        ensures
            m@ == self.spec_message(),
    {
        match self {
            PreconditionViolation::UndoBeforeExecute => {
                "Undo should not be called before execute".to_owned()
            },
            PreconditionViolation::RedoBeforeExecute => {
                "Redo should not be called before undo/execute".to_owned()
            },
            PreconditionViolation::UnclickBeforeClick => {
                "You shouldn't unclick before clicking!".to_owned()
            },
            PreconditionViolation::ReclickBeforeUnclick => {
                "You shouldn't reclick before unclicking!".to_owned()
            },
        }
    }
}

impl Add {
    /// A fresh addition command: nothing has been executed yet.
    pub fn new(source: AddendSource) -> (c: Add)
        ensures
            c == (Add { source, last_addend: None }),
    {
        Add { source, last_addend: None }
    }

    /// The addend this command would use right now, given the current
    /// value of the caller's addend cell.
    pub open spec fn addend_now(self, live_addend: i32) -> i32 {
        match self.source {
            AddendSource::Fixed(v) => v,
            AddendSource::Live => live_addend,
        }
    }

    /// Adds the current addend onto the accumulator, records the addend
    /// used, and reports the trace line.
    pub fn execute(&mut self, accumulator: &mut i32, live_addend: i32) -> (line: String)
        requires
            i32::MIN <= *old(accumulator) + old(self).addend_now(live_addend) <= i32::MAX,
        ensures
            final(self).source == old(self).source,
            final(self).last_addend == Some(old(self).addend_now(live_addend)),
            *final(accumulator) == *old(accumulator) + old(self).addend_now(live_addend),
            line@ == executing_line(
                *old(accumulator) as int,
                old(self).addend_now(live_addend) as int,
            ),
    {
        let augend: i32 = *accumulator;
        let addend: i32 = match self.source {
            AddendSource::Fixed(v) => v,
            AddendSource::Live => live_addend,
        };
        let sum: i32 = augend + addend;
        *accumulator = sum;
        self.last_addend = Some(addend);
        format_executing(augend, addend)
    }

    /// Subtracts the recorded addend back out of the accumulator and
    /// reports the trace line. Fails, changing nothing, when the command
    /// never executed. The recorded addend is kept, so a later redo still
    /// works.
    pub fn undo(&self, accumulator: &mut i32) -> (r: Result<String, PreconditionViolation>)
        requires
            self.last_addend matches Some(m) ==> i32::MIN <= *old(accumulator) - m <= i32::MAX,
        ensures
            match self.last_addend {
                Some(m) => {
                    &&& *final(accumulator) == *old(accumulator) - m
                    &&& r matches Ok(line) && line@ == undoing_line(
                        *old(accumulator) as int,
                        m as int,
                    )
                },
                None => {
                    &&& *final(accumulator) == *old(accumulator)
                    &&& r matches Err(e) && e == PreconditionViolation::UndoBeforeExecute
                },
            },
    {
        match self.last_addend {
            Some(minuend) => {
                let subtrahend: i32 = *accumulator;
                let difference: i32 = subtrahend - minuend;
                *accumulator = difference;
                Ok(format_undoing(subtrahend, minuend))
            },
            None => Err(PreconditionViolation::UndoBeforeExecute),
        }
    }

    /// Re-adds the recorded addend onto the accumulator and reports the
    /// trace line. Fails, changing nothing, when the command never
    /// executed.
    pub fn redo(&self, accumulator: &mut i32) -> (r: Result<String, PreconditionViolation>)
        requires
            self.last_addend matches Some(b) ==> i32::MIN <= *old(accumulator) + b <= i32::MAX,
        ensures
            match self.last_addend {
                Some(b) => {
                    &&& *final(accumulator) == *old(accumulator) + b
                    &&& r matches Ok(line) && line@ == redoing_line(
                        *old(accumulator) as int,
                        b as int,
                    )
                },
                None => {
                    &&& *final(accumulator) == *old(accumulator)
                    &&& r matches Err(e) && e == PreconditionViolation::RedoBeforeExecute
                },
            },
    {
        match self.last_addend {
            Some(addend) => {
                let augend: i32 = *accumulator;
                let sum: i32 = augend + addend;
                *accumulator = sum;
                Ok(format_redoing(augend, addend))
            },
            None => Err(PreconditionViolation::RedoBeforeExecute),
        }
    }
}

/// A command: an action, its inverse, and its replay, as a value. The
/// variant set is closed — exactly the two concrete commands exist.
#[derive(Clone, Copy, Debug, PartialEq, Eq, Structural)]
pub enum Command {
    /// Adds an addend onto the shared accumulator cell.
    Add(Add),
    /// A stateless, narration-only command; never touches the accumulator.
    DollarGiver,
}

impl Command {
    /// Whether `undo`/`redo` have had their required prior call: an
    /// `Add` must have executed at least once; `DollarGiver` is always
    /// ready.
    pub open spec fn replay_ready(self) -> bool {
        match self {
            Command::Add(a) => a.last_addend is Some,
            Command::DollarGiver => true,
        }
    }

    /// The recorded addend of an `Add` command, if any.
    pub open spec fn spec_last_addend(self) -> Option<i32> {
        match self {
            Command::Add(a) => a.last_addend,
            Command::DollarGiver => None,
        }
    }

    /// The accumulator value after this command executes, with the
    /// addend cell currently holding `live_addend`.
    pub open spec fn acc_after_execute(self, acc: int, live_addend: i32) -> int {
        match self {
            Command::Add(a) => acc + a.addend_now(live_addend),
            Command::DollarGiver => acc,
        }
    }

    /// The command state after it executes: an `Add` records the addend
    /// it used; `DollarGiver` carries no state.
    pub open spec fn after_execute(self, live_addend: i32) -> Command {
        match self {
            Command::Add(a) => Command::Add(
                Add { source: a.source, last_addend: Some(a.addend_now(live_addend)) },
            ),
            Command::DollarGiver => Command::DollarGiver,
        }
    }

    /// The accumulator value after this command undoes.
    pub open spec fn acc_after_undo(self, acc: int) -> int {
        match self {
            Command::Add(a) => acc - a.last_addend->0,
            Command::DollarGiver => acc,
        }
    }

    /// The accumulator value after this command redoes.
    pub open spec fn acc_after_redo(self, acc: int) -> int {
        match self {
            Command::Add(a) => acc + a.last_addend->0,
            Command::DollarGiver => acc,
        }
    }

    /// The trace line `execute` emits.
    pub open spec fn execute_line(self, acc: int, live_addend: i32) -> Seq<char> {
        match self {
            Command::Add(a) => executing_line(acc, a.addend_now(live_addend) as int),
            Command::DollarGiver => "*Gives you a dollar*"@,
        }
    }

    /// The trace line `undo` emits.
    pub open spec fn undo_line(self, acc: int) -> Seq<char> {
        match self {
            Command::Add(a) => undoing_line(acc, a.last_addend->0 as int),
            Command::DollarGiver => "*Takes your dollar back :(*"@,
        }
    }

    /// The trace line `redo` emits.
    pub open spec fn redo_line(self, acc: int) -> Seq<char> {
        match self {
            Command::Add(a) => redoing_line(acc, a.last_addend->0 as int),
            Command::DollarGiver => "*Gives you a dollar again*"@,
        }
    }

    /// The arithmetic of `execute` stays within `i32`.
    pub open spec fn execute_fits(self, acc: int, live_addend: i32) -> bool {
        i32::MIN <= self.acc_after_execute(acc, live_addend) <= i32::MAX
    }

    /// The arithmetic of `undo` stays within `i32`.
    pub open spec fn undo_fits(self, acc: int) -> bool {
        i32::MIN <= self.acc_after_undo(acc) <= i32::MAX
    }

    /// The arithmetic of `redo` stays within `i32`.
    pub open spec fn redo_fits(self, acc: int) -> bool {
        i32::MIN <= self.acc_after_redo(acc) <= i32::MAX
    }

    /// Performs the command's action on the accumulator cell and reports
    /// the trace line.
    pub fn execute(&mut self, accumulator: &mut i32, live_addend: i32) -> (line: String)
        requires
            old(self).execute_fits(*old(accumulator) as int, live_addend),
        ensures
            *final(self) == old(self).after_execute(live_addend),
            *final(accumulator) as int == old(self).acc_after_execute(
                *old(accumulator) as int,
                live_addend,
            ),
            line@ == old(self).execute_line(*old(accumulator) as int, live_addend),
    {
        match self {
            Command::Add(a) => a.execute(accumulator, live_addend),
            Command::DollarGiver => "*Gives you a dollar*".to_owned(),
        }
    }

    /// Reverses the command's action and reports the trace line. Fails,
    /// changing nothing, when called before the command ever executed.
    pub fn undo(&self, accumulator: &mut i32) -> (r: Result<String, PreconditionViolation>)
        requires
            self.replay_ready() ==> self.undo_fits(*old(accumulator) as int),
        ensures
            if self.replay_ready() {
                &&& *final(accumulator) as int == self.acc_after_undo(*old(accumulator) as int)
                &&& r matches Ok(line) && line@ == self.undo_line(*old(accumulator) as int)
            } else {
                &&& *final(accumulator) == *old(accumulator)
                &&& r matches Err(e) && e == PreconditionViolation::UndoBeforeExecute
            },
    {
        match self {
            Command::Add(a) => a.undo(accumulator),
            Command::DollarGiver => Ok("*Takes your dollar back :(*".to_owned()),
        }
    }

    /// Replays the command's action using its recorded state and reports
    /// the trace line. Fails, changing nothing, when called before the
    /// command ever executed.
    pub fn redo(&self, accumulator: &mut i32) -> (r: Result<String, PreconditionViolation>)
        requires
            self.replay_ready() ==> self.redo_fits(*old(accumulator) as int),
        ensures
            if self.replay_ready() {
                &&& *final(accumulator) as int == self.acc_after_redo(*old(accumulator) as int)
                &&& r matches Ok(line) && line@ == self.redo_line(*old(accumulator) as int)
            } else {
                &&& *final(accumulator) == *old(accumulator)
                &&& r matches Err(e) && e == PreconditionViolation::RedoBeforeExecute
            },
    {
        match self {
            Command::Add(a) => a.redo(accumulator),
            Command::DollarGiver => Ok("*Gives you a dollar again*".to_owned()),
        }
    }

    /// An independent copy of this command: same configuration, same
    /// captured state, separately owned. Mutating the copy can never
    /// reach the original's fields.
    pub fn duplicate(&self) -> (c: Command)
        ensures
            c == *self,
    {
        *self
    }
}

/// Round-trip law: from any accumulator value and any addend, execute
/// followed by undo restores the pre-execute accumulator, and a redo
/// after that restores the executed value again — execute;undo;redo has
/// exactly the effect of execute, and undo/redo leave the command's own
/// state untouched (they take `&self`).
pub proof fn lemma_execute_undo_redo_round_trip(c: Command, acc: int, live_addend: i32)
    ensures
        ({
            let executed = c.after_execute(live_addend);
            let raised = c.acc_after_execute(acc, live_addend);
            &&& executed.acc_after_undo(raised) == acc
            &&& executed.acc_after_redo(acc) == raised
        }),
{
}

/// Independence law for duplication: a duplicate equals the command it
/// was taken from, and executing a command determines the executed
/// value's new state from that value alone — the execution only turns
/// the recorded addend into the addend in effect at that moment and
/// keeps the configuration. Together with ownership (`execute` takes
/// `&mut self`, and `duplicate` returns a separately owned value), this
/// is why executing a duplicate never alters the original's
/// `last_addend`.
pub proof fn lemma_duplicate_execute_independent(original: Command, live_addend: i32)
    ensures
        ({
            let executed = original.after_execute(live_addend);
            &&& executed.spec_last_addend() == (match original {
                Command::Add(a) => Some(a.addend_now(live_addend)),
                Command::DollarGiver => None::<i32>,
            })
            &&& executed is Add <==> original is Add
            &&& executed matches Command::Add(d) ==> (original matches Command::Add(a)
                && d.source == a.source)
        }),
{
}

} // verus!
