//! The questions that are asked before a task is added, one state at a time.
//! The front end shows the prompt of the state, reads a line, and hands it to
//! `answer`; it goes on until the dialogue is finished.

use vstd::prelude::*;
use crate::error::TrackerError;
use crate::input::{is_yes, parse_i32, parsed_i32, says_yes};
use crate::schedule::Schedule;

verus! {

/// A question to the user.
#[derive(Clone, Copy, Debug, PartialEq, Eq, Structural)]
pub enum Prompt {
    /// Whether the task gets a deadline.
    DueDate,
    /// In how many days it is due.
    Days,
    /// At what hour.
    Hour,
    /// At what minute.
    Minute,
}

impl Prompt {
    /// The words of the question.
    pub open spec fn words(self) -> Seq<char> {
        match self {
            Prompt::DueDate => "Do you want to add a due date? (y/n)"@,
            Prompt::Days => "In how many days do you plan to finish this?"@,
            Prompt::Hour => "At what hour?"@,
            Prompt::Minute => "At what minute?"@,
        }
    }

    /// The line to show for this question.
    pub fn text(&self) -> (line: &'static str)
        ensures
            line@ == self.words(),
    {
        match self {
            Prompt::DueDate => "Do you want to add a due date? (y/n)",
            Prompt::Days => "In how many days do you plan to finish this?",
            Prompt::Hour => "At what hour?",
            Prompt::Minute => "At what minute?",
        }
    }
}

/// Where the dialogue stands: which question is open and what has been
/// answered, or that it is finished, with the deadline that was given, if
/// one was wanted.
#[derive(Clone, Copy, Debug, PartialEq, Eq, Structural)]
pub enum Dialogue {
    AskDueDate,
    AskDays,
    AskHour { days: i32 },
    AskMinute { days: i32, hour: i32 },
    Finished { schedule: Option<Schedule> },
}

/// The number that `line` gives, or the failure for a line that gives none.
pub open spec fn number_in(line: Seq<char>) -> Result<i32, TrackerError> {
    match parsed_i32(line) {
        Some(number) => Ok(number),
        None => Err(TrackerError::InvalidInput),
    }
}

impl Dialogue {
    /// The question that is open in this state; none once the dialogue is
    /// finished.
    pub open spec fn pending(self) -> Option<Prompt> {
        match self {
            Dialogue::AskDueDate => Some(Prompt::DueDate),
            Dialogue::AskDays => Some(Prompt::Days),
            Dialogue::AskHour { .. } => Some(Prompt::Hour),
            Dialogue::AskMinute { .. } => Some(Prompt::Minute),
            Dialogue::Finished { .. } => None,
        }
    }

    /// How many questions have been answered when this state is reached by
    /// way of all four; a finished dialogue counts as four.
    pub open spec fn progress(self) -> nat {
        match self {
            Dialogue::AskDueDate => 0,
            Dialogue::AskDays => 1,
            Dialogue::AskHour { .. } => 2,
            Dialogue::AskMinute { .. } => 3,
            Dialogue::Finished { .. } => 4,
        }
    }

    /// The state that follows this one when `line` is the answer to its
    /// question. A yes to the first question leads to the three numbers, in
    /// the order days, hour, minute; anything else ends the dialogue without
    /// a deadline. A line that should be a number and is none is no valid
    /// input. A finished dialogue stays as it is.
    pub open spec fn after(self, line: Seq<char>) -> Result<Dialogue, TrackerError> {
        match self {
            Dialogue::AskDueDate => if says_yes(line) {
                Ok(Dialogue::AskDays)
            } else {
                Ok(Dialogue::Finished { schedule: None })
            },
            Dialogue::AskDays => match number_in(line) {
                Ok(days) => Ok(Dialogue::AskHour { days }),
                Err(e) => Err(e),
            },
            Dialogue::AskHour { days } => match number_in(line) {
                Ok(hour) => Ok(Dialogue::AskMinute { days, hour }),
                Err(e) => Err(e),
            },
            Dialogue::AskMinute { days, hour } => match number_in(line) {
                Ok(minute) => Ok(
                    Dialogue::Finished { schedule: Some(Schedule { days, hour, minute }) },
                ),
                Err(e) => Err(e),
            },
            Dialogue::Finished { schedule } => Ok(Dialogue::Finished { schedule }),
        }
    }

    /// The state in which every dialogue begins.
    pub fn start() -> (state: Dialogue)
        ensures
            state == Dialogue::AskDueDate,
    {
        Dialogue::AskDueDate
    }

    /// The question to ask now, if any.
    pub fn prompt(&self) -> (question: Option<Prompt>)
        ensures
            question == self.pending(),
    {
        match self {
            Dialogue::AskDueDate => Some(Prompt::DueDate),
            Dialogue::AskDays => Some(Prompt::Days),
            Dialogue::AskHour { .. } => Some(Prompt::Hour),
            Dialogue::AskMinute { .. } => Some(Prompt::Minute),
            Dialogue::Finished { .. } => None,
        }
    }

    /// Takes `line` as the answer to the open question.
    pub fn answer(self, line: &str) -> (next: Result<Dialogue, TrackerError>)
        ensures
            next == self.after(line@),
    {
        match self {
            Dialogue::AskDueDate => {
                if is_yes(line) {
                    Ok(Dialogue::AskDays)
                } else {
                    Ok(Dialogue::Finished { schedule: None })
                }
            },
            Dialogue::AskDays => match parse_i32(line) {
                Some(days) => Ok(Dialogue::AskHour { days }),
                None => Err(TrackerError::InvalidInput),
            },
            Dialogue::AskHour { days } => match parse_i32(line) {
                Some(hour) => Ok(Dialogue::AskMinute { days, hour }),
                None => Err(TrackerError::InvalidInput),
            },
            Dialogue::AskMinute { days, hour } => match parse_i32(line) {
                Some(minute) => Ok(
                    Dialogue::Finished { schedule: Some(Schedule { days, hour, minute }) },
                ),
                None => Err(TrackerError::InvalidInput),
            },
            Dialogue::Finished { schedule } => Ok(Dialogue::Finished { schedule }),
        }
    }
}

/// The questions come in a fixed order and each is asked once at most: an
/// answer that is taken leads from a question to the next one or to the end,
/// never back, and the only failure is an invalid input. The end comes
/// early, without a deadline, only from the first question; by way of all
/// four it comes with the three numbers as they were answered.
pub proof fn lemma_dialogue_moves_forward(state: Dialogue, line: Seq<char>)
    ensures
        state.after(line) matches Ok(next) ==> {
            ||| next.progress() == state.progress() + 1
            ||| state == Dialogue::AskDueDate && next == (Dialogue::Finished { schedule: None })
            ||| state is Finished && next == state
        },
        state.after(line) matches Err(e) ==> e == TrackerError::InvalidInput && (state is AskDays
            || state is AskHour || state is AskMinute) && parsed_i32(line) is None,
        state.after(line) matches Ok(Dialogue::Finished { schedule: Some(schedule) }) ==> {
            ||| state == (Dialogue::Finished { schedule: Some(schedule) })
            ||| state == (Dialogue::AskMinute { days: schedule.days, hour: schedule.hour })
                && parsed_i32(line) == Some(schedule.minute)
        },
{
}

} // verus!
