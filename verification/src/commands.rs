//! Commands to run, as a program and its arguments.

use crate::parse;
use crate::text;
use vstd::prelude::*;

verus! {

/// What it means that a command fails.
#[derive(Debug, Clone, Copy, PartialEq, Eq, Structural)]
pub enum OnFailure {
    /// Nothing further is done.
    Stop,
    /// People are told, and it goes on.
    Warn,
    /// It goes on.
    Ignore,
    /// Nothing further is done where it cannot be run; where it runs and fails, people
    /// are told, and it goes on.
    StopUnlessRun,
}

/// How a command ended.
#[derive(Debug, Clone, Copy, PartialEq, Eq, Structural)]
pub enum Outcome {
    Succeeded,
    /// It ran, and reported a failure.
    Failed,
    /// It could not be run.
    NotRun,
}

/// What follows from how a command ended.
#[derive(Debug, Clone, Copy, PartialEq, Eq, Structural)]
pub enum Verdict {
    GoOn,
    /// Tell people, and go on.
    Tell,
    /// Nothing further is done.
    End,
}

/// What follows from how a command ended.
pub fn judge(on_failure: OnFailure, outcome: Outcome) -> (verdict: Verdict)
    ensures
        verdict == match (outcome, on_failure) {
            (Outcome::Succeeded, _) => Verdict::GoOn,
            (_, OnFailure::Ignore) => Verdict::GoOn,
            (_, OnFailure::Warn) => Verdict::Tell,
            (_, OnFailure::Stop) => Verdict::End,
            (Outcome::Failed, OnFailure::StopUnlessRun) => Verdict::Tell,
            (Outcome::NotRun, OnFailure::StopUnlessRun) => Verdict::End,
        },
{
    match outcome {
        Outcome::Succeeded => Verdict::GoOn,
        Outcome::Failed => match on_failure {
            OnFailure::Stop => Verdict::End,
            OnFailure::Warn | OnFailure::StopUnlessRun => Verdict::Tell,
            OnFailure::Ignore => Verdict::GoOn,
        },
        Outcome::NotRun => match on_failure {
            OnFailure::Stop | OnFailure::StopUnlessRun => Verdict::End,
            OnFailure::Warn => Verdict::Tell,
            OnFailure::Ignore => Verdict::GoOn,
        },
    }
}

/// A program to run with its arguments.
#[derive(Debug, PartialEq, Eq)]
pub struct Command {
    pub program: String,
    pub args: Vec<String>,
    pub on_failure: OnFailure,
}

/// A command as it is written down.
pub struct CommandView {
    pub program: Seq<char>,
    pub args: Seq<Seq<char>>,
    pub on_failure: OnFailure,
}

impl View for Command {
    type V = CommandView;

    open spec fn view(&self) -> CommandView {
        CommandView {
            program: self.program@,
            args: parse::views(self.args@),
            on_failure: self.on_failure,
        }
    }
}

/// Commands as they are written down.
pub open spec fn views(commands: Seq<Command>) -> Seq<CommandView> {
    Seq::new(commands.len(), |i: int| commands[i]@)
}

/// The texts that are borrowed.
pub open spec fn texts(parts: Seq<&str>) -> Seq<Seq<char>> {
    Seq::new(parts.len(), |i: int| parts[i]@)
}

/// The command that runs `program` with `parts`.
pub fn command(program: &str, parts: Vec<&str>, on_failure: OnFailure) -> (command: Command)
    ensures
        command@ == (CommandView { program: program@, args: texts(parts@), on_failure }),
{
    let total: usize = parts.len();
    let mut args: Vec<String> = Vec::new();
    let mut i: usize = 0;
    while i < total
        invariant
            i <= total == parts@.len(),
            args@.len() == i,
            forall|j: int| 0 <= j < i ==> (#[trigger] args@[j])@ == parts@[j]@,
        decreases total - i,
    {
        args.push(text::copy(parts[i]));
        i = i + 1;
    }
    assert(parse::views(args@) =~= texts(parts@));
    Command { program: text::copy(program), args, on_failure }
}

/// A command that succeeds lets it go on; one that fails ends it only where it may not
/// fail, and one that could not be run also where it has to be run; people are told where
/// it matters to them, and never of a success.
pub proof fn law_failures_count_as_they_should(
    on_failure: OnFailure,
    outcome: Outcome,
    verdict: Verdict,
)
    requires
        call_ensures(judge, (on_failure, outcome), verdict),
    ensures
        outcome is Succeeded || on_failure is Ignore ==> verdict is GoOn,
        verdict is GoOn ==> outcome is Succeeded || on_failure is Ignore,
        verdict is End ==> on_failure is Stop || on_failure is StopUnlessRun && outcome is NotRun,
        on_failure is Stop && !(outcome is Succeeded) ==> verdict is End,
        on_failure is StopUnlessRun && outcome is NotRun ==> verdict is End,
        on_failure is Warn && !(outcome is Succeeded) ==> verdict is Tell,
        on_failure is StopUnlessRun && outcome is Failed ==> verdict is Tell,
{
}

} // verus!
