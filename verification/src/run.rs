//! Decisions of the sequenced executor: how the literal command line of a
//! step is built, which progress lines are printed, and how a step's exit
//! condition decides whether the sequence goes on or stops with a code.
//!
//! The spawning of the child shell itself is outside work; the caller hands
//! the outcome back as a [`RunStatus`] and acts on the returned
//! [`StepDecision`].

use vstd::prelude::*;

verus! {

use vstd::string::StringExecFns;

/// How one executed step ended: a normal exit with a code, an abnormal end
/// (the child did not exit normally, e.g. it was killed by a signal), or a
/// failure to launch the child at all.
#[derive(Debug, Clone, Copy, PartialEq, Eq, Structural)]
pub enum RunStatus {
    Exited(u32),
    AbnormalEnd,
    LaunchFailed,
}

/// What the executor does after a step: go on to the next step, or stop the
/// whole sequence and end the process with the given exit code.
#[derive(Debug, Clone, Copy, PartialEq, Eq, Structural)]
pub enum StepDecision {
    Proceed,
    Stop(i32),
}

/// The generic failure code used when a step ends without a usable exit
/// code (abnormal end or launch failure).
pub const FAILURE_CODE: i32 = 1;

/// Decides the fate of the sequence after one step: a zero exit lets the
/// sequence proceed, a non-zero exit stops it with that exact code, and an
/// abnormal end or a launch failure stops it with the generic failure code.
pub fn step_decision(status: &RunStatus) -> (d: StepDecision)
    ensures
        *status matches RunStatus::Exited(c) ==> (if c == 0 {
            d == StepDecision::Proceed
        } else {
            d == StepDecision::Stop(c as i32)
        }),
        *status is AbnormalEnd || *status is LaunchFailed ==> d == StepDecision::Stop(FAILURE_CODE),
{
    match status {
        RunStatus::Exited(c) => {
            if *c == 0 {
                StepDecision::Proceed
            } else {
                StepDecision::Stop(#[verifier::truncate] (*c as i32))
            }
        },
        RunStatus::AbnormalEnd => StepDecision::Stop(FAILURE_CODE),
        RunStatus::LaunchFailed => StepDecision::Stop(FAILURE_CODE),
    }
}

/// The views of a sequence of argument strings.
pub open spec fn views_of(parts: Seq<String>) -> Seq<Seq<char>> {
    parts.map_values(|s: String| s@)
}

/// The parts joined by single spaces: empty for no parts, and no separator
/// around a lone part.
pub open spec fn spec_join(parts: Seq<Seq<char>>) -> Seq<char>
    decreases parts.len(),
{
    if parts.len() == 0 {
        Seq::empty()
    } else if parts.len() == 1 {
        parts[0]
    } else {
        spec_join(parts.drop_last()) + seq![' '] + parts.last()
    }
}

/// Builds the literal line a step executes: the command string alone when
/// there are no trailing arguments, else the command string, one space,
/// then the arguments joined by single spaces. The arguments pass through
/// as opaque text; nothing is re-quoted.
pub fn command_line(command: &String, rest: &Vec<String>) -> (r: String)
    ensures
        rest@.len() == 0 ==> r@ == command@,
        rest@.len() > 0 ==> r@ == command@ + seq![' '] + spec_join(views_of(rest@)),
{
    let mut line = command.clone();
    let n = rest.len();
    for i in 0..n
        invariant
            n == rest.len(),
            i == 0 ==> line@ == command@,
            i > 0 ==> line@ == command@ + seq![' '] + spec_join(views_of(rest@).take(i as int)),
    {
        line.append(" ");
        line.append(rest[i].as_str());
        proof {
            reveal_strlit(" ");
            assert(" "@ =~= seq![' ']);
            let vs = views_of(rest@);
            assert(vs[i as int] == rest@[i as int]@);
            assert(vs.take(i + 1).drop_last() =~= vs.take(i as int));
            assert(vs.take(i + 1).last() == vs[i as int]);
            assert(line@ =~= command@ + seq![' '] + spec_join(vs.take(i + 1)));
        }
    }
    proof {
        if rest@.len() > 0 {
            assert(views_of(rest@).take(rest@.len() as int) =~= views_of(rest@));
        }
    }
    line
}

/// Whether the phases get a label line: only when more than one phase runs.
pub fn wants_labels(total: usize) -> (r: bool)
    ensures
        r == (total > 1),
{
    total > 1
}

/// The label line printed before a phase when several phases run: a blank
/// line, then the phase's name in square brackets.
pub fn phase_label(name: &String) -> (r: String)
    ensures
        r@ == "\n["@ + name@ + "]"@,
{
    let mut s = "\n[".to_owned();
    s.append(name.as_str());
    s.append("]");
    s
}

/// The echo line printed before a step runs: the literal command line after
/// a `> ` marker.
pub fn echo_line(line: &String) -> (r: String)
    ensures
        r@ == "> "@ + line@,
{
    let mut s = "> ".to_owned();
    s.append(line.as_str());
    s
}

} // verus!
