//! Invocations of outside programs, as values.
use vstd::prelude::*;

verus! {

/// The texts of a list of strings.
pub open spec fn texts(v: Seq<String>) -> Seq<Seq<char>> {
    v.map_values(|s: String| s@)
}

/// `args` joined by single spaces, as `[&str]::join(" ")` does.
pub open spec fn join_spaced(args: Seq<Seq<char>>) -> Seq<char>
    decreases args.len(),
{
    if args.len() == 0 {
        Seq::empty()
    } else if args.len() == 1 {
        args[0]
    } else {
        join_spaced(args.drop_last()) + " "@ + args.last()
    }
}

/// A program to run.
#[derive(Debug, PartialEq, Eq)]
pub enum Invocation {
    /// Spawn `program` with `args` in the folder `cwd`, its output shown,
    /// and wait for it; it fails unless the program exits with success.
    Spawn { program: String, args: Vec<String>, cwd: String },
    /// Run `tmux` with `args`, its output captured; it fails unless tmux
    /// exits with success.
    Tmux { args: Vec<String> },
    /// Follow `adb logcat` in the folder `cwd`, printing the lines of the
    /// app in a readable form.
    Logcat { cwd: String },
}

/// An invocation, by the texts it holds.
pub enum InvocationView {
    /// See [`Invocation::Spawn`].
    Spawn { program: Seq<char>, args: Seq<Seq<char>>, cwd: Seq<char> },
    /// See [`Invocation::Tmux`].
    Tmux { args: Seq<Seq<char>> },
    /// See [`Invocation::Logcat`].
    Logcat { cwd: Seq<char> },
}

impl View for Invocation {
    type V = InvocationView;

    open spec fn view(&self) -> InvocationView {
        match self {
            Invocation::Spawn { program, args, cwd } => InvocationView::Spawn {
                program: program@,
                args: texts(args@),
                cwd: cwd@,
            },
            Invocation::Tmux { args } => InvocationView::Tmux { args: texts(args@) },
            Invocation::Logcat { cwd } => InvocationView::Logcat { cwd: cwd@ },
        }
    }
}

/// The views of a list of invocations.
pub open spec fn views(v: Seq<Invocation>) -> Seq<InvocationView> {
    v.map_values(|i: Invocation| i@)
}

/// Appends an argument.
pub fn push_arg(args: &mut Vec<String>, arg: String)
    ensures
        texts(final(args)@) == texts(old(args)@).push(arg@),
{
    args.push(arg);
    assert(texts(args@) =~= texts(old(args)@).push(arg@));
}

/// Appends an argument given as text.
pub fn push_text(args: &mut Vec<String>, arg: &str)
    ensures
        texts(final(args)@) == texts(old(args)@).push(arg@),
{
    push_arg(args, String::from_str(arg));
}

/// Appends an invocation to a plan.
pub fn push_step(plan: &mut Vec<Invocation>, step: Invocation)
    ensures
        views(final(plan)@) == views(old(plan)@).push(step@),
{
    plan.push(step);
    assert(views(plan@) =~= views(old(plan)@).push(step@));
}

/// The arguments joined by single spaces.
pub fn join_args(args: &[String]) -> (s: String)
    ensures
        s@ == join_spaced(texts(args@)),
{
    let mut s = String::new();
    let mut i: usize = 0;
    while i < args.len()
        invariant
            i <= args@.len(),
            s@ == join_spaced(texts(args@.take(i as int))),
        decreases args.len() - i,
    {
        let ghost before = s@;
        if i > 0 {
            s.append(" ");
        }
        s.append(args[i].as_str());
        assert(texts(args@.take(i + 1)).drop_last() =~= texts(args@.take(i as int)));
        assert(s@ =~= join_spaced(texts(args@.take(i + 1))));
        i += 1;
    }
    assert(args@.take(args@.len() as int) =~= args@);
    s
}

/// A command as the runner quotes it in messages: in backticks, the
/// program then its arguments, separated by spaces.
pub open spec fn quoted_command(program: Seq<char>, args: Seq<Seq<char>>) -> Seq<char> {
    "`"@ + program + " "@ + join_spaced(args) + "`"@
}

/// A command as the runner quotes it in messages.
pub fn quote_command(program: &str, args: &[String]) -> (s: String)
    ensures
        s@ == quoted_command(program@, texts(args@)),
{
    let mut s = String::from_str("`");
    s.append(program);
    s.append(" ");
    let joined = join_args(args);
    s.append(joined.as_str());
    s.append("`");
    s
}

/// The message of a program that could not be started.
pub open spec fn start_failure(program: Seq<char>, args: Seq<Seq<char>>) -> Seq<char> {
    "Failed to run "@ + quoted_command(program, args)
}

/// The message of a program that did not exit with success.
pub open spec fn exit_failure(program: Seq<char>, args: Seq<Seq<char>>) -> Seq<char> {
    quoted_command(program, args) + " failed, check its logs above"@
}

/// The message of a program that could not be started.
pub fn start_failure_message(program: &str, args: &[String]) -> (m: String)
    ensures
        m@ == start_failure(program@, texts(args@)),
{
    let mut m = String::from_str("Failed to run ");
    let q = quote_command(program, args);
    m.append(q.as_str());
    m
}

/// The message of a program that did not exit with success.
pub fn exit_failure_message(program: &str, args: &[String]) -> (m: String)
    ensures
        m@ == exit_failure(program@, texts(args@)),
{
    let mut m = quote_command(program, args);
    m.append(" failed, check its logs above");
    m
}

/// What follows step `index` of a plan of `len` steps that had the given
/// outcome: the next step after a success, unless it was the last;
/// nothing after a failure.
pub open spec fn step_after(len: int, index: int, succeeded: bool) -> Option<int> {
    if succeeded && index + 1 < len {
        Some(index + 1)
    } else {
        None
    }
}

/// What follows step `index` of a plan of `len` steps that had the given
/// outcome: `Some` of the next step to run, or `None` to stop.
pub fn next_step(len: usize, index: usize, succeeded: bool) -> (next: Option<usize>)
    requires
        index < len,
    ensures
        next matches Some(n) ==> step_after(len as int, index as int, succeeded) == Some(n as int),
        next is None ==> step_after(len as int, index as int, succeeded) is None,
{
    if succeeded && index + 1 < len {
        Some(index + 1)
    } else {
        None
    }
}

/// Whether step `i` of a plan runs, when the steps have the given outcomes:
/// step 0 runs when there is one, and each later step when
/// [`next_step`] leads to it from the step before.
pub open spec fn runs(outcomes: Seq<bool>, i: int) -> bool
    decreases i,
{
    if i <= 0 {
        i == 0 && outcomes.len() > 0
    } else {
        runs(outcomes, i - 1) && step_after(outcomes.len() as int, i - 1, outcomes[i - 1]) == Some(i)
    }
}

/// A plan runs in order and stops at the first step that fails: a step
/// runs exactly when every step before it succeeded.
pub proof fn law_plan_stops_at_first_failure(outcomes: Seq<bool>, i: int)
    requires
        0 <= i < outcomes.len(),
    ensures
        runs(outcomes, i) <==> forall|j: int| 0 <= j < i ==> #[trigger] outcomes[j],
    decreases i,
{
    if i > 0 {
        law_plan_stops_at_first_failure(outcomes, i - 1);
        if forall|j: int| 0 <= j < i ==> #[trigger] outcomes[j] {
            assert(outcomes[i - 1]);
        }
        if runs(outcomes, i) {
            assert forall|j: int| 0 <= j < i implies #[trigger] outcomes[j] by {
                if j < i - 1 {
                    assert(forall|k: int| 0 <= k < i - 1 ==> #[trigger] outcomes[k]);
                }
            }
        }
    }
}

} // verus!
