//! Tmux commands of the runner's session.
use vstd::prelude::*;
use crate::dev::process::{Invocation, InvocationView, push_arg, push_text, texts};
use crate::text::{chars_of, decimal, decimal_string, matches_at};

verus! {

/// `tmux send-keys` that runs `command` in `root` in the pane `pane`.
pub open spec fn send_keys(pane: nat, root: Seq<char>, command: Seq<char>) -> InvocationView {
    InvocationView::Tmux {
        args: seq!["send-keys"@, "-t"@, decimal(pane), "builtin cd "@ + root + " && "@ + command, "C-m"@],
    }
}

/// `tmux split-window` on the session, horizontally (`-h`) or vertically
/// (`-v`).
pub open spec fn split_window(session: Seq<char>, horizontal: bool) -> InvocationView {
    InvocationView::Tmux {
        args: seq!["split-window"@, if horizontal { "-h"@ } else { "-v"@ }, "-t"@, session],
    }
}

/// `tmux new-session` that creates the session, detached, with a window
/// named `main`.
pub open spec fn new_session(session: Seq<char>) -> InvocationView {
    InvocationView::Tmux { args: seq!["new-session"@, "-d"@, "-s"@, session, "-n"@, "main"@] }
}

/// `tmux kill-session` on the session.
pub open spec fn kill_session(session: Seq<char>) -> InvocationView {
    InvocationView::Tmux { args: seq!["kill-session"@, "-t"@, session] }
}

/// `tmux attach-session` on the session, spawned in `root`.
pub open spec fn attach_session(session: Seq<char>, root: Seq<char>) -> InvocationView {
    InvocationView::Spawn { program: "tmux"@, args: seq!["attach-session"@, "-t"@, session], cwd: root }
}

/// The start of what tmux prints when the session already exists.
pub open spec fn duplicate_session_prefix() -> Seq<char> {
    "duplicate session: "@
}

/// The hint given when the session already exists.
pub open spec fn duplicate_session_hint() -> Seq<char> {
    "A session is already running with that name.\nOpen it with `--open`, kill it with `--kill` or use a different name with `--name`"@
}

/// Whether tmux failed because the session already exists.
pub fn is_duplicate_session(stderr: &str) -> (b: bool)
    ensures
        b == matches_at(stderr@, duplicate_session_prefix(), 0),
{
    let s = chars_of(stderr);
    let p = chars_of("duplicate session: ");
    crate::text::occurs_at(s.as_slice(), p.as_slice(), 0)
}

/// The hint given when the session already exists.
pub fn duplicate_session_message() -> (m: String)
    ensures
        m@ == duplicate_session_hint(),
{
    String::from_str(
        "A session is already running with that name.\nOpen it with `--open`, kill it with `--kill` or use a different name with `--name`",
    )
}

/// Tmux handler, to run commands on a tmux session.
#[derive(Debug)]
pub struct Tmux {
    /// Index of the pane to know where to run the command
    pane_index: usize,
    /// Root path in which to run the commands inside the panes
    root_path: String,
    /// Name of the tmux session
    session: String,
}

impl Tmux {
    /// The pane where commands run.
    pub closed spec fn pane(&self) -> nat {
        self.pane_index as nat
    }

    /// The folder the commands run in.
    pub closed spec fn root(&self) -> Seq<char> {
        self.root_path@
    }

    /// The name of the session.
    pub closed spec fn session_name(&self) -> Seq<char> {
        self.session@
    }

    /// Creates a new [`Tmux`] with the given name, on its first pane.
    pub fn new(session: String, root_path: String) -> (t: Tmux)
        ensures
            t.pane() == 0,
            t.root() == root_path@,
            t.session_name() == session@,
    {
        Tmux { root_path, session, pane_index: 0 }
    }

    /// Attaches the associated tmux session.
    pub fn attach(&self) -> (i: Invocation)
        ensures
            i@ == attach_session(self.session_name(), self.root()),
    {
        let mut args: Vec<String> = Vec::new();
        push_text(&mut args, "attach-session");
        push_text(&mut args, "-t");
        push_arg(&mut args, self.session.clone());
        assert(texts(args@) =~= seq!["attach-session"@, "-t"@, self.session@]);
        Invocation::Spawn { program: String::from_str("tmux"), args, cwd: self.root_path.clone() }
    }

    /// Creates the associated tmux session.
    pub fn create(&self) -> (i: Invocation)
        ensures
            i@ == new_session(self.session_name()),
    {
        let mut args: Vec<String> = Vec::new();
        push_text(&mut args, "new-session");
        push_text(&mut args, "-d");
        push_text(&mut args, "-s");
        push_arg(&mut args, self.session.clone());
        push_text(&mut args, "-n");
        push_text(&mut args, "main");
        assert(texts(args@) =~= seq!["new-session"@, "-d"@, "-s"@, self.session@, "-n"@, "main"@]);
        Invocation::Tmux { args }
    }

    /// Kills the associated tmux session.
    pub fn kill(&self) -> (i: Invocation)
        ensures
            i@ == kill_session(self.session_name()),
    {
        let mut args: Vec<String> = Vec::new();
        push_text(&mut args, "kill-session");
        push_text(&mut args, "-t");
        push_arg(&mut args, self.session.clone());
        assert(texts(args@) =~= seq!["kill-session"@, "-t"@, self.session@]);
        Invocation::Tmux { args }
    }

    /// Runs `command` in the current pane, from the root folder.
    pub fn run(&self, command: &str) -> (i: Invocation)
        ensures
            i@ == send_keys(self.pane(), self.root(), command@),
    {
        let mut keys = String::from_str("builtin cd ");
        keys.append(self.root_path.as_str());
        keys.append(" && ");
        keys.append(command);
        let mut args: Vec<String> = Vec::new();
        push_text(&mut args, "send-keys");
        push_text(&mut args, "-t");
        push_arg(&mut args, decimal_string(self.pane_index));
        push_arg(&mut args, keys);
        push_text(&mut args, "C-m");
        assert(texts(args@) =~= seq![
            "send-keys"@,
            "-t"@,
            decimal(self.pane()),
            "builtin cd "@ + self.root() + " && "@ + command@,
            "C-m"@,
        ]);
        Invocation::Tmux { args }
    }

    /// Creates a new pane with a horizontal split; once it succeeded,
    /// [`Tmux::split_done`] records its outcome.
    pub fn split(&self) -> (i: Invocation)
        ensures
            i@ == split_window(self.session_name(), true),
    {
        self.split_window("-h")
    }

    /// Creates a new pane with a vertical split; once it succeeded,
    /// [`Tmux::split_done`] records its outcome.
    pub fn vsplit(&self) -> (i: Invocation)
        ensures
            i@ == split_window(self.session_name(), false),
    {
        self.split_window("-v")
    }

    fn split_window(&self, direction: &str) -> (i: Invocation)
        requires
            direction@ == "-h"@ || direction@ == "-v"@,
        ensures
            i@ == split_window(self.session_name(), direction@ == "-h"@),
    {
        let mut args: Vec<String> = Vec::new();
        push_text(&mut args, "split-window");
        push_text(&mut args, direction);
        push_text(&mut args, "-t");
        push_arg(&mut args, self.session.clone());
        assert(texts(args@) =~= seq!["split-window"@, direction@, "-t"@, self.session@]);
        Invocation::Tmux { args }
    }

    /// Records the outcome of a split: after one that succeeded, commands
    /// run in the new pane; after one that failed, in the same pane.
    pub fn split_done(&mut self, succeeded: bool)
        requires
            !succeeded || old(self).pane() < usize::MAX,
        ensures
            final(self).pane() == pane_after_split(old(self).pane(), succeeded),
            final(self).root() == old(self).root(),
            final(self).session_name() == old(self).session_name(),
    {
        if succeeded {
            self.pane_index += 1;
        }
    }
}

/// The pane after a split with the given outcome.
pub open spec fn pane_after_split(pane: nat, succeeded: bool) -> nat {
    if succeeded {
        pane + 1
    } else {
        pane
    }
}

/// The number of splits among `outcomes` that succeeded.
pub open spec fn successes(outcomes: Seq<bool>) -> nat
    decreases outcomes.len(),
{
    if outcomes.len() == 0 {
        0
    } else {
        successes(outcomes.drop_last()) + if outcomes.last() {
            1nat
        } else {
            0nat
        }
    }
}

/// A handle made by [`Tmux::new`] (pane 0) that records the outcome of each
/// split in turn, with the other calls leaving the pane as it is, runs its
/// commands after the `i`-th recorded outcome in the pane numbered by the
/// splits that succeeded so far.
pub proof fn law_pane_counts_successful_splits(panes: Seq<nat>, outcomes: Seq<bool>)
    requires
        panes.len() == outcomes.len() + 1,
        panes[0] == 0,
        forall|i: int| 0 <= i < outcomes.len() ==> panes[i + 1] == pane_after_split(panes[i], #[trigger] outcomes[i]),
    ensures
        forall|i: int| 0 <= i <= outcomes.len() ==> #[trigger] panes[i] == successes(outcomes.take(i)),
    decreases outcomes.len(),
{
    if outcomes.len() > 0 {
        let n = outcomes.len() - 1;
        law_pane_counts_successful_splits(panes.take(n + 1), outcomes.take(n));
        assert forall|i: int| 0 <= i <= outcomes.len() implies #[trigger] panes[i] == successes(outcomes.take(i)) by {
            if i <= n {
                assert(panes.take(n + 1)[i] == panes[i]);
                assert(outcomes.take(n).take(i) =~= outcomes.take(i));
            } else {
                assert(outcomes.take(i).drop_last() =~= outcomes.take(n));
                assert(panes.take(n + 1)[n] == panes[n]);
                assert(outcomes.take(n).take(n) =~= outcomes.take(n));
                assert(panes[n + 1] == pane_after_split(panes[n], outcomes[n]));
            }
        }
    }
}

} // verus!
