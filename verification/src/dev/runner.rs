//! What the runner does for each action, as a plan of invocations.
use vstd::prelude::*;
use crate::dev::cli::{Action, Platform, platform_name};
use crate::dev::process::{Invocation, InvocationView, push_step, push_text, texts, views};
use crate::dev::tmux::{Tmux, attach_session, kill_session, new_session, send_keys, split_window};
use crate::text::decimal;

verus! {

/// The runner's own command line for one part: the executable, the part's
/// flag, and the platform.
pub open spec fn dev_command(this: Seq<char>, what: Seq<char>, platform: Platform) -> Seq<char> {
    this + " --"@ + what + " -p "@ + platform_name(platform)
}

/// The command that rebuilds the stylesheet on change.
pub open spec fn tailwind_command() -> Seq<char> {
    "tailwind -i ./app/assets/input.css -o ./app/assets/tailwind.css --watch"@
}

/// Everything in one tmux session: the app in the first pane, the server
/// beside it, the logs below (on android only), the stylesheet watcher
/// below that; then attach the session.
pub open spec fn run_all_plan(platform: Platform, root: Seq<char>, session: Seq<char>, this: Seq<char>) -> Seq<InvocationView> {
    let logs = platform == Platform::Android;
    seq![
        new_session(session),
        send_keys(0, root, dev_command(this, "app"@, platform)),
        split_window(session, true),
        send_keys(1, root, dev_command(this, "server"@, platform)),
    ] + (if logs {
        seq![split_window(session, false), send_keys(2, root, dev_command(this, "logs"@, platform))]
    } else {
        Seq::empty()
    }) + seq![
        split_window(session, false),
        send_keys(if logs { 3 } else { 2 }, root, tailwind_command()),
        attach_session(session, root),
    ]
}

/// Two `send-keys` invocations in the same folder are equal only when they
/// run the same command.
proof fn lemma_send_keys_command(k1: nat, k2: nat, root: Seq<char>, c1: Seq<char>, c2: Seq<char>)
    requires
        send_keys(k1, root, c1) == send_keys(k2, root, c2),
    ensures
        c1 == c2,
{
    let p = "builtin cd "@ + root + " && "@;
    let a1 = seq!["send-keys"@, "-t"@, decimal(k1), "builtin cd "@ + root + " && "@ + c1, "C-m"@];
    let a2 = seq!["send-keys"@, "-t"@, decimal(k2), "builtin cd "@ + root + " && "@ + c2, "C-m"@];
    assert(a1[3] == a2[3]);
    assert(a1[3] =~= p + c1);
    assert(a2[3] =~= p + c2);
    assert((p + c1).subrange(p.len() as int, (p + c1).len() as int) =~= c1);
    assert((p + c2).subrange(p.len() as int, (p + c2).len() as int) =~= c2);
}

/// The last character of a platform's name.
proof fn lemma_platform_name(platform: Platform)
    ensures
        platform_name(platform).len() > 0,
        platform_name(platform).last() == 'd' || platform_name(platform).last() == 'p'
            || platform_name(platform).last() == 'b',
{
    reveal_strlit("android");
    reveal_strlit("desktop");
    reveal_strlit("web");
}

/// With everything in one tmux session, the adb logs get a pane exactly on
/// Android: the plan has nine steps there and seven elsewhere, and some
/// pane runs the runner's logs command if and only if the platform is
/// Android. The session is created first and attached last, the app runs
/// in pane 0 and the server in pane 1, and the stylesheet watcher runs in
/// the pane after the last split: 3 on Android, 2 elsewhere.
pub proof fn law_logs_pane_only_on_android(platform: Platform, root: Seq<char>, session: Seq<char>, this: Seq<char>)
    ensures
        ({
            let plan = run_plan(Action::All, platform, root, session, this);
            let android = platform == Platform::Android;
            let logs = dev_command(this, "logs"@, platform);
            &&& plan.len() == if android { 9int } else { 7int }
            &&& (exists|i: int, k: nat| #![trigger plan[i], send_keys(k, root, logs)] 0 <= i < plan.len() && plan[i] == send_keys(k, root, logs))
                <==> android
            &&& plan[0] == new_session(session)
            &&& plan[1] == send_keys(0, root, dev_command(this, "app"@, platform))
            &&& plan[3] == send_keys(1, root, dev_command(this, "server"@, platform))
            &&& plan[plan.len() - 2] == send_keys(if android { 3 } else { 2 }, root, tailwind_command())
            &&& plan[plan.len() - 1] == attach_session(session, root)
        }),
{
    let plan = run_plan(Action::All, platform, root, session, this);
    let android = platform == Platform::Android;
    let logs = dev_command(this, "logs"@, platform);
    reveal_strlit("app");
    reveal_strlit(" --");
    reveal_strlit(" -p ");
    reveal_strlit("logs");
    reveal_strlit("server");
    reveal_strlit("tailwind -i ./app/assets/input.css -o ./app/assets/tailwind.css --watch");
    reveal_strlit("send-keys");
    reveal_strlit("split-window");
    reveal_strlit("new-session");
    lemma_platform_name(platform);
    if android {
        assert(plan[5] == send_keys(2, root, logs));
    } else {
        assert forall|i: int, k: nat| 0 <= i < plan.len() implies #[trigger] plan[i] != #[trigger] send_keys(k, root, logs) by {
            if i == 1 || i == 3 || i == 5 {
                if plan[i] == send_keys(k, root, logs) {
                    let c = if i == 1 {
                        dev_command(this, "app"@, platform)
                    } else if i == 3 {
                        dev_command(this, "server"@, platform)
                    } else {
                        tailwind_command()
                    };
                    let j: nat = if i == 1 { 0 } else if i == 3 { 1 } else { 2 };
                    assert(plan[i] == send_keys(j, root, c));
                    lemma_send_keys_command(j, k, root, c, logs);
                    assert(logs.len() == this.len() + 11 + platform_name(platform).len());
                    if i == 5 {
                        assert(logs.last() == platform_name(platform).last());
                        assert(c.last() == 'h');
                    }
                }
            } else if i == 0 {
                let a = seq!["new-session"@, "-d"@, "-s"@, session, "-n"@, "main"@];
                assert(a.len() == 6);
            } else if i == 2 || i == 4 {
                let a = seq!["split-window"@, if i == 2 { "-h"@ } else { "-v"@ }, "-t"@, session];
                assert(a.len() == 4);
            }
        }
    }
}

/// The plan of each action.
pub open spec fn run_plan(action: Action, platform: Platform, root: Seq<char>, session: Seq<char>, this: Seq<char>) -> Seq<InvocationView> {
    match action {
        Action::All => run_all_plan(platform, root, session, this),
        Action::App => seq![
            InvocationView::Spawn {
                program: "dx"@,
                args: seq!["serve"@, "-p"@, "erudition-app"@, "--"@ + platform_name(platform)],
                cwd: root,
            },
        ],
        Action::Kill => seq![kill_session(session)],
        Action::Logs => seq![InvocationView::Logcat { cwd: root }],
        Action::Open => seq![attach_session(session, root)],
        Action::Server => seq![
            InvocationView::Spawn { program: "cargo"@, args: seq!["run"@, "-p"@, "erudition-server"@], cwd: root },
        ],
    }
}

/// Runner for tmux
#[derive(Debug)]
pub struct Runner {
    /// Action to be run
    pub action: Action,
    /// Platform on which to run the app
    pub platform: Platform,
    /// Path to the current working directory
    pub root_path: String,
    /// Name of the tmux session
    pub session: String,
    /// Full path to the current binary being run
    pub this: String,
}

impl Runner {
    /// The invocations that execute what was intended by the user, to be
    /// run in order, stopping at the first that fails.
    pub fn run(&self) -> (plan: Vec<Invocation>)
        ensures
            views(plan@) == run_plan(self.action, self.platform, self.root_path@, self.session@, self.this@),
    {
        let mut plan: Vec<Invocation> = Vec::new();
        match self.action {
            Action::All => {
                return self.run_all();
            },
            Action::App => {
                let mut args: Vec<String> = Vec::new();
                push_text(&mut args, "serve");
                push_text(&mut args, "-p");
                push_text(&mut args, "erudition-app");
                let mut flag = String::from_str("--");
                flag.append(self.platform.name());
                crate::dev::process::push_arg(&mut args, flag);
                assert(texts(args@) =~= seq!["serve"@, "-p"@, "erudition-app"@, "--"@ + platform_name(self.platform)]);
                push_step(&mut plan, Invocation::Spawn { program: String::from_str("dx"), args, cwd: self.root_path.clone() });
            },
            Action::Kill => {
                let tmux = Tmux::new(self.session.clone(), self.root_path.clone());
                push_step(&mut plan, tmux.kill());
            },
            Action::Logs => {
                push_step(&mut plan, Invocation::Logcat { cwd: self.root_path.clone() });
            },
            Action::Open => {
                let tmux = Tmux::new(self.session.clone(), self.root_path.clone());
                push_step(&mut plan, tmux.attach());
            },
            Action::Server => {
                let mut args: Vec<String> = Vec::new();
                push_text(&mut args, "run");
                push_text(&mut args, "-p");
                push_text(&mut args, "erudition-server");
                assert(texts(args@) =~= seq!["run"@, "-p"@, "erudition-server"@]);
                push_step(&mut plan, Invocation::Spawn { program: String::from_str("cargo"), args, cwd: self.root_path.clone() });
            },
        }
        assert(views(plan@) =~= run_plan(self.action, self.platform, self.root_path@, self.session@, self.this@));
        plan
    }

    /// The runner's own command line for one part.
    fn dev(&self, what: &str) -> (c: String)
        ensures
            c@ == dev_command(self.this@, what@, self.platform),
    {
        let mut c = self.this.clone();
        c.append(" --");
        c.append(what);
        c.append(" -p ");
        c.append(self.platform.name());
        c
    }

    /// Everything in one tmux session.
    fn run_all(&self) -> (plan: Vec<Invocation>)
        ensures
            views(plan@) == run_all_plan(self.platform, self.root_path@, self.session@, self.this@),
    {
        let mut plan: Vec<Invocation> = Vec::new();
        let mut tmux = Tmux::new(self.session.clone(), self.root_path.clone());
        push_step(&mut plan, tmux.create());
        let app = self.dev("app");
        push_step(&mut plan, tmux.run(app.as_str()));
        push_step(&mut plan, tmux.split());
        tmux.split_done(true);
        let server = self.dev("server");
        push_step(&mut plan, tmux.run(server.as_str()));
        let ghost head = views(plan@);
        let android = match self.platform {
            Platform::Android => true,
            _ => false,
        };
        if android {
            push_step(&mut plan, tmux.vsplit());
            tmux.split_done(true);
            let logs = self.dev("logs");
            push_step(&mut plan, tmux.run(logs.as_str()));
        }
        let ghost middle = views(plan@);
        push_step(&mut plan, tmux.vsplit());
        tmux.split_done(true);
        push_step(&mut plan, tmux.run("tailwind -i ./app/assets/input.css -o ./app/assets/tailwind.css --watch"));
        push_step(&mut plan, tmux.attach());
        proof {
            let logs = self.platform == Platform::Android;
            assert(android == logs);
            let tail = seq![
                split_window(self.session@, false),
                send_keys(if logs { 3 } else { 2 }, self.root_path@, tailwind_command()),
                attach_session(self.session@, self.root_path@),
            ];
            assert(views(plan@) =~= middle + tail);
            assert(head =~= seq![
                new_session(self.session@),
                send_keys(0, self.root_path@, dev_command(self.this@, "app"@, self.platform)),
                split_window(self.session@, true),
                send_keys(1, self.root_path@, dev_command(self.this@, "server"@, self.platform)),
            ]);
            if logs {
                assert(middle =~= head + seq![
                    split_window(self.session@, false),
                    send_keys(2, self.root_path@, dev_command(self.this@, "logs"@, self.platform)),
                ]);
            } else {
                assert(middle =~= head + Seq::<InvocationView>::empty());
            }
        }
        plan
    }
}

} // verus!
