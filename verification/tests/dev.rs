use erudition::dev::cli::{Action, Cli, Platform};
use erudition::dev::logcat::format_log_line;
use erudition::dev::process::{exit_failure_message, next_step, start_failure_message, Invocation};
use erudition::dev::runner::Runner;
use erudition::dev::tmux::{duplicate_session_message, is_duplicate_session, Tmux};

fn strings(v: &[&str]) -> Vec<String> {
    v.iter().map(|s| s.to_string()).collect()
}

fn tmux(args: &[&str]) -> Invocation {
    Invocation::Tmux { args: strings(args) }
}

fn cli(app: bool, kill: bool, logs: bool, open: bool, server: bool) -> Cli {
    Cli { app, kill, logs, name: "erudition".to_string(), open, platform: Platform::Desktop, server }
}

#[test]
fn action_is_the_first_flag_set() {
    assert_eq!(Action::from_cli(&cli(false, false, false, false, false)), Action::All);
    assert_eq!(Action::from_cli(&cli(true, true, false, false, false)), Action::App);
    assert_eq!(Action::from_cli(&cli(false, true, true, false, false)), Action::Kill);
    assert_eq!(Action::from_cli(&cli(false, false, true, true, true)), Action::Logs);
    assert_eq!(Action::from_cli(&cli(false, false, false, true, true)), Action::Open);
    assert_eq!(Action::from_cli(&cli(false, false, false, false, true)), Action::Server);
}

fn runner(action: Action, platform: Platform) -> Runner {
    let mut c = cli(false, false, false, false, false);
    c.platform = platform;
    let mut r = c.into_runner("/bin/dev".to_string(), "/src".to_string());
    r.action = action;
    r
}

#[test]
fn into_runner_keeps_the_settings() {
    let r = cli(false, false, false, true, false).into_runner("/bin/dev".to_string(), "/src".to_string());
    assert_eq!(r.action, Action::Open);
    assert_eq!(r.session, "erudition");
    assert_eq!(r.this, "/bin/dev");
    assert_eq!(r.root_path, "/src");
    assert_eq!(r.platform, Platform::Desktop);
}

#[test]
fn single_actions() {
    assert_eq!(
        runner(Action::App, Platform::Web).run(),
        vec![Invocation::Spawn {
            program: "dx".to_string(),
            args: strings(&["serve", "-p", "erudition-app", "--web"]),
            cwd: "/src".to_string()
        }]
    );
    assert_eq!(runner(Action::Kill, Platform::Web).run(), vec![tmux(&["kill-session", "-t", "erudition"])]);
    assert_eq!(runner(Action::Logs, Platform::Web).run(), vec![Invocation::Logcat { cwd: "/src".to_string() }]);
    assert_eq!(
        runner(Action::Open, Platform::Web).run(),
        vec![Invocation::Spawn {
            program: "tmux".to_string(),
            args: strings(&["attach-session", "-t", "erudition"]),
            cwd: "/src".to_string()
        }]
    );
    assert_eq!(
        runner(Action::Server, Platform::Web).run(),
        vec![Invocation::Spawn {
            program: "cargo".to_string(),
            args: strings(&["run", "-p", "erudition-server"]),
            cwd: "/src".to_string()
        }]
    );
}

fn send(pane: &str, command: &str) -> Invocation {
    tmux(&["send-keys", "-t", pane, &format!("builtin cd /src && {command}"), "C-m"])
}

const TAILWIND: &str = "tailwind -i ./app/assets/input.css -o ./app/assets/tailwind.css --watch";

#[test]
fn everything_on_desktop() {
    let attach = Invocation::Spawn {
        program: "tmux".to_string(),
        args: strings(&["attach-session", "-t", "erudition"]),
        cwd: "/src".to_string(),
    };
    assert_eq!(
        runner(Action::All, Platform::Desktop).run(),
        vec![
            tmux(&["new-session", "-d", "-s", "erudition", "-n", "main"]),
            send("0", "/bin/dev --app -p desktop"),
            tmux(&["split-window", "-h", "-t", "erudition"]),
            send("1", "/bin/dev --server -p desktop"),
            tmux(&["split-window", "-v", "-t", "erudition"]),
            send("2", TAILWIND),
            attach,
        ]
    );
}

#[test]
fn everything_on_android_adds_the_logs() {
    let plan = runner(Action::All, Platform::Android).run();
    assert_eq!(plan.len(), 9);
    assert_eq!(plan[4], tmux(&["split-window", "-v", "-t", "erudition"]));
    assert_eq!(plan[5], send("2", "/bin/dev --logs -p android"));
    assert_eq!(plan[7], send("3", TAILWIND));
}

#[test]
fn tmux_panes() {
    let mut t = Tmux::new("s".to_string(), "/r".to_string());
    assert_eq!(t.run("ls"), tmux(&["send-keys", "-t", "0", "builtin cd /r && ls", "C-m"]));
    assert_eq!(t.split(), tmux(&["split-window", "-h", "-t", "s"]));
    t.split_done(false);
    assert_eq!(t.run("ls"), tmux(&["send-keys", "-t", "0", "builtin cd /r && ls", "C-m"]));
    for _ in 0..11 {
        t.split_done(true);
    }
    assert_eq!(t.run("ls"), tmux(&["send-keys", "-t", "11", "builtin cd /r && ls", "C-m"]));
    assert_eq!(t.vsplit(), tmux(&["split-window", "-v", "-t", "s"]));
    assert_eq!(t.create(), tmux(&["new-session", "-d", "-s", "s", "-n", "main"]));
    assert_eq!(t.kill(), tmux(&["kill-session", "-t", "s"]));
}

#[test]
fn duplicate_sessions() {
    assert!(is_duplicate_session("duplicate session: erudition\n"));
    assert!(!is_duplicate_session("no server running"));
    assert!(!is_duplicate_session("duplicate session"));
    assert!(duplicate_session_message().starts_with("A session is already running with that name."));
    assert!(duplicate_session_message().ends_with("use a different name with `--name`"));
}

#[test]
fn failure_messages() {
    let args = strings(&["run", "-p", "x"]);
    assert_eq!(start_failure_message("cargo", &args), "Failed to run `cargo run -p x`");
    assert_eq!(exit_failure_message("cargo", &args), "`cargo run -p x` failed, check its logs above");
}

#[test]
fn logcat_lines() {
    let line = "01-02 03:04:05.678  1234  1250 I RustStdoutStderr: [server] started";
    assert_eq!(
        format_log_line(line).unwrap(),
        "\x1b[37m01-02 03:04:05.678\x1b[0m \x1b[33m[server]\x1b[0m started"
    );
    let plain = "01-02 03:04:05.678  1234  1250 I RustStdoutStderr: hello";
    assert_eq!(format_log_line(plain).unwrap(), "\x1b[37m01-02 03:04:05.678\x1b[0m hello");
    let unclosed = "01-02 03:04 I RustStdoutStderr: [oops";
    assert_eq!(format_log_line(unclosed).unwrap(), "\x1b[37m01-02 03:04\x1b[0m [oops");
    assert_eq!(format_log_line("01-02 03:04 I Other: x"), None);
    assert_eq!(format_log_line("01-02 03:04 I RustStdoutStderr: s_glBindAttribLocation"), None);
    assert_eq!(format_log_line("nospace RustStdoutStderr"), None);
}

#[test]
fn plans_stop_at_the_first_failure() {
    let outcomes = [true, true, false, true];
    let mut ran = vec![0];
    let mut index = 0;
    while let Some(next) = next_step(outcomes.len(), index, outcomes[index]) {
        ran.push(next);
        index = next;
    }
    assert_eq!(ran, vec![0, 1, 2]);
    assert_eq!(next_step(3, 2, true), None);
    assert_eq!(next_step(3, 0, false), None);
    assert_eq!(next_step(3, 0, true), Some(1));
}
