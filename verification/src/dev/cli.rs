//! The runner's command line: which part to run, and where.
use vstd::prelude::*;
use crate::dev::runner::Runner;

verus! {

/// Platform on which to run the app.
#[derive(Debug, Clone, Copy, PartialEq, Eq)]
pub enum Platform {
    /// Serve the app in an android emulator
    Android,
    /// Serve the app natively
    Desktop,
    /// Serve the app in the browser
    Web,
}

/// The name of a platform, as the command line and `dx` spell it.
pub open spec fn platform_name(p: Platform) -> Seq<char> {
    match p {
        Platform::Android => "android"@,
        Platform::Desktop => "desktop"@,
        Platform::Web => "web"@,
    }
}

impl Platform {
    /// The name of the platform.
    pub fn name(&self) -> (n: &'static str)
        ensures
            n@ == platform_name(*self),
    {
        match self {
            Platform::Android => "android",
            Platform::Desktop => "desktop",
            Platform::Web => "web",
        }
    }
}

/// What the runner does.
#[derive(Debug, Clone, Copy, PartialEq, Eq)]
pub enum Action {
    /// Everything in one tmux session.
    All,
    /// Run only the app
    App,
    /// Kill the running tmux session
    Kill,
    /// Run only the logs
    Logs,
    /// Open the running tmux session
    Open,
    /// Run only the server
    Server,
}

/// A runner that handles all different aspects (server, app, logs) with one
/// command.
#[derive(Debug)]
pub struct Cli {
    /// Run only the app
    pub app: bool,
    /// Kill the running tmux session
    pub kill: bool,
    /// Run only the logs
    pub logs: bool,
    /// Name of the tmux session
    pub name: String,
    /// Open the running tmux session
    pub open: bool,
    /// Platform on which to run the app
    pub platform: Platform,
    /// Run only the server
    pub server: bool,
}

/// The action the flags ask for: the first flag set, in the order app,
/// kill, logs, open, server; everything when none is.
pub open spec fn action_of(app: bool, kill: bool, logs: bool, open: bool, server: bool) -> Action {
    if app {
        Action::App
    } else if kill {
        Action::Kill
    } else if logs {
        Action::Logs
    } else if open {
        Action::Open
    } else if server {
        Action::Server
    } else {
        Action::All
    }
}

impl Action {
    /// The action the command line asks for.
    pub fn from_cli(cli: &Cli) -> (a: Action)
        ensures
            a == action_of(cli.app, cli.kill, cli.logs, cli.open, cli.server),
    {
        if cli.app {
            return Action::App;
        }
        if cli.kill {
            return Action::Kill;
        }
        if cli.logs {
            return Action::Logs;
        }
        if cli.open {
            return Action::Open;
        }
        if cli.server {
            return Action::Server;
        }
        Action::All
    }
}

impl Cli {
    /// Returns the [`Runner`] with the current settings to execute what was
    /// intended by the user, given the path of the running executable and
    /// the working directory.
    pub fn into_runner(self, this: String, root_path: String) -> (r: Runner)
        ensures
            r.action == action_of(self.app, self.kill, self.logs, self.open, self.server),
            r.platform == self.platform,
            r.session@ == self.name@,
            r.this@ == this@,
            r.root_path@ == root_path@,
    {
        let action = Action::from_cli(&self);
        Runner { action, platform: self.platform, root_path, session: self.name, this }
    }
}

} // verus!
