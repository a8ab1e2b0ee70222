//! The configuration that the command line gives.

use vstd::prelude::*;
use crate::numeral::{parse_number, parsed_number};
use crate::text::same_text;

verus! {

/// The port that is used when the command line names none.
pub const DEFAULT_PORT: u16 = 7878;

/// The number of workers when the command line names none.
pub const DEFAULT_THREADS: usize = 1;

/// What the server needs to know to start. It is made once and only read
/// afterwards.
#[derive(Debug, PartialEq, Eq)]
pub struct Config {
    /// The directory whose contents are served.
    pub root: String,
    /// The port to listen on, as it was asked for.
    pub port: u16,
    /// Listen on the IPv6 loopback address instead of every IPv4 address.
    pub ipv6: bool,
    /// Confine the process to `root`.
    pub chroot: bool,
    /// Detach from the terminal before anything else happens.
    pub daemon: bool,
    /// The number of workers asked for.
    pub threads: usize,
    /// The name of the file that stands for its directory.
    pub index: String,
}

/// What a `Config` holds, as the contracts speak of it.
pub struct ConfigView {
    pub root: Seq<char>,
    pub port: u16,
    pub ipv6: bool,
    pub chroot: bool,
    pub daemon: bool,
    pub threads: nat,
    pub index: Seq<char>,
}

impl View for Config {
    type V = ConfigView;

    open spec fn view(&self) -> ConfigView {
        ConfigView {
            root: self.root@,
            port: self.port,
            ipv6: self.ipv6,
            chroot: self.chroot,
            daemon: self.daemon,
            threads: self.threads as nat,
            index: self.index@,
        }
    }
}

/// Why a command line gives no configuration.
#[derive(Debug, Clone, Copy, PartialEq, Eq)]
pub enum ConfigError {
    /// The port is not a number from 0 to 65535: no socket has such a port.
    BadPort,
    /// The worker count is not a number that fits in a machine word.
    BadThreads,
}

/// The text of an optional argument.
pub open spec fn text_of(arg: Option<&str>) -> Option<Seq<char>> {
    match arg {
        Some(t) => Some(t@),
        None => None,
    }
}

/// The port that the argument asks for: a number that a socket can be
/// bound to. A larger number is no port, and neither is a text that is no
/// number.
pub open spec fn port_of(arg: Option<Seq<char>>) -> Option<nat> {
    match arg {
        Some(t) => parsed_number(t, u16::MAX as nat),
        None => Some(DEFAULT_PORT as nat),
    }
}

/// The worker count that the argument asks for.
pub open spec fn threads_of(arg: Option<Seq<char>>) -> Option<nat> {
    match arg {
        Some(t) => parsed_number(t, usize::MAX as nat),
        None => Some(DEFAULT_THREADS as nat),
    }
}

/// The index file name that the argument asks for.
pub open spec fn index_of(arg: Option<Seq<char>>) -> Seq<char> {
    match arg {
        Some(t) => t,
        None => "index.html"@,
    }
}

/// The configuration that the arguments describe. The port is looked at
/// before the worker count, so a bad port is reported first.
pub open spec fn config_of(
    root: Seq<char>,
    port: Option<Seq<char>>,
    threads: Option<Seq<char>>,
    index: Option<Seq<char>>,
    ipv6: bool,
    chroot: bool,
    daemon: bool,
) -> Result<ConfigView, ConfigError> {
    match port_of(port) {
        None => Err(ConfigError::BadPort),
        Some(p) => match threads_of(threads) {
            None => Err(ConfigError::BadThreads),
            Some(n) => Ok(
                ConfigView {
                    root,
                    port: p as u16,
                    ipv6,
                    chroot,
                    daemon,
                    threads: n,
                    index: index_of(index),
                },
            ),
        },
    }
}

impl ConfigError {
    /// What the user is told.
    pub open spec fn text(self) -> Seq<char> {
        match self {
            ConfigError::BadPort => "Port must be a number!\n"@,
            ConfigError::BadThreads => "Threads must be a number!\n"@,
        }
    }

    pub fn message(&self) -> (out: String)
        ensures
            out@ == self.text(),
    {
        match self {
            ConfigError::BadPort => "Port must be a number!\n".to_owned(),
            ConfigError::BadThreads => "Threads must be a number!\n".to_owned(),
        }
    }
}

impl Config {
    /// Builds the configuration from the command line's arguments, each as
    /// the text that was given, `None` where it was left out.
    pub fn parse(
        root: &str,
        port: Option<&str>,
        threads: Option<&str>,
        index: Option<&str>,
        ipv6: bool,
        chroot: bool,
        daemon: bool,
    ) -> (r: Result<Config, ConfigError>)
        ensures
            match r {
                Ok(c) => config_of(
                    root@,
                    text_of(port),
                    text_of(threads),
                    text_of(index),
                    ipv6,
                    chroot,
                    daemon,
                ) == Ok::<ConfigView, ConfigError>(c@),
                Err(e) => config_of(
                    root@,
                    text_of(port),
                    text_of(threads),
                    text_of(index),
                    ipv6,
                    chroot,
                    daemon,
                ) == Err::<ConfigView, ConfigError>(e),
            },
    {
        let port: u16 = match port {
            None => DEFAULT_PORT,
            Some(t) => match parse_number(t, u16::MAX as u64) {
                Some(p) => p as u16,
                None => {
                    return Err(ConfigError::BadPort);
                },
            },
        };
        let threads: usize = match threads {
            None => DEFAULT_THREADS,
            Some(t) => match parse_number(t, usize::MAX as u64) {
                Some(n) => n as usize,
                None => {
                    return Err(ConfigError::BadThreads);
                },
            },
        };
        let index: String = match index {
            None => "index.html".to_owned(),
            Some(t) => t.to_owned(),
        };
        Ok(Config { root: root.to_owned(), port, ipv6, chroot, daemon, threads, index })
    }
}

/// A shell for which completions can be written.
#[derive(Debug, Clone, Copy, PartialEq, Eq)]
pub enum Shell {
    Bash,
    Zsh,
    Fish,
}

/// The shell that goes by `name`.
pub open spec fn shell_of(name: Seq<char>) -> Option<Shell> {
    if name == "bash"@ {
        Some(Shell::Bash)
    } else if name == "zsh"@ {
        Some(Shell::Zsh)
    } else if name == "fish"@ {
        Some(Shell::Fish)
    } else {
        None
    }
}

/// What the user is told when completions are asked for a shell that is
/// not known.
pub open spec fn unknown_shell_text(name: Seq<char>) -> Seq<char> {
    "Unknown shell '"@ + name + "'!"@
}

/// What one run of the program is to do: write completions, or serve.
/// When completions are asked for, nothing else on the command line is
/// looked at.
#[derive(Debug, PartialEq, Eq)]
pub enum Command {
    Completions(Shell),
    Serve(Config),
}

/// Why a command line cannot be carried out.
#[derive(Debug, PartialEq, Eq)]
pub enum CommandError {
    /// Completions were asked for a shell of this name, which is not known.
    UnknownShell(String),
    Config(ConfigError),
}

impl CommandError {
    pub open spec fn text(self) -> Seq<char> {
        match self {
            CommandError::UnknownShell(name) => unknown_shell_text(name@),
            CommandError::Config(e) => e.text(),
        }
    }

    /// What the user is told before the program ends with status 1.
    pub fn message(&self) -> (out: String)
        ensures
            out@ == self.text(),
    {
        match self {
            CommandError::UnknownShell(name) => {
                let mut out = "Unknown shell '".to_owned();
                out.append(name.as_str());
                out.append("'!");
                out
            },
            CommandError::Config(e) => e.message(),
        }
    }
}

/// Finds the shell that goes by `name`.
pub fn shell_named(name: &str) -> (r: Option<Shell>)
    ensures
        r == shell_of(name@),
{
    if same_text(name, "bash") {
        Some(Shell::Bash)
    } else if same_text(name, "zsh") {
        Some(Shell::Zsh)
    } else if same_text(name, "fish") {
        Some(Shell::Fish)
    } else {
        None
    }
}

/// Decides what the program is to do. `completions` is the shell for which
/// completions were asked, if they were; the other arguments are those of
/// [`Config::parse`].
pub fn command(
    completions: Option<&str>,
    root: &str,
    port: Option<&str>,
    threads: Option<&str>,
    index: Option<&str>,
    ipv6: bool,
    chroot: bool,
    daemon: bool,
) -> (r: Result<Command, CommandError>)
    ensures
        match completions {
            Some(name) => match shell_of(name@) {
                Some(shell) => r == Ok::<Command, CommandError>(Command::Completions(shell)),
                None => r matches Err(CommandError::UnknownShell(n)) && n@ == name@,
            },
            None => match config_of(
                root@,
                text_of(port),
                text_of(threads),
                text_of(index),
                ipv6,
                chroot,
                daemon,
            ) {
                Ok(c) => r matches Ok(Command::Serve(made)) && made@ == c,
                Err(e) => r == Err::<Command, CommandError>(CommandError::Config(e)),
            },
        },
{
    match completions {
        Some(name) => match shell_named(name) {
            Some(shell) => Ok(Command::Completions(shell)),
            None => Err(CommandError::UnknownShell(name.to_owned())),
        },
        None => match Config::parse(root, port, threads, index, ipv6, chroot, daemon) {
            Ok(config) => Ok(Command::Serve(config)),
            Err(e) => Err(CommandError::Config(e)),
        },
    }
}

} // verus!
