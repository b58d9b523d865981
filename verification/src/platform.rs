//! Revealing a generated file in the platform's file manager: whether it is
//! worth trying, and which command does it.
use vstd::prelude::*;
use crate::text::push_chars;

verus! {

/// Whether a variable is set to a non-empty value.
pub open spec fn set_non_empty(value: Option<Seq<char>>) -> bool {
    value matches Some(v) && v.len() > 0
}

pub open spec fn opt_view(value: Option<&str>) -> Option<Seq<char>> {
    match value {
        Some(v) => Some(v@),
        None => None,
    }
}

/// Whether opening a local file manager is useful: not in an SSH session
/// (`SSH_CONNECTION` or `SSH_TTY` set and non-empty), where it would open on
/// the local machine rather than the remote host.
pub fn should_attempt_reveal(ssh_connection: Option<&str>, ssh_tty: Option<&str>) -> (attempt: bool)
    ensures
        attempt == !(set_non_empty(opt_view(ssh_connection)) || set_non_empty(opt_view(ssh_tty))),
{
    let connection = match ssh_connection {
        Some(v) => !v.is_empty(),
        None => false,
    };
    let tty = match ssh_tty {
        Some(v) => !v.is_empty(),
        None => false,
    };
    !(connection || tty)
}

/// The platforms with a known file manager, and the rest.
#[derive(Clone, Copy, Debug, PartialEq, Eq, Structural)]
pub enum RevealPlatform {
    MacOs,
    Windows,
    LinuxOrFreeBsd,
    Other,
}

/// A file-manager command: a program and its arguments.
pub struct RevealCommand {
    pub program: String,
    pub args: Vec<String>,
}

fn owned(s: &str) -> (out: String)
    ensures
        out@ == s@,
{
    let mut out = String::new();
    push_chars(&mut out, s);
    out
}

/// The command that reveals `path`: `open -R path` on macOS, `explorer
/// /select,path` on Windows, `xdg-open` on the parent directory on Linux and
/// FreeBSD (nothing when the path has no parent), and nothing elsewhere.
pub fn build_reveal_command(platform: RevealPlatform, path: &str, parent: Option<&str>) -> (command: Option<RevealCommand>)
    ensures
        match platform {
            RevealPlatform::MacOs => command matches Some(c) && c.program@ == "open"@ && c.args@.len()
                == 2 && c.args@[0]@ == "-R"@ && c.args@[1]@ == path@,
            RevealPlatform::Windows => command matches Some(c) && c.program@ == "explorer"@
                && c.args@.len() == 1 && c.args@[0]@ == "/select,"@ + path@,
            RevealPlatform::LinuxOrFreeBsd => match parent {
                Some(dir) => command matches Some(c) && c.program@ == "xdg-open"@ && c.args@.len() == 1
                    && c.args@[0]@ == dir@,
                None => command is None,
            },
            RevealPlatform::Other => command is None,
        },
{
    match platform {
        RevealPlatform::MacOs => {
            let mut args = Vec::new();
            args.push(owned("-R"));
            args.push(owned(path));
            Some(RevealCommand { program: owned("open"), args })
        },
        RevealPlatform::Windows => {
            let mut arg = owned("/select,");
            push_chars(&mut arg, path);
            let mut args = Vec::new();
            args.push(arg);
            Some(RevealCommand { program: owned("explorer"), args })
        },
        RevealPlatform::LinuxOrFreeBsd => match parent {
            Some(dir) => {
                let mut args = Vec::new();
                args.push(owned(dir));
                Some(RevealCommand { program: owned("xdg-open"), args })
            },
            None => None,
        },
        RevealPlatform::Other => None,
    }
}

} // verus!
