//! What is decided before a terminal session is started: its size, its
//! shell, and how the shell is called.

use vstd::prelude::*;

use crate::frontmatter::{contains_text, find};
use crate::text::same_text;

verus! {

/// Columns of a terminal whose size is not given.
pub const DEFAULT_COLS: u16 = 80;

/// Rows of a terminal whose size is not given.
pub const DEFAULT_ROWS: u16 = 24;

/// A terminal session as the frontend knows it.
#[derive(Debug)]
pub struct PtySession {
    pub id: String,
    pub cols: u16,
    pub rows: u16,
}

impl PtySession {
    /// The session with the size asked for, or the default size where
    /// none is given.
    pub fn sized(id: String, cols: Option<u16>, rows: Option<u16>) -> (session: PtySession)
        ensures
            session.id == id,
            session.cols == match cols {
                Some(c) => c,
                None => DEFAULT_COLS,
            },
            session.rows == match rows {
                Some(r) => r,
                None => DEFAULT_ROWS,
            },
    {
        PtySession {
            id,
            cols: match cols {
                Some(c) => c,
                None => DEFAULT_COLS,
            },
            rows: match rows {
                Some(r) => r,
                None => DEFAULT_ROWS,
            },
        }
    }
}

/// Which of the shells that are looked for exist on this machine.
#[derive(Debug, Clone, Copy, PartialEq, Eq, Structural)]
pub struct ShellsFound {
    /// `/opt/homebrew/bin/fish`
    pub homebrew_fish: bool,
    /// `/usr/local/bin/fish`
    pub local_fish: bool,
    /// `/usr/local/bin/pwsh`
    pub local_pwsh: bool,
}

/// The shell that a session runs: the one asked for by its kind, looked
/// for where it is usually installed, and the shell of the user where no
/// kind, or an unknown one, is given.
pub open spec fn shell_for(
    shell_type: Option<Seq<char>>,
    found: ShellsFound,
    user_shell: Option<Seq<char>>,
) -> Seq<char> {
    if shell_type == Some("bash"@) {
        "/bin/bash"@
    } else if shell_type == Some("zsh"@) {
        "/bin/zsh"@
    } else if shell_type == Some("fish"@) {
        if found.homebrew_fish {
            "/opt/homebrew/bin/fish"@
        } else if found.local_fish {
            "/usr/local/bin/fish"@
        } else {
            "/usr/bin/fish"@
        }
    } else if shell_type == Some("powershell"@) {
        if found.local_pwsh {
            "/usr/local/bin/pwsh"@
        } else {
            "pwsh"@
        }
    } else {
        match user_shell {
            Some(shell) => shell,
            None => "/bin/zsh"@,
        }
    }
}

/// Resolves the kind of a shell to the program that is run.
pub fn resolve_shell(shell_type: Option<&str>, found: ShellsFound, user_shell: Option<String>) -> (shell:
    String)
    ensures
        shell@ == shell_for(shell_type.deep_view(), found, user_shell.deep_view()),
{
    let kind = match shell_type {
        Some(kind) => kind,
        None => "",
    };
    let known = shell_type.is_some();
    if known && same_text(kind, "bash") {
        "/bin/bash".to_owned()
    } else if known && same_text(kind, "zsh") {
        "/bin/zsh".to_owned()
    } else if known && same_text(kind, "fish") {
        if found.homebrew_fish {
            "/opt/homebrew/bin/fish".to_owned()
        } else if found.local_fish {
            "/usr/local/bin/fish".to_owned()
        } else {
            "/usr/bin/fish".to_owned()
        }
    } else if known && same_text(kind, "powershell") {
        if found.local_pwsh {
            "/usr/local/bin/pwsh".to_owned()
        } else {
            "pwsh".to_owned()
        }
    } else {
        match user_shell {
            Some(shell) => shell,
            None => "/bin/zsh".to_owned(),
        }
    }
}

/// Whether a shell is started as a login shell: every shell is, but
/// PowerShell.
pub fn wants_login_flag(shell_path: &str) -> (r: bool)
    ensures
        r == find(shell_path@, "pwsh"@) is None,
{
    !contains_text(shell_path, "pwsh")
}

/// The exit code that is reported for a shell that has ended: 0 where it
/// ended well, 1 where it did not, and none where its end was not seen.
pub fn exit_code(ended_well: Option<bool>) -> (code: Option<i32>)
    ensures
        code == match ended_well {
            Some(true) => Some(0i32),
            Some(false) => Some(1i32),
            None => None,
        },
{
    match ended_well {
        Some(true) => Some(0),
        Some(false) => Some(1),
        None => None,
    }
}

} // verus!
