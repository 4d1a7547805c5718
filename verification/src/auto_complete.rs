//! The shells for which a completion script can be written.

use vstd::prelude::*;
use vstd::string::*;
use crate::error::Error;
use crate::text::{lowercase, same_text, to_lowercase, trim, trimmed};

verus! {

/// A shell that completes the tool's commands.
#[derive(Clone, Copy, Debug, PartialEq, Eq, Structural)]
pub enum Shell {
    Bash,
    Elvish,
    Fish,
    PowerShell,
    Zsh,
}

/// The shell that a word names.
pub open spec fn shell_named(word: Seq<char>) -> Option<Shell> {
    if word == "bash"@ {
        Some(Shell::Bash)
    } else if word == "elvish"@ {
        Some(Shell::Elvish)
    } else if word == "fish"@ {
        Some(Shell::Fish)
    } else if word == "powershell"@ {
        Some(Shell::PowerShell)
    } else if word == "zsh"@ {
        Some(Shell::Zsh)
    } else {
        None
    }
}

/// The extension of the completion script of a shell.
pub open spec fn extension(shell: Shell) -> Seq<char> {
    match shell {
        Shell::Bash => "bash"@,
        Shell::Fish => "fish"@,
        Shell::Zsh => "zsh"@,
        Shell::PowerShell => "ps1"@,
        Shell::Elvish => "elv"@,
    }
}

/// The shell that a word names, where it names one: the word is the name of the
/// shell in small letters.
pub fn shell_of(word: &str) -> (r: Option<Shell>)
    ensures
        r == shell_named(word@),
{
    if same_text(word, "bash") {
        Some(Shell::Bash)
    } else if same_text(word, "elvish") {
        Some(Shell::Elvish)
    } else if same_text(word, "fish") {
        Some(Shell::Fish)
    } else if same_text(word, "powershell") {
        Some(Shell::PowerShell)
    } else if same_text(word, "zsh") {
        Some(Shell::Zsh)
    } else {
        None
    }
}

/// Reads the name of a shell: in any case of letters, with white space around it.
/// Any other input is refused.
pub fn prompt_shell(s: String) -> (r: Result<Shell, Error>)
    ensures
        match shell_named(trimmed(lowercase(s@))) {
            Some(shell) => r == Ok::<Shell, Error>(shell),
            None => r == Err::<Shell, Error>(Error::InvalidInput(s)),
        },
{
    let lower = to_lowercase(s.as_str());
    match shell_of(trim(lower.as_str())) {
        Some(shell) => Ok(shell),
        None => Err(Error::InvalidInput(s)),
    }
}

/// The name of the file that holds the completion script of a shell.
pub fn get_name(shell: &Shell) -> (name: String)
    ensures
        name@ == "texcreate-complete."@ + extension(*shell),
{
    let mut name = String::from_str("texcreate-complete.");
    match shell {
        Shell::Bash => name.append("bash"),
        Shell::Fish => name.append("fish"),
        Shell::Zsh => name.append("zsh"),
        Shell::PowerShell => name.append("ps1"),
        Shell::Elvish => name.append("elv"),
    }
    name
}

/// Reads the name of a shell and tells where its completion script goes: the shell,
/// and the name of the file that is to hold the script.
pub fn auto_complete(shell: String) -> (r: Result<(Shell, String), Error>)
    ensures
        match shell_named(trimmed(lowercase(shell@))) {
            Some(named) => r matches Ok(script) && script.0 == named && script.1@
                == "texcreate-complete."@ + extension(named),
            None => r == Err::<(Shell, String), Error>(Error::InvalidInput(shell)),
        },
{
    match prompt_shell(shell) {
        Ok(shell) => {
            let name = get_name(&shell);
            Ok((shell, name))
        },
        Err(error) => Err(error),
    }
}

} // verus!
