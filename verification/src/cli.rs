//! The commands of the tool, and what each of them decides before it acts.

use vstd::prelude::*;
use vstd::string::*;
use crate::texc_gen::Commands;
use crate::text::{same_text, trim, trimmed};

verus! {

/// The commands of the tool.
#[derive(Debug)]
pub enum Cli {
    /// Initialise the cache.
    Init,
    /// Create the configuration file of a new project.
    New { ignore: Option<bool> },
    /// Build a project from a configuration file.
    Build { file: Option<String>, ignore: Option<bool> },
    /// Pack a project from a configuration file.
    Zip { file: Option<String>, ignore: Option<bool> },
    /// Update the managed catalog to the latest release.
    Update,
    /// Update the tool, then the managed catalog.
    Upgrade,
    /// Show the templates of a catalog.
    List { repo: Option<String> },
    /// Compile a project.
    Compile,
    /// Run a command of a template generator project.
    Texcgen(Commands),
    /// Open the tool's home page.
    Open,
    /// Serve the web form.
    Web,
    /// Write a completion script for a shell.
    GenComplete { shell: String },
    /// Send feedback by mail.
    Feedback { subject: String },
}

/// Whether a newer release is looked for when the flag to ignore it is as given:
/// always, unless the flag is set to true.
pub open spec fn looks_for_update(ignore: Option<bool>) -> bool {
    ignore != Some(true)
}

/// The name of the configuration file where none is given.
pub open spec fn default_config_file() -> Seq<char> {
    "texcreate.toml"@
}

impl Cli {
    /// Whether the command looks for a newer release before it acts.
    pub open spec fn alerts_spec(&self) -> bool {
        match self {
            Cli::New { ignore } => looks_for_update(*ignore),
            Cli::Build { ignore, .. } => looks_for_update(*ignore),
            Cli::Zip { ignore, .. } => looks_for_update(*ignore),
            Cli::List { .. } => !self.lists_custom_spec(),
            _ => false,
        }
    }

    /// Whether the command lists the user's own catalog.
    pub open spec fn lists_custom_spec(&self) -> bool {
        self matches Cli::List { repo: Some(name) } && name@ == "custom"@
    }

    /// The configuration file that the command reads, where it reads one.
    pub open spec fn config_file_text(&self) -> Option<Seq<char>> {
        match self {
            Cli::Build { file: Some(file), .. } => Some(file@),
            Cli::Build { file: None, .. } => Some(default_config_file()),
            Cli::Zip { file: Some(file), .. } => Some(file@),
            Cli::Zip { file: None, .. } => Some(default_config_file()),
            _ => None,
        }
    }

    /// Whether the command lists the user's own catalog: it does where the catalog
    /// is given as `custom`, and lists the managed catalog otherwise.
    pub fn lists_custom(&self) -> (r: bool)
        ensures
            r == self.lists_custom_spec(),
    {
        match self {
            Cli::List { repo: Some(name) } => same_text(name.as_str(), "custom"),
            _ => false,
        }
    }

    /// Whether the command looks for a newer release before it acts: the commands
    /// for a new project, a build and an archive do unless told to ignore it, and
    /// so does the listing of the managed catalog.
    pub fn alerts(&self) -> (r: bool)
        ensures
            r == self.alerts_spec(),
    {
        match self {
            Cli::New { ignore } => !is_set(ignore),
            Cli::Build { ignore, .. } => !is_set(ignore),
            Cli::Zip { ignore, .. } => !is_set(ignore),
            Cli::List { .. } => !self.lists_custom(),
            _ => false,
        }
    }

    /// The configuration file that a build or an archive reads: the one given, or
    /// `texcreate.toml`.
    pub fn config_file(&self) -> (r: Option<String>)
        ensures
            r is Some <==> self.config_file_text() is Some,
            r matches Some(file) ==> Some(file@) == self.config_file_text(),
    {
        match self {
            Cli::Build { file, .. } => Some(file_or_default(file)),
            Cli::Zip { file, .. } => Some(file_or_default(file)),
            _ => None,
        }
    }
}

fn is_set(flag: &Option<bool>) -> (r: bool)
    ensures
        r == (*flag == Some(true)),
{
    match flag {
        Some(value) => *value,
        None => false,
    }
}

fn file_or_default(file: &Option<String>) -> (r: String)
    ensures
        r@ == match file {
            Some(file) => file@,
            None => default_config_file(),
        },
{
    match file {
        Some(file) => file.clone(),
        None => String::from_str("texcreate.toml"),
    }
}

/// The name under which the configuration of a new project is saved: the user's
/// answer without the white space around it, or `texcreate.toml` where that is empty.
pub fn config_file_name(answer: &str) -> (name: String)
    ensures
        name@ == if trimmed(answer@).len() == 0 {
            default_config_file()
        } else {
            trimmed(answer@)
        },
{
    let given = trim(answer);
    if given.unicode_len() == 0 {
        String::from_str("texcreate.toml")
    } else {
        String::from_str(given)
    }
}

/// The address that opens a mail with feedback on the given subject.
pub fn feedback_link(subject: &str) -> (link: String)
    ensures
        link@ == "mailto:texcreate_feedback@mkproj.com?subject="@ + subject@,
{
    let mut link = String::from_str("mailto:texcreate_feedback@mkproj.com?subject=");
    link.append(subject);
    link
}

} // verus!
