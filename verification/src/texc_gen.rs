//! The commands handed on to a template generator project.

use vstd::prelude::*;
use vstd::string::*;
use crate::text::{decimal, decimal_string, texts};

verus! {

/// The commands of a template generator project.
#[derive(Debug)]
pub enum Commands {
    /// Create a new generator project.
    New,
    /// Initialise the output directory structure.
    Init,
    /// Refresh the template source from the default template.
    Refresh,
    /// Generate one template.
    Gen { level: Option<u8> },
    /// Generate all templates.
    GenAll { level: Option<u8> },
    /// Save a template to the custom catalog.
    Save { name: String },
}

/// How a command is carried out.
#[derive(Debug)]
pub enum Launch {
    /// Clone the repository at `link` into the directory `into`.
    Clone { link: String, into: String },
    /// Run `cargo` with the arguments.
    Cargo(Vec<String>),
}

/// The level at which templates are generated where none is given.
pub open spec fn level_or_default(level: Option<u8>) -> u8 {
    match level {
        Some(level) => level,
        None => 1,
    }
}

impl Commands {
    /// The word by which the generator knows the command. `New` has none: the
    /// generator is not run for it.
    pub open spec fn word(&self) -> Seq<char> {
        match self {
            Commands::New => Seq::<char>::empty(),
            Commands::Init => "init"@,
            Commands::Refresh => "refresh"@,
            Commands::Gen { .. } => "gen"@,
            Commands::GenAll { .. } => "gen-all"@,
            Commands::Save { .. } => "save"@,
        }
    }

    /// The flags that follow the command's word.
    pub open spec fn flags(&self) -> Seq<Seq<char>> {
        match self {
            Commands::Gen { level } => seq!["-l"@, decimal(level_or_default(*level) as nat)],
            Commands::GenAll { level } => seq!["-l"@, decimal(level_or_default(*level) as nat)],
            Commands::Save { name } => seq!["-n"@, name@],
            _ => Seq::<Seq<char>>::empty(),
        }
    }

    /// The arguments with which `cargo` runs the command.
    pub open spec fn argument_texts(&self) -> Seq<Seq<char>> {
        seq!["run"@, "--"@, self.word()] + self.flags()
    }

    /// The word by which the generator knows the command.
    pub fn to_string(&self) -> (word: String)
        requires
            !(self is New),
        ensures
            word@ == self.word(),
    {
        match self {
            Commands::Init => String::from_str("init"),
            Commands::Refresh => String::from_str("refresh"),
            Commands::Gen { .. } => String::from_str("gen"),
            Commands::GenAll { .. } => String::from_str("gen-all"),
            _ => String::from_str("save"),
        }
    }

    /// The arguments with which `cargo` runs the command: `run`, `--`, the
    /// command's word and its flags. A level that is not given is 1.
    pub fn arguments(&self) -> (list: Vec<String>)
        requires
            !(self is New),
        ensures
            texts(list@) == self.argument_texts(),
    {
        let mut list: Vec<String> = Vec::new();
        list.push(String::from_str("run"));
        list.push(String::from_str("--"));
        list.push(self.to_string());
        match self {
            Commands::Gen { level } => {
                let level: u8 = match level {
                    Some(level) => *level,
                    None => 1,
                };
                list.push(String::from_str("-l"));
                list.push(decimal_string(level as u64));
            },
            Commands::GenAll { level } => {
                let level: u8 = match level {
                    Some(level) => *level,
                    None => 1,
                };
                list.push(String::from_str("-l"));
                list.push(decimal_string(level as u64));
            },
            Commands::Save { name } => {
                list.push(String::from_str("-n"));
                list.push(name.clone());
            },
            _ => {},
        }
        assert(texts(list@) =~= self.argument_texts());
        list
    }

    /// How the command is carried out: `New` clones the generator's repository into
    /// the directory `texcgen`; every other command is run by `cargo`.
    pub fn run_command(&self) -> (launch: Launch)
        ensures
            self is New ==> (launch matches Launch::Clone { link, into } && link@
                == "https://github.com/MKProj/texcgen.git"@ && into@ == "texcgen"@),
            !(self is New) ==> (launch matches Launch::Cargo(list) && texts(list@)
                == self.argument_texts()),
    {
        match self {
            Commands::New => Launch::Clone {
                link: String::from_str("https://github.com/MKProj/texcgen.git"),
                into: String::from_str("texcgen"),
            },
            _ => Launch::Cargo(self.arguments()),
        }
    }
}

} // verus!
