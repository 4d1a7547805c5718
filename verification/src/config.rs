//! The configuration of a project, and the assembly of a project from a template:
//! as a layout on disk or as an archive.

use vstd::prelude::*;
use vstd::string::*;
use vstd::utf8::encode_utf8;
use texc_v3_compiler_conf::Compiler;
use texcore::template::Template;
use crate::archive::{file_limit, packed, Archive, Entry, Package};
use crate::dir::{has_file, join, join_text, position, steps, valid_repo, CachedFile, Dir, FsAction, FsStep};
use crate::document::{
    decoded, default_metadata, merge, package_lines, render, split_latex, template_lines,
    template_metadata, Line, Metadata, MetadataView,
};
use crate::error::Error;
use crate::text::{lowercase, same_text, to_lowercase, trim, trimmed};

verus! {

/// The text of the compiler configuration that a new project of the given name gets:
/// the default compiler, the project's name and no flags.
pub uninterp spec fn compiler_config(proj_name: Seq<char>) -> Seq<char>;

/// `Compiler::new` and `Compiler::to_string`: the default compiler configuration of
/// a project, as TOML.
#[verifier::external_body]
fn default_compiler_config(proj_name: &str) -> (text: String)
    ensures
        text@ == compiler_config(proj_name@),
{
    Compiler::new(proj_name).to_string()
}

/// The name of the main source file of the project `name`.
pub open spec fn main_file(name: Seq<char>) -> Seq<char> {
    name + ".tex"@
}

/// The name of the archive of the project `name`.
pub open spec fn archive_name(name: Seq<char>) -> Seq<char> {
    name + ".zip"@
}

/// The entries of the archive of a project, in their order: the two directories,
/// the main file, the included file and the compiler configuration.
pub open spec fn project_entries(name: Seq<char>, texts: (Seq<char>, Seq<char>)) -> Seq<Entry> {
    seq![
        Entry::Directory("out/"@),
        Entry::Directory("include/"@),
        Entry::File(main_file(name), encode_utf8(texts.0)),
        Entry::File("include/structure.tex"@, encode_utf8(texts.1)),
        Entry::File("compiler.toml"@, encode_utf8(compiler_config(name))),
    ]
}

/// The steps that create the directories of the project `name` and its compiler
/// configuration.
pub open spec fn layout_steps(name: Seq<char>) -> Seq<FsStep> {
    seq![
        FsStep::CreateDir(name),
        FsStep::CreateDir(join_text(name, "include"@)),
        FsStep::CreateDir(join_text(name, "out"@)),
        FsStep::WriteFile(join_text(name, "compiler.toml"@), encode_utf8(compiler_config(name))),
    ]
}

/// The steps that build the project `name` on disk: its layout, then the main file
/// and the included file.
pub open spec fn project_steps(name: Seq<char>, texts: (Seq<char>, Seq<char>)) -> Seq<FsStep> {
    layout_steps(name) + seq![
        FsStep::WriteFile(join_text(name, main_file(name)), encode_utf8(texts.0)),
        FsStep::WriteFile(
            join_text(join_text(name, "include"@), "structure.tex"@),
            encode_utf8(texts.1),
        ),
    ]
}

/// What a project is called and where its template is found.
#[derive(Debug)]
pub struct Project {
    pub proj_name: String,
    pub template: String,
    pub repo: String,
}

impl Project {
    /// Makes a project of its name, the name of its template and the name of the
    /// catalog that holds the template.
    pub fn new(proj_name: &str, template: &str, repo: &str) -> (project: Project)
        ensures
            project.proj_name@ == proj_name@,
            project.template@ == template@,
            project.repo@ == repo@,
    {
        Project {
            proj_name: String::from_str(proj_name),
            template: String::from_str(template),
            repo: String::from_str(repo),
        }
    }

    /// The main directory of the project, its `include` directory and its `out`
    /// directory.
    pub fn paths(&self) -> (paths: (String, String, String))
        ensures
            paths.0@ == self.proj_name@,
            paths.1@ == join_text(self.proj_name@, "include"@),
            paths.2@ == join_text(self.proj_name@, "out"@),
    {
        let main_path = self.proj_name.clone();
        let incl_path = join(self.proj_name.as_str(), "include");
        let out_path = join(self.proj_name.as_str(), "out");
        (main_path, incl_path, out_path)
    }

    /// Takes the user's answer to the question of `state` and tells where the
    /// questions stand then. The first question is whether the default project is
    /// used: `yes` ends the questions with it, `no` leads to the questions for the
    /// name, the catalog and the template, whose answers are taken without the white
    /// space around them. Any other first answer is refused.
    pub fn prompt_user(state: Prompt, line: &str) -> (r: Result<Prompt, Error>)
        ensures
            accepted(state, line@) ==> (r matches Ok(next) && answered(state, line@, next)),
            !accepted(state, line@) ==> (r matches Err(Error::InvalidInput(given)) && given@
                == line@),
    {
        match state {
            Prompt::UseDefault => {
                let lower = to_lowercase(line);
                answer_default(trim(lower.as_str()), line)
            },
            Prompt::Name => Ok(Prompt::Repo(String::from_str(trim(line)))),
            Prompt::Repo(name) => Ok(Prompt::Template(name, String::from_str(trim(line)))),
            Prompt::Template(name, repo) => Ok(
                Prompt::Done(Project::new(name.as_str(), trim(line), repo.as_str())),
            ),
            Prompt::Done(project) => Ok(Prompt::Done(project)),
        }
    }

    /// The steps that create the layout of the project: the main directory, which
    /// must not exist, the two directories below it, and the compiler configuration.
    pub fn create_layout(&self) -> (plan: Vec<FsAction>)
        ensures
            steps(plan@) == layout_steps(self.proj_name@),
    {
        let (main_path, incl_path, out_path) = self.paths();
        let config_path = join(main_path.as_str(), "compiler.toml");
        let config = default_compiler_config(self.proj_name.as_str());
        let mut plan = Vec::new();
        plan.push(FsAction::CreateDir(main_path));
        plan.push(FsAction::CreateDir(incl_path));
        plan.push(FsAction::CreateDir(out_path));
        plan.push(FsAction::WriteFile(config_path, config.as_str().as_bytes_vec()));
        assert(steps(plan@) =~= layout_steps(self.proj_name@));
        plan
    }
}

/// Where the questions for a project stand.
#[derive(Debug)]
pub enum Prompt {
    /// Asked whether the default settings are used.
    UseDefault,
    /// Asked for the project's name.
    Name,
    /// Asked for the catalog; the project's name is known.
    Repo(String),
    /// Asked for the template; the project's name and the catalog are known.
    Template(String, String),
    /// All is answered.
    Done(Project),
}

impl Prompt {
    /// What is asked in this state; the empty text where nothing is left to ask.
    pub open spec fn question_text(&self) -> Seq<char> {
        match self {
            Prompt::UseDefault => "Use default project settings? (yes/no)"@,
            Prompt::Name => "Enter Project Name: "@,
            Prompt::Repo(_) => "Enter Template Repo: "@,
            Prompt::Template(_, _) => "Enter Template Name: "@,
            Prompt::Done(_) => Seq::<char>::empty(),
        }
    }

    /// The question to put to the user in this state.
    pub fn question(&self) -> (text: String)
        ensures
            text@ == self.question_text(),
    {
        match self {
            Prompt::UseDefault => String::from_str("Use default project settings? (yes/no)"),
            Prompt::Name => String::from_str("Enter Project Name: "),
            Prompt::Repo(_) => String::from_str("Enter Template Repo: "),
            Prompt::Template(_, _) => String::from_str("Enter Template Name: "),
            Prompt::Done(_) => String::new(),
        }
    }
}

/// What a word answers to the question whether the default project is used:
/// `yes`, `no`, or nothing.
pub open spec fn default_answer(word: Seq<char>) -> Option<bool> {
    if word == "no"@ {
        Some(false)
    } else if word == "yes"@ {
        Some(true)
    } else {
        None
    }
}

/// Reads the answer to the question whether the default project is used from the
/// word that was given, in small letters and without white space around it.
pub fn read_default_answer(word: &str) -> (r: Option<bool>)
    ensures
        r == default_answer(word@),
{
    if same_text(word, "no") {
        Some(false)
    } else if same_text(word, "yes") {
        Some(true)
    } else {
        None
    }
}

/// Where the questions stand after the first of them was answered with `word`, the
/// answer in small letters and without white space around it: `no` leads to the
/// question for the name, `yes` ends the questions with the default project, and
/// any other word is refused with the line as it was given.
pub fn answer_default(word: &str, line: &str) -> (r: Result<Prompt, Error>)
    ensures
        match default_answer(word@) {
            Some(false) => r matches Ok(next) && next is Name,
            Some(true) => r matches Ok(Prompt::Done(project)) && project.proj_name@
                == "Project"@ && project.template@ == "basic"@ && project.repo@ == "managed"@,
            None => r matches Err(Error::InvalidInput(given)) && given@ == line@,
        },
{
    match read_default_answer(word) {
        Some(false) => Ok(Prompt::Name),
        Some(true) => Ok(Prompt::Done(Project::default())),
        None => Err(Error::InvalidInput(String::from_str(line))),
    }
}

/// Whether `next` is where the questions stand after `line` was answered in `state`.
pub open spec fn answered(state: Prompt, line: Seq<char>, next: Prompt) -> bool {
    match state {
        Prompt::UseDefault => if default_answer(trimmed(lowercase(line))) == Some(false) {
            next is Name
        } else {
            next matches Prompt::Done(project) && project.proj_name@ == "Project"@
                && project.template@ == "basic"@ && project.repo@ == "managed"@
        },
        Prompt::Name => next matches Prompt::Repo(name) && name@ == trimmed(line),
        Prompt::Repo(name) => next matches Prompt::Template(kept, repo) && kept@ == name@ && repo@
            == trimmed(line),
        Prompt::Template(name, repo) => next matches Prompt::Done(project) && project.proj_name@
            == name@ && project.template@ == trimmed(line) && project.repo@ == repo@,
        Prompt::Done(project) => next == Prompt::Done(project),
    }
}

/// Whether `line` is an answer that `state` accepts: the first question takes
/// `yes` and `no`, in any case of letters and with white space around them; the
/// others take any line.
pub open spec fn accepted(state: Prompt, line: Seq<char>) -> bool {
    state is UseDefault ==> default_answer(trimmed(lowercase(line))) is Some
}

impl Default for Project {
    fn default() -> (project: Project)
        ensures
            project.proj_name@ == "Project"@,
            project.template@ == "basic"@,
            project.repo@ == "managed"@,
    {
        Project::new("Project", "basic", "managed")
    }
}

/// The configuration from which a project is made.
#[derive(Debug)]
pub struct Config {
    /// The name of the project and the place of its template.
    pub project: Project,
    /// The metadata that replace those of the template.
    pub metadata: Metadata,
    /// The packages that are added to those of the template.
    pub packages: Vec<String>,
}

impl Default for Config {
    fn default() -> (config: Config)
        ensures
            config.project.proj_name@ == "Project"@,
            config.project.template@ == "basic"@,
            config.project.repo@ == "managed"@,
            config.metadata@ == default_metadata(),
            config.packages@.len() == 0,
    {
        Config::new(Project::default())
    }
}

impl Config {
    /// The two texts of the project when its template holds `held`: the template's
    /// elements, then the project's packages, under the project's metadata.
    pub open spec fn texts(&self, held: (MetadataView, Seq<Line>), input: Seq<char>) -> (
        Seq<char>,
        Seq<char>,
    ) {
        split_latex(self.metadata@, held.1 + package_lines(self.packages@), input)
    }

    /// The configuration of the given project, with the default metadata and no
    /// packages.
    pub fn new(project: Project) -> (config: Config)
        ensures
            config.project == project,
            config.metadata@ == default_metadata(),
            config.packages@.len() == 0,
    {
        Config { project, metadata: Metadata::default(), packages: Vec::new() }
    }

    /// The name of the project.
    pub fn name(&self) -> (name: String)
        ensures
            name@ == self.project.proj_name@,
    {
        self.project.proj_name.clone()
    }

    /// The name of the template.
    pub fn template(&self) -> (name: String)
        ensures
            name@ == self.project.template@,
    {
        self.project.template.clone()
    }

    /// The name of the catalog that holds the template.
    pub fn repo(&self) -> (name: String)
        ensures
            name@ == self.project.repo@,
    {
        self.project.repo.clone()
    }

    /// The steps that build the project on disk from its two texts: the main text
    /// and the text of the included file. They create the layout, then write the
    /// main file and the included file.
    pub fn project_plan(&self, texts: &(String, String)) -> (plan: Vec<FsAction>)
        ensures
            steps(plan@) == project_steps(self.project.proj_name@, (texts.0@, texts.1@)),
    {
        let (main_path, incl_path, _) = self.project.paths();
        let mut main_name = self.name();
        main_name.append(".tex");
        let mut plan = self.project.create_layout();
        let ghost layout = steps(plan@);
        plan.push(
            FsAction::WriteFile(
                join(main_path.as_str(), main_name.as_str()),
                texts.0.as_str().as_bytes_vec(),
            ),
        );
        plan.push(
            FsAction::WriteFile(
                join(incl_path.as_str(), "structure.tex"),
                texts.1.as_str().as_bytes_vec(),
            ),
        );
        assert(steps(plan@) =~= layout + seq![plan@[4]@, plan@[5]@]);
        plan
    }

    /// Merges the configuration into the template and renders it for the project's
    /// directory: the steps that create the layout, then write the main file and
    /// the included file, which the main file names without its extension.
    pub fn build_from(&self, template: Template) -> (r: Result<Vec<FsAction>, Error>)
        ensures
            r matches Ok(plan) ==> steps(plan@) == project_steps(
                self.project.proj_name@,
                self.texts(
                    (template_metadata(template), template_lines(template)),
                    "include/structure"@,
                ),
            ),
            r matches Err(e) ==> e is IO,
    {
        let mut template = template;
        merge(&mut template, &self.metadata, &self.packages);
        match render(&template, "include/structure") {
            Ok(texts) => Ok(self.project_plan(&texts)),
            Err(error) => Err(error),
        }
    }

    /// Merges the configuration into the template and packs the project: the two
    /// directories, the main file, the included file, which the main file names,
    /// and the compiler configuration.
    pub fn zip_from(&self, template: Template) -> (r: Result<Package, Error>)
        ensures
            r matches Ok(package) ==> package.name@ == archive_name(self.project.proj_name@)
                && package.bytes@ == packed(
                project_entries(
                    self.project.proj_name@,
                    self.texts(
                        (template_metadata(template), template_lines(template)),
                        "include/structure"@,
                    ),
                ),
            ),
            r matches Err(e) ==> e is IO,
    {
        let mut template = template;
        merge(&mut template, &self.metadata, &self.packages);
        pack(self.project.proj_name.as_str(), &template)
    }

    /// Builds the project on disk from the template that the configuration names,
    /// which is looked up among the files read from the cache.
    pub fn build(&self, dir: &Dir, files: &Vec<CachedFile>) -> (r: Result<Vec<FsAction>, Error>)
        ensures
            !valid_repo(self.project.repo@) ==> (r matches Err(Error::InvalidRepo(given))
                && given@ == self.project.repo@),
            valid_repo(self.project.repo@) && !self.found(dir, files@) ==> (r matches Err(
                Error::InvalidTemplate(given),
            ) && given@ == self.project.template@),
            valid_repo(self.project.repo@) && self.found(dir, files@) ==> ({
                let held = self.held(dir, files@)->0;
                &&& r matches Ok(plan) ==> steps(plan@) == project_steps(
                    self.project.proj_name@,
                    self.texts(held, "include/structure"@),
                )
                &&& r matches Err(e) ==> e is IO
            }),
    {
        let template = match dir.search(
            self.project.template.as_str(),
            self.project.repo.as_str(),
            files,
        ) {
            Ok(template) => template,
            Err(error) => {
                return Err(error);
            },
        };
        self.build_from(template)
    }

    /// Packs the project from the template that the configuration names, which is
    /// looked up among the files read from the cache.
    pub fn zip(&self, dir: &Dir, files: &Vec<CachedFile>) -> (r: Result<Package, Error>)
        ensures
            !valid_repo(self.project.repo@) ==> (r matches Err(Error::InvalidRepo(given))
                && given@ == self.project.repo@),
            valid_repo(self.project.repo@) && !self.found(dir, files@) ==> (r matches Err(
                Error::InvalidTemplate(given),
            ) && given@ == self.project.template@),
            valid_repo(self.project.repo@) && self.found(dir, files@) ==> ({
                let held = self.held(dir, files@)->0;
                &&& r matches Ok(package) ==> package.name@ == archive_name(
                    self.project.proj_name@,
                ) && package.bytes@ == packed(
                    project_entries(
                        self.project.proj_name@,
                        self.texts(held, "include/structure"@),
                    ),
                )
                &&& r matches Err(e) ==> e is IO
            }),
    {
        let template = match dir.search(
            self.project.template.as_str(),
            self.project.repo.as_str(),
            files,
        ) {
            Ok(template) => template,
            Err(error) => {
                return Err(error);
            },
        };
        self.zip_from(template)
    }

    /// What the file of the project's template holds, where the file is among the
    /// files; nothing where it holds no template.
    pub open spec fn held(&self, dir: &Dir, files: Seq<CachedFile>) -> Option<
        (MetadataView, Seq<Line>),
    > {
        let path = dir.template_path_text(self.project.template@, self.project.repo@);
        decoded(files[position(files, path, 0)].content@)
    }

    /// The file of the project's template is among the files and holds a template.
    pub open spec fn found(&self, dir: &Dir, files: Seq<CachedFile>) -> bool {
        &&& has_file(
            files,
            dir.template_path_text(self.project.template@, self.project.repo@),
        )
        &&& self.held(dir, files) is Some
    }
}

/// What the user is told when `artifact` was made: a directory, an archive or a
/// configuration file.
pub fn created_message(artifact: &str) -> (message: String)
    ensures
        message@ == "Successfully created `"@ + artifact@ + "`"@,
{
    let mut message = String::from_str("Successfully created `");
    message.append(artifact);
    message.append("`");
    message
}

/// Whether the texts of the project `name` are within what an archive takes: each
/// of the three files within the limit of a file.
pub open spec fn packable(name: Seq<char>, texts: (Seq<char>, Seq<char>)) -> bool {
    &&& encode_utf8(texts.0).len() <= file_limit()
    &&& encode_utf8(texts.1).len() <= file_limit()
    &&& encode_utf8(compiler_config(name)).len() <= file_limit()
}

/// Packs the project `name` from its two texts: the two directories, the main file,
/// the included file and the compiler configuration, in this order. Texts within
/// what an archive takes are packed with success.
pub fn pack_texts(name: &str, texts: &(String, String)) -> (r: Result<Package, Error>)
    ensures
        r matches Ok(package) ==> package.name@ == archive_name(name@) && package.bytes@
            == packed(project_entries(name@, (texts.0@, texts.1@))),
        packable(name@, (texts.0@, texts.1@)) ==> r is Ok,
        r matches Err(e) ==> e is IO,
{
    let mut zip_name = String::from_str(name);
    zip_name.append(".zip");
    let mut main_name = String::from_str(name);
    main_name.append(".tex");
    let config = default_compiler_config(name);
    let mut archive = Archive::open(zip_name.as_str());
    proof {
        reveal_strlit("out");
        reveal_strlit("out/");
        reveal_strlit("include");
        reveal_strlit("include/");
        reveal_strlit("/");
        assert("out"@ + "/"@ =~= "out/"@);
        assert("include"@ + "/"@ =~= "include/"@);
    }
    if let Err(error) = archive.declare_directory("out") {
        return Err(error);
    }
    if let Err(error) = archive.declare_directory("include") {
        return Err(error);
    }
    if let Err(error) = archive.write_entry(main_name.as_str(), texts.0.as_str().as_bytes()) {
        return Err(error);
    }
    if let Err(error) = archive.write_entry("include/structure.tex", texts.1.as_str().as_bytes()) {
        return Err(error);
    }
    if let Err(error) = archive.write_entry("compiler.toml", config.as_str().as_bytes()) {
        return Err(error);
    }
    assert(archive.entries() =~= project_entries(name@, (texts.0@, texts.1@)));
    archive.finalize()
}

/// Renders a template and packs it as the project `name`: the two directories, the
/// main file, the included file, which the main file names, and the compiler
/// configuration, in this order.
pub fn pack(name: &str, template: &Template) -> (r: Result<Package, Error>)
    ensures
        r matches Ok(package) ==> package.name@ == archive_name(name@) && package.bytes@
            == packed(
            project_entries(
                name@,
                split_latex(
                    template_metadata(*template),
                    template_lines(*template),
                    "include/structure"@,
                ),
            ),
        ),
        r matches Err(e) ==> e is IO,
{
    match render(template, "include/structure") {
        Ok(texts) => pack_texts(name, &texts),
        Err(error) => Err(error),
    }
}

} // verus!
