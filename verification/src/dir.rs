//! The layout of the local template cache, and what is to be done on disk to
//! create, fill and clear it.

use vstd::prelude::*;
use vstd::string::*;
use vstd::utf8::encode_utf8;
use texcore::template::Template;
use crate::document::{decoded, parse_template, template_lines, template_metadata};
use crate::error::Error;
use crate::manifest::{manifest_of, Manifest, ManifestView};
use crate::text::{same_text, texts};

verus! {

/// Joins a directory and an entry below it with a single `/`.
pub open spec fn join_text(base: Seq<char>, entry: Seq<char>) -> Seq<char> {
    base + "/"@ + entry
}

/// Joins a directory and an entry below it with a single `/`.
pub fn join(base: &str, entry: &str) -> (path: String)
    ensures
        path@ == join_text(base@, entry@),
{
    let mut path = String::from_str(base);
    path.append("/");
    path.append(entry);
    path
}

/// One step on the file system, which the caller performs.
#[derive(Debug)]
pub enum FsAction {
    /// Create the directory; it is an error if it exists.
    CreateDir(String),
    /// Remove the directory with all that is below it.
    RemoveDirAll(String),
    /// Create the file, or empty it if it exists, and write the bytes to it.
    WriteFile(String, Vec<u8>),
}

/// A step on the file system, as plain values.
pub enum FsStep {
    CreateDir(Seq<char>),
    RemoveDirAll(Seq<char>),
    WriteFile(Seq<char>, Seq<u8>),
}

impl View for FsAction {
    type V = FsStep;

    open spec fn view(&self) -> FsStep {
        match self {
            FsAction::CreateDir(path) => FsStep::CreateDir(path@),
            FsAction::RemoveDirAll(path) => FsStep::RemoveDirAll(path@),
            FsAction::WriteFile(path, bytes) => FsStep::WriteFile(path@, bytes@),
        }
    }
}

/// The steps of a plan, as plain values.
pub open spec fn steps(plan: Seq<FsAction>) -> Seq<FsStep> {
    Seq::new(plan.len(), |i: int| plan[i]@)
}

/// A file of the cache as the caller has read it: its path and its text.
pub struct CachedFile {
    pub path: String,
    pub content: String,
}

/// The index of the first file with the given path, or the number of files
/// from `from` on where none has it.
pub open spec fn position(files: Seq<CachedFile>, path: Seq<char>, from: int) -> int
    decreases files.len() - from,
{
    if from >= files.len() {
        files.len() as int
    } else if files[from].path@ == path {
        from
    } else {
        position(files, path, from + 1)
    }
}

/// Whether a file with the given path is among the files.
pub open spec fn has_file(files: Seq<CachedFile>, path: Seq<char>) -> bool {
    exists|i: int| 0 <= i < files.len() && files[i].path@ == path
}

/// Finds the first file with the given path among the files.
pub fn find(files: &Vec<CachedFile>, path: &str) -> (r: Option<usize>)
    ensures
        r is Some <==> has_file(files@, path@),
        r matches Some(at) ==> at == position(files@, path@, 0) && at < files@.len()
            && files@[at as int].path@ == path@,
{
    let mut i: usize = 0;
    while i < files.len()
        invariant
            i <= files.len(),
            forall|j: int| 0 <= j < i ==> files@[j].path@ != path@,
            position(files@, path@, 0) == position(files@, path@, i as int),
        decreases files.len() - i,
    {
        if same_text(files[i].path.as_str(), path) {
            return Some(i);
        }
        i += 1;
    }
    None
}

/// The names of the entries that are no directories, in their order.
pub open spec fn file_names(entries: Seq<(String, bool)>) -> Seq<Seq<char>>
    decreases entries.len(),
{
    if entries.len() == 0 {
        Seq::<Seq<char>>::empty()
    } else if entries.last().1 {
        file_names(entries.drop_last())
    } else {
        file_names(entries.drop_last()).push(entries.last().0@)
    }
}

/// The name of a catalog is one of the two that the cache has.
pub open spec fn valid_repo(repo: Seq<char>) -> bool {
    repo == "managed"@ || repo == "custom"@
}

/// One of the two catalogs of the cache.
#[derive(Clone, Copy, Debug, PartialEq, Eq, Structural)]
pub enum Catalog {
    /// The catalog that is filled from the remote catalog, and only from it.
    Managed,
    /// The catalog that the user fills.
    Custom,
}

/// The catalog that a name stands for.
pub open spec fn catalog_named(repo: Seq<char>) -> Option<Catalog> {
    if repo == "custom"@ {
        Some(Catalog::Custom)
    } else if repo == "managed"@ {
        Some(Catalog::Managed)
    } else {
        None
    }
}

impl Catalog {
    /// Reads the name of a catalog: `managed` or `custom`. Any other name is refused.
    pub fn from_name(repo: &str) -> (r: Result<Catalog, Error>)
        ensures
            match catalog_named(repo@) {
                Some(catalog) => r == Ok::<Catalog, Error>(catalog),
                None => r matches Err(Error::InvalidRepo(given)) && given@ == repo@,
            },
            r is Ok <==> valid_repo(repo@),
    {
        if same_text(repo, "custom") {
            Ok(Catalog::Custom)
        } else if same_text(repo, "managed") {
            Ok(Catalog::Managed)
        } else {
            Err(Error::InvalidRepo(String::from_str(repo)))
        }
    }
}

/// The places of the local template cache.
pub struct Dir {
    /// The root of the cache, `.texcreate` below the home directory.
    pub main_dir: String,
    /// The managed catalog, `mkproj` below the root.
    pub mkproj: String,
    /// The user's own catalog, `custom` below the root.
    pub custom: String,
}

impl Dir {
    /// Both catalogs are direct children of the root.
    pub open spec fn wf(&self) -> bool {
        &&& self.mkproj@ == join_text(self.main_dir@, "mkproj"@)
        &&& self.custom@ == join_text(self.main_dir@, "custom"@)
    }

    /// The path of the manifest: `repo.toml` below the root.
    pub open spec fn repo_path_text(&self) -> Seq<char> {
        join_text(self.main_dir@, "repo.toml"@)
    }

    /// The directory of the catalog called `repo`, which is `managed` or `custom`.
    pub open spec fn catalog_text(&self, repo: Seq<char>) -> Seq<char> {
        if repo == "custom"@ {
            self.custom@
        } else {
            self.mkproj@
        }
    }

    /// The path of the template `name` in the catalog called `repo`.
    pub open spec fn template_path_text(&self, name: Seq<char>, repo: Seq<char>) -> Seq<char> {
        join_text(self.catalog_text(repo), name + ".json"@)
    }

    /// Lays the cache out below the home directory `home`.
    pub fn new(home: &str) -> (dir: Dir)
        ensures
            dir.wf(),
            dir.main_dir@ == join_text(home@, ".texcreate"@),
    {
        let main_dir = join(home, ".texcreate");
        let mkproj = join(main_dir.as_str(), "mkproj");
        let custom = join(main_dir.as_str(), "custom");
        Dir { main_dir, mkproj, custom }
    }

    /// The steps that create the layout: the root, then the two catalogs.
    pub open spec fn build_steps(&self) -> Seq<FsStep> {
        seq![
            FsStep::CreateDir(self.main_dir@),
            FsStep::CreateDir(self.mkproj@),
            FsStep::CreateDir(self.custom@),
        ]
    }

    /// The steps that empty the managed catalog: remove it, then create it anew.
    pub open spec fn clear_steps(&self) -> Seq<FsStep> {
        seq![FsStep::RemoveDirAll(self.mkproj@), FsStep::CreateDir(self.mkproj@)]
    }

    /// The steps that create the layout: the root, then the two catalogs. Each
    /// fails where its directory exists, so a layout is never created twice.
    pub fn build(&self) -> (plan: Vec<FsAction>)
        ensures
            steps(plan@) == self.build_steps(),
    {
        let mut plan = Vec::new();
        plan.push(FsAction::CreateDir(self.main_dir.clone()));
        plan.push(FsAction::CreateDir(self.mkproj.clone()));
        plan.push(FsAction::CreateDir(self.custom.clone()));
        assert(steps(plan@) =~= seq![
            FsStep::CreateDir(self.main_dir@),
            FsStep::CreateDir(self.mkproj@),
            FsStep::CreateDir(self.custom@),
        ]);
        plan
    }

    /// The step that saves a template of the managed catalog under `file_name`.
    pub fn save_mkproj(&self, file_name: &str, data: Vec<u8>) -> (step: FsAction)
        ensures
            step@ == FsStep::WriteFile(join_text(self.mkproj@, file_name@), data@),
    {
        FsAction::WriteFile(join(self.mkproj.as_str(), file_name), data)
    }

    /// The path of the manifest.
    pub fn repo_path(&self) -> (path: String)
        ensures
            path@ == self.repo_path_text(),
    {
        join(self.main_dir.as_str(), "repo.toml")
    }

    /// The step that saves the text of a manifest as the one manifest of the cache.
    pub fn save_repo(&self, text: &str) -> (step: FsAction)
        ensures
            step@ == FsStep::WriteFile(self.repo_path_text(), encode_utf8(text@)),
    {
        FsAction::WriteFile(self.repo_path(), text.as_bytes_vec())
    }

    /// The steps that empty the managed catalog: remove it, then create it anew.
    pub fn clear(&self) -> (plan: Vec<FsAction>)
        ensures
            steps(plan@) == self.clear_steps(),
    {
        let mut plan = Vec::new();
        plan.push(FsAction::RemoveDirAll(self.mkproj.clone()));
        plan.push(FsAction::CreateDir(self.mkproj.clone()));
        assert(steps(plan@) =~= seq![
            FsStep::RemoveDirAll(self.mkproj@),
            FsStep::CreateDir(self.mkproj@),
        ]);
        plan
    }

    /// The path at which the template `name` of the catalog `repo` is kept.
    /// A name of a catalog other than `managed` and `custom` is refused.
    pub fn template_path(&self, name: &str, repo: &str) -> (r: Result<String, Error>)
        ensures
            valid_repo(repo@) ==> (r matches Ok(path) && path@ == self.template_path_text(
                name@,
                repo@,
            )),
            !valid_repo(repo@) ==> (r matches Err(Error::InvalidRepo(given)) && given@ == repo@),
    {
        let mut file_name = String::from_str(name);
        file_name.append(".json");
        match Catalog::from_name(repo) {
            Ok(Catalog::Custom) => Ok(join(self.custom.as_str(), file_name.as_str())),
            Ok(Catalog::Managed) => Ok(join(self.mkproj.as_str(), file_name.as_str())),
            Err(error) => Err(error),
        }
    }

    /// Finds the template `name` in the catalog `repo` among the files that the
    /// caller has read from the cache, and reads it. A name of a catalog other than
    /// `managed` and `custom` is refused; so is a template whose file is not among
    /// the files, or holds no template.
    pub fn search(&self, name: &str, repo: &str, files: &Vec<CachedFile>) -> (r: Result<
        Template,
        Error,
    >)
        ensures
            !valid_repo(repo@) ==> (r matches Err(Error::InvalidRepo(given)) && given@ == repo@),
            valid_repo(repo@) && !has_file(files@, self.template_path_text(name@, repo@)) ==> (r
                matches Err(Error::InvalidTemplate(given)) && given@ == name@),
            valid_repo(repo@) && has_file(files@, self.template_path_text(name@, repo@)) ==> ({
                let at = position(files@, self.template_path_text(name@, repo@), 0);
                match decoded(files@[at].content@) {
                    Some(held) => r matches Ok(template) && (
                        template_metadata(template),
                        template_lines(template),
                    ) == held,
                    None => r matches Err(Error::InvalidTemplate(given)) && given@ == name@,
                }
            }),
    {
        let path = match self.template_path(name, repo) {
            Ok(path) => path,
            Err(error) => {
                return Err(error);
            },
        };
        match find(files, path.as_str()) {
            Some(at) => match parse_template(files[at].content.as_str()) {
                Some(template) => Ok(template),
                None => Err(Error::InvalidTemplate(String::from_str(name))),
            },
            None => Err(Error::InvalidTemplate(String::from_str(name))),
        }
    }

    /// Whether the cache holds a manifest: its file is among the files read from
    /// the cache. A cache without one was never filled.
    pub fn repo_exists(&self, files: &Vec<CachedFile>) -> (r: bool)
        ensures
            r == has_file(files@, self.repo_path_text()),
    {
        let path = self.repo_path();
        find(files, path.as_str()).is_some()
    }

    /// What the manifest among the files holds: the text of the first file with
    /// the path of the manifest, read as a manifest; nothing where no file has that
    /// path or its text holds no manifest.
    pub open spec fn cached_manifest(&self, files: Seq<CachedFile>) -> Option<ManifestView> {
        if has_file(files, self.repo_path_text()) {
            manifest_of(files[position(files, self.repo_path_text(), 0)].content@)
        } else {
            None
        }
    }

    /// Reads the manifest among the files read from the cache. A cache without a
    /// manifest gives an error that names its file; a file that holds no manifest
    /// gives an error with its text.
    pub fn read_repo(&self, files: &Vec<CachedFile>) -> (r: Result<Manifest, Error>)
        ensures
            !has_file(files@, self.repo_path_text()) ==> (r matches Err(Error::IO(given))
                && given@ == self.repo_path_text()),
            has_file(files@, self.repo_path_text()) ==> match self.cached_manifest(files@) {
                Some(held) => r matches Ok(manifest) && manifest@ == held,
                None => r matches Err(Error::InvalidInput(given)) && given@
                    == files@[position(files@, self.repo_path_text(), 0)].content@,
            },
    {
        let path = self.repo_path();
        match find(files, path.as_str()) {
            Some(at) => match Manifest::from_string(files[at].content.as_str()) {
                Some(manifest) => Ok(manifest),
                None => Err(Error::InvalidInput(files[at].content.clone())),
            },
            None => Err(Error::IO(path)),
        }
    }

    /// The templates of the user's own catalog: of the entries found below it, each
    /// a name and whether it is a directory, the names of those that are none.
    pub fn read_custom_repo(&self, entries: &Vec<(String, bool)>) -> (names: Vec<String>)
        ensures
            texts(names@) == file_names(entries@),
    {
        let mut names: Vec<String> = Vec::new();
        let mut i: usize = 0;
        while i < entries.len()
            invariant
                i <= entries.len(),
                texts(names@) == file_names(entries@.take(i as int)),
            decreases entries.len() - i,
        {
            assert(entries@.take(i + 1).drop_last() =~= entries@.take(i as int));
            if !entries[i].1 {
                let ghost before = texts(names@);
                names.push(entries[i].0.clone());
                assert(texts(names@) =~= before.push(entries@[i as int].0@));
            }
            i += 1;
        }
        assert(entries@.take(i as int) =~= entries@);
        names
    }
}

} // verus!
