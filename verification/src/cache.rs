//! A model of the disk: what it holds after steps were performed on it, which
//! steps fail, and what a synchronisation run leaves on it.
//!
//! The model knows three failures: creating a directory where something exists,
//! removing a directory that is not there, and writing a file where a directory is.
//! A disk can fail a step for other reasons; steps that succeed on a disk succeed
//! in the model, and leave on the disk what the model says.

use vstd::prelude::*;
use vstd::string::*;
use vstd::utf8::encode_utf8;
use crate::config::{layout_steps, main_file, project_steps};
use crate::dir::{join_text, steps, Dir, FsStep};
use crate::error::Error;
use crate::manifest::manifest_of;
use crate::repo::{
    action_fits, covers, save_steps, state_fits, store_steps, success_text, template_file,
    SyncAction, SyncEvent, SyncState,
};
use crate::version::Version;

verus! {

/// What a disk holds: its directories, and the bytes of its files by their paths.
pub struct Disk {
    pub dirs: Set<Seq<char>>,
    pub files: Map<Seq<char>, Seq<u8>>,
}

impl Disk {
    /// No path is a directory and a file.
    pub open spec fn wf(self) -> bool {
        forall|path: Seq<char>| !(self.dirs.contains(path) && self.files.dom().contains(path))
    }
}

/// Whether `path` lies below the directory `dir`. Paths are compared as texts: the
/// path begins with the directory and a slash. A path with `..` in it, or with a
/// name that holds a slash, counts as below the directory whose text it begins
/// with, though a disk may resolve it to another place.
pub open spec fn is_below(dir: Seq<char>, path: Seq<char>) -> bool {
    &&& path.len() > dir.len()
    &&& path.take(dir.len() as int) == dir
    &&& path[dir.len() as int] == '/'
}

/// The disk without the directory `dir` and all that lies below it.
pub open spec fn without(disk: Disk, dir: Seq<char>) -> Disk {
    Disk {
        dirs: Set::new(
            |path: Seq<char>| disk.dirs.contains(path) && path != dir && !is_below(dir, path),
        ),
        files: Map::new(
            |path: Seq<char>| disk.files.dom().contains(path) && !is_below(dir, path),
            |path: Seq<char>| disk.files[path],
        ),
    }
}

/// The disk after one step was performed, or nothing where the step fails.
pub open spec fn performed(disk: Disk, step: FsStep) -> Option<Disk> {
    match step {
        FsStep::CreateDir(path) => if disk.dirs.contains(path) || disk.files.dom().contains(path) {
            None
        } else {
            Some(Disk { dirs: disk.dirs.insert(path), files: disk.files })
        },
        FsStep::RemoveDirAll(dir) => if disk.dirs.contains(dir) {
            Some(without(disk, dir))
        } else {
            None
        },
        FsStep::WriteFile(path, bytes) => if disk.dirs.contains(path) {
            None
        } else {
            Some(Disk { dirs: disk.dirs, files: disk.files.insert(path, bytes) })
        },
    }
}

/// The disk after the steps were performed in their order, or nothing where one
/// of them fails.
pub open spec fn performed_all(disk: Disk, plan: Seq<FsStep>) -> Option<Disk>
    decreases plan.len(),
{
    if plan.len() == 0 {
        Some(disk)
    } else {
        match performed_all(disk, plan.drop_last()) {
            Some(earlier) => performed(earlier, plan.last()),
            None => None,
        }
    }
}

/// The managed catalog holds the downloaded templates and no other file, and the
/// manifest of the cache has the given bytes.
pub open spec fn holds_release(
    disk: Disk,
    dir: Dir,
    manifest: Seq<u8>,
    items: Seq<(String, Vec<u8>)>,
) -> bool {
    &&& disk.dirs.contains(dir.mkproj@)
    &&& disk.files.dom().contains(dir.repo_path_text())
    &&& disk.files[dir.repo_path_text()] == manifest
    &&& forall|i: int|
        0 <= i < items.len() ==> disk.files.dom().contains(
            #[trigger] template_file(dir, items[i].0@),
        ) && disk.files[template_file(dir, items[i].0@)] == items[i].1@
    &&& forall|path: Seq<char>|
        disk.files.dom().contains(path) && is_below(dir.mkproj@, path) ==> exists|i: int|
            0 <= i < items.len() && path == #[trigger] template_file(dir, items[i].0@)
}

/// Whether `path` is the file of none of the first `count` downloaded templates.
pub open spec fn untouched(dir: Dir, items: Seq<(String, Vec<u8>)>, count: int, path: Seq<char>) -> bool {
    forall|i: int| 0 <= i < count ==> path != template_file(dir, (#[trigger] items[i]).0@)
}

/// Performing one plan after another is performing them joined.
pub proof fn lemma_performed_in_turn(disk: Disk, first: Seq<FsStep>, second: Seq<FsStep>)
    ensures
        performed_all(disk, first + second) == match performed_all(disk, first) {
            Some(between) => performed_all(between, second),
            None => None,
        },
    decreases second.len(),
{
    if second.len() == 0 {
        assert(first + second =~= first);
    } else {
        assert((first + second).drop_last() =~= first + second.drop_last());
        assert((first + second).last() == second.last());
        lemma_performed_in_turn(disk, first, second.drop_last());
    }
}

/// A plan whose first step fails, fails.
pub proof fn lemma_first_step_fails(disk: Disk, plan: Seq<FsStep>)
    requires
        plan.len() > 0,
        performed(disk, plan[0]) is None,
    ensures
        performed_all(disk, plan) is None,
    decreases plan.len(),
{
    if plan.len() > 1 {
        assert(plan.drop_last()[0] == plan[0]);
        lemma_first_step_fails(disk, plan.drop_last());
    } else {
        assert(plan.drop_last().len() == 0);
        assert(plan.last() == plan[0]);
        assert(performed_all(disk, plan.drop_last()) == Some(disk));
    }
}

/// Where the steps that create the layout of the cache succeed, the root and the
/// two catalogs are directories then, and no file has changed.
pub proof fn lemma_layout_is_created(disk: Disk, dir: Dir)
    requires
        performed_all(disk, dir.build_steps()) is Some,
    ensures
        performed_all(disk, dir.build_steps())->0.dirs == disk.dirs.insert(dir.main_dir@).insert(
            dir.mkproj@,
        ).insert(dir.custom@),
        performed_all(disk, dir.build_steps())->0.files == disk.files,
{
    let plan = dir.build_steps();
    assert(plan.drop_last() =~= seq![
        FsStep::CreateDir(dir.main_dir@),
        FsStep::CreateDir(dir.mkproj@),
    ]);
    assert(plan.drop_last().drop_last() =~= seq![FsStep::CreateDir(dir.main_dir@)]);
    assert(plan.drop_last().drop_last().drop_last() =~= Seq::<FsStep>::empty());
    reveal_with_fuel(performed_all, 4);
}

/// Whether nothing is at `path`: neither a directory nor a file.
pub open spec fn is_free(disk: Disk, path: Seq<char>) -> bool {
    !disk.dirs.contains(path) && !disk.files.dom().contains(path)
}

/// The steps that create the layout of the cache succeed where nothing is in the
/// place of the root and of the two catalogs.
pub proof fn lemma_layout_succeeds(disk: Disk, dir: Dir)
    requires
        dir.wf(),
        is_free(disk, dir.main_dir@),
        is_free(disk, dir.mkproj@),
        is_free(disk, dir.custom@),
    ensures
        performed_all(disk, dir.build_steps()) is Some,
{
    reveal_strlit("/");
    reveal_strlit("mkproj");
    reveal_strlit("custom");
    let plan = dir.build_steps();
    let at: int = dir.main_dir@.len() as int + 1;
    assert(dir.mkproj@[at] == 'm');
    assert(dir.custom@[at] == 'c');
    assert(dir.mkproj@.len() > dir.main_dir@.len());
    assert(dir.custom@.len() > dir.main_dir@.len());
    assert(plan.drop_last() =~= seq![
        FsStep::CreateDir(dir.main_dir@),
        FsStep::CreateDir(dir.mkproj@),
    ]);
    assert(plan.drop_last().drop_last() =~= seq![FsStep::CreateDir(dir.main_dir@)]);
    assert(plan.drop_last().drop_last().drop_last() =~= Seq::<FsStep>::empty());
    reveal_with_fuel(performed_all, 4);
}

/// The steps that build the project `name` succeed where nothing is in the place of
/// its directory and of the two directories below it, and no directory is in the
/// place of one of its three files.
pub proof fn lemma_project_succeeds(disk: Disk, name: Seq<char>, texts: (Seq<char>, Seq<char>))
    requires
        is_free(disk, name),
        is_free(disk, join_text(name, "include"@)),
        is_free(disk, join_text(name, "out"@)),
        !disk.dirs.contains(join_text(name, "compiler.toml"@)),
        !disk.dirs.contains(join_text(name, main_file(name))),
        !disk.dirs.contains(join_text(join_text(name, "include"@), "structure.tex"@)),
    ensures
        performed_all(disk, layout_steps(name)) is Some,
        performed_all(disk, project_steps(name, texts)) is Some,
{
    reveal_strlit("/");
    reveal_strlit("include");
    reveal_strlit("out");
    reveal_strlit("compiler.toml");
    reveal_strlit(".tex");
    reveal_strlit("structure.tex");
    let incl = join_text(name, "include"@);
    let out = join_text(name, "out"@);
    let config = join_text(name, "compiler.toml"@);
    let main = join_text(name, main_file(name));
    let structure = join_text(incl, "structure.tex"@);
    let at: int = name.len() as int + 1;
    assert(incl.len() == name.len() + 8);
    assert(out.len() == name.len() + 4);
    assert(config.len() == name.len() + 14);
    assert(main.len() == 2 * name.len() + 5);
    assert(structure.len() == name.len() + 22);
    assert(incl[at] == 'i');
    assert(out[at] == 'o');
    assert(main != incl) by {
        if main.len() == incl.len() {
            assert(name.len() == 3);
            assert(main[at + 3] == '.');
            assert(incl[at + 3] == 'l');
        }
    }
    let layout = layout_steps(name);
    assert(layout.drop_last() =~= seq![
        FsStep::CreateDir(name),
        FsStep::CreateDir(incl),
        FsStep::CreateDir(out),
    ]);
    assert(layout.drop_last().drop_last() =~= seq![FsStep::CreateDir(name), FsStep::CreateDir(incl)]);
    assert(layout.drop_last().drop_last().drop_last() =~= seq![FsStep::CreateDir(name)]);
    assert(layout.drop_last().drop_last().drop_last().drop_last() =~= Seq::<FsStep>::empty());
    assert(performed_all(disk, layout) matches Some(made) && made.dirs == disk.dirs.insert(
        name,
    ).insert(incl).insert(out)) by {
        reveal_with_fuel(performed_all, 5);
    }
    let made = performed_all(disk, layout)->0;
    let files = seq![
        FsStep::WriteFile(main, encode_utf8(texts.0)),
        FsStep::WriteFile(structure, encode_utf8(texts.1)),
    ];
    assert(project_steps(name, texts) =~= layout + files);
    lemma_performed_in_turn(disk, layout, files);
    assert(files.drop_last() =~= seq![FsStep::WriteFile(main, encode_utf8(texts.0))]);
    assert(files.drop_last().drop_last() =~= Seq::<FsStep>::empty());
    assert(performed_all(made, files) is Some) by {
        reveal_with_fuel(performed_all, 3);
    }
}

/// The layout of the cache is created once: where the steps that create it have
/// succeeded, they fail when they are performed again.
pub proof fn lemma_layout_is_created_once(disk: Disk, dir: Dir)
    requires
        performed_all(disk, dir.build_steps()) is Some,
    ensures
        performed_all(performed_all(disk, dir.build_steps())->0, dir.build_steps()) is None,
{
    let plan = dir.build_steps();
    lemma_layout_is_created(disk, dir);
    lemma_first_step_fails(performed_all(disk, plan)->0, plan);
}

/// A project is not built into a directory that exists: the steps that build the
/// project `name` fail where `name` is a directory or a file.
pub proof fn lemma_project_is_not_built_over(disk: Disk, name: Seq<char>, texts: (Seq<char>, Seq<char>))
    requires
        disk.dirs.contains(name) || disk.files.dom().contains(name),
    ensures
        performed_all(disk, layout_steps(name)) is None,
        performed_all(disk, project_steps(name, texts)) is None,
{
    lemma_first_step_fails(disk, layout_steps(name));
    assert(project_steps(name, texts)[0] == layout_steps(name)[0]);
    lemma_first_step_fails(disk, project_steps(name, texts));
}

/// The file of a template lies below the managed catalog.
pub proof fn lemma_template_file_below(dir: Dir, name: Seq<char>)
    ensures
        is_below(dir.mkproj@, template_file(dir, name)),
{
    reveal_strlit("/");
    let path = template_file(dir, name);
    assert(path.take(dir.mkproj@.len() as int) =~= dir.mkproj@);
}

/// The manifest is not the managed catalog, and does not lie below it.
pub proof fn lemma_manifest_not_below(dir: Dir)
    requires
        dir.wf(),
    ensures
        dir.repo_path_text() != dir.mkproj@,
        !is_below(dir.mkproj@, dir.repo_path_text()),
{
    reveal_strlit("/");
    reveal_strlit("mkproj");
    reveal_strlit("repo.toml");
    let at: int = dir.main_dir@.len() as int + 1;
    let path = dir.repo_path_text();
    assert(path[at] == 'r');
    assert(dir.mkproj@[at] == 'm');
    if is_below(dir.mkproj@, path) {
        assert(path.take(dir.mkproj@.len() as int)[at] == path[at]);
    }
}

/// Templates of different names have different files.
pub proof fn lemma_template_file_distinct(dir: Dir, a: Seq<char>, b: Seq<char>)
    requires
        a != b,
    ensures
        template_file(dir, a) != template_file(dir, b),
{
    reveal_strlit("/");
    reveal_strlit(".json");
    let start: int = dir.mkproj@.len() as int + 1;
    let fa = template_file(dir, a);
    let fb = template_file(dir, b);
    if fa == fb {
        assert(fa.len() == fb.len());
        assert(a.len() == b.len());
        assert forall|k: int| 0 <= k < a.len() implies a[k] == b[k] by {
            assert(fa[start + k] == a[k]);
            assert(fb[start + k] == b[k]);
        }
        assert(a =~= b);
    }
}

/// Saving the first `count` of the downloaded templates, each of another name,
/// where no directory is in the place of their files, succeeds: it writes their
/// files and leaves everything else as it was.
pub proof fn lemma_saved(disk: Disk, dir: Dir, items: Seq<(String, Vec<u8>)>, count: int)
    requires
        0 <= count <= items.len(),
        forall|i: int, j: int| 0 <= i < j < items.len() ==> items[i].0@ != items[j].0@,
        forall|i: int| 0 <= i < items.len() ==> !disk.dirs.contains(template_file(dir, (#[trigger] items[i]).0@)),
    ensures
        performed_all(disk, save_steps(dir, items).take(count)) matches Some(after) && ({
            &&& after.dirs == disk.dirs
            &&& forall|i: int|
                0 <= i < count ==> after.files.dom().contains(
                    #[trigger] template_file(dir, items[i].0@),
                ) && after.files[template_file(dir, items[i].0@)] == items[i].1@
            &&& forall|path: Seq<char>| #[trigger]
                untouched(dir, items, count, path) ==> (after.files.dom().contains(path)
                    == disk.files.dom().contains(path) && (disk.files.dom().contains(path)
                    ==> after.files[path] == disk.files[path]))
        }),
    decreases count,
{
    let plan = save_steps(dir, items);
    if count > 0 {
        lemma_saved(disk, dir, items, count - 1);
        let earlier = performed_all(disk, plan.take(count - 1))->0;
        assert(plan.take(count).drop_last() =~= plan.take(count - 1));
        assert(plan.take(count).last() == plan[count - 1]);
        let written = template_file(dir, items[count - 1].0@);
        assert(!earlier.dirs.contains(written));
        let after = performed_all(disk, plan.take(count))->0;
        assert(after.files == earlier.files.insert(written, items[count - 1].1@));
        assert forall|i: int| 0 <= i < count implies after.files.dom().contains(
            #[trigger] template_file(dir, items[i].0@),
        ) && after.files[template_file(dir, items[i].0@)] == items[i].1@ by {
            if i < count - 1 {
                lemma_template_file_distinct(dir, items[i].0@, items[count - 1].0@);
            }
        }
        assert forall|path: Seq<char>| #[trigger]
            untouched(dir, items, count, path) implies (after.files.dom().contains(path)
            == disk.files.dom().contains(path) && (disk.files.dom().contains(path)
            ==> after.files[path] == disk.files[path])) by {
            assert(path != template_file(dir, items[count - 1].0@));
            assert(untouched(dir, items, count - 1, path));
        }
    } else {
        assert(plan.take(0).len() == 0);
    }
}

/// Storing a manifest, clearing the managed catalog and saving the downloaded
/// templates, each of another name, succeeds on a disk that has the managed catalog
/// and no directory in the place of the manifest, and leaves the release in the
/// cache, whatever the disk held before: also what an earlier run left when it was
/// cut short.
pub proof fn lemma_update_replaces_catalog(
    disk: Disk,
    dir: Dir,
    manifest: Seq<u8>,
    items: Seq<(String, Vec<u8>)>,
)
    requires
        dir.wf(),
        disk.wf(),
        forall|i: int, j: int| 0 <= i < j < items.len() ==> items[i].0@ != items[j].0@,
    ensures
        ({
            let plan = store_steps(dir, manifest) + dir.clear_steps() + save_steps(dir, items);
            &&& performed_all(disk, plan) matches Some(after) ==> holds_release(
                after,
                dir,
                manifest,
                items,
            )
            &&& disk.dirs.contains(dir.mkproj@) && !disk.dirs.contains(dir.repo_path_text())
                ==> performed_all(disk, plan) is Some
            &&& !disk.dirs.contains(dir.mkproj@) ==> performed_all(disk, plan) is None
        }),
{
    let store = store_steps(dir, manifest);
    let clear = dir.clear_steps();
    let save = save_steps(dir, items);
    lemma_performed_in_turn(disk, store, clear);
    lemma_performed_in_turn(disk, store + clear, save);
    assert(store.drop_last() =~= Seq::<FsStep>::empty());
    assert(performed_all(disk, store) == performed(
        disk,
        FsStep::WriteFile(dir.repo_path_text(), manifest),
    )) by {
        reveal_with_fuel(performed_all, 2);
    }
    lemma_manifest_not_below(dir);
    if performed_all(disk, store) is Some {
        let stored = performed_all(disk, store)->0;
        assert(clear.drop_last() =~= seq![FsStep::RemoveDirAll(dir.mkproj@)]);
        assert(seq![FsStep::RemoveDirAll(dir.mkproj@)].drop_last() =~= Seq::<FsStep>::empty());
        assert(performed_all(stored, clear) == match performed(
            stored,
            FsStep::RemoveDirAll(dir.mkproj@),
        ) {
            Some(removed) => performed(removed, FsStep::CreateDir(dir.mkproj@)),
            None => None,
        }) by {
            reveal_with_fuel(performed_all, 3);
        }
        if stored.dirs.contains(dir.mkproj@) {
            let removed = without(stored, dir.mkproj@);
            assert(!removed.dirs.contains(dir.mkproj@));
            assert(!removed.files.dom().contains(dir.mkproj@)) by {
                if stored.files.dom().contains(dir.mkproj@) {
                    assert(disk.files.dom().contains(dir.mkproj@));
                    assert(disk.dirs.contains(dir.mkproj@));
                }
            }
            let cleared = performed_all(stored, clear)->0;
            assert(cleared.dirs == removed.dirs.insert(dir.mkproj@));
            assert(cleared.files == removed.files);
            assert forall|i: int| 0 <= i < items.len() implies !cleared.dirs.contains(
                template_file(dir, (#[trigger] items[i]).0@),
            ) by {
                lemma_template_file_below(dir, items[i].0@);
            }
            assert(save.take(items.len() as int) =~= save);
            lemma_saved(cleared, dir, items, items.len() as int);
            let saved = performed_all(cleared, save)->0;
            assert forall|i: int| 0 <= i < items.len() implies dir.repo_path_text()
                != template_file(dir, (#[trigger] items[i]).0@) by {
                lemma_template_file_below(dir, items[i].0@);
            }
            assert(untouched(dir, items, items.len() as int, dir.repo_path_text()));
            assert(cleared.files.dom().contains(dir.repo_path_text()));
            assert(saved.files.dom().contains(dir.repo_path_text()));
            assert(saved.files[dir.repo_path_text()] == manifest);
            assert forall|path: Seq<char>|
                saved.files.dom().contains(path) && is_below(dir.mkproj@, path) implies exists|
                i: int,
            |
                0 <= i < items.len() && path == #[trigger] template_file(dir, items[i].0@) by {
                if untouched(dir, items, items.len() as int, path) {
                    assert(saved.files.dom().contains(path) == cleared.files.dom().contains(path));
                    assert(!cleared.files.dom().contains(path));
                }
            }
        }
    }
}

/// A run that goes from fetching the manifest to its end without stopping has
/// asked for three plans on disk, and with them performed the cache holds the
/// release: the manifest as it was fetched, a file for each template of the
/// manifest with the bytes that were downloaded for it, and nothing else in the
/// managed catalog. This is so whatever the disk held when the run began. On a
/// disk that has the managed catalog, and no directory in the place of the
/// manifest, the plans succeed. The run has ended with telling the user of the
/// version of the manifest.
pub proof fn lemma_run_leaves_release(
    disk: Disk,
    dir: Dir,
    tool: Version,
    text: String,
    items: Vec<(String, Vec<u8>)>,
    storing: SyncState,
    clearing: SyncState,
    downloading: SyncState,
    saving: SyncState,
    updated: SyncState,
    store: SyncAction,
    clear: SyncAction,
    fetch: SyncAction,
    save: SyncAction,
    tell: SyncAction,
)
    requires
        dir.wf(),
        disk.wf(),
        state_fits(SyncState::Fetching, SyncEvent::Remote(text), tool, storing),
        action_fits(SyncState::Fetching, SyncEvent::Remote(text), dir, tool, store),
        state_fits(storing, SyncEvent::Done, tool, clearing),
        action_fits(storing, SyncEvent::Done, dir, tool, clear),
        state_fits(clearing, SyncEvent::Done, tool, downloading),
        action_fits(clearing, SyncEvent::Done, dir, tool, fetch),
        state_fits(downloading, SyncEvent::Downloaded(items), tool, saving),
        action_fits(downloading, SyncEvent::Downloaded(items), dir, tool, save),
        state_fits(saving, SyncEvent::Done, tool, updated),
        action_fits(saving, SyncEvent::Done, dir, tool, tell),
        updated is Updated,
    ensures
        manifest_of(text@) matches Some(manifest) && covers(manifest.templates, items@) && (
        tell matches SyncAction::Notify(message) && message@ == success_text(manifest.version)),
        store matches SyncAction::Perform(first) && clear matches SyncAction::Perform(second)
            && save matches SyncAction::Perform(third) && ({
            let plan = steps(first@) + steps(second@) + steps(third@);
            &&& performed_all(disk, plan) matches Some(after) ==> holds_release(
                after,
                dir,
                encode_utf8(text@),
                items@,
            )
            &&& disk.dirs.contains(dir.mkproj@) && !disk.dirs.contains(dir.repo_path_text())
                ==> performed_all(disk, plan) is Some
        }),
{
    assert(saving is Saving);
    assert(downloading is Downloading);
    assert(clearing is Clearing);
    assert(storing is Storing);
    let manifest = manifest_of(text@)->0;
    assert(covers(manifest.templates, items@));
    assert forall|i: int, j: int| 0 <= i < j < items@.len() implies items@[i].0@ != items@[j].0@ by {
        assert(manifest.templates[i].0 != manifest.templates[j].0);
    }
    lemma_update_replaces_catalog(disk, dir, encode_utf8(text@), items@);
}

/// Once a run has stopped, it asks for nothing on disk any more: whatever is
/// reported to it, it stays stopped and answers with an error.
pub proof fn lemma_stopped_run_stays_stopped(
    event: SyncEvent,
    dir: Dir,
    tool: Version,
    next: SyncState,
    action: SyncAction,
)
    requires
        state_fits(SyncState::Stopped, event, tool, next),
        action_fits(SyncState::Stopped, event, dir, tool, action),
    ensures
        next is Stopped,
        action is Abort,
{
}

/// A manifest that asks for a newer tool than the running one stops the run
/// before anything on disk was asked for: the error names both versions.
pub proof fn lemma_incompatible_tool_stops_run(
    text: String,
    dir: Dir,
    tool: Version,
    next: SyncState,
    action: SyncAction,
)
    requires
        manifest_of(text@) matches Some(manifest) && manifest.min_tool_version.is_after(tool),
        state_fits(SyncState::Checking, SyncEvent::Remote(text), tool, next),
        action_fits(SyncState::Checking, SyncEvent::Remote(text), dir, tool, action),
    ensures
        next is Stopped,
        action == SyncAction::Abort(
            Error::IncompatibleVersion(tool, manifest_of(text@)->0.min_tool_version),
        ),
{
}

/// The steps of a run come in one order. Templates are saved only after all of
/// them were downloaded, they are downloaded only after the catalog was cleared,
/// it is cleared only after the manifest was stored, and the user is told of an
/// update only after the templates were saved. Nothing is asked for on disk before
/// the manifest was fetched to be stored.
pub proof fn lemma_run_is_ordered(
    state: SyncState,
    event: SyncEvent,
    dir: Dir,
    tool: Version,
    next: SyncState,
    action: SyncAction,
)
    requires
        state_fits(state, event, tool, next),
        action_fits(state, event, dir, tool, action),
    ensures
        next is Storing ==> state is Fetching && event is Remote,
        next is Clearing ==> state is Storing && event is Done,
        next is Downloading ==> state is Clearing && event is Done,
        next is Saving ==> state is Downloading && event is Downloaded,
        next is Updated ==> state is Saving && event is Done,
        action is Notify <==> next is Updated,
        action is Download <==> next is Downloading,
        action is Perform <==> next is Storing || next is Clearing || next is Saving,
{
}

} // verus!
