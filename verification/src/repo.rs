//! Addresses of the remote catalog and the rules of a synchronisation run.

use vstd::prelude::*;
use vstd::string::*;
use vstd::utf8::encode_utf8;
use crate::dir::{join_text, steps, CachedFile, Dir, FsAction, FsStep};
use crate::error::Error;
use crate::manifest::{manifest_of, Manifest, ManifestView};
use crate::version::Version;
use crate::text::{
    decimal, decimal_number, decimal_string, parse_u64, same_text, texts, trim, trimmed,
};

verus! {

/// The address of the template `name` in release `num` of the remote catalog.
pub open spec fn gh_link_text(num: u64, name: Seq<char>) -> Seq<char> {
    "https://github.com/MKProj/mkproj_texcgen/releases/download/v"@ + decimal(num as nat) + "/"@
        + name + ".json"@
}

/// The address of the manifest of release `num` of the remote catalog.
pub open spec fn repo_link_text(num: u64) -> Seq<char> {
    "https://github.com/MKProj/mkproj_texcgen/releases/download/v"@ + decimal(num as nat)
        + "/repo.toml"@
}

/// Returns the address from which the template `name` of release `num` is downloaded.
pub fn gh_link(num: u64, name: &str) -> (link: String)
    ensures
        link@ == gh_link_text(num, name@),
{
    let mut link = String::from_str("https://github.com/MKProj/mkproj_texcgen/releases/download/v");
    let digits = decimal_string(num);
    link.append(digits.as_str());
    link.append("/");
    link.append(name);
    link.append(".json");
    link
}

/// Returns the address from which the manifest of release `num` is downloaded.
pub fn repo_link(num: u64) -> (link: String)
    ensures
        link@ == repo_link_text(num),
{
    let mut link = String::from_str("https://github.com/MKProj/mkproj_texcgen/releases/download/v");
    let digits = decimal_string(num);
    link.append(digits.as_str());
    link.append("/repo.toml");
    link
}

/// The address that answers with the number of the latest release.
pub open spec fn latest_link_text() -> Seq<char> {
    "https://texcreate.mkproj.com"@ + "/repo/latest"@
}

/// Returns the address that answers with the number of the latest release.
pub fn latest_link() -> (link: String)
    ensures
        link@ == latest_link_text(),
{
    let mut link = String::from_str("https://texcreate.mkproj.com");
    link.append("/repo/latest");
    link
}

/// The number of the latest release as the remote answer gives it: the answer
/// without the white space at its ends, read as a decimal number.
pub open spec fn latest_num(body: Seq<char>) -> Option<nat> {
    decimal_number(trimmed(body))
}

/// Reads the number of the latest release from the answer to the request for it,
/// given as it came (`body`) and without the white space around it (`number`): a
/// decimal number that `u64` holds. Any other answer is refused as it came.
pub fn read_latest_num(number: &str, body: &str) -> (r: Result<u64, Error>)
    ensures
        match decimal_number(number@) {
            Some(n) if n <= u64::MAX => r == Ok::<u64, Error>(n as u64),
            _ => r matches Err(Error::InvalidInput(given)) && given@ == body@,
        },
{
    match parse_u64(number) {
        Some(num) => Ok(num),
        None => Err(Error::InvalidInput(String::from_str(body))),
    }
}

/// Reads the number of the latest release from the answer to the request for it.
/// No answer in time is a timeout; an answer that is no number that `u64` holds
/// is invalid input.
pub fn get_latest_num(response: Option<&str>) -> (r: Result<u64, Error>)
    ensures
        response is None ==> r == Err::<u64, Error>(Error::Timeout),
        response matches Some(body) ==> match latest_num(body@) {
            Some(n) if n <= u64::MAX => r == Ok::<u64, Error>(n as u64),
            _ => r matches Err(Error::InvalidInput(given)) && given@ == body@,
        },
{
    match response {
        None => Err(Error::Timeout),
        Some(body) => read_latest_num(trim(body), body),
    }
}

/// The address of the manifest of the latest release, read from the answer to the
/// request for the number of that release. No answer in time is a timeout; an
/// answer that is no number that `u64` holds is invalid input.
pub fn manifest_link(response: Option<&str>) -> (r: Result<String, Error>)
    ensures
        response is None ==> r == Err::<String, Error>(Error::Timeout),
        response matches Some(body) ==> match latest_num(body@) {
            Some(n) if n <= u64::MAX => r matches Ok(link) && link@ == repo_link_text(n as u64),
            _ => r matches Err(Error::InvalidInput(given)) && given@ == body@,
        },
{
    match get_latest_num(response) {
        Ok(num) => Ok(repo_link(num)),
        Err(error) => Err(error),
    }
}

/// The line that tells of release `latest`.
pub open spec fn alert_line(latest: u64) -> Seq<char> {
    "| Update to the latest repo: v"@ + decimal(latest as nat) + "! |"@
}

/// A rule of `len` dashes.
pub open spec fn rule(len: nat) -> Seq<char> {
    Seq::new(len, |i: int| '-')
}

/// The banner that tells of release `latest`: its line between two rules as long
/// as the line.
pub open spec fn banner(latest: u64) -> Seq<char> {
    rule(alert_line(latest).len()) + "\n"@ + alert_line(latest) + "\n"@ + rule(
        alert_line(latest).len(),
    )
}

/// What the user is told of a new release: the banner where both versions are
/// known and the latest release is newer than the cached one, else nothing.
pub open spec fn alert(cached: Option<u64>, latest: Option<u64>) -> Option<Seq<char>> {
    match (cached, latest) {
        (Some(have), Some(offered)) if offered > have => Some(banner(offered)),
        _ => None,
    }
}

fn dashes(len: usize) -> (s: String)
    ensures
        s@ == rule(len as nat),
{
    let mut s = String::new();
    let mut i: usize = 0;
    proof {
        reveal_strlit("-");
    }
    while i < len
        invariant
            i <= len,
            s@ == rule(i as nat),
            "-"@ == seq!['-'],
        decreases len - i,
    {
        s.append("-");
        i += 1;
        assert(s@ =~= rule(i as nat));
    }
    s
}

/// Tells whether a newer release than the cached one is offered. `cached` is the
/// version of the manifest in the cache, if there is one; `latest` is the number
/// of the latest release, if the remote gave it in time. Nothing is changed, and
/// the same versions give the same answer.
pub fn update_alert(cached: Option<u64>, latest: Option<u64>) -> (r: Option<String>)
    ensures
        r is Some <==> alert(cached, latest) is Some,
        r matches Some(message) ==> Some(message@) == alert(cached, latest),
{
    match (cached, latest) {
        (Some(have), Some(offered)) => {
            if offered > have {
                let mut line = String::from_str("| Update to the latest repo: v");
                let digits = decimal_string(offered);
                line.append(digits.as_str());
                line.append("! |");
                let pattern = dashes(line.as_str().unicode_len());
                let mut message = pattern.clone();
                message.append("\n");
                message.append(line.as_str());
                message.append("\n");
                message.append(pattern.as_str());
                Some(message)
            } else {
                None
            }
        },
        _ => None,
    }
}

/// Looks for a newer release than the one in the cache, from the manifest among the
/// files read from the cache, if there is one, and the answer to the request for the
/// number of the latest release, if there was one in time. A cache without a
/// manifest, no answer and an answer that is no number all give nothing, and so does
/// a release that is not newer. The cache is not changed.
pub fn check_for_update(dir: &Dir, files: &Vec<CachedFile>, response: Option<&str>) -> (r: Option<
    String,
>)
    ensures
        r is Some <==> alert(cached_version(*dir, files@), offered_version(response)) is Some,
        r matches Some(message) ==> Some(message@) == alert(
            cached_version(*dir, files@),
            offered_version(response),
        ),
{
    let cached = match dir.read_repo(files) {
        Ok(manifest) => Some(manifest.version()),
        Err(_) => None,
    };
    let latest = match get_latest_num(response) {
        Ok(num) => Some(num),
        Err(_) => None,
    };
    update_alert(cached, latest)
}

/// The version of the manifest in the cache, if its file is among the files and
/// holds one.
pub open spec fn cached_version(dir: Dir, files: Seq<CachedFile>) -> Option<u64> {
    match dir.cached_manifest(files) {
        Some(manifest) => Some(manifest.version),
        None => None,
    }
}

/// The number of the latest release that the answer gives, if there is an answer
/// and it gives one.
pub open spec fn offered_version(response: Option<&str>) -> Option<u64> {
    match response {
        Some(body) => match latest_num(body@) {
            Some(n) if n <= u64::MAX => Some(n as u64),
            _ => None,
        },
        None => None,
    }
}

/// Looking twice for a newer release, with the same manifest in the cache and the
/// same answer from the remote, tells the user the same both times.
pub proof fn lemma_alert_repeats(
    cached: Option<u64>,
    latest: Option<u64>,
    first: Option<String>,
    second: Option<String>,
)
    requires
        first is Some <==> alert(cached, latest) is Some,
        first matches Some(message) ==> Some(message@) == alert(cached, latest),
        second is Some <==> alert(cached, latest) is Some,
        second matches Some(message) ==> Some(message@) == alert(cached, latest),
    ensures
        first is Some <==> second is Some,
        first is Some ==> first->0@ == second->0@,
{
}

/// A release that is as new as the cached one, or older, gives no banner; a newer
/// one gives the banner that names it.
pub proof fn lemma_alert_only_when_newer(have: u64, offered: u64)
    ensures
        offered <= have ==> alert(Some(have), Some(offered)) is None,
        offered > have ==> alert(Some(have), Some(offered)) == Some(banner(offered)),
        alert(None, Some(offered)) is None,
        alert(Some(have), None) is None,
{
}

/// The line that shows the template at `index` with its description.
pub open spec fn template_line(manifest: ManifestView, index: int) -> Seq<char> {
    "=> "@ + manifest.templates[index].0 + ": "@ + manifest.templates[index].1
}

/// The lines that show a manifest: its version, the number of its templates, and
/// between two rules each template with its description.
pub open spec fn display_lines(manifest: ManifestView) -> Seq<Seq<char>> {
    seq![
        "TexCreate Repo: v"@ + decimal(manifest.version as nat),
        "Number of Templates: "@ + decimal(manifest.templates.len()),
        "======TEMPLATES======"@,
    ] + Seq::new(manifest.templates.len(), |i: int| template_line(manifest, i)) + seq![
        "====================="@,
    ]
}

/// The lines that show the templates of a manifest with their descriptions.
pub fn repo_display(manifest: &Manifest) -> (lines: Vec<String>)
    ensures
        texts(lines@) == display_lines(manifest@),
{
    let mut lines: Vec<String> = Vec::new();
    let mut title = String::from_str("TexCreate Repo: v");
    let version = decimal_string(manifest.version());
    title.append(version.as_str());
    lines.push(title);
    let mut count = String::from_str("Number of Templates: ");
    let num = decimal_string(manifest.num() as u64);
    count.append(num.as_str());
    lines.push(count);
    lines.push(String::from_str("======TEMPLATES======"));
    let ghost head = texts(lines@);
    let ghost shown = Seq::new(manifest@.templates.len(), |i: int| template_line(manifest@, i));
    let mut i: usize = 0;
    while i < manifest.num()
        invariant
            i <= manifest@.templates.len(),
            shown == Seq::new(manifest@.templates.len(), |i: int| template_line(manifest@, i)),
            texts(lines@) == head + shown.take(i as int),
        decreases manifest@.templates.len() - i,
    {
        let mut line = String::from_str("=> ");
        line.append(manifest.name(i));
        line.append(": ");
        line.append(manifest.description(i));
        let ghost before = texts(lines@);
        lines.push(line);
        assert(texts(lines@) =~= before.push(shown[i as int]));
        i += 1;
        assert(texts(lines@) =~= head + shown.take(i as int));
    }
    assert(shown.take(i as int) =~= shown);
    let ghost before = texts(lines@);
    lines.push(String::from_str("====================="));
    assert(texts(lines@) =~= before.push("====================="@));
    assert(texts(lines@) =~= display_lines(manifest@));
    lines
}

/// A template to download: its name and the address of its bytes.
#[derive(Debug)]
pub struct Download {
    pub name: String,
    pub link: String,
}

/// Where a synchronisation run stands.
#[derive(Debug)]
pub enum SyncState {
    /// Nothing was done yet.
    Start,
    /// The remote manifest was asked for, to hold it against the running tool.
    Checking,
    /// The remote manifest was asked for, to store it.
    Fetching,
    /// The manifest is being stored in the cache.
    Storing(Manifest),
    /// The managed catalog is being cleared.
    Clearing(Manifest),
    /// The templates of the manifest are being downloaded.
    Downloading(Manifest),
    /// The templates are being saved to the managed catalog.
    Saving(Manifest),
    /// The run has ended and the cache holds the release.
    Updated,
    /// The run has ended without updating the cache.
    Stopped,
}

/// What the caller reports to a synchronisation run.
#[derive(Debug)]
pub enum SyncEvent {
    /// The run begins; whether the cache holds a manifest.
    Begin(bool),
    /// The remote manifest has arrived: its text.
    Remote(String),
    /// The steps on disk that were asked for are done.
    Done,
    /// All downloads have ended: for each template its name and its bytes, in the
    /// order in which they were asked for.
    Downloaded(Vec<(String, Vec<u8>)>),
    /// What was asked for has failed.
    Failed(Error),
}

/// What a synchronisation run asks of the caller.
#[derive(Debug)]
pub enum SyncAction {
    /// Fetch the manifest of the latest release and report its text: ask at the
    /// given address for the number of the latest release, and fetch the manifest
    /// from the address that `manifest_link` reads from the answer.
    Fetch(String),
    /// Perform the steps on disk, in their order, and report that they are done.
    Perform(Vec<FsAction>),
    /// Download all the templates, each on its own, and report them together.
    Download(Vec<Download>),
    /// Tell the user that the cache was updated; the run has ended.
    Notify(String),
    /// Tell the user of the error; the run has ended.
    Abort(Error),
}

/// The file of the template `name` in the managed catalog.
pub open spec fn template_file(dir: Dir, name: Seq<char>) -> Seq<char> {
    join_text(dir.mkproj@, name + ".json"@)
}

/// The steps that store a manifest with the given bytes.
pub open spec fn store_steps(dir: Dir, bytes: Seq<u8>) -> Seq<FsStep> {
    seq![FsStep::WriteFile(dir.repo_path_text(), bytes)]
}

/// The steps that save the downloaded templates, in their order.
pub open spec fn save_steps(dir: Dir, items: Seq<(String, Vec<u8>)>) -> Seq<FsStep> {
    Seq::new(items.len(), |i: int| FsStep::WriteFile(template_file(dir, items[i].0@), items[i].1@))
}

/// The downloads that a manifest asks for: one for each template, in their order,
/// from the release that the manifest is of.
pub open spec fn wanted(manifest: ManifestView) -> Seq<(Seq<char>, Seq<char>)> {
    Seq::new(
        manifest.templates.len(),
        |i: int| (manifest.templates[i].0, gh_link_text(manifest.version, manifest.templates[i].0)),
    )
}

/// The downloads as plain values: names and addresses.
pub open spec fn downloads_view(list: Seq<Download>) -> Seq<(Seq<char>, Seq<char>)> {
    Seq::new(list.len(), |i: int| (list[i].name@, list[i].link@))
}

/// The downloaded items are those of the templates, one for each, in their order.
pub open spec fn covers(templates: Seq<(Seq<char>, Seq<char>)>, items: Seq<(String, Vec<u8>)>) -> bool {
    &&& items.len() == templates.len()
    &&& forall|i: int| 0 <= i < templates.len() ==> (#[trigger] items[i]).0@ == templates[i].0
}

/// What the user is told when the cache holds release `version`.
pub open spec fn success_text(version: u64) -> Seq<char> {
    "Successfully updated to repo v"@ + decimal(version as nat) + "!"@
}

/// Whether `next` is the state that follows `state` when `event` is reported to a
/// run of the tool of version `tool`.
pub open spec fn state_fits(state: SyncState, event: SyncEvent, tool: Version, next: SyncState) -> bool {
    match (state, event) {
        (_, SyncEvent::Failed(_)) => next is Stopped,
        (SyncState::Start, SyncEvent::Begin(cached)) => if cached {
            next is Checking
        } else {
            next is Fetching
        },
        (SyncState::Checking, SyncEvent::Remote(text)) => match manifest_of(text@) {
            Some(manifest) => if manifest.min_tool_version.is_after(tool) {
                next is Stopped
            } else {
                next is Fetching
            },
            None => next is Stopped,
        },
        (SyncState::Fetching, SyncEvent::Remote(text)) => match manifest_of(text@) {
            Some(manifest) => next matches SyncState::Storing(held) && held@ == manifest,
            None => next is Stopped,
        },
        (SyncState::Storing(manifest), SyncEvent::Done) => next == SyncState::Clearing(manifest),
        (SyncState::Clearing(manifest), SyncEvent::Done) => next == SyncState::Downloading(
            manifest,
        ),
        (SyncState::Downloading(manifest), SyncEvent::Downloaded(items)) => if covers(
            manifest@.templates,
            items@,
        ) {
            next == SyncState::Saving(manifest)
        } else {
            next is Stopped
        },
        (SyncState::Saving(_), SyncEvent::Done) => next is Updated,
        _ => next is Stopped,
    }
}

/// Whether `action` asks for the manifest of the latest release, beginning at the
/// address that gives the number of that release.
pub open spec fn asks_latest(action: SyncAction) -> bool {
    action matches SyncAction::Fetch(link) && link@ == latest_link_text()
}

/// Whether `action` is what a run in `state` asks for when `event` is reported.
pub open spec fn action_fits(
    state: SyncState,
    event: SyncEvent,
    dir: Dir,
    tool: Version,
    action: SyncAction,
) -> bool {
    match (state, event) {
        (_, SyncEvent::Failed(error)) => action == SyncAction::Abort(error),
        (SyncState::Start, SyncEvent::Begin(_)) => asks_latest(action),
        (SyncState::Checking, SyncEvent::Remote(text)) => match manifest_of(text@) {
            Some(manifest) => if manifest.min_tool_version.is_after(tool) {
                action == SyncAction::Abort(
                    Error::IncompatibleVersion(tool, manifest.min_tool_version),
                )
            } else {
                asks_latest(action)
            },
            None => action == SyncAction::Abort(Error::InvalidInput(text)),
        },
        (SyncState::Fetching, SyncEvent::Remote(text)) => match manifest_of(text@) {
            Some(_) => action matches SyncAction::Perform(plan) && steps(plan@) == store_steps(
                dir,
                encode_utf8(text@),
            ),
            None => action == SyncAction::Abort(Error::InvalidInput(text)),
        },
        (SyncState::Storing(_), SyncEvent::Done) => action matches SyncAction::Perform(plan)
            && steps(plan@) == dir.clear_steps(),
        (SyncState::Clearing(manifest), SyncEvent::Done) => action matches SyncAction::Download(list)
            && downloads_view(list@) == wanted(manifest@),
        (SyncState::Downloading(manifest), SyncEvent::Downloaded(items)) => if covers(
            manifest@.templates,
            items@,
        ) {
            action matches SyncAction::Perform(plan) && steps(plan@) == save_steps(dir, items@)
        } else {
            action matches SyncAction::Abort(error) && error is Network
        },
        (SyncState::Saving(manifest), SyncEvent::Done) => action matches SyncAction::Notify(message)
            && message@ == success_text(manifest@.version),
        _ => action matches SyncAction::Abort(error) && error is InvalidInput,
    }
}

fn out_of_order() -> (r: (SyncState, SyncAction))
    ensures
        r.0 is Stopped,
        r.1 matches SyncAction::Abort(error) && error is InvalidInput,
{
    (
        SyncState::Stopped,
        SyncAction::Abort(Error::InvalidInput(String::from_str("event out of order"))),
    )
}

/// Tells whether the downloaded items are those of the manifest's templates, one
/// for each, in their order.
pub fn complete(manifest: &Manifest, items: &Vec<(String, Vec<u8>)>) -> (r: bool)
    ensures
        r == covers(manifest@.templates, items@),
{
    if items.len() != manifest.num() {
        return false;
    }
    let mut i: usize = 0;
    while i < items.len()
        invariant
            i <= items.len(),
            items.len() == manifest@.templates.len(),
            forall|j: int| 0 <= j < i ==> (#[trigger] items@[j]).0@ == manifest@.templates[j].0,
        decreases items.len() - i,
    {
        if !same_text(items[i].0.as_str(), manifest.name(i)) {
            return false;
        }
        i += 1;
    }
    true
}

/// The downloads that a manifest asks for.
pub fn downloads(manifest: &Manifest) -> (list: Vec<Download>)
    ensures
        downloads_view(list@) == wanted(manifest@),
{
    let mut list: Vec<Download> = Vec::new();
    let mut i: usize = 0;
    while i < manifest.num()
        invariant
            i <= manifest@.templates.len(),
            downloads_view(list@) == wanted(manifest@).take(i as int),
        decreases manifest@.templates.len() - i,
    {
        let name = manifest.name(i);
        let ghost before = downloads_view(list@);
        list.push(Download { name: String::from_str(name), link: gh_link(manifest.version(), name) });
        assert(downloads_view(list@) =~= before.push(wanted(manifest@)[i as int]));
        i += 1;
        assert(downloads_view(list@) =~= wanted(manifest@).take(i as int));
    }
    assert(wanted(manifest@).take(i as int) =~= wanted(manifest@));
    list
}

/// The steps that save the downloaded templates to the managed catalog, each
/// under its name with the extension `.json`.
pub fn saves(dir: &Dir, items: &Vec<(String, Vec<u8>)>) -> (plan: Vec<FsAction>)
    ensures
        steps(plan@) == save_steps(*dir, items@),
{
    let mut plan: Vec<FsAction> = Vec::new();
    let mut i: usize = 0;
    while i < items.len()
        invariant
            i <= items.len(),
            steps(plan@) == save_steps(*dir, items@).take(i as int),
        decreases items.len() - i,
    {
        let mut file_name = items[i].0.clone();
        file_name.append(".json");
        let bytes = items[i].1.clone();
        assert(bytes@ =~= items@[i as int].1@);
        let ghost before = steps(plan@);
        plan.push(dir.save_mkproj(file_name.as_str(), bytes));
        assert(steps(plan@) =~= before.push(save_steps(*dir, items@)[i as int]));
        i += 1;
        assert(steps(plan@) =~= save_steps(*dir, items@).take(i as int));
    }
    assert(save_steps(*dir, items@).take(i as int) =~= save_steps(*dir, items@));
    plan
}

/// One step of a synchronisation run to the latest release: takes the state of the
/// run and what the caller reports, and gives the next state and what the caller is
/// to do. A run starts in `Start` with `Begin`, and has ended with `Notify` or `Abort`.
///
/// A run checks first that the running tool is not older than the remote manifest
/// asks for, where the cache holds a manifest; then it stores the remote manifest,
/// clears the managed catalog, has all templates downloaded, and saves them. Only
/// then is the user told of an update.
pub fn repo_update(state: SyncState, event: SyncEvent, dir: &Dir, tool: Version) -> (r: (
    SyncState,
    SyncAction,
))
    ensures
        state_fits(state, event, tool, r.0),
        action_fits(state, event, *dir, tool, r.1),
{
    match (state, event) {
        (_, SyncEvent::Failed(error)) => (SyncState::Stopped, SyncAction::Abort(error)),
        (SyncState::Start, SyncEvent::Begin(cached)) => {
            if cached {
                (SyncState::Checking, SyncAction::Fetch(latest_link()))
            } else {
                (SyncState::Fetching, SyncAction::Fetch(latest_link()))
            }
        },
        (SyncState::Checking, SyncEvent::Remote(text)) => {
            match Manifest::from_string(text.as_str()) {
                Some(manifest) => {
                    let required = manifest.texc_vers();
                    if required.newer_than(&tool) {
                        (
                            SyncState::Stopped,
                            SyncAction::Abort(Error::IncompatibleVersion(tool, required)),
                        )
                    } else {
                        (SyncState::Fetching, SyncAction::Fetch(latest_link()))
                    }
                },
                None => (SyncState::Stopped, SyncAction::Abort(Error::InvalidInput(text))),
            }
        },
        (SyncState::Fetching, SyncEvent::Remote(text)) => {
            match Manifest::from_string(text.as_str()) {
                Some(manifest) => {
                    let mut plan = Vec::new();
                    plan.push(dir.save_repo(text.as_str()));
                    assert(steps(plan@) =~= store_steps(*dir, encode_utf8(text@)));
                    (SyncState::Storing(manifest), SyncAction::Perform(plan))
                },
                None => (SyncState::Stopped, SyncAction::Abort(Error::InvalidInput(text))),
            }
        },
        (SyncState::Storing(manifest), SyncEvent::Done) => {
            (SyncState::Clearing(manifest), SyncAction::Perform(dir.clear()))
        },
        (SyncState::Clearing(manifest), SyncEvent::Done) => {
            let list = downloads(&manifest);
            (SyncState::Downloading(manifest), SyncAction::Download(list))
        },
        (SyncState::Downloading(manifest), SyncEvent::Downloaded(items)) => {
            if complete(&manifest, &items) {
                let plan = saves(dir, &items);
                (SyncState::Saving(manifest), SyncAction::Perform(plan))
            } else {
                (
                    SyncState::Stopped,
                    SyncAction::Abort(
                        Error::Network(String::from_str("a template was not downloaded")),
                    ),
                )
            }
        },
        (SyncState::Saving(manifest), SyncEvent::Done) => {
            let mut message = String::from_str("Successfully updated to repo v");
            let digits = decimal_string(manifest.version());
            message.append(digits.as_str());
            message.append("!");
            (SyncState::Updated, SyncAction::Notify(message))
        },
        _ => out_of_order(),
    }
}

} // verus!
