//! The manifest of a catalog: its version, the oldest tool that works with it,
//! and its templates with their descriptions.

use vstd::prelude::*;
use vstd::string::*;
use crate::text::same_text;
use crate::version::{lemma_version_read_back, version_of, Version};

verus! {

/// A manifest as plain values.
pub struct ManifestView {
    pub version: u64,
    pub min_tool_version: Version,
    pub templates: Seq<(Seq<char>, Seq<char>)>,
}

/// The names and descriptions of templates, as plain values.
pub open spec fn entries_view(templates: Seq<(String, String)>) -> Seq<(Seq<char>, Seq<char>)> {
    Seq::new(templates.len(), |i: int| (templates[i].0@, templates[i].1@))
}

/// No name occurs twice among the templates.
pub open spec fn distinct_names(templates: Seq<(Seq<char>, Seq<char>)>) -> bool {
    forall|i: int, j: int|
        0 <= i < j < templates.len() ==> (#[trigger] templates[i]).0 != (#[trigger] templates[j]).0
}

/// Whether a template of the given name is among the templates.
pub open spec fn names_contain(templates: Seq<(Seq<char>, Seq<char>)>, name: Seq<char>) -> bool {
    exists|i: int| 0 <= i < templates.len() && (#[trigger] templates[i]).0 == name
}

/// The integer that a TOML text holds under a key of its root table; nothing where
/// the text is no TOML, or holds no integer under that key.
pub uninterp spec fn toml_integer(text: Seq<char>, key: Seq<char>) -> Option<i64>;

/// The string that a TOML text holds under a key of its root table; nothing where
/// the text is no TOML, or holds no string under that key.
pub uninterp spec fn toml_string(text: Seq<char>, key: Seq<char>) -> Option<Seq<char>>;

/// The entries of the table that a TOML text holds under a key of its root table,
/// each a key and the string under it; nothing where the text is no TOML, holds no
/// table under that key, or holds in that table something other than strings.
pub uninterp spec fn toml_strings(text: Seq<char>, key: Seq<char>) -> Option<
    Seq<(Seq<char>, Seq<char>)>,
>;

/// `toml::from_str` for a table, with `Map::get` and `Value::as_integer`: the
/// integer under a key of the root table that the text holds.
#[verifier::external_body]
fn integer_at(text: &str, key: &str) -> (r: Option<i64>)
    ensures
        r == toml_integer(text@, key@),
{
    toml::from_str::<toml::Table>(text).ok()?.get(key)?.as_integer()
}

/// `toml::from_str` for a table, with `Map::get` and `Value::as_str`: the string
/// under a key of the root table that the text holds.
#[verifier::external_body]
fn string_at(text: &str, key: &str) -> (r: Option<String>)
    ensures
        r is Some <==> toml_string(text@, key@) is Some,
        r matches Some(held) ==> toml_string(text@, key@) == Some(held@),
{
    toml::from_str::<toml::Table>(text).ok()?.get(key)?.as_str().map(str::to_string)
}

/// `toml::from_str` for a table, with `Map::get`, `Value::as_table`, `Map::iter`
/// and `Value::as_str`: the entries of the table under a key of the root table that
/// the text holds, where all of them are strings.
#[verifier::external_body]
fn strings_at(text: &str, key: &str) -> (r: Option<Vec<(String, String)>>)
    ensures
        r is Some <==> toml_strings(text@, key@) is Some,
        r matches Some(held) ==> toml_strings(text@, key@) == Some(entries_view(held@)),
{
    let root = toml::from_str::<toml::Table>(text).ok()?;
    let table = root.get(key)?.as_table()?;
    table.iter().map(|(name, value)| Some((name.clone(), value.as_str()?.to_string()))).collect()
}

/// The TOML text of a root table that holds an integer, a string and a table of
/// strings, each under its key, in this order. The table holds the strings of the
/// entries under their keys, in the order in which the keys first occur; of two
/// entries with one key it holds the string of the later.
pub uninterp spec fn toml_text(
    integer_key: Seq<char>,
    integer: i64,
    string_key: Seq<char>,
    string: Seq<char>,
    table_key: Seq<char>,
    entries: Seq<(Seq<char>, Seq<char>)>,
) -> Seq<char>;

/// `toml::to_string_pretty` for a root table made of an integer, a string and a
/// table of strings, each under its key.
#[verifier::external_body]
fn table_text(
    integer_key: &str,
    integer: i64,
    string_key: &str,
    string: &str,
    table_key: &str,
    entries: &Vec<(String, String)>,
) -> (text: String)
    ensures
        text@ == toml_text(
            integer_key@,
            integer,
            string_key@,
            string@,
            table_key@,
            entries_view(entries@),
        ),
{
    let mut table = toml::Table::new();
    for (name, held) in entries {
        table.insert(name.clone(), toml::Value::String(held.clone()));
    }
    let mut root = toml::Table::new();
    root.insert(integer_key.to_string(), toml::Value::Integer(integer));
    root.insert(string_key.to_string(), toml::Value::String(string.to_string()));
    root.insert(table_key.to_string(), toml::Value::Table(table));
    toml::to_string_pretty(&root).unwrap_or_default()
}

/// Whether a version can be written into a manifest: TOML holds no larger integer.
pub open spec fn writable(version: u64) -> bool {
    version <= 0x7fff_ffff_ffff_ffff
}

/// The TOML text of a manifest: its `version`, its `min_tool_version` written like
/// `3.1.0`, and its `templates`.
pub open spec fn manifest_text(manifest: ManifestView) -> Seq<char> {
    toml_text(
        "version"@,
        manifest.version as i64,
        "min_tool_version"@,
        manifest.min_tool_version.numbers(),
        "templates"@,
        manifest.templates,
    )
}

/// The manifest that a TOML text holds: its `version`, a number that is not
/// negative; its `templates`, a table of descriptions by the names of the
/// templates; and, as `min_tool_version`, the oldest version of the tool that works
/// with it, written like `3.1.0`. A text that names no oldest version works with
/// every tool.
pub open spec fn manifest_of(text: Seq<char>) -> Option<ManifestView> {
    match (toml_integer(text, "version"@), toml_strings(text, "templates"@)) {
        (Some(version), Some(templates)) => if version < 0 || !distinct_names(templates) {
            None
        } else {
            match toml_string(text, "min_tool_version"@) {
                None => Some(
                    ManifestView {
                        version: version as u64,
                        min_tool_version: Version { major: 0, minor: 0, patch: 0 },
                        templates,
                    },
                ),
                Some(oldest) => match version_of(oldest) {
                    Some(min_tool_version) => Some(
                        ManifestView { version: version as u64, min_tool_version, templates },
                    ),
                    None => None,
                },
            }
        },
        _ => None,
    }
}

/// Whether a TOML text holds the values of a manifest under the keys of a manifest:
/// its version, its oldest version of the tool written as three numbers, and its
/// templates.
pub open spec fn holds_values(text: Seq<char>, manifest: ManifestView) -> bool {
    &&& toml_integer(text, "version"@) == Some(manifest.version as i64)
    &&& toml_string(text, "min_tool_version"@) == Some(manifest.min_tool_version.numbers())
    &&& toml_strings(text, "templates"@) == Some(manifest.templates)
}

/// A manifest is read back from every text that holds its values: its version, the
/// oldest version of the tool and each template with its description are those
/// that were written. That the text which `to_string` writes holds the values it
/// was written from is left to the TOML writer and reader, and is not stated here.
pub proof fn lemma_manifest_read_back(text: Seq<char>, manifest: ManifestView)
    requires
        writable(manifest.version),
        distinct_names(manifest.templates),
        holds_values(text, manifest),
    ensures
        manifest_of(text) == Some(manifest),
{
    lemma_version_read_back(manifest.min_tool_version);
    assert(manifest.version as i64 >= 0);
    assert((manifest.version as i64) as u64 == manifest.version);
}

/// The manifest of a catalog.
#[derive(Debug)]
pub struct Manifest {
    version: u64,
    min_tool_version: Version,
    templates: Vec<(String, String)>,
}

impl View for Manifest {
    type V = ManifestView;

    closed spec fn view(&self) -> ManifestView {
        ManifestView {
            version: self.version,
            min_tool_version: self.min_tool_version,
            templates: entries_view(self.templates@),
        }
    }
}

impl Manifest {
    /// Each template is named once.
    #[verifier::type_invariant]
    pub open spec fn wf(&self) -> bool {
        distinct_names(self@.templates)
    }

    /// Makes a manifest of its version, the oldest version of the tool that works
    /// with it, and its templates, each a name and a description. Templates that
    /// name one template twice make no manifest.
    pub fn new(version: u64, min_tool_version: Version, templates: Vec<(String, String)>) -> (r:
        Option<Manifest>)
        ensures
            r is Some <==> distinct_names(entries_view(templates@)),
            r matches Some(manifest) ==> manifest.wf() && manifest@ == (ManifestView {
                version,
                min_tool_version,
                templates: entries_view(templates@),
            }),
    {
        let ghost names = entries_view(templates@);
        let mut j: usize = 0;
        while j < templates.len()
            invariant
                j <= templates.len(),
                names == entries_view(templates@),
                forall|a: int, b: int| 0 <= a < b < j ==> (#[trigger] names[a]).0 != (#[trigger] names[b]).0,
            decreases templates.len() - j,
        {
            let mut i: usize = 0;
            while i < j
                invariant
                    i <= j < templates.len(),
                    names == entries_view(templates@),
                    forall|a: int| 0 <= a < i ==> (#[trigger] names[a]).0 != names[j as int].0,
                decreases j - i,
            {
                if same_text(templates[i].0.as_str(), templates[j].0.as_str()) {
                    assert(names[i as int].0 == names[j as int].0);
                    return None;
                }
                i += 1;
            }
            j += 1;
        }
        Some(Manifest { version, min_tool_version, templates })
    }

    /// Reads a manifest from its TOML text. A text that holds no manifest gives
    /// nothing.
    pub fn from_string(text: &str) -> (r: Option<Manifest>)
        ensures
            r is Some <==> manifest_of(text@) is Some,
            r matches Some(manifest) ==> manifest_of(text@) == Some(manifest@),
    {
        let version = match integer_at(text, "version") {
            Some(version) => version,
            None => {
                return None;
            },
        };
        let templates = match strings_at(text, "templates") {
            Some(templates) => templates,
            None => {
                return None;
            },
        };
        if version < 0 {
            return None;
        }
        let min_tool_version = match string_at(text, "min_tool_version") {
            None => Version::new(0, 0, 0),
            Some(oldest) => match Version::parse(oldest.as_str()) {
                Some(oldest) => oldest,
                None => {
                    return None;
                },
            },
        };
        Manifest::new(version as u64, min_tool_version, templates)
    }

    /// Writes the manifest as TOML text, in the form in which `from_string` reads
    /// it. A manifest of a version that TOML does not hold gives nothing.
    pub fn to_string(&self) -> (r: Option<String>)
        ensures
            r is Some <==> writable(self@.version),
            r matches Some(text) ==> text@ == manifest_text(self@),
    {
        if self.version > 0x7fff_ffff_ffff_ffff {
            return None;
        }
        let oldest = self.min_tool_version.to_numbers();
        Some(
            table_text(
                "version",
                self.version as i64,
                "min_tool_version",
                oldest.as_str(),
                "templates",
                &self.templates,
            ),
        )
    }

    /// The version of the catalog.
    pub fn version(&self) -> (version: u64)
        ensures
            version == self@.version,
    {
        self.version
    }

    /// The oldest version of the tool that works with the catalog.
    pub fn texc_vers(&self) -> (version: Version)
        ensures
            version == self@.min_tool_version,
    {
        self.min_tool_version
    }

    /// The number of templates.
    pub fn num(&self) -> (num: usize)
        ensures
            num == self@.templates.len(),
    {
        self.templates.len()
    }

    /// The name of the template at `index`.
    pub fn name(&self, index: usize) -> (name: &str)
        requires
            index < self@.templates.len(),
        ensures
            name@ == self@.templates[index as int].0,
    {
        self.templates[index].0.as_str()
    }

    /// The description of the template at `index`.
    pub fn description(&self, index: usize) -> (description: &str)
        requires
            index < self@.templates.len(),
        ensures
            description@ == self@.templates[index as int].1,
    {
        self.templates[index].1.as_str()
    }

    /// Whether the catalog has a template of the given name.
    pub fn template_exist(&self, name: &str) -> (r: bool)
        ensures
            r == names_contain(self@.templates, name@),
    {
        let mut i: usize = 0;
        while i < self.templates.len()
            invariant
                i <= self.templates.len(),
                forall|a: int| 0 <= a < i ==> (#[trigger] self@.templates[a]).0 != name@,
            decreases self.templates.len() - i,
        {
            if same_text(self.templates[i].0.as_str(), name) {
                assert(self@.templates[i as int].0 == name@);
                return true;
            }
            i += 1;
        }
        false
    }
}

} // verus!
