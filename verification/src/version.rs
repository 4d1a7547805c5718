//! Versions of the tool, as a manifest names the oldest one it works with.

use vstd::prelude::*;
use vstd::string::*;
use vstd::utf8::is_ascii_chars;
use crate::text::{
    decimal, decimal_number, decimal_string, is_digit, lemma_decimal_read_back,
    lemma_number_is_ascii, lemma_split_at_first_dot, lemma_split_joins, parse_u64, split_dot,
    split_once_dot,
};

verus! {

/// A version made of a major, a minor and a patch number.
#[derive(Clone, Copy, Debug, PartialEq, Eq, Structural)]
pub struct Version {
    pub major: u8,
    pub minor: u8,
    pub patch: u8,
}

/// The number below 256 that a text stands for in decimal notation.
pub open spec fn small_number(text: Seq<char>) -> Option<u8> {
    match decimal_number(text) {
        Some(n) if n <= u8::MAX => Some(n as u8),
        _ => None,
    }
}

/// The version that a text stands for: three numbers below 256 in decimal
/// notation with a dot after the first and after the second.
pub open spec fn version_of(text: Seq<char>) -> Option<Version> {
    match split_dot(text) {
        Some((major, rest)) => match split_dot(rest) {
            Some((minor, patch)) => match (
                small_number(major),
                small_number(minor),
                small_number(patch),
            ) {
                (Some(major), Some(minor), Some(patch)) => Some(Version { major, minor, patch }),
                _ => None,
            },
            None => None,
        },
        None => None,
    }
}

/// A number written in decimal notation, with a dot and a text after it, is split
/// into the number and that text.
pub proof fn lemma_split_after_number(n: nat, rest: Seq<char>)
    ensures
        split_dot(decimal(n) + "."@ + rest) == Some((decimal(n), rest)),
{
    reveal_strlit(".");
    lemma_decimal_read_back(n);
    let text = decimal(n) + "."@ + rest;
    let at = decimal(n).len() as int;
    assert(text[at] == '.');
    assert forall|k: int| 0 <= k < at implies text[k] != '.' by {
        assert(is_digit(decimal(n)[k]));
        assert(text[k] == decimal(n)[k]);
    }
    lemma_split_at_first_dot(text, at);
    assert(text.take(at) =~= decimal(n));
    assert(text.skip(at + 1) =~= rest);
}

/// A version that is written as its three numbers is read back as the same version.
pub proof fn lemma_version_read_back(version: Version)
    ensures
        version_of(version.numbers()) == Some(version),
{
    let minor_patch = decimal(version.minor as nat) + "."@ + decimal(version.patch as nat);
    assert(version.numbers() =~= decimal(version.major as nat) + "."@ + minor_patch);
    lemma_split_after_number(version.major as nat, minor_patch);
    lemma_split_after_number(version.minor as nat, decimal(version.patch as nat));
    lemma_decimal_read_back(version.major as nat);
    lemma_decimal_read_back(version.minor as nat);
    lemma_decimal_read_back(version.patch as nat);
}

/// A text that stands for a version is made of ASCII characters.
pub proof fn lemma_version_is_ascii(text: Seq<char>)
    requires
        version_of(text) is Some,
    ensures
        is_ascii_chars(text),
{
    lemma_split_joins(text);
    let (major, rest) = split_dot(text)->0;
    lemma_split_joins(rest);
    let (minor, patch) = split_dot(rest)->0;
    lemma_number_is_ascii(major);
    lemma_number_is_ascii(minor);
    lemma_number_is_ascii(patch);
    assert forall|i: int| 0 <= i < text.len() implies '\0' <= #[trigger] text[i] <= '\u{7f}' by {
        if i < major.len() {
            assert(text[i] == major[i]);
        } else if i > major.len() {
            let j = i - major.len() - 1;
            assert(text[i] == rest[j]);
            if j < minor.len() {
                assert(rest[j] == minor[j]);
            } else if j > minor.len() {
                assert(rest[j] == patch[j - minor.len() - 1]);
            }
        }
    }
}

fn parse_small(text: &str) -> (r: Option<u8>)
    ensures
        r == small_number(text@),
{
    match parse_u64(text) {
        Some(n) => if n <= 255 {
            Some(n as u8)
        } else {
            None
        },
        None => None,
    }
}

impl Version {
    /// Reads a version written as three numbers with dots between them, such as
    /// `3.1.0`. Any other text gives nothing.
    pub fn parse(text: &str) -> (r: Option<Version>)
        ensures
            r == version_of(text@),
    {
        if !text.is_ascii() {
            proof {
                if version_of(text@) is Some {
                    lemma_version_is_ascii(text@);
                }
            }
            return None;
        }
        let (major, rest) = match split_once_dot(text) {
            Some(parts) => parts,
            None => {
                return None;
            },
        };
        let (minor, patch) = match split_once_dot(rest) {
            Some(parts) => parts,
            None => {
                return None;
            },
        };
        match (parse_small(major), parse_small(minor), parse_small(patch)) {
            (Some(major), Some(minor), Some(patch)) => Some(Version { major, minor, patch }),
            _ => None,
        }
    }

    /// The version as three numbers, the most significant first.
    pub open spec fn triple(self) -> (int, int, int) {
        (self.major as int, self.minor as int, self.patch as int)
    }

    /// Whether `self` comes after `other`: by major, then minor, then patch number.
    pub open spec fn is_after(self, other: Version) -> bool {
        ||| self.major > other.major
        ||| self.major == other.major && self.minor > other.minor
        ||| self.major == other.major && self.minor == other.minor && self.patch > other.patch
    }

    /// The three numbers of the version with dots between them.
    pub open spec fn numbers(self) -> Seq<char> {
        decimal(self.major as nat) + "."@ + decimal(self.minor as nat) + "."@ + decimal(
            self.patch as nat,
        )
    }

    /// The version written as `v`, then the three numbers with dots between them.
    pub open spec fn text(self) -> Seq<char> {
        "v"@ + self.numbers()
    }

    /// Makes a version of its three numbers.
    pub fn new(major: u8, minor: u8, patch: u8) -> (v: Version)
        ensures
            v.major == major,
            v.minor == minor,
            v.patch == patch,
    {
        Version { major, minor, patch }
    }

    /// Tells whether `self` comes after `other`.
    pub fn newer_than(&self, other: &Version) -> (r: bool)
        ensures
            r == self.is_after(*other),
    {
        if self.major != other.major {
            self.major > other.major
        } else if self.minor != other.minor {
            self.minor > other.minor
        } else {
            self.patch > other.patch
        }
    }

    /// Writes the version as `1.2.3`, the form in which it is read.
    pub fn to_numbers(&self) -> (s: String)
        ensures
            s@ == self.numbers(),
    {
        let mut s = decimal_string(self.major as u64);
        s.append(".");
        let minor = decimal_string(self.minor as u64);
        s.append(minor.as_str());
        s.append(".");
        let patch = decimal_string(self.patch as u64);
        s.append(patch.as_str());
        s
    }

    /// Writes the version as `v1.2.3`.
    pub fn to_text(&self) -> (s: String)
        ensures
            s@ == self.text(),
    {
        let mut s = String::from_str("v");
        let numbers = self.to_numbers();
        s.append(numbers.as_str());
        s
    }
}

/// The order of versions is strict: no version comes after itself, and of two
/// versions at most one comes after the other.
pub proof fn lemma_version_order_strict(a: Version, b: Version)
    ensures
        !a.is_after(a),
        !(a.is_after(b) && b.is_after(a)),
        a == b || a.is_after(b) || b.is_after(a),
{
}

/// The order of versions is transitive.
pub proof fn lemma_version_order_transitive(a: Version, b: Version, c: Version)
    requires
        a.is_after(b),
        b.is_after(c),
    ensures
        a.is_after(c),
{
}

} // verus!
