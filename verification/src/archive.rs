//! Archives built in memory: a list of entries that is packed into one container.

use vstd::prelude::*;
use vstd::string::*;
use std::io::Cursor;
use std::io::Write;
use zip::result::ZipError;
use zip::write::FileOptions;
use zip::CompressionMethod;
use zip::ZipWriter;
use crate::error::Error;

verus! {

/// The error of the `zip` crate. Nothing is read from it but its description.
#[verifier::external_type_specification]
#[verifier::external_body]
pub struct ExZipError(ZipError);

/// The writer of the `zip` crate over a buffer in memory. What it holds is known
/// only through `archive_entries`; its entries are stored, not compressed, and
/// carry no time of their own.
#[verifier::external_body]
pub struct ArchiveWriter {
    inner: ZipWriter<Cursor<Vec<u8>>>,
}

/// One entry of an archive.
pub enum Entry {
    /// A directory, under its name with the closing slash.
    Directory(Seq<char>),
    /// A file: its name and its bytes.
    File(Seq<char>, Seq<u8>),
}

/// The entries that a writer has taken so far, in the order in which they were added.
pub uninterp spec fn archive_entries(writer: ArchiveWriter) -> Seq<Entry>;

/// The bytes of the finished container that holds the given entries.
pub uninterp spec fn packed(entries: Seq<Entry>) -> Seq<u8>;

/// Whether a writer still takes entries: it was not finished, and no step on it
/// has failed. While it does, its last entry is a file exactly when that file can
/// still be written to.
pub uninterp spec fn archive_open(writer: ArchiveWriter) -> bool;

/// The most bytes that a file of an archive holds.
pub open spec fn file_limit() -> int {
    0xffff_ffff
}

/// Whether `bytes` more bytes can be written: the last entry is a file, and with
/// them it stays within the limit of a file.
pub open spec fn takes(entries: Seq<Entry>, bytes: int) -> bool {
    entries.len() > 0 && (entries.last() matches Entry::File(_, held) && held.len() + bytes
        <= file_limit())
}

/// The name under which a directory is entered: a slash is added unless the name
/// ends in a slash or a backslash already.
pub open spec fn directory_name(name: Seq<char>) -> Seq<char> {
    if name.len() > 0 && (name.last() == '/' || name.last() == '\\') {
        name
    } else {
        name + "/"@
    }
}

/// The entries after `bytes` were added to the last of them, which is a file.
pub open spec fn extended(entries: Seq<Entry>, bytes: Seq<u8>) -> Seq<Entry> {
    match entries.last() {
        Entry::File(name, held) => entries.update(entries.len() - 1, Entry::File(name, held + bytes)),
        Entry::Directory(_) => entries,
    }
}

/// `ZipWriter::new` on an empty buffer in memory: an open writer without entries.
#[verifier::external_body]
fn new_writer() -> (writer: ArchiveWriter)
    ensures
        archive_entries(writer) == Seq::<Entry>::empty(),
        archive_open(writer),
{
    ArchiveWriter { inner: ZipWriter::new(Cursor::new(Vec::new())) }
}

/// `ZipWriter::add_directory` with stored entries: where it succeeds, the directory
/// is the new last entry, under its name with a closing slash, without bytes. On an
/// open writer it succeeds, and the writer stays open.
#[verifier::external_body]
fn add_directory(writer: &mut ArchiveWriter, name: &str) -> (r: Result<(), ZipError>)
    ensures
        r is Ok ==> archive_entries(*final(writer)) == archive_entries(*old(writer)).push(
            Entry::Directory(directory_name(name@)),
        ),
        archive_open(*old(writer)) ==> r is Ok && archive_open(*final(writer)),
{
    let options = FileOptions::default().compression_method(CompressionMethod::Stored);
    writer.inner.add_directory(name, options)
}

/// `ZipWriter::start_file` with stored entries: where it succeeds, a file of that
/// name is the new last entry, without bytes so far. On an open writer it succeeds,
/// and the writer stays open.
#[verifier::external_body]
fn start_file(writer: &mut ArchiveWriter, name: &str) -> (r: Result<(), ZipError>)
    ensures
        r is Ok ==> archive_entries(*final(writer)) == archive_entries(*old(writer)).push(
            Entry::File(name@, Seq::<u8>::empty()),
        ),
        archive_open(*old(writer)) ==> r is Ok && archive_open(*final(writer)),
{
    let options = FileOptions::default().compression_method(CompressionMethod::Stored);
    writer.inner.start_file(name, options)
}

/// `Write::write_all` of the writer: where it succeeds with bytes to write, the
/// last entry is a file and the bytes were added to it; without bytes to write it
/// succeeds and changes nothing. On an open writer it succeeds where the last entry
/// is a file that stays within the limit of a file, and the writer stays open where
/// it succeeds.
#[verifier::external_body]
fn write_bytes(writer: &mut ArchiveWriter, bytes: &[u8]) -> (r: Result<(), ZipError>)
    ensures
        r is Ok && bytes@.len() == 0 ==> archive_entries(*final(writer)) == archive_entries(
            *old(writer),
        ),
        r is Ok && bytes@.len() > 0 ==> archive_entries(*old(writer)).len() > 0
            && archive_entries(*old(writer)).last() is File && archive_entries(*final(writer))
            == extended(archive_entries(*old(writer)), bytes@),
        archive_open(*old(writer)) && takes(archive_entries(*old(writer)), bytes@.len() as int)
            ==> r is Ok,
        archive_open(*old(writer)) && r is Ok ==> archive_open(*final(writer)),
{
    writer.inner.write_all(bytes).map_err(ZipError::Io)
}

/// `ZipWriter::finish`: where it succeeds, the buffer holds the container of the
/// entries that the writer took. On an open writer it succeeds.
#[verifier::external_body]
fn finish(writer: ArchiveWriter) -> (r: Result<Vec<u8>, ZipError>)
    ensures
        r matches Ok(bytes) ==> bytes@ == packed(archive_entries(writer)),
        archive_open(writer) ==> r is Ok,
{
    let mut writer = writer;
    writer.inner.finish().map(Cursor::into_inner)
}

/// What `Display` prints for an error of the zip writer.
#[verifier::external_body]
fn describe(error: &ZipError) -> String {
    format!("{error}")
}

/// Turns the outcome of a step of the zip writer into one of this library.
fn checked(step: Result<(), ZipError>) -> (r: Result<(), Error>)
    ensures
        r is Ok <==> step is Ok,
        r matches Err(e) ==> e is IO,
{
    match step {
        Ok(()) => Ok(()),
        Err(error) => Err(Error::IO(describe(&error))),
    }
}

/// An archive under construction: its file name and the entries written so far.
pub struct Archive {
    name: String,
    writer: ArchiveWriter,
}

/// A finished archive: the name of its file and the bytes to store in it.
#[derive(Debug)]
pub struct Package {
    pub name: String,
    pub bytes: Vec<u8>,
}

impl Archive {
    /// The name of the file that the archive is meant for.
    pub closed spec fn name(&self) -> Seq<char> {
        self.name@
    }

    /// The entries written so far, in order.
    pub closed spec fn entries(&self) -> Seq<Entry> {
        archive_entries(self.writer)
    }

    /// Whether the archive still takes entries: no step on it has failed.
    pub closed spec fn is_open(&self) -> bool {
        archive_open(self.writer)
    }

    /// Opens an archive called `name`, without entries.
    pub fn open(name: &str) -> (archive: Archive)
        ensures
            archive.name() == name@,
            archive.entries() == Seq::<Entry>::empty(),
            archive.is_open(),
    {
        Archive { name: String::from_str(name), writer: new_writer() }
    }

    /// Declares the directory `path`. An open archive takes it and stays open.
    /// Where that fails nothing is known of the archive, which is then to be dropped.
    pub fn declare_directory(&mut self, path: &str) -> (r: Result<(), Error>)
        ensures
            final(self).name() == old(self).name(),
            r is Ok ==> final(self).entries() == old(self).entries().push(
                Entry::Directory(directory_name(path@)),
            ),
            old(self).is_open() ==> r is Ok && final(self).is_open(),
            r matches Err(e) ==> e is IO,
    {
        checked(add_directory(&mut self.writer, path))
    }

    /// Writes the file `path` with the given bytes. An open archive takes a file
    /// within the limit of a file and stays open. Where that fails nothing is known
    /// of the archive, which is then to be dropped.
    pub fn write_entry(&mut self, path: &str, bytes: &[u8]) -> (r: Result<(), Error>)
        ensures
            final(self).name() == old(self).name(),
            r is Ok ==> final(self).entries() == old(self).entries().push(
                Entry::File(path@, bytes@),
            ),
            old(self).is_open() && bytes@.len() <= file_limit() ==> r is Ok,
            old(self).is_open() && r is Ok ==> final(self).is_open(),
            r matches Err(e) ==> e is IO,
    {
        let started = checked(start_file(&mut self.writer, path));
        if let Err(error) = started {
            return Err(error);
        }
        let ghost begun = archive_entries(self.writer);
        let written = checked(write_bytes(&mut self.writer, bytes));
        proof {
            if written is Ok {
                assert(Seq::<u8>::empty() + bytes@ =~= bytes@);
                if bytes@.len() > 0 {
                    assert(extended(begun, bytes@) =~= old(self).entries().push(
                        Entry::File(path@, bytes@),
                    ));
                } else {
                    assert(bytes@ =~= Seq::<u8>::empty());
                }
            }
        }
        written
    }

    /// Closes the archive: only now is it a valid container. An open archive is
    /// closed with success.
    pub fn finalize(self) -> (r: Result<Package, Error>)
        ensures
            r matches Ok(package) ==> package.name@ == self.name() && package.bytes@ == packed(
                self.entries(),
            ),
            self.is_open() ==> r is Ok,
            r matches Err(e) ==> e is IO,
    {
        match finish(self.writer) {
            Ok(bytes) => Ok(Package { name: self.name, bytes }),
            Err(error) => Err(Error::IO(describe(&error))),
        }
    }
}

} // verus!
