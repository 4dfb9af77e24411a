//! Taking the engine out of a downloaded release archive.
//!
//! An engine archive holds the executable and, beside it, documentation and whatever else
//! a release ships. The installer looks for the one file that is called as the engine
//! executable is. It passes over directories, over entries whose names are not safe
//! relative paths and over Markdown files. An archive with no such file, and one with
//! several, is turned down.
use crate::update_manager::UpdateError;
use std::io::Cursor;
use std::path::PathBuf;
use vstd::prelude::*;
use zip::read::ZipFile;
use zip::result::ZipError;
use zip::ZipArchive;

verus! {

/// Extension of the documentation files that an engine archive may carry.
pub const DOCUMENTATION_EXTENSION: &'static str = "md";

/// Reported where an archive holds nothing to install.
pub const NOTHING_TO_INSTALL: &'static str = "the engine archive holds no file to install";

/// Reported where an archive holds more than one file that could be the engine.
pub const SEVERAL_TO_INSTALL: &'static str = "the engine archive holds several files to install";

/// `zip::ZipArchive`, an open archive over a reader.
#[verifier::external_type_specification]
#[verifier::external_body]
#[verifier::reject_recursive_types(R)]
pub struct ExZipArchive<R>(ZipArchive<R>);

/// `zip::read::ZipFile`, one entry of an open archive, ready to be read.
#[verifier::external_type_specification]
#[verifier::external_body]
pub struct ExZipFile<'a>(ZipFile<'a>);

/// `std::io::Cursor`, a reader over bytes in memory.
#[verifier::external_type_specification]
#[verifier::external_body]
#[verifier::reject_recursive_types(T)]
pub struct ExCursor<T>(Cursor<T>);

/// `zip::result::ZipError`, why an archive or an entry could not be read.
#[verifier::external_type_specification]
#[verifier::external_body]
pub struct ExZipError(ZipError);

/// What `ZipArchive::new` makes of `bytes`: nothing where they are no archive it can
/// read, else, for each entry in archive order, the entry's contents, or nothing where
/// the entry cannot be opened or read to its end.
pub uninterp spec fn zip_files(bytes: Seq<u8>) -> Option<Seq<Option<Seq<u8>>>>;

/// For each entry of an open archive, in archive order: the entry's contents, or nothing
/// where the entry cannot be opened or read to its end.
pub uninterp spec fn archive_files(archive: ZipArchive<Cursor<Vec<u8>>>) -> Seq<Option<Seq<u8>>>;

/// What reading an opened entry to its end yields: its uncompressed contents, or nothing
/// where the read fails.
pub uninterp spec fn file_contents(file: ZipFile<'_>) -> Option<Seq<u8>>;

/// What this platform's path rules read in the name of an opened entry, in this order:
/// whether the name is a safe relative path; the last part of that path, if it has one;
/// the file extension of that part, if it has one; whether the entry is a directory.
pub uninterp spec fn entry_name(file: ZipFile<'_>) -> (
    bool,
    Option<Seq<char>>,
    Option<Seq<char>>,
    bool,
);

/// For each entry of an open archive, in archive order: what this platform's path rules
/// read in its name, as [`entry_name`] gives it, or nothing where the entry cannot be
/// opened.
pub uninterp spec fn archive_names(archive: ZipArchive<Cursor<Vec<u8>>>) -> Seq<
    Option<(bool, Option<Seq<char>>, Option<Seq<char>>, bool)>,
>;

/// For each entry of the archive that `bytes` hold, in archive order: what this
/// platform's path rules read in its name, as [`entry_name`] gives it, or nothing where
/// the entry cannot be opened.
pub uninterp spec fn zip_names(bytes: Seq<u8>) -> Seq<
    Option<(bool, Option<Seq<char>>, Option<Seq<char>>, bool)>,
>;

/// The last part of a path as this platform's path rules read it, if the path ends in an
/// ordinary name.
pub uninterp spec fn path_name(path: PathBuf) -> Option<Seq<char>>;

/// The file extension of the last part of a path as this platform's path rules read it:
/// what follows the last dot of that part, if it has a dot that is not its first
/// character.
pub uninterp spec fn path_ext(path: PathBuf) -> Option<Seq<char>>;

/// The characters of a text that may be missing.
pub open spec fn text_of(text: Option<String>) -> Option<Seq<char>> {
    match text {
        Some(text) => Some(text@),
        None => None,
    }
}

/// What the installer looks at in the name of an archive entry.
#[derive(Clone, Debug, PartialEq, Eq)]
pub enum EntryName {
    /// The entry cannot be opened, so that its name is not looked at.
    Closed,
    /// The name is no safe relative path: it is absolute, leaves the directory it is
    /// unpacked in, or is malformed.
    Unsafe,
    /// The name is a safe relative path.
    Safe {
        /// The last part of the path, if it has one.
        file_name: Option<String>,
        /// The file extension of that part, if it has one.
        extension: Option<String>,
        /// Whether the entry is a directory.
        directory: bool,
    },
}

/// Whether an entry of this name can be installed at all: it is a file, its name is a
/// safe path, and it is not documentation.
pub open spec fn installable(name: EntryName) -> bool {
    match name {
        EntryName::Safe { extension: Some(text), directory, .. } => !directory && text@
            != DOCUMENTATION_EXTENSION@,
        EntryName::Safe { extension: None, directory, .. } => !directory,
        _ => false,
    }
}

/// Whether an entry of this name is taken for the engine executable `expected`: it can be
/// installed and it is called `expected`.
pub open spec fn is_candidate(name: EntryName, expected: Seq<char>) -> bool {
    installable(name) && match name {
        EntryName::Safe { file_name: Some(text), .. } => text@ == expected,
        _ => false,
    }
}

/// Whether no entry is taken for the engine executable.
pub open spec fn no_candidate(names: Seq<EntryName>, expected: Seq<char>) -> bool {
    forall|j: int| 0 <= j < names.len() ==> !is_candidate(#[trigger] names[j], expected)
}

/// Whether entry `index`, and no other, is taken for the engine executable.
pub open spec fn is_only_candidate(names: Seq<EntryName>, expected: Seq<char>, index: int) -> bool {
    &&& 0 <= index < names.len()
    &&& is_candidate(names[index], expected)
    &&& forall|j: int|
        0 <= j < names.len() && j != index ==> !is_candidate(#[trigger] names[j], expected)
}

/// Whether more than one entry is taken for the engine executable.
pub open spec fn several_candidates(names: Seq<EntryName>, expected: Seq<char>) -> bool {
    exists|i: int, j: int|
        0 <= i < j < names.len() && is_candidate(#[trigger] names[i], expected) && is_candidate(
            #[trigger] names[j],
            expected,
        )
}

/// Whether `name` is what the installer makes of an entry whose name reads as `read`, or
/// which, where `read` is nothing, cannot be opened.
pub open spec fn reads_as(
    name: EntryName,
    read: Option<(bool, Option<Seq<char>>, Option<Seq<char>>, bool)>,
) -> bool {
    match name {
        EntryName::Closed => read is None,
        EntryName::Unsafe => read is Some && !read->Some_0.0,
        EntryName::Safe { file_name, extension, directory } => read == Some(
            (true, text_of(file_name), text_of(extension), directory),
        ),
    }
}

/// Whether `names` are what the installer makes of the entries of an archive whose names
/// read as `listed`: one name for each entry, in archive order.
pub open spec fn names_read(
    names: Seq<EntryName>,
    listed: Seq<Option<(bool, Option<Seq<char>>, Option<Seq<char>>, bool)>>,
) -> bool {
    &&& names.len() == listed.len()
    &&& forall|i: int| 0 <= i < names.len() ==> reads_as(#[trigger] names[i], listed[i])
}

/// Whether every entry can be opened and read to its end.
pub open spec fn all_readable(files: Seq<Option<Seq<u8>>>) -> bool {
    forall|i: int| 0 <= i < files.len() ==> (#[trigger] files[i]) is Some
}

/// Whether `contents` is what one entry of the archive `bytes` holds.
pub open spec fn is_entry_of(contents: Seq<u8>, bytes: Seq<u8>) -> bool {
    zip_files(bytes) matches Some(files) && files.contains(Some(contents))
}

/// `ZipArchive::new` on an in-memory reader: reads the archive's central directory. The
/// open archive holds the entries of `bytes`, names and contents.
#[verifier::external_body]
fn open_archive(bytes: Vec<u8>) -> (opened: Result<ZipArchive<Cursor<Vec<u8>>>, ZipError>)
    ensures
        match opened {
            Ok(archive) => zip_files(bytes@) == Some(archive_files(archive)) && zip_names(bytes@)
                == archive_names(archive),
            Err(_) => zip_files(bytes@) is None,
        },
{
    ZipArchive::new(Cursor::new(bytes))
}

/// `ZipArchive::len`: the number of entries, each of which has a name and contents.
#[verifier::external_body]
fn archive_len(archive: &ZipArchive<Cursor<Vec<u8>>>) -> (count: usize)
    ensures
        count == archive_files(*archive).len(),
        count == archive_names(*archive).len(),
{
    archive.len()
}

/// `ZipArchive::by_index_decrypt` with an empty password: opens entry `index` for
/// reading. The archive's entries stay as they are. An entry that is opened has the name
/// and holds the contents that the archive has at `index`; an index past the last entry,
/// and an entry that cannot be opened, one that wants a password among them, are errors.
/// (An entry sealed with the
/// old ZIP cipher is opened where its check byte happens to fit the empty password; what it
/// holds is then what reading it yields, which as a rule is a failed checksum.)
#[verifier::external_body]
fn open_entry<'a>(archive: &'a mut ZipArchive<Cursor<Vec<u8>>>, index: usize) -> (entry: Result<
    ZipFile<'a>,
    ZipError,
>)
    ensures
        archive_files(*final(archive)) == archive_files(*old(archive)),
        archive_names(*final(archive)) == archive_names(*old(archive)),
        match entry {
            Ok(file) => {
                &&& index < archive_files(*old(archive)).len()
                &&& file_contents(file) == archive_files(*old(archive))[index as int]
                &&& Some(entry_name(file)) == archive_names(*old(archive))[index as int]
            },
            Err(_) => index >= archive_files(*old(archive)).len() || (archive_files(
                *old(archive),
            )[index as int] is None && archive_names(*old(archive))[index as int] is None),
        },
{
    match archive.by_index_decrypt(index, &[]) {
        Ok(Ok(file)) => Ok(file),
        Ok(Err(_)) => Err(ZipError::UnsupportedArchive(ZipError::PASSWORD_REQUIRED)),
        Err(error) => Err(error),
    }
}

/// `ZipFile::enclosed_name`: the entry's name as a safe relative path, where this
/// platform's path rules read it as one. The path's last part and extension are those
/// of the entry's name.
#[verifier::external_body]
fn enclosed_path(file: &ZipFile<'_>) -> (path: Option<PathBuf>)
    ensures
        match path {
            Some(safe) => {
                &&& entry_name(*file).0
                &&& path_name(safe) == entry_name(*file).1
                &&& path_ext(safe) == entry_name(*file).2
            },
            None => !entry_name(*file).0,
        },
{
    file.enclosed_name().map(|path| path.to_path_buf())
}

/// `Read::read_to_end` on an opened entry: the entry's uncompressed contents. A failed
/// read, a checksum that does not match among them, is an error.
#[verifier::external_body]
fn read_entry(file: ZipFile<'_>) -> (contents: Result<Vec<u8>, ZipError>)
    ensures
        match contents {
            Ok(bytes) => file_contents(file) == Some(bytes@),
            Err(_) => file_contents(file) is None,
        },
{
    let mut file = file;
    let mut bytes = Vec::new();
    std::io::Read::read_to_end(&mut file, &mut bytes)?;
    Ok(bytes)
}

/// `ZipFile::is_dir`: whether the entry is a directory, which it is where its name ends
/// in a separator.
#[verifier::external_body]
fn entry_is_dir(file: &ZipFile<'_>) -> (directory: bool)
    ensures
        directory == entry_name(*file).3,
{
    file.is_dir()
}

/// `Path::file_name`: the last part of the path, where it ends in an ordinary name, as
/// text.
#[verifier::external_body]
fn path_file_name(path: &PathBuf) -> (name: Option<String>)
    ensures
        text_of(name) == path_name(*path),
{
    path.file_name().map(|text| text.to_string_lossy().into_owned())
}

/// `Path::extension`: what follows the last dot of the path's last part, if that part
/// has a dot that is not its first character, as text.
#[verifier::external_body]
fn path_extension(path: &PathBuf) -> (extension: Option<String>)
    ensures
        text_of(extension) == path_ext(*path),
{
    path.extension().map(|text| text.to_string_lossy().into_owned())
}

/// `ZipError`'s `Display`: the error in words.
#[verifier::external_body]
fn zip_error_text(error: &ZipError) -> (text: String) {
    error.to_string()
}

/// Whether an entry of this name can be installed at all.
pub fn is_installable(name: &EntryName) -> (installed: bool)
    ensures
        installed == installable(*name),
{
    match name {
        EntryName::Safe { file_name: _, extension, directory } => {
            if *directory {
                false
            } else {
                match extension {
                    Some(text) => {
                        let documentation = DOCUMENTATION_EXTENSION.to_owned();
                        !(*text == documentation)
                    },
                    None => true,
                }
            }
        },
        _ => false,
    }
}

/// Whether an entry of this name is taken for the engine executable `expected`.
pub fn is_engine_candidate(name: &EntryName, expected: &str) -> (taken: bool)
    ensures
        taken == is_candidate(*name, expected@),
{
    if !is_installable(name) {
        return false;
    }
    match name {
        EntryName::Safe { file_name: Some(text), extension: _, directory: _ } => {
            let wanted = expected.to_owned();
            *text == wanted
        },
        _ => false,
    }
}

/// Which entry of an archive is the engine.
#[derive(Clone, Copy, Debug, PartialEq, Eq, Structural)]
pub enum EngineEntry {
    /// No entry is taken for the engine executable.
    Missing,
    /// The entry at this position, and no other, is taken for the engine executable.
    Found(usize),
    /// More than one entry is taken for the engine executable.
    Ambiguous,
}

/// Looks among the entries for the one that is taken for the engine executable
/// `expected`.
pub fn find_engine_entry(names: &Vec<EntryName>, expected: &str) -> (choice: EngineEntry)
    ensures
        match choice {
            EngineEntry::Missing => no_candidate(names@, expected@),
            EngineEntry::Found(index) => is_only_candidate(names@, expected@, index as int),
            EngineEntry::Ambiguous => several_candidates(names@, expected@),
        },
{
    let mut found: Option<usize> = None;
    let mut i: usize = 0;
    while i < names.len()
        invariant
            i <= names.len(),
            match found {
                Some(index) => index < i && is_candidate(names@[index as int], expected@)
                    && forall|j: int|
                    0 <= j < i && j != index ==> !is_candidate(#[trigger] names@[j], expected@),
                None => forall|j: int|
                    0 <= j < i ==> !is_candidate(#[trigger] names@[j], expected@),
            },
        decreases names.len() - i,
    {
        if is_engine_candidate(&names[i], expected) {
            match found {
                Some(index) => {
                    assert(is_candidate(names@[index as int], expected@) && is_candidate(
                        names@[i as int],
                        expected@,
                    ));
                    return EngineEntry::Ambiguous;
                },
                None => {
                    found = Some(i);
                },
            }
        }
        i += 1;
    }
    match found {
        Some(index) => EngineEntry::Found(index),
        None => EngineEntry::Missing,
    }
}

/// Whether `outcome` is the error that turns an archive down with the words `text`.
pub open spec fn is_refusal(outcome: Result<Vec<u8>, UpdateError>, text: Seq<char>) -> bool {
    outcome matches Err(UpdateError::InvalidData(what)) && what@ == text
}

/// Whether `outcome` is what taking the engine executable `expected` out of an archive
/// with these entries comes to. Where one entry, and no other, is taken for the engine,
/// the outcome is the contents of that entry, or an error where the entry cannot be read.
/// An archive with no such entry, and one with several, are errors of their own.
pub open spec fn is_engine_of(
    outcome: Result<Vec<u8>, UpdateError>,
    names: Seq<EntryName>,
    files: Seq<Option<Seq<u8>>>,
    expected: Seq<char>,
) -> bool {
    if no_candidate(names, expected) {
        is_refusal(outcome, NOTHING_TO_INSTALL@)
    } else if several_candidates(names, expected) {
        is_refusal(outcome, SEVERAL_TO_INSTALL@)
    } else {
        exists|index: int| #[trigger]
            is_only_candidate(names, expected, index) && match outcome {
                Ok(contents) => files[index] == Some(contents@),
                Err(error) => files[index] is None && error is InvalidData,
            }
    }
}

/// One entry cannot be the only candidate where there is none or where there are several.
proof fn lemma_only_candidate_excludes(names: Seq<EntryName>, expected: Seq<char>, index: int)
    requires
        is_only_candidate(names, expected, index),
    ensures
        !no_candidate(names, expected),
        !several_candidates(names, expected),
{
    assert(is_candidate(names[index], expected));
}

/// Where several entries are candidates, there is at least one.
proof fn lemma_several_is_not_none(names: Seq<EntryName>, expected: Seq<char>)
    requires
        several_candidates(names, expected),
    ensures
        !no_candidate(names, expected),
{
    let (i, j) = choose|i: int, j: int|
        0 <= i < j < names.len() && is_candidate(#[trigger] names[i], expected) && is_candidate(
            #[trigger] names[j],
            expected,
        );
    assert(is_candidate(names[i], expected));
}

/// An open release archive: for each entry, what the installer makes of its name, and
/// its contents.
pub struct EngineArchive {
    archive: ZipArchive<Cursor<Vec<u8>>>,
    names: Vec<EntryName>,
}

impl EngineArchive {
    #[verifier::type_invariant]
    spec fn names_are_read(&self) -> bool {
        &&& self.names.len() == archive_files(self.archive).len()
        &&& names_read(self.names@, archive_names(self.archive))
    }

    /// For each entry, in archive order: what this platform's path rules read in its
    /// name, or nothing where it cannot be opened.
    pub closed spec fn listed(&self) -> Seq<
        Option<(bool, Option<Seq<char>>, Option<Seq<char>>, bool)>,
    > {
        archive_names(self.archive)
    }

    /// For each entry, in archive order: what the installer makes of its name.
    pub closed spec fn names(&self) -> Seq<EntryName> {
        self.names@
    }

    /// For each entry, in archive order: its contents, or nothing where it cannot be read.
    pub closed spec fn files(&self) -> Seq<Option<Seq<u8>>> {
        archive_files(self.archive)
    }

    /// Opens the archive that `bytes` hold and looks at the name of each entry. It
    /// succeeds exactly on bytes that are a readable archive. Each entry is listed by
    /// what its name reads as; an entry that cannot be opened is listed as closed and
    /// holds nothing.
    pub fn open(bytes: Vec<u8>) -> (opened: Result<EngineArchive, UpdateError>)
        ensures
            opened is Ok <==> zip_files(bytes@) is Some,
            opened matches Ok(archive) ==> {
                &&& zip_files(bytes@) == Some(archive.files())
                &&& zip_names(bytes@) == archive.listed()
                &&& names_read(archive.names(), archive.listed())
                &&& archive.names().len() == archive.files().len()
                &&& forall|i: int|
                    0 <= i < archive.names().len() && (#[trigger] archive.names()[i]) is Closed
                        ==> archive.files()[i] is None
            },
            opened matches Err(error) ==> error is InvalidData,
    {
        let mut archive = match open_archive(bytes) {
            Ok(archive) => archive,
            Err(error) => {
                return Err(UpdateError::InvalidData(zip_error_text(&error)));
            },
        };
        let ghost files = archive_files(archive);
        let ghost listed = archive_names(archive);
        let count = archive_len(&archive);
        let mut names: Vec<EntryName> = Vec::new();
        let mut i: usize = 0;
        while i < count
            invariant
                i <= count,
                count == files.len(),
                count == listed.len(),
                archive_files(archive) == files,
                archive_names(archive) == listed,
                zip_files(bytes@) == Some(files),
                zip_names(bytes@) == listed,
                names.len() == i,
                forall|j: int| 0 <= j < i && (#[trigger] names@[j]) is Closed ==> files[j] is None,
                forall|j: int| 0 <= j < i ==> reads_as(#[trigger] names@[j], listed[j]),
            decreases count - i,
        {
            let name = match open_entry(&mut archive, i) {
                Ok(file) => match enclosed_path(&file) {
                    Some(path) => EntryName::Safe {
                        file_name: path_file_name(&path),
                        extension: path_extension(&path),
                        directory: entry_is_dir(&file),
                    },
                    None => EntryName::Unsafe,
                },
                Err(_) => EntryName::Closed,
            };
            assert(reads_as(name, listed[i as int]));
            names.push(name);
            i += 1;
        }
        Ok(EngineArchive { archive, names })
    }

    /// What the installer makes of the name of each entry, in archive order.
    pub fn entry_names(&self) -> (names: &Vec<EntryName>)
        ensures
            names@ == self.names(),
    {
        &self.names
    }

    /// Takes the engine executable `expected` out of the archive: the contents of the one
    /// entry that is a file, has a safe relative path, is not documentation and is called
    /// `expected`. No such entry, several of them, and one that cannot be read are errors.
    pub fn engine(self, expected: &str) -> (engine: Result<Vec<u8>, UpdateError>)
        ensures
            is_engine_of(engine, self.names(), self.files(), expected@),
    {
        proof {
            use_type_invariant(&self);
        }
        let EngineArchive { mut archive, names } = self;
        match find_engine_entry(&names, expected) {
            EngineEntry::Missing => Err(UpdateError::InvalidData(NOTHING_TO_INSTALL.to_owned())),
            EngineEntry::Ambiguous => {
                proof {
                    lemma_several_is_not_none(names@, expected@);
                }
                Err(UpdateError::InvalidData(SEVERAL_TO_INSTALL.to_owned()))
            },
            EngineEntry::Found(index) => {
                proof {
                    lemma_only_candidate_excludes(names@, expected@, index as int);
                }
                let read = match open_entry(&mut archive, index) {
                    Ok(file) => read_entry(file),
                    Err(error) => Err(error),
                };
                match read {
                    Ok(contents) => Ok(contents),
                    Err(error) => Err(UpdateError::InvalidData(zip_error_text(&error))),
                }
            },
        }
    }
}

/// Whether `outcome` is, for an archive all of whose entries can be read, either an engine
/// or one of the two errors that say that the archive does not hold exactly one.
pub open spec fn is_engine_or_refusal(outcome: Result<Vec<u8>, UpdateError>) -> bool {
    ||| outcome is Ok
    ||| is_refusal(outcome, NOTHING_TO_INSTALL@)
    ||| is_refusal(outcome, SEVERAL_TO_INSTALL@)
}

/// Whether `outcome` is what taking the engine executable `expected` out of the archive
/// that `bytes` hold comes to: where they hold an archive, what [`is_engine_of`] says for
/// the entries of that archive, each listed by what its name reads as; an error where
/// they hold none.
pub open spec fn is_unpacked_from(
    outcome: Result<Vec<u8>, UpdateError>,
    bytes: Seq<u8>,
    expected: Seq<char>,
) -> bool {
    match zip_files(bytes) {
        Some(files) => exists|names: Seq<EntryName>| #[trigger]
            names_read(names, zip_names(bytes)) && is_engine_of(outcome, names, files, expected),
        None => outcome matches Err(error) && error is InvalidData,
    }
}

/// Takes the engine executable `expected` out of a release archive. The result is the
/// contents of one entry of the archive: of the one that is a file, has a safe relative
/// path, is not documentation and is called `expected`. Bytes that are no readable
/// archive, an archive with no such entry or with several, and an entry that cannot be
/// read are errors.
pub fn unpack_engine(bytes: Vec<u8>, expected: &str) -> (engine: Result<Vec<u8>, UpdateError>)
    ensures
        is_unpacked_from(engine, bytes@, expected@),
        zip_files(bytes@) is None ==> engine is Err,
        engine matches Ok(contents) ==> is_entry_of(contents@, bytes@),
        engine matches Err(error) ==> error is InvalidData,
        zip_files(bytes@) is Some && all_readable(zip_files(bytes@)->Some_0)
            ==> is_engine_or_refusal(engine),
        zip_files(bytes@) is Some && zip_files(bytes@)->Some_0.len() == 0 ==> is_refusal(
            engine,
            NOTHING_TO_INSTALL@,
        ),
{
    match EngineArchive::open(bytes) {
        Ok(archive) => {
            let engine = archive.engine(expected);
            proof {
                let names = archive.names();
                let files = archive.files();
                assert(names_read(names, zip_names(bytes@)));
                if no_candidate(names, expected@) || several_candidates(names, expected@) {
                } else {
                    let index = choose|index: int| #[trigger]
                        is_only_candidate(names, expected@, index) && match engine {
                            Ok(contents) => files[index] == Some(contents@),
                            Err(error) => files[index] is None && error is InvalidData,
                        };
                    if engine is Ok {
                        assert(files[index] == Some(engine->Ok_0@));
                    } else {
                        assert(files[index] is None);
                    }
                }
            }
            engine
        },
        Err(error) => Err(error),
    }
}

} // verus!
