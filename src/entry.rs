//! An entry of the rendered tree: its path and the metadata read for it.
use vstd::prelude::*;
use crate::api::{filename, file_name_of, OsFamily};

verus! {

/// Metadata of a directory.
#[derive(Debug, Clone, PartialEq, Eq)]
pub struct DirectoryAttributes {
    hidden: bool,
}

impl DirectoryAttributes {
    pub closed spec fn spec_hidden(&self) -> bool {
        self.hidden
    }

    /// Attributes of a directory that does or does not carry the hidden flag.
    pub fn new(hidden: bool) -> (r: DirectoryAttributes)
        ensures
            r.spec_hidden() == hidden,
    {
        DirectoryAttributes { hidden }
    }

    /// Is the directory hidden?
    pub fn is_hidden(&self) -> (r: bool)
        ensures
            r == self.spec_hidden(),
    {
        self.hidden
    }
}

/// Metadata of a regular file.
#[derive(Debug, Clone, PartialEq, Eq)]
pub struct FileAttributes {
    hidden: bool,
    executable: bool,
    language: Option<String>,
}

impl FileAttributes {
    pub closed spec fn spec_hidden(&self) -> bool {
        self.hidden
    }

    pub closed spec fn spec_executable(&self) -> bool {
        self.executable
    }

    pub closed spec fn spec_language(&self) -> Option<Seq<char>> {
        match &self.language {
            Some(l) => Some(l@),
            None => None,
        }
    }

    /// Attributes of a file: its hidden flag, its executable flag and the name
    /// of the code language detected for it.
    pub fn new(hidden: bool, executable: bool, language: Option<String>) -> (r: FileAttributes)
        ensures
            r.spec_hidden() == hidden,
            r.spec_executable() == executable,
            r.spec_language() == (match language {
                Some(l) => Some(l@),
                None => None::<Seq<char>>,
            }),
    {
        FileAttributes { hidden, executable, language }
    }

    /// Is the file hidden?
    pub fn is_hidden(&self) -> (r: bool)
        ensures
            r == self.spec_hidden(),
    {
        self.hidden
    }

    /// Is the file executable?
    pub fn is_executable(&self) -> (r: bool)
        ensures
            r == self.spec_executable(),
    {
        self.executable
    }

    /// The name of the file's code language, if one was detected.
    pub fn language(&self) -> (r: Option<&str>)
        ensures
            match r {
                Some(l) => self.spec_language() == Some(l@),
                None => self.spec_language() is None,
            },
    {
        match &self.language {
            Some(l) => Some(l.as_str()),
            None => None,
        }
    }
}

/// Metadata of a symbolic link.
#[derive(Debug, Clone, PartialEq, Eq)]
pub struct SymlinkAttributes {
    hidden: bool,
}

impl SymlinkAttributes {
    pub closed spec fn spec_hidden(&self) -> bool {
        self.hidden
    }

    /// Attributes of a link that does or does not carry the hidden flag.
    pub fn new(hidden: bool) -> (r: SymlinkAttributes)
        ensures
            r.spec_hidden() == hidden,
    {
        SymlinkAttributes { hidden }
    }

    /// Is the link hidden?
    pub fn is_hidden(&self) -> (r: bool)
        ensures
            r == self.spec_hidden(),
    {
        self.hidden
    }
}

/// The kind of an entry, with the metadata of that kind.
#[derive(Debug, Clone, PartialEq, Eq)]
pub enum Attributes {
    Directory(DirectoryAttributes),
    File(FileAttributes),
    Symlink(SymlinkAttributes),
}

impl Attributes {
    /// The hidden flag the file system gives the entry.
    pub open spec fn spec_hidden(&self) -> bool {
        match self {
            Attributes::Directory(d) => d.spec_hidden(),
            Attributes::File(f) => f.spec_hidden(),
            Attributes::Symlink(s) => s.spec_hidden(),
        }
    }

    /// Only a regular file can be executable.
    pub open spec fn spec_executable(&self) -> bool {
        match self {
            Attributes::File(f) => f.spec_executable(),
            _ => false,
        }
    }

    /// Does the file system mark the entry hidden?
    pub fn is_hidden(&self) -> (r: bool)
        ensures
            r == self.spec_hidden(),
    {
        match self {
            Attributes::Directory(d) => d.is_hidden(),
            Attributes::File(f) => f.is_hidden(),
            Attributes::Symlink(s) => s.is_hidden(),
        }
    }

    /// Is the entry an executable file?
    pub fn is_executable(&self) -> (r: bool)
        ensures
            r == self.spec_executable(),
    {
        match self {
            Attributes::File(f) => f.is_executable(),
            _ => false,
        }
    }

    /// The file metadata, when the entry is a regular file.
    pub fn file(&self) -> (r: Option<&FileAttributes>)
        ensures
            match self {
                Attributes::File(f) => r == Some(f),
                _ => r is None,
            },
    {
        match self {
            Attributes::File(f) => Some(f),
            _ => None,
        }
    }
}

/// Whether the final component of the path starts with a dot.
pub open spec fn spec_is_dotfile(path: Seq<char>) -> bool {
    match file_name_of(path) {
        Some(n) => n.len() > 0 && n[0] == '.',
        None => false,
    }
}

/// A node of the tree: a path and the metadata read for it.
pub struct Entry {
    path: String,
    attributes: Attributes,
}

impl Entry {
    pub closed spec fn spec_path(&self) -> Seq<char> {
        self.path@
    }

    pub closed spec fn spec_attributes(&self) -> Attributes {
        self.attributes
    }

    /// Whether the entry is hidden on the given operating system: a dotfile
    /// outside Windows, or marked hidden by the file system.
    pub open spec fn spec_is_hidden(&self, os: OsFamily) -> bool {
        (os != OsFamily::Windows && spec_is_dotfile(self.spec_path()))
            || self.spec_attributes().spec_hidden()
    }

    /// An entry for `path`, the full path from the tree's root, with the
    /// metadata read for it.
    pub fn new(path: String, attributes: Attributes) -> (r: Entry)
        ensures
            r.spec_path() == path@,
            r.spec_attributes() == attributes,
    {
        Entry { path, attributes }
    }

    /// The entry's path.
    pub fn path(&self) -> (r: &str)
        ensures
            r@ == self.spec_path(),
    {
        self.path.as_str()
    }

    /// The entry's metadata.
    pub fn attributes(&self) -> (r: &Attributes)
        ensures
            *r == self.spec_attributes(),
    {
        &self.attributes
    }

    /// Is the entry an executable file?
    pub fn is_executable(&self) -> (r: bool)
        ensures
            r == self.spec_attributes().spec_executable(),
    {
        self.attributes.is_executable()
    }

    /// Does the entry's name start with a dot?
    pub fn is_dotfile(&self) -> (r: bool)
        ensures
            r == spec_is_dotfile(self.spec_path()),
    {
        match filename(self.path.as_str()) {
            Some(n) => n.as_str().unicode_len() > 0 && n.as_str().get_char(0) == '.',
            None => false,
        }
    }

    /// Is the entry hidden on the given operating system?
    pub fn is_hidden(&self, os: OsFamily) -> (r: bool)
        ensures
            r == self.spec_is_hidden(os),
    {
        self.is_dotfile_hidden(os) || self.attributes.is_hidden()
    }

    /// Is the entry hidden for being a dotfile? Never on Windows.
    pub fn is_dotfile_hidden(&self, os: OsFamily) -> (r: bool)
        ensures
            r == (os != OsFamily::Windows && spec_is_dotfile(self.spec_path())),
    {
        match os {
            OsFamily::Windows => false,
            _ => self.is_dotfile(),
        }
    }
}

} // verus!
