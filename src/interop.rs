//! The read-only view of an entry that configuration scripts receive.
use vstd::prelude::*;
use crate::api::OsFamily;
use crate::entry::{Attributes, Entry};

verus! {

/// The type name scripts see for an entry's kind.
pub open spec fn spec_file_type(a: Attributes) -> Seq<char> {
    match a {
        Attributes::Directory(_) => "directory"@,
        Attributes::File(_) => "file"@,
        Attributes::Symlink(_) => "symlink"@,
    }
}

/// An entry's stats as scripts see them, derived afresh at each query.
pub struct FileAttributes<'a> {
    entry: &'a Entry,
    os: OsFamily,
}

impl<'a> FileAttributes<'a> {
    pub closed spec fn spec_entry(&self) -> Entry {
        *self.entry
    }

    pub closed spec fn spec_os(&self) -> OsFamily {
        self.os
    }

    /// The view of `entry` on a host of the given family.
    pub fn new(entry: &'a Entry, os: OsFamily) -> (r: FileAttributes<'a>)
        ensures
            r.spec_entry() == *entry,
            r.spec_os() == os,
    {
        FileAttributes { entry, os }
    }

    /// Is the file hidden?
    pub fn is_hidden(&self) -> (r: bool)
        ensures
            r == self.spec_entry().spec_is_hidden(self.spec_os()),
    {
        self.entry.is_hidden(self.os)
    }

    /// Is the file executable?
    pub fn is_executable(&self) -> (r: bool)
        ensures
            r == self.spec_entry().spec_attributes().spec_executable(),
    {
        self.entry.is_executable()
    }

    /// The entry's kind: `"directory"`, `"file"` or `"symlink"`.
    pub fn file_type(&self) -> (r: &'static str)
        ensures
            r@ == spec_file_type(self.spec_entry().spec_attributes()),
    {
        match self.entry.attributes() {
            Attributes::Directory(_) => "directory",
            Attributes::File(_) => "file",
            Attributes::Symlink(_) => "symlink",
        }
    }

    /// The name of the file's code language; none for a directory or a link.
    pub fn language(&self) -> (r: Option<&'a str>)
        ensures
            match r {
                Some(l) => self.spec_entry().spec_attributes() matches Attributes::File(f)
                    && f.spec_language() == Some(l@),
                None => !(self.spec_entry().spec_attributes() matches Attributes::File(f)
                    && f.spec_language() is Some),
            },
    {
        let entry: &'a Entry = self.entry;
        match entry.attributes().file() {
            Some(f) => f.language(),
            None => None,
        }
    }
}

} // verus!
