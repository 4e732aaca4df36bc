//! What is known of a package: its name, its author and its versions.

use vstd::prelude::*;

verus! {

/// A package with the versions that are stored of it.
pub struct PackageInfo {
    name: String,
    author: u32,
    versions: Vec<String>,
}

impl PackageInfo {
    /// The name.
    pub closed spec fn spec_name(&self) -> String {
        self.name
    }

    /// The author's number.
    pub closed spec fn spec_author(&self) -> u32 {
        self.author
    }

    /// The versions, in the order in which they were given.
    pub closed spec fn spec_versions(&self) -> Vec<String> {
        self.versions
    }

    pub fn new(name: String, author: u32, versions: Vec<String>) -> (info: Self)
        ensures
            info.spec_name() == name,
            info.spec_author() == author,
            info.spec_versions() == versions,
    {
        Self { name, author, versions }
    }

    pub fn name(&self) -> (name: &str)
        ensures
            name@ == self.spec_name()@,
    {
        self.name.as_str()
    }

    pub fn author(&self) -> (author: u32)
        ensures
            author == self.spec_author(),
    {
        self.author
    }

    pub fn versions(&self) -> (versions: &Vec<String>)
        ensures
            *versions == self.spec_versions(),
    {
        &self.versions
    }
}

} // verus!
