//! The packages that can be installed.
//!
//! The set is fixed: a name outside of it never becomes a [`Package`], so no
//! work is ever planned for it.

use vstd::prelude::*;

verus! {

/// A package known to the tool manager.
#[derive(Clone, Copy, Debug, PartialEq, Eq, Structural)]
pub enum Package {
    TaskRust,
    Dwn,
}

impl Package {
    /// The name by which users ask for the package.
    pub open spec fn spec_name(self) -> Seq<char> {
        match self {
            Package::TaskRust => "task-rust"@,
            Package::Dwn => "dwn"@,
        }
    }

    /// The address of the package's source repository.
    pub open spec fn spec_repository(self) -> Seq<char> {
        match self {
            Package::TaskRust => "https://github.com/ArnabRollin/Task-rust"@,
            Package::Dwn => "https://github.com/ArnabRollin/dwn"@,
        }
    }

    /// The file name of the executable that a build of the package produces.
    pub open spec fn spec_binary(self) -> Seq<char> {
        match self {
            Package::TaskRust => "task"@,
            Package::Dwn => "dwn"@,
        }
    }

    /// The name by which users ask for the package.
    pub fn name(&self) -> (name: &'static str)
        ensures
            name@ == self.spec_name(),
    {
        match self {
            Package::TaskRust => "task-rust",
            Package::Dwn => "dwn",
        }
    }

    /// The address of the package's source repository.
    pub fn repository(&self) -> (url: &'static str)
        ensures
            url@ == self.spec_repository(),
    {
        match self {
            Package::TaskRust => "https://github.com/ArnabRollin/Task-rust",
            Package::Dwn => "https://github.com/ArnabRollin/dwn",
        }
    }

    /// The file name of the executable that a build of the package produces.
    pub fn binary(&self) -> (file: &'static str)
        ensures
            file@ == self.spec_binary(),
    {
        match self {
            Package::TaskRust => "task",
            Package::Dwn => "dwn",
        }
    }
}

/// The package that goes by `name`, if there is one.
pub open spec fn spec_lookup(name: Seq<char>) -> Option<Package> {
    if name == Package::TaskRust.spec_name() {
        Some(Package::TaskRust)
    } else if name == Package::Dwn.spec_name() {
        Some(Package::Dwn)
    } else {
        None
    }
}

/// Finds the package that goes by `name`.
pub fn lookup(name: &str) -> (found: Option<Package>)
    ensures
        found == spec_lookup(name@),
{
    let name = name.to_owned();
    if name == Package::TaskRust.name().to_owned() {
        Some(Package::TaskRust)
    } else if name == Package::Dwn.name().to_owned() {
        Some(Package::Dwn)
    } else {
        None
    }
}

/// Every package is found under its own name, and under no other.
pub proof fn lemma_lookup_inverts_name(package: Package, name: Seq<char>)
    ensures
        spec_lookup(package.spec_name()) == Some(package),
        spec_lookup(name) == Some(package) ==> name == package.spec_name(),
        package.spec_name().len() > 0,
{
    reveal_strlit("task-rust");
    reveal_strlit("dwn");
    assert("task-rust"@.len() == 9);
    assert("dwn"@.len() == 3);
}

} // verus!
