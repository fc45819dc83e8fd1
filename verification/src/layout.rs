//! Where things live below the user's home directory.
//!
//! * `<home>/.codeydog/` holds the binaries of installed tools;
//! * `<home>/.codeydog/activate` holds the binaries that were activated;
//! * `<home>/.codeydog_tools/<package>/` holds a package's sources and build.
//!
//! Paths are built by joining text, and are handed out as text.

use crate::registry::Package;
use vstd::prelude::*;
use vstd::string::StringExecFns;

verus! {

/// The directory of installed binaries.
pub open spec fn spec_tool_dir(home: Seq<char>) -> Seq<char> {
    home + "/.codeydog/"@
}

/// The directory of activated binaries.
pub open spec fn spec_staging_dir(home: Seq<char>) -> Seq<char> {
    spec_tool_dir(home) + "activate"@
}

/// Where the binary of `tool` lies while it is not activated.
pub open spec fn spec_installed_path(home: Seq<char>, tool: Seq<char>) -> Seq<char> {
    spec_tool_dir(home) + tool
}

/// Where the binary of `tool` lies while it is activated.
pub open spec fn spec_activated_path(home: Seq<char>, tool: Seq<char>) -> Seq<char> {
    spec_staging_dir(home) + "/"@ + tool
}

/// The directory below which each package has its own directory.
pub open spec fn spec_packages_root(home: Seq<char>) -> Seq<char> {
    home + "/.codeydog_tools/"@
}

/// The directory of a package's sources.
pub open spec fn spec_install_dir(home: Seq<char>, package: Package) -> Seq<char> {
    spec_packages_root(home) + package.spec_name() + "/"@
}

/// The build manifest inside a package's sources.
pub open spec fn spec_manifest_path(home: Seq<char>, package: Package) -> Seq<char> {
    spec_install_dir(home, package) + "Cargo.toml"@
}

/// Where a release build leaves a package's binary.
pub open spec fn spec_built_binary(home: Seq<char>, package: Package) -> Seq<char> {
    spec_install_dir(home, package) + "target/release/"@ + package.spec_binary()
}

/// Where a package's binary is installed.
pub open spec fn spec_deployed_binary(home: Seq<char>, package: Package) -> Seq<char> {
    spec_installed_path(home, package.spec_binary())
}

/// The directory of installed binaries.
pub fn tool_dir(home: &str) -> (path: String)
    ensures
        path@ == spec_tool_dir(home@),
{
    String::from_str(home).concat("/.codeydog/")
}

/// The directory of activated binaries.
pub fn staging_dir(home: &str) -> (path: String)
    ensures
        path@ == spec_staging_dir(home@),
{
    tool_dir(home).concat("activate")
}

/// Where the binary of `tool` lies while it is not activated.
pub fn installed_path(home: &str, tool: &str) -> (path: String)
    ensures
        path@ == spec_installed_path(home@, tool@),
{
    tool_dir(home).concat(tool)
}

/// Where the binary of `tool` lies while it is activated.
pub fn activated_path(home: &str, tool: &str) -> (path: String)
    ensures
        path@ == spec_activated_path(home@, tool@),
{
    staging_dir(home).concat("/").concat(tool)
}

/// The directory below which each package has its own directory.
pub fn packages_root(home: &str) -> (path: String)
    ensures
        path@ == spec_packages_root(home@),
{
    String::from_str(home).concat("/.codeydog_tools/")
}

/// The directory of a package's sources.
pub fn install_dir(home: &str, package: Package) -> (path: String)
    ensures
        path@ == spec_install_dir(home@, package),
{
    packages_root(home).concat(package.name()).concat("/")
}

/// The build manifest inside a package's sources.
pub fn manifest_path(home: &str, package: Package) -> (path: String)
    ensures
        path@ == spec_manifest_path(home@, package),
{
    install_dir(home, package).concat("Cargo.toml")
}

/// Where a release build leaves a package's binary.
pub fn built_binary(home: &str, package: Package) -> (path: String)
    ensures
        path@ == spec_built_binary(home@, package),
{
    install_dir(home, package).concat("target/release/").concat(package.binary())
}

/// Where a package's binary is installed.
pub fn deployed_binary(home: &str, package: Package) -> (path: String)
    ensures
        path@ == spec_deployed_binary(home@, package),
{
    installed_path(home, package.binary())
}

} // verus!
