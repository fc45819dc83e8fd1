//! Activating and deactivating an installed tool.
//!
//! A tool is activated by moving its binary from the directory of installed
//! binaries to the directory of activated ones, and deactivated by moving it
//! back. This module plans the move; it does not make it.

use crate::layout::{
    activated_path, installed_path, spec_activated_path, spec_installed_path, spec_staging_dir,
    staging_dir,
};
use crate::names::{given, name_or_empty};
use vstd::prelude::*;
use vstd::string::StringExecFns;

verus! {

/// Why no move was planned.
#[derive(Clone, Copy, Debug, PartialEq, Eq, Structural)]
pub enum ActivationError {
    /// No tool was named, or the name was empty.
    MissingTool,
}

impl ActivationError {
    /// The wording of the error.
    pub open spec fn spec_message(self) -> Seq<char> {
        "Error: Please provide a tool to activate!"@
    }

    /// The wording of the error.
    pub fn message(&self) -> (text: String)
        ensures
            text@ == self.spec_message(),
    {
        String::from_str("Error: Please provide a tool to activate!")
    }

    /// The status with which the process ends on this error.
    pub fn exit_code(&self) -> (code: i32)
        ensures
            code == 1,
    {
        1
    }
}

/// The move of one binary, and the directory that must exist for it.
#[derive(Clone, Debug, PartialEq, Eq)]
pub struct Relocation {
    /// The directory of activated binaries, to be created if it is missing.
    pub staging: String,
    /// Where the binary lies.
    pub from: String,
    /// Where the binary is to lie.
    pub to: String,
}

/// The mathematical content of [`Relocation`].
pub struct RelocationView {
    pub staging: Seq<char>,
    pub from: Seq<char>,
    pub to: Seq<char>,
}

impl View for Relocation {
    type V = RelocationView;

    open spec fn view(&self) -> RelocationView {
        RelocationView { staging: self.staging@, from: self.from@, to: self.to@ }
    }
}

/// The move that activates `tool`.
pub open spec fn spec_activation(home: Seq<char>, tool: Seq<char>) -> RelocationView {
    RelocationView {
        staging: spec_staging_dir(home),
        from: spec_installed_path(home, tool),
        to: spec_activated_path(home, tool),
    }
}

/// The move that deactivates `tool`.
pub open spec fn spec_deactivation(home: Seq<char>, tool: Seq<char>) -> RelocationView {
    RelocationView {
        staging: spec_staging_dir(home),
        from: spec_activated_path(home, tool),
        to: spec_installed_path(home, tool),
    }
}

/// Where a file lies after `plan` was carried out, if it lay at `at` before.
pub open spec fn relocated(plan: RelocationView, at: Seq<char>) -> Seq<char> {
    if at == plan.from {
        plan.to
    } else {
        at
    }
}

/// Plans the activation of `tool` for the user whose home directory is
/// `home`.
///
/// Fails if no name or an empty one is given.
pub fn activate(tool: Option<&String>, home: &str) -> (result: Result<
    Relocation,
    ActivationError,
>)
    ensures
        result is Ok <==> given(tool).len() > 0,
        result matches Ok(plan) ==> plan@ == spec_activation(home@, given(tool)),
{
    let tool = name_or_empty(tool);
    if tool.as_str().is_empty() {
        return Err(ActivationError::MissingTool);
    }
    Ok(
        Relocation {
            staging: staging_dir(home),
            from: installed_path(home, tool.as_str()),
            to: activated_path(home, tool.as_str()),
        },
    )
}

/// Plans the deactivation of `tool` for the user whose home directory is
/// `home`.
///
/// Fails if no name or an empty one is given.
pub fn deactivate(tool: Option<&String>, home: &str) -> (result: Result<
    Relocation,
    ActivationError,
>)
    ensures
        result is Ok <==> given(tool).len() > 0,
        result matches Ok(plan) ==> plan@ == spec_deactivation(home@, given(tool)),
{
    let tool = name_or_empty(tool);
    if tool.as_str().is_empty() {
        return Err(ActivationError::MissingTool);
    }
    Ok(
        Relocation {
            staging: staging_dir(home),
            from: activated_path(home, tool.as_str()),
            to: installed_path(home, tool.as_str()),
        },
    )
}

/// Deactivation undoes activation: it moves a binary from where activation
/// put it to where activation found it. So a binary that is activated and
/// then deactivated lies where it lay, and one that is activated, deactivated
/// and activated again lies where the first activation put it.
pub proof fn lemma_deactivation_undoes_activation(home: Seq<char>, tool: Seq<char>)
    ensures
        spec_deactivation(home, tool).from == spec_activation(home, tool).to,
        spec_deactivation(home, tool).to == spec_activation(home, tool).from,
        relocated(
            spec_deactivation(home, tool),
            relocated(spec_activation(home, tool), spec_installed_path(home, tool)),
        ) == spec_installed_path(home, tool),
        relocated(
            spec_activation(home, tool),
            relocated(
                spec_deactivation(home, tool),
                relocated(spec_activation(home, tool), spec_installed_path(home, tool)),
            ),
        ) == relocated(spec_activation(home, tool), spec_installed_path(home, tool)),
{
}

} // verus!
