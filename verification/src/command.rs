use std::path::PathBuf;
use vstd::prelude::*;

verus! {

/// `std::path::PathBuf`, carried through the engine as an opaque value: the
/// library stores and hands back target paths and never looks inside them.
#[verifier::external_type_specification]
#[verifier::external_body]
pub struct ExPathBuf(PathBuf);

/// What the controller asks of the capture engine.
#[derive(Debug)]
pub enum AudioCommand {
    /// Begin a take that will be persisted at the given path.
    Start(PathBuf),
    /// End the running take.
    Stop,
}

/// What the engines report back to the controller.
#[derive(Debug)]
pub enum AppCommand {
    /// A take was written in full to the given path.
    FileSaved(PathBuf),
}

} // verus!
