use vstd::prelude::*;

verus! {

/// What the prompt of a single-project view asks for.
#[derive(Clone, Debug)]
pub enum PromptRequest {
    SetProjectPassword,
    GetLoadPassword(String),
    RenameProject,
    RenameSubProject,
    AddSubProject,
    AddTask,
    RenameTask,
}

/// What the file list of a single-project view was opened for.
#[derive(Clone, Copy, PartialEq, Eq, Structural, Debug)]
pub enum FileRequest {
    Save,
    Load,
}

} // verus!
