//! The currently open project and the commands that read and write it.
//!
//! A [`ProjectState`] is plain data: whoever shares one between threads wraps
//! it in a lock and hands each command the guarded value.

use vstd::prelude::*;
use vstd::string::*;
use crate::paths::{commands_file_path, commands_path, lemma_commands_path_shape, COMMANDS_FILE};

verus! {

/// What `get_commands_path` answers while no project is open.
pub const NO_PROJECT_PATH: &'static str = "No project path set";

/// The root path of the project that is open in the editor, if any.
///
/// Its view is `None` until a path is set, and from then on `Some` of the path
/// that was set last.
pub struct ProjectState {
    path: Option<String>,
}

impl View for ProjectState {
    type V = Option<Seq<char>>;

    closed spec fn view(&self) -> Option<Seq<char>> {
        match self.path {
            Some(path) => Some(path@),
            None => None,
        }
    }
}

/// The project at start-up: none is open.
pub open spec fn unset() -> Option<Seq<char>> {
    None
}

/// The project once `path` has been set. What was open before plays no part.
pub open spec fn after_set(before: Option<Seq<char>>, path: Seq<char>) -> Option<Seq<char>> {
    Some(path)
}

/// The reply to a request for the project path while the project is `project`.
pub open spec fn project_path_reply(project: Option<Seq<char>>) -> Option<Seq<char>> {
    project
}

/// The reply to a request for the commands file while the project is `project`.
pub open spec fn commands_path_reply(project: Option<Seq<char>>) -> Result<Seq<char>, Seq<char>> {
    match project {
        Some(root) => Ok(commands_path(root)),
        None => Err(NO_PROJECT_PATH@),
    }
}

/// The text that a reply carries, on either side.
pub open spec fn reply_text(reply: Result<String, String>) -> Result<Seq<char>, Seq<char>> {
    match reply {
        Ok(path) => Ok(path@),
        Err(message) => Err(message@),
    }
}

impl ProjectState {
    /// The state at start-up: no project is open.
    pub fn new() -> (state: Self)
        ensures
            state@ == unset(),
    {
        ProjectState { path: None }
    }
}

impl Default for ProjectState {
    fn default() -> (state: Self)
        ensures
            state@ == unset(),
    {
        ProjectState::new()
    }
}

/// Makes `path` the root of the open project, whatever was open before.
///
/// The path is taken as it is: nothing checks that it exists or names a
/// directory. The call always succeeds.
pub fn set_project_path(state: &mut ProjectState, path: String) -> (done: Result<(), String>)
    ensures
        done is Ok,
        final(state)@ == after_set(old(state)@, path@),
{
    state.path = Some(path);
    Ok(())
}

/// Returns the root of the open project, or `None` while none is open.
/// The call always succeeds and leaves the state as it is.
pub fn get_project_path(state: &ProjectState) -> (found: Result<Option<String>, String>)
    ensures
        found matches Ok(path) && path.deep_view() == project_path_reply(state@),
{
    match &state.path {
        Some(path) => Ok(Some(path.clone())),
        None => Ok(None),
    }
}

/// Returns the path of the commands file of the open project. It is derived
/// from the project root at every call. While no project is open the call
/// fails with [`NO_PROJECT_PATH`].
pub fn get_commands_path(state: &ProjectState) -> (reply: Result<String, String>)
    ensures
        reply_text(reply) == commands_path_reply(state@),
{
    match &state.path {
        Some(root) => Ok(commands_file_path(root.as_str())),
        None => Err(String::from_str(NO_PROJECT_PATH)),
    }
}

/// Before any path is set, the project path is reported as absent and the
/// commands file is refused with [`NO_PROJECT_PATH`].
pub proof fn lemma_unset_at_start()
    ensures
        project_path_reply(unset()) is None,
        commands_path_reply(unset()) == Err::<Seq<char>, Seq<char>>(NO_PROJECT_PATH@),
{
}

/// Once a path has been set, both readers answer from it, whatever was open
/// before: the project path is the one that was set, and the commands file is
/// found under it, at a path that starts with the root and ends in the file's
/// name.
pub proof fn lemma_readers_follow_set(before: Option<Seq<char>>, path: Seq<char>)
    ensures
        project_path_reply(after_set(before, path)) == Some(path),
        commands_path_reply(after_set(before, path)) == Ok::<Seq<char>, Seq<char>>(
            commands_path(path),
        ),
        path.is_prefix_of(commands_path(path)),
        COMMANDS_FILE@.is_suffix_of(commands_path(path)),
{
    lemma_commands_path_shape(path);
}

/// Of two paths set one after the other, only the second is left.
pub proof fn lemma_last_set_wins(before: Option<Seq<char>>, first: Seq<char>, second: Seq<char>)
    ensures
        after_set(after_set(before, first), second) == after_set(before, second),
{
}

} // verus!
