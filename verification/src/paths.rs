//! Joining the commands file onto a project root.

use vstd::prelude::*;
use vstd::string::*;

verus! {

/// Name of the file, directly under the project root, that holds the
/// project's commands.
pub const COMMANDS_FILE: &'static str = "commands.yaml";

/// The character that separates the components of a path, on every host.
pub const SEPARATOR: char = '/';

/// A separator has to be written after `root` before another component can
/// follow: `root` is not empty and does not already end in one.
pub open spec fn needs_separator(root: Seq<char>) -> bool {
    root.len() > 0 && root.last() != SEPARATOR
}

/// `root` with the relative component `name` adjoined.
pub open spec fn joined(root: Seq<char>, name: Seq<char>) -> Seq<char> {
    if needs_separator(root) {
        root.push(SEPARATOR) + name
    } else {
        root + name
    }
}

/// The path of the commands file of the project rooted at `root`.
pub open spec fn commands_path(root: Seq<char>) -> Seq<char> {
    joined(root, COMMANDS_FILE@)
}

/// Computes the path of the commands file of the project rooted at `root`.
///
/// Nothing is asked of `root`: it need not exist, be absolute or name a
/// directory. A root that ends in a separator gets no second one, and an
/// empty root gives the bare file name. The separator is `/` on every host.
pub fn commands_file_path(root: &str) -> (path: String)
    ensures
        path@ == commands_path(root@),
{
    let mut path = String::from_str(root);
    let len: usize = root.unicode_len();
    if len > 0 && root.get_char(len - 1) != SEPARATOR {
        proof {
            reveal_strlit("/");
        }
        path.append("/");
        assert(path@ =~= root@.push(SEPARATOR));
    }
    path.append(COMMANDS_FILE);
    path
}

/// The commands file lies directly under its root: the path starts with the
/// root, ends in the file's name, and holds between the two at most one
/// separator, which is there whenever the root is not empty.
pub proof fn lemma_commands_path_shape(root: Seq<char>)
    ensures
        root.is_prefix_of(commands_path(root)),
        COMMANDS_FILE@.is_suffix_of(commands_path(root)),
        root.len() + COMMANDS_FILE@.len() <= commands_path(root).len() <= root.len()
            + COMMANDS_FILE@.len() + 1,
        root.len() > 0 ==> commands_path(root)[commands_path(root).len() - COMMANDS_FILE@.len()
            - 1] == SEPARATOR,
{
    let file = COMMANDS_FILE@;
    let path = commands_path(root);
    assert(path.subrange(0, root.len() as int) =~= root);
    assert(path.subrange(path.len() - file.len(), path.len() as int) =~= file);
}

} // verus!
