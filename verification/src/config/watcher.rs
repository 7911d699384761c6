//! Which file-system events make the daemon reload its configuration.
//!
//! The parent directory of the configuration file is watched, because editors
//! rename a file into place instead of writing it.

use vstd::prelude::*;

verus! {

/// What happened to the files of an event.
#[derive(Debug, Clone, Copy, PartialEq, Eq, Structural)]
pub enum ChangeKind {
    /// Files were created.
    Create,
    /// Files were modified or renamed.
    Modify,
    /// Files were removed.
    Remove,
    /// Anything else, such as a mere access.
    Other,
}

/// Whether one of the changed paths ends in the file name `file_name`. A path
/// without a file name matches nothing.
pub open spec fn names_file(names: Seq<Option<String>>, file_name: Seq<char>) -> bool {
    exists|i: int| 0 <= i < names.len() && #[trigger] names[i] is Some && names[i]->0@ == file_name
}

/// Whether an event calls for a reload: a file was created, modified or
/// removed, and it is the configuration file.
pub fn should_reload(kind: ChangeKind, names: &Vec<Option<String>>, file_name: &String) -> (r: bool)
    ensures
        r == (kind != ChangeKind::Other && names_file(names@, file_name@)),
{
    if kind == ChangeKind::Other {
        return false;
    }
    let mut i: usize = 0;
    while i < names.len()
        invariant
            i <= names@.len(),
            kind != ChangeKind::Other,
            forall|j: int|
                0 <= j < i ==> !(#[trigger] names@[j] is Some && names@[j]->0@ == file_name@),
        decreases names@.len() - i,
    {
        if let Some(name) = &names[i] {
            if *name == *file_name {
                assert(names@[i as int] is Some);
                return true;
            }
        }
        i += 1;
    }
    false
}

} // verus!
