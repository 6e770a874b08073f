use vstd::prelude::*;
use crate::project::{entries_view, FileEntry, Project, Stack};

pub mod django;
pub mod fastapi;
pub mod flask;
pub mod node;

verus! {

/// The files that a project's stack adds to the shared ones.
pub open spec fn spec_stack_files(project: Project) -> Seq<(Seq<char>, Seq<char>, bool)> {
    match project.stack {
        Stack::Node => node::spec_files(project),
        Stack::Django => django::spec_files(project),
        Stack::Flask => flask::spec_files(project),
        Stack::Fastapi => fastapi::spec_files(project),
    }
}

/// The files that a project's stack adds to the shared ones.
pub fn files_for(project: &Project) -> (r: Vec<FileEntry>)
    ensures
        entries_view(r@) == spec_stack_files(*project),
{
    match project.stack {
        Stack::Node => node::files(project),
        Stack::Django => django::files(project),
        Stack::Flask => flask::files(project),
        Stack::Fastapi => fastapi::files(project),
    }
}

} // verus!
