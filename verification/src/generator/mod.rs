use vstd::prelude::*;
use crate::generator::common::{
    option_view, resolve_target_dir, sanitize_name, spec_resolve_target_dir, spec_sanitize_name,
    validate_slug, GeneratorError,
};
use crate::generator::shared::spec_base_files;
use crate::generator::stacks::spec_stack_files;
use crate::project::{entries_view, spec_default_project_name, FileEntry, Project, Stack};

pub mod common;
pub mod shared;
pub mod stacks;

verus! {

/// Every file of a project: the shared ones first, then those of its stack.
pub open spec fn spec_project_files(project: Project) -> Seq<(Seq<char>, Seq<char>, bool)> {
    spec_base_files(project) + spec_stack_files(project)
}

/// Every file of a project: the shared ones first, then those of its stack.
pub fn files_for(project: &Project) -> (r: Vec<FileEntry>)
    ensures
        entries_view(r@) == spec_project_files(*project),
{
    let mut files = shared::base_files(project);
    let mut extra = stacks::files_for(project);
    let ghost base = files@;
    let ghost more = extra@;
    files.append(&mut extra);
    assert(entries_view(files@) =~= entries_view(base) + entries_view(more));
    files
}

/// The name a project gets: the one given, or the stack's default.
pub open spec fn spec_project_name(stack: Stack, name: Option<Seq<char>>) -> Seq<char> {
    match name {
        Some(n) => n,
        None => spec_default_project_name(stack),
    }
}

/// What `init` settles before it touches the disk: the project's name (the one
/// given or the stack's default), its slug, and the directory it goes to. A name
/// whose slug is empty is refused.
pub fn prepare_project(stack: Stack, name: Option<String>, cwd: &str, dir: Option<String>) -> (r:
    Result<Project, GeneratorError>)
    ensures
        ({
            let name_v = spec_project_name(stack, option_view(name));
            let slug_v = spec_sanitize_name(name_v);
            &&& r is Err <==> slug_v.len() == 0
            &&& r is Err ==> r->Err_0 == GeneratorError::EmptySlug
            &&& r is Ok ==> {
                let p = r->Ok_0;
                &&& p.stack == stack
                &&& p.name@ == name_v
                &&& p.slug@ == slug_v
                &&& p.dir@ == spec_resolve_target_dir(cwd@, slug_v, option_view(dir))
            }
        }),
{
    let project_name = match name {
        Some(n) => n,
        None => String::from_str(stack.default_project_name()),
    };
    let slug = sanitize_name(project_name.as_str());
    match validate_slug(slug.as_str()) {
        Ok(()) => {},
        Err(e) => {
            return Err(e);
        },
    }
    let target_dir = resolve_target_dir(cwd, slug.as_str(), dir);
    Ok(Project { stack, name: project_name, slug, dir: target_dir })
}

pub open spec fn spec_completion_message(slug: Seq<char>, dir: Seq<char>) -> Seq<char> {
    "Created "@ + slug + " at "@ + dir + "\nNext steps:\n  cd "@ + dir
        + "\n  docker compose up --build\n  visit http://localhost\n"@
}

/// What `init` tells the user once the project is written.
pub fn completion_message(project: &Project) -> (r: String)
    ensures
        r@ == spec_completion_message(project.slug@, project.dir@),
{
    let mut s = String::from_str("Created ");
    s.append(project.slug.as_str());
    s.append(" at ");
    s.append(project.dir.as_str());
    s.append("\nNext steps:\n  cd ");
    s.append(project.dir.as_str());
    s.append("\n  docker compose up --build\n  visit http://localhost\n");
    s
}

} // verus!
