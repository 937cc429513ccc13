//! The steps that set a project up, and the order in which they are taken.
//!
//! A plan is made from the project's name alone: first the four directories,
//! then the environment file and its example copy, then the manifest. The
//! name is taken as it comes; it is only ever the root of the paths.

use crate::paths::{
    child_path, directory_names, name_views, spec_child_path, spec_directory_names,
    spec_entry_names, ENV_EXAMPLE_FILE, ENV_FILE, MANIFEST_FILE,
};
use crate::templates::{COMPOSE_TEMPLATE, ENV_TEMPLATE};
use vstd::prelude::*;
use vstd::string::*;

verus! {

/// One thing to do on the filesystem.
#[derive(Debug, Clone, PartialEq, Eq)]
pub enum Step {
    /// Create the directory at `path`, with every missing ancestor.
    CreateDir { path: String },
    /// Write `content` to the file at `path`, replacing what it held.
    WriteFile { path: String, content: String },
}

/// A step with its texts as sequences of characters.
pub enum StepView {
    CreateDir { path: Seq<char> },
    WriteFile { path: Seq<char>, content: Seq<char> },
}

impl View for Step {
    type V = StepView;

    open spec fn view(&self) -> StepView {
        match *self {
            Step::CreateDir { path } => StepView::CreateDir { path: path@ },
            Step::WriteFile { path, content } => StepView::WriteFile {
                path: path@,
                content: content@,
            },
        }
    }
}

impl StepView {
    /// The path that the step works on.
    pub open spec fn path(self) -> Seq<char> {
        match self {
            StepView::CreateDir { path } => path,
            StepView::WriteFile { path, .. } => path,
        }
    }

    /// The text that the step writes, if it writes any.
    pub open spec fn content(self) -> Option<Seq<char>> {
        match self {
            StepView::CreateDir { .. } => None,
            StepView::WriteFile { content, .. } => Some(content),
        }
    }
}

/// The view of each step in `steps`.
pub open spec fn step_views(steps: Seq<Step>) -> Seq<StepView> {
    steps.map_values(|step: Step| step@)
}

/// The steps that create the directories of `project`, in order.
pub open spec fn spec_directory_steps(project: Seq<char>) -> Seq<StepView> {
    spec_directory_names().map_values(
        |name: Seq<char>| StepView::CreateDir { path: spec_child_path(project, name) },
    )
}

/// The steps that write the environment file of `project` and its example
/// copy. Both hold the same text.
pub open spec fn spec_env_file_steps(project: Seq<char>) -> Seq<StepView> {
    seq![
        StepView::WriteFile {
            path: spec_child_path(project, ENV_FILE@),
            content: ENV_TEMPLATE@,
        },
        StepView::WriteFile {
            path: spec_child_path(project, ENV_EXAMPLE_FILE@),
            content: ENV_TEMPLATE@,
        },
    ]
}

/// The step that writes the manifest of `project`.
pub open spec fn spec_manifest_step(project: Seq<char>) -> StepView {
    StepView::WriteFile {
        path: spec_child_path(project, MANIFEST_FILE@),
        content: COMPOSE_TEMPLATE@,
    }
}

/// All steps for `project`: directories, then environment files, then the
/// manifest.
pub open spec fn spec_plan(project: Seq<char>) -> Seq<StepView> {
    spec_directory_steps(project) + spec_env_file_steps(project) + seq![
        spec_manifest_step(project),
    ]
}

impl Step {
    /// The path that the step works on.
    pub fn path(&self) -> (path: &str)
        ensures
            path@ == self@.path(),
    {
        match self {
            Step::CreateDir { path } => path.as_str(),
            Step::WriteFile { path, .. } => path.as_str(),
        }
    }
}

/// Plans the creation of the directories of the project.
pub fn directory_steps(project_name: &str) -> (steps: Vec<Step>)
    ensures
        step_views(steps@) == spec_directory_steps(project_name@),
{
    let names = directory_names();
    let mut steps: Vec<Step> = Vec::new();
    let mut i: usize = 0;
    while i < names.len()
        invariant
            i <= names.len(),
            name_views(names@) == spec_directory_names(),
            steps.len() == i,
            forall|k: int|
                0 <= k < i ==> (#[trigger] steps[k])@ == spec_directory_steps(project_name@)[k],
        decreases names.len() - i,
    {
        assert(name_views(names@)[i as int] == names[i as int]@);
        steps.push(Step::CreateDir { path: child_path(project_name, names[i]) });
        i += 1;
    }
    assert(step_views(steps@) =~= spec_directory_steps(project_name@));
    steps
}

/// Plans the writing of the environment file and of its example copy.
pub fn env_file_steps(project_name: &str) -> (steps: Vec<Step>)
    ensures
        step_views(steps@) == spec_env_file_steps(project_name@),
{
    let mut steps: Vec<Step> = Vec::new();
    steps.push(
        Step::WriteFile {
            path: child_path(project_name, ENV_FILE),
            content: String::from_str(ENV_TEMPLATE),
        },
    );
    steps.push(
        Step::WriteFile {
            path: child_path(project_name, ENV_EXAMPLE_FILE),
            content: String::from_str(ENV_TEMPLATE),
        },
    );
    assert(step_views(steps@) =~= spec_env_file_steps(project_name@));
    steps
}

/// Plans the writing of the manifest.
pub fn manifest_step(project_name: &str) -> (step: Step)
    ensures
        step@ == spec_manifest_step(project_name@),
{
    Step::WriteFile {
        path: child_path(project_name, MANIFEST_FILE),
        content: String::from_str(COMPOSE_TEMPLATE),
    }
}

/// Plans the whole set-up of the project called `project_name`.
pub fn plan(project_name: &str) -> (steps: Vec<Step>)
    ensures
        step_views(steps@) == spec_plan(project_name@),
{
    let mut steps = directory_steps(project_name);
    let mut env_steps = env_file_steps(project_name);
    let ghost dirs = steps@;
    let ghost envs = env_steps@;
    steps.append(&mut env_steps);
    steps.push(manifest_step(project_name));
    assert(step_views(steps@) =~= step_views(dirs) + step_views(envs) + seq![
        spec_manifest_step(project_name@),
    ]);
    steps
}

/// The name of a project enters into nothing but the paths: the plans of
/// two projects have the same number of steps, and steps at the same place
/// are of the same kind, are for the entry of the same name and write the
/// same text.
pub proof fn lemma_only_paths_vary(first: Seq<char>, second: Seq<char>)
    ensures
        spec_plan(first).len() == 7,
        spec_plan(second).len() == 7,
        forall|i: int|
            #![trigger spec_plan(first)[i]]
            #![trigger spec_plan(second)[i]]
            0 <= i < 7 ==> {
                &&& spec_plan(first)[i].content() == spec_plan(second)[i].content()
                &&& spec_plan(first)[i].path() == spec_child_path(first, spec_entry_names()[i])
                &&& spec_plan(second)[i].path() == spec_child_path(second, spec_entry_names()[i])
            },
{
}

/// The environment file and its example copy are planned with one and the
/// same text.
pub proof fn lemma_env_steps_share_text(project: Seq<char>)
    ensures
        spec_plan(project)[4].path() == spec_child_path(project, ENV_FILE@),
        spec_plan(project)[5].path() == spec_child_path(project, ENV_EXAMPLE_FILE@),
        spec_plan(project)[4].content() == Some(ENV_TEMPLATE@),
        spec_plan(project)[5].content() == spec_plan(project)[4].content(),
{
}

} // verus!
