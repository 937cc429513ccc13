//! What a plan leaves behind, stated over a model of the project tree.
//!
//! The model knows the directories by their paths and the files by their
//! paths and texts. It says what a step does when it goes through: a
//! directory step adds its path, a write step sets the text at its path.
//! Ancestors that come into being on the way are not recorded, and nothing
//! is said of a step that fails. The laws below are about the steps of
//! [`spec_plan`], which is what the planning functions return.

use crate::paths::{
    lemma_entry_paths_distinct, spec_child_path, spec_entry_names, DATABASE_DIR, DATA_DIR,
    ENV_EXAMPLE_FILE, ENV_FILE, EXTENSIONS_DIR, MANIFEST_FILE, UPLOADS_DIR,
};
use crate::plan::{spec_env_file_steps, spec_manifest_step, spec_plan, StepView};
use crate::templates::{COMPOSE_TEMPLATE, ENV_TEMPLATE};
use vstd::prelude::*;

verus! {

/// The directories and files of a tree.
pub struct Tree {
    /// The paths of the directories.
    pub dirs: Set<Seq<char>>,
    /// The text of each file, by its path.
    pub files: Map<Seq<char>, Seq<char>>,
}

/// The tree without any entry.
pub open spec fn empty_tree() -> Tree {
    Tree { dirs: Set::empty(), files: Map::empty() }
}

/// The tree once `step` has gone through on `tree`.
pub open spec fn after_step(tree: Tree, step: StepView) -> Tree {
    match step {
        StepView::CreateDir { path } => Tree { dirs: tree.dirs.insert(path), files: tree.files },
        StepView::WriteFile { path, content } => Tree {
            dirs: tree.dirs,
            files: tree.files.insert(path, content),
        },
    }
}

/// The tree once every step of `steps` has gone through on `tree`, in order.
pub open spec fn after_steps(tree: Tree, steps: Seq<StepView>) -> Tree
    decreases steps.len(),
{
    if steps.len() == 0 {
        tree
    } else {
        after_step(after_steps(tree, steps.drop_last()), steps.last())
    }
}

/// The paths of the four directories of `project`.
pub open spec fn project_dirs(project: Seq<char>) -> Set<Seq<char>> {
    set![
        spec_child_path(project, DATABASE_DIR@),
        spec_child_path(project, UPLOADS_DIR@),
        spec_child_path(project, EXTENSIONS_DIR@),
        spec_child_path(project, DATA_DIR@),
    ]
}

/// The three files of `project`, each with its text.
pub open spec fn project_files(project: Seq<char>) -> Map<Seq<char>, Seq<char>> {
    map![
        spec_child_path(project, ENV_FILE@) => ENV_TEMPLATE@,
        spec_child_path(project, ENV_EXAMPLE_FILE@) => ENV_TEMPLATE@,
        spec_child_path(project, MANIFEST_FILE@) => COMPOSE_TEMPLATE@,
    ]
}

/// `tree` with the directories of `project` added and the files of
/// `project` set to their texts. Every other entry is as in `tree`.
pub open spec fn with_project(tree: Tree, project: Seq<char>) -> Tree {
    Tree {
        dirs: tree.dirs.union(project_dirs(project)),
        files: tree.files.union_prefer_right(project_files(project)),
    }
}

/// A project has four directories and three files, and no path is both.
pub proof fn lemma_entry_counts(project: Seq<char>)
    ensures
        project_dirs(project).finite(),
        project_dirs(project).len() == 4,
        project_files(project).dom().finite(),
        project_files(project).dom().len() == 3,
        project_dirs(project).disjoint(project_files(project).dom()),
{
    lemma_entry_paths_distinct(project);
    let names = spec_entry_names();
    let paths = Seq::new(7, |i: int| spec_child_path(project, names[i]));
    assert(forall|i: int, j: int| 0 <= i < j < 7 ==> paths[i] != paths[j]);
    assert(names[0] == DATABASE_DIR@ && names[1] == UPLOADS_DIR@ && names[2] == EXTENSIONS_DIR@
        && names[3] == DATA_DIR@);
    assert(names[4] == ENV_FILE@ && names[5] == ENV_EXAMPLE_FILE@ && names[6] == MANIFEST_FILE@);
    let dirs = project_dirs(project);
    assert(dirs =~= Set::empty().insert(paths[0]).insert(paths[1]).insert(paths[2]).insert(
        paths[3],
    ));
    let files = project_files(project).dom();
    assert(files =~= Set::empty().insert(paths[4]).insert(paths[5]).insert(paths[6]));
}

/// A run in which every step goes through adds the four directories of the
/// project to the tree, sets its three files to their texts, and leaves every
/// other entry as it was.
pub proof fn lemma_run_effect(tree: Tree, project: Seq<char>)
    ensures
        after_steps(tree, spec_plan(project)) == with_project(tree, project),
{
    let steps = spec_plan(project);
    assert(steps.len() == 7);
    let s1 = steps.drop_last();
    let s2 = s1.drop_last();
    let s3 = s2.drop_last();
    let s4 = s3.drop_last();
    let s5 = s4.drop_last();
    let s6 = s5.drop_last();
    let s7 = s6.drop_last();
    assert(s7.len() == 0);
    assert(after_steps(tree, s7) == tree);
    let t6 = after_steps(tree, s6);
    assert(t6 == after_step(tree, steps[0]));
    let t5 = after_steps(tree, s5);
    assert(t5 == after_step(t6, steps[1]));
    let t4 = after_steps(tree, s4);
    assert(t4 == after_step(t5, steps[2]));
    let t3 = after_steps(tree, s3);
    assert(t3 == after_step(t4, steps[3]));
    let t2 = after_steps(tree, s2);
    assert(t2 == after_step(t3, steps[4]));
    let t1 = after_steps(tree, s1);
    assert(t1 == after_step(t2, steps[5]));
    let t0 = after_steps(tree, steps);
    assert(t0 == after_step(t1, steps[6]));
    let goal = with_project(tree, project);
    assert(t0.dirs =~= goal.dirs);
    assert(t0.files =~= goal.files);
}

/// Running twice is as good as running once: where every step goes through,
/// a second run of the same project leaves the tree of the first run as it
/// is. Entries are overwritten, never doubled.
pub proof fn lemma_rerun_changes_nothing(tree: Tree, project: Seq<char>)
    ensures
        after_steps(after_steps(tree, spec_plan(project)), spec_plan(project)) == after_steps(
            tree,
            spec_plan(project),
        ),
{
    lemma_run_effect(tree, project);
    let once = with_project(tree, project);
    lemma_run_effect(once, project);
    let twice = with_project(once, project);
    assert(twice.dirs =~= once.dirs);
    assert(twice.files =~= once.files);
}

/// On an empty tree, a run in which every step goes through leaves exactly
/// the four directories of the project and exactly its three files.
pub proof fn lemma_fresh_run_is_complete(project: Seq<char>)
    ensures
        after_steps(empty_tree(), spec_plan(project)).dirs == project_dirs(project),
        after_steps(empty_tree(), spec_plan(project)).files == project_files(project),
        project_dirs(project).len() == 4,
        project_files(project).dom().len() == 3,
{
    lemma_run_effect(empty_tree(), project);
    lemma_entry_counts(project);
    let done = with_project(empty_tree(), project);
    assert(done.dirs =~= project_dirs(project));
    assert(done.files =~= project_files(project));
}

/// After a run in which every step goes through, the environment file and
/// its example copy hold the same text, whatever the tree held before.
pub proof fn lemma_env_files_identical(tree: Tree, project: Seq<char>)
    ensures
        ({
            let done = after_steps(tree, spec_plan(project));
            let env = spec_child_path(project, ENV_FILE@);
            let example = spec_child_path(project, ENV_EXAMPLE_FILE@);
            &&& done.files.dom().contains(env)
            &&& done.files.dom().contains(example)
            &&& done.files[env] == done.files[example]
            &&& done.files[env] == ENV_TEMPLATE@
        }),
{
    lemma_run_effect(tree, project);
    lemma_entry_paths_distinct(project);
    let names = spec_entry_names();
    let env = spec_child_path(project, ENV_FILE@);
    let example = spec_child_path(project, ENV_EXAMPLE_FILE@);
    let manifest = spec_child_path(project, MANIFEST_FILE@);
    assert(env == spec_child_path(project, names[4]));
    assert(example == spec_child_path(project, names[5]));
    assert(manifest == spec_child_path(project, names[6]));
    assert(env != example && env != manifest && example != manifest);
}

/// Taking the steps of `first` and then those of `second` is taking the
/// steps of the two put together.
pub proof fn lemma_after_steps_joined(tree: Tree, first: Seq<StepView>, second: Seq<StepView>)
    ensures
        after_steps(tree, first + second) == after_steps(after_steps(tree, first), second),
    decreases second.len(),
{
    if second.len() == 0 {
        assert(first + second =~= first);
    } else {
        lemma_after_steps_joined(tree, first, second.drop_last());
        assert((first + second).drop_last() =~= first + second.drop_last());
    }
}

/// Directory steps leave the files alone.
pub proof fn lemma_directories_keep_files(tree: Tree, made: Seq<StepView>)
    requires
        forall|i: int| 0 <= i < made.len() ==> made[i] is CreateDir,
    ensures
        after_steps(tree, made).files == tree.files,
    decreases made.len(),
{
    if made.len() > 0 {
        lemma_directories_keep_files(tree, made.drop_last());
    }
}

/// The files do not wait for the directories: let `made` be the directory
/// steps that went through, whichever and however many they are. If the
/// three write steps go through after them, the three files of the project
/// hold their texts, and every other file is as it was.
pub proof fn lemma_files_written_whatever_directories(
    tree: Tree,
    project: Seq<char>,
    made: Seq<StepView>,
)
    requires
        forall|i: int| 0 <= i < made.len() ==> made[i] is CreateDir,
    ensures
        after_steps(
            tree,
            made + spec_env_file_steps(project) + seq![spec_manifest_step(project)],
        ).files == tree.files.union_prefer_right(project_files(project)),
{
    let writes = spec_env_file_steps(project) + seq![spec_manifest_step(project)];
    assert(made + spec_env_file_steps(project) + seq![spec_manifest_step(project)] =~= made
        + writes);
    lemma_after_steps_joined(tree, made, writes);
    lemma_directories_keep_files(tree, made);
    let start = after_steps(tree, made);
    let w1 = writes.drop_last();
    let w2 = w1.drop_last();
    let w3 = w2.drop_last();
    assert(writes.len() == 3);
    assert(w3.len() == 0);
    assert(after_steps(start, w3) == start);
    assert(w2.last() == writes[0] && w1.last() == writes[1] && writes.last() == writes[2]);
    assert(after_steps(start, w2) == after_step(start, writes[0]));
    assert(after_steps(start, w1) == after_step(after_steps(start, w2), writes[1]));
    assert(after_steps(start, writes) == after_step(after_steps(start, w1), writes[2]));
    assert(after_steps(start, writes).files =~= tree.files.union_prefer_right(
        project_files(project),
    ));
}

} // verus!
