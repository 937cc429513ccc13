//! Names and paths of the entries of a project, as text.
//!
//! A project is a directory named after the project. Below it lie four
//! directories and three files, whose names are fixed. Paths are kept as
//! text with `/` between their segments.

use vstd::prelude::*;
use vstd::string::*;

verus! {

/// The character that separates the segments of a path.
pub const SEPARATOR: char = '/';

/// Directory for the files of the database.
pub const DATABASE_DIR: &'static str = "database";

/// Directory for uploaded files.
pub const UPLOADS_DIR: &'static str = "uploads";

/// Directory for extensions.
pub const EXTENSIONS_DIR: &'static str = "extensions";

/// Directory for the data volumes of the services.
pub const DATA_DIR: &'static str = "data";

/// Name of the environment file.
pub const ENV_FILE: &'static str = ".env";

/// Name of the example copy of the environment file.
pub const ENV_EXAMPLE_FILE: &'static str = ".env.example";

/// Name of the orchestration manifest.
pub const MANIFEST_FILE: &'static str = "docker-compose.yml";

/// The names of the directories of a project, in the order of their creation.
pub open spec fn spec_directory_names() -> Seq<Seq<char>> {
    seq![DATABASE_DIR@, UPLOADS_DIR@, EXTENSIONS_DIR@, DATA_DIR@]
}

/// The names of the three files of a project, in the order of their writing.
pub open spec fn spec_file_names() -> Seq<Seq<char>> {
    seq![ENV_FILE@, ENV_EXAMPLE_FILE@, MANIFEST_FILE@]
}

/// The names of all entries of a project: the directories, then the files.
pub open spec fn spec_entry_names() -> Seq<Seq<char>> {
    spec_directory_names() + spec_file_names()
}

/// The text of each name in `names`.
pub open spec fn name_views(names: Seq<&'static str>) -> Seq<Seq<char>> {
    names.map_values(|name: &'static str| name@)
}

/// The path of the entry `name` below the directory `root`.
///
/// A separator is put between the two unless `root` is empty or already
/// ends in one, so an empty root stands for the working directory.
pub open spec fn spec_child_path(root: Seq<char>, name: Seq<char>) -> Seq<char> {
    if root.len() == 0 || root.last() == SEPARATOR {
        root + name
    } else {
        root + seq![SEPARATOR] + name
    }
}

/// The names of the directories of a project, in the order of their creation.
pub fn directory_names() -> (names: Vec<&'static str>)
    ensures
        name_views(names@) == spec_directory_names(),
{
    let mut names: Vec<&'static str> = Vec::new();
    names.push(DATABASE_DIR);
    names.push(UPLOADS_DIR);
    names.push(EXTENSIONS_DIR);
    names.push(DATA_DIR);
    assert(name_views(names@) =~= spec_directory_names());
    names
}

/// Builds the path of the entry `name` below the directory `root`.
pub fn child_path(root: &str, name: &str) -> (path: String)
    ensures
        path@ == spec_child_path(root@, name@),
{
    let mut path = String::from_str(root);
    let len: usize = root.unicode_len();
    if len > 0 && root.get_char(len - 1) != SEPARATOR {
        proof {
            reveal_strlit("/");
            assert("/"@ =~= seq![SEPARATOR]);
        }
        path.append("/");
    }
    path.append(name);
    path
}

/// Below a root that is not empty and does not end in a separator, the path
/// of an entry is the root, one separator and the entry's name.
pub proof fn lemma_child_path_plain(root: Seq<char>, name: Seq<char>)
    requires
        root.len() > 0,
        root.last() != SEPARATOR,
    ensures
        spec_child_path(root, name) == root + "/"@ + name,
{
    reveal_strlit("/");
    assert("/"@ =~= seq![SEPARATOR]);
}

/// Every path below a root starts with the root and ends with the name of
/// its entry.
pub proof fn lemma_child_path_frames(root: Seq<char>, name: Seq<char>)
    ensures
        root.is_prefix_of(spec_child_path(root, name)),
        name.is_suffix_of(spec_child_path(root, name)),
        root.len() + name.len() <= spec_child_path(root, name).len() <= root.len() + name.len() + 1,
{
    let path = spec_child_path(root, name);
    assert(path.subrange(0, root.len() as int) =~= root);
    assert(path.subrange(path.len() - name.len(), path.len() as int) =~= name);
}

/// Two entries of one root share a path only if they share a name.
pub proof fn lemma_child_path_injective(root: Seq<char>, first: Seq<char>, second: Seq<char>)
    requires
        spec_child_path(root, first) == spec_child_path(root, second),
    ensures
        first == second,
{
    let a = spec_child_path(root, first);
    let b = spec_child_path(root, second);
    let skip: int = if root.len() == 0 || root.last() == SEPARATOR {
        root.len() as int
    } else {
        root.len() as int + 1
    };
    assert(a.len() == skip + first.len());
    assert(b.len() == skip + second.len());
    assert forall|i: int| 0 <= i < first.len() implies first[i] == second[i] by {
        assert(a[skip + i] == first[i]);
        assert(b[skip + i] == second[i]);
    }
    assert(first =~= second);
}

/// The lengths of the names of the seven entries.
pub proof fn lemma_entry_name_lengths()
    ensures
        DATABASE_DIR@.len() == 8,
        UPLOADS_DIR@.len() == 7,
        EXTENSIONS_DIR@.len() == 10,
        DATA_DIR@.len() == 4,
        ENV_FILE@.len() == 4,
        ENV_EXAMPLE_FILE@.len() == 12,
        MANIFEST_FILE@.len() == 18,
{
    reveal_strlit("database");
    reveal_strlit("uploads");
    reveal_strlit("extensions");
    reveal_strlit("data");
    reveal_strlit(".env");
    reveal_strlit(".env.example");
    reveal_strlit("docker-compose.yml");
}

/// No two of the seven entries of a project have the same name.
pub proof fn lemma_entry_names_distinct()
    ensures
        spec_entry_names().len() == 7,
        forall|i: int, j: int|
            0 <= i < j < 7 ==> spec_entry_names()[i] != spec_entry_names()[j],
{
    lemma_entry_name_lengths();
    reveal_strlit("data");
    reveal_strlit(".env");
    assert(DATA_DIR@[0] == 'd');
    assert(ENV_FILE@[0] == '.');
}

/// No two of the seven entries of a project have the same path.
pub proof fn lemma_entry_paths_distinct(project: Seq<char>)
    ensures
        forall|i: int, j: int|
            0 <= i < j < 7 ==> spec_child_path(project, spec_entry_names()[i]) != spec_child_path(
                project,
                spec_entry_names()[j],
            ),
{
    lemma_entry_names_distinct();
    assert forall|i: int, j: int| 0 <= i < j < 7 implies spec_child_path(
        project,
        spec_entry_names()[i],
    ) != spec_child_path(project, spec_entry_names()[j]) by {
        if spec_child_path(project, spec_entry_names()[i]) == spec_child_path(
            project,
            spec_entry_names()[j],
        ) {
            lemma_child_path_injective(project, spec_entry_names()[i], spec_entry_names()[j]);
        }
    }
}

} // verus!
