use vstd::prelude::*;

verus! {

/// `name` below the directory `base`.
pub open spec fn joined(base: Seq<char>, name: Seq<char>) -> Seq<char> {
    base + seq!['/'] + name
}

/// The directory of one split (`train` or `test`) of the skin cancer
/// dataset below the data root.
pub open spec fn split_dir(data_root: Seq<char>, split: Seq<char>) -> Seq<char> {
    joined(joined(data_root, "skin_cancer"@), split)
}

/// The data root: the platform's data directory for the project where
/// there is one, `data` below the working directory otherwise.
pub open spec fn resolved_root(project_dir: Option<Seq<char>>, cwd: Seq<char>) -> Seq<char> {
    match project_dir {
        Some(d) => d,
        None => joined(cwd, "data"@),
    }
}

/// The characters of an optional directory name.
pub open spec fn dir_view(dir: Option<String>) -> Option<Seq<char>> {
    match dir {
        Some(d) => Some(d@),
        None => None,
    }
}

/// A data root as located from the working directory `cwd`: a non-empty
/// data directory that the platform gave for the project, or `data` below
/// `cwd` where it gave none.
pub open spec fn located_root(r: Seq<char>, cwd: Seq<char>) -> bool {
    exists|d: Option<Seq<char>>| r == resolved_root(d, cwd) && (d matches Some(s) ==> s.len() > 0)
}

/// The identifiers that this project's platform directories are keyed by.
pub open spec fn is_project_key(qualifier: Seq<char>, organization: Seq<char>, application: Seq<char>) -> bool {
    &&& qualifier == "burn-examples"@
    &&& organization == ""@
    &&& application == "custom-image-dataset"@
}

/// Relies on `directories::ProjectDirs::from` and `ProjectDirs::data_dir`:
/// the platform's data directory for the project, or `None` where the
/// system gives no home directory. Which directory depends on the
/// environment; where there is one, it is an absolute base joined with a
/// fragment of the application's name, so it is not empty.
#[verifier::external_body]
fn project_data_dir(qualifier: &str, organization: &str, application: &str) -> (r: Option<String>)
    requires
        is_project_key(qualifier@, organization@, application@),
    ensures
        r matches Some(d) ==> d@.len() > 0,
{
    match directories::ProjectDirs::from(qualifier, organization, application) {
        Some(dirs) => Some(dirs.data_dir().to_string_lossy().into_owned()),
        None => None,
    }
}

/// Appends `name` to the directory `base`.
pub fn join_path(base: &str, name: &str) -> (r: String)
    ensures
        r@ == joined(base@, name@),
{
    let mut r = String::from_str(base);
    proof {
        reveal_strlit("/");
    }
    r.append("/");
    r.append(name);
    r
}

/// The data root for a given answer of the platform: its project data
/// directory, or `data` below the working directory `cwd` where it has none.
pub fn resolve_data_root(project_dir: Option<String>, cwd: &str) -> (r: String)
    ensures
        r@ == resolved_root(dir_view(project_dir), cwd@),
{
    match project_dir {
        Some(d) => d,
        None => {
            proof {
                reveal_strlit("data");
            }
            join_path(cwd, "data")
        },
    }
}

/// The data root of this application on this machine, `cwd` being the
/// working directory: `resolve_data_root` of what the platform answers for
/// this project's identifiers.
pub fn data_root(cwd: &str) -> (r: String)
    ensures
        located_root(r@, cwd@),
{
    proof {
        reveal_strlit("burn-examples");
        reveal_strlit("");
        reveal_strlit("custom-image-dataset");
    }
    let found = project_data_dir("burn-examples", "", "custom-image-dataset");
    let ghost answer = dir_view(found);
    let r = resolve_data_root(found, cwd);
    assert(r@ == resolved_root(answer, cwd@) && (answer matches Some(s) ==> s.len() > 0));
    r
}

/// The directory of the split `split` below `data_root`.
pub fn split_root(data_root: &str, split: &str) -> (r: String)
    ensures
        r@ == split_dir(data_root@, split@),
{
    let dataset = join_path(data_root, "skin_cancer");
    proof {
        reveal_strlit("skin_cancer");
    }
    join_path(dataset.as_str(), split)
}

/// Locates the training and test splits of the skin cancer dataset, `cwd`
/// being the working directory.
pub trait SkinCancerLoader: Sized {
    /// The data root that the split was located under.
    spec fn data_root_of(&self) -> Seq<char>;

    /// The directory of the split.
    spec fn split_root_of(&self) -> Seq<char>;

    fn skin_cancer_train(cwd: &str) -> (r: Self)
        ensures
            located_root(r.data_root_of(), cwd@),
            r.split_root_of() == split_dir(r.data_root_of(), "train"@),
    ;

    fn skin_cancer_test(cwd: &str) -> (r: Self)
        ensures
            located_root(r.data_root_of(), cwd@),
            r.split_root_of() == split_dir(r.data_root_of(), "test"@),
    ;
}

/// Where one split of the dataset lies: the data root and the split's
/// directory below it, one subdirectory per class.
pub struct DatasetSplit {
    pub data_root: String,
    pub path: String,
}

impl SkinCancerLoader for DatasetSplit {
    open spec fn data_root_of(&self) -> Seq<char> {
        self.data_root@
    }

    open spec fn split_root_of(&self) -> Seq<char> {
        self.path@
    }

    fn skin_cancer_train(cwd: &str) -> (r: Self) {
        let data_root = data_root(cwd);
        let path = split_root(data_root.as_str(), "train");
        proof {
            reveal_strlit("train");
        }
        DatasetSplit { data_root, path }
    }

    fn skin_cancer_test(cwd: &str) -> (r: Self) {
        let data_root = data_root(cwd);
        let path = split_root(data_root.as_str(), "test");
        proof {
            reveal_strlit("test");
        }
        DatasetSplit { data_root, path }
    }
}

} // verus!
