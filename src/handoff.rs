use vstd::prelude::*;
use crate::path::{join, is_absolute, join_path};

verus! {

/// The executable to run: a relative path is taken from the data root, an
/// absolute one as it is.
pub fn resolve_program(data_dir: &str, executable: &str) -> (r: String)
    ensures
        r@ == join(data_dir@, executable@),
        is_absolute(executable@) ==> r@ == executable@,
{
    join_path(data_dir, executable)
}

/// The name the server sees as its program name: the override if one is
/// given, else the name the launcher was invoked by, else `fallback`.
pub fn program_name(argv0: Option<String>, invoked: Option<String>, fallback: &str) -> (r: String)
    ensures
        argv0 is Some ==> r@ == argv0->0@,
        argv0 is None && invoked is Some ==> r@ == invoked->0@,
        argv0 is None && invoked is None ==> r@ == fallback@,
{
    match argv0 {
        Some(a) => a,
        None => match invoked {
            Some(i) => i,
            None => String::from_str(fallback),
        },
    }
}

/// Where the data root is and whether it must be created first.
#[derive(Debug)]
pub struct DataRoot {
    pub path: String,
    /// The directory and its missing parents are created before use.
    pub create: bool,
}

/// The data root: the given directory, created with its parents if missing,
/// or else the working directory.
pub fn data_root(dir: Option<String>) -> (r: DataRoot)
    ensures
        dir is Some ==> r.path@ == dir->0@ && r.create,
        dir is None ==> r.path@ == "."@ && !r.create,
{
    match dir {
        Some(d) => DataRoot { path: d, create: true },
        None => DataRoot { path: String::from_str("."), create: false },
    }
}

} // verus!
