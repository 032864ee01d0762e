//! The project's Python virtual environment: where its interpreter and pip
//! live, and the commands that create it and install requirements into it.
//!
//! Paths are texts joined as Unix paths.  Running the commands, and checking
//! what exists on disk, is the caller's part.

use vstd::prelude::*;
use crate::text::owned;

verus! {

/// `base` joined with the relative component `comp` (`Path::join`): no
/// separator is added to an empty base or after a trailing `/`.
pub open spec fn path_join(base: Seq<char>, comp: Seq<char>) -> Seq<char> {
    if base.len() == 0 {
        comp
    } else if base.last() == '/' {
        base + comp
    } else {
        base + "/"@ + comp
    }
}

/// The path of a file under the environment's `bin` directory.
pub open spec fn venv_bin_spec(root: Seq<char>, name: Seq<char>) -> Seq<char> {
    path_join(path_join(path_join(root, ".venv"@), "bin"@), name)
}

/// `base` joined with `comp`, as [`path_join`] says.
pub fn join_path(base: &str, comp: &str) -> (r: String)
    ensures
        r@ == path_join(base@, comp@),
{
    let n = base.unicode_len();
    if n == 0 {
        return owned(comp);
    }
    let mut r = owned(base);
    if base.get_char(n - 1) != '/' {
        r.append("/");
    }
    r.append(comp);
    r
}

/// A virtual environment rooted at a project directory.
#[derive(Debug, Clone)]
pub struct PythonEnv {
    root: String,
}

impl PythonEnv {
    /// The project directory.
    pub closed spec fn root_view(&self) -> Seq<char> {
        self.root@
    }

    /// The environment of the project at `root`.
    pub fn new(root: String) -> (e: Self)
        ensures
            e.root_view() == root@,
    {
        PythonEnv { root }
    }

    /// The project directory.
    pub fn root(&self) -> (r: &str)
        ensures
            r@ == self.root_view(),
    {
        self.root.as_str()
    }

    /// The environment's directory, `<root>/.venv`.
    pub fn venv_dir(&self) -> (r: String)
        ensures
            r@ == path_join(self.root_view(), ".venv"@),
    {
        join_path(self.root.as_str(), ".venv")
    }

    /// The environment's interpreter, `<root>/.venv/bin/python`.
    pub fn get_venv_python(&self) -> (r: String)
        ensures
            r@ == venv_bin_spec(self.root_view(), "python"@),
    {
        let v = join_path(self.root.as_str(), ".venv");
        let b = join_path(v.as_str(), "bin");
        join_path(b.as_str(), "python")
    }

    /// The environment's pip, `<root>/.venv/bin/pip`.
    pub fn get_venv_pip(&self) -> (r: String)
        ensures
            r@ == venv_bin_spec(self.root_view(), "pip"@),
    {
        let v = join_path(self.root.as_str(), ".venv");
        let b = join_path(v.as_str(), "bin");
        join_path(b.as_str(), "pip")
    }

    /// The command, run in the project directory, that creates the
    /// environment: with `uv` when it is available, else with `python3`.
    pub fn create_command(uv_available: bool) -> (c: Vec<String>)
        ensures
            uv_available ==> c@.len() == 3 && c@[0]@ == "uv"@ && c@[1]@ == "venv"@ && c@[2]@
                == ".venv"@,
            !uv_available ==> c@.len() == 4 && c@[0]@ == "python3"@ && c@[1]@ == "-m"@ && c@[2]@
                == "venv"@ && c@[3]@ == ".venv"@,
    {
        if uv_available {
            vec![owned("uv"), owned("venv"), owned(".venv")]
        } else {
            vec![owned("python3"), owned("-m"), owned("venv"), owned(".venv")]
        }
    }

    /// The command, run in the project directory, that installs
    /// `requirements.txt`: `uv pip install` (with `VIRTUAL_ENV` set to the
    /// environment's directory) when `uv` is available, else the
    /// environment's own pip.
    pub fn install_command(&self, uv_available: bool) -> (c: Vec<String>)
        ensures
            uv_available ==> c@.len() == 5 && c@[0]@ == "uv"@ && c@[1]@ == "pip"@ && c@[2]@
                == "install"@ && c@[3]@ == "-r"@ && c@[4]@ == "requirements.txt"@,
            !uv_available ==> c@.len() == 4 && c@[0]@ == venv_bin_spec(self.root_view(), "pip"@)
                && c@[1]@ == "install"@ && c@[2]@ == "-r"@ && c@[3]@ == "requirements.txt"@,
    {
        if uv_available {
            vec![owned("uv"), owned("pip"), owned("install"), owned("-r"), owned("requirements.txt")]
        } else {
            vec![self.get_venv_pip(), owned("install"), owned("-r"), owned("requirements.txt")]
        }
    }
}

} // verus!
