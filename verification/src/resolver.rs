//! Launch-spec resolution.
//!
//! A launch spec is the concrete {program, arguments, working directory}
//! triple for one runtime mode: in development an interpreter run as
//! `python -m backend` from the project root (preferring a project-local
//! virtualenv), in production a standalone executable found under the
//! application's resource directory.  This module builds the candidate
//! paths and the final spec; checking which candidate actually exists on
//! disk is the caller's work.

use vstd::prelude::*;

verus! {

/// The path conventions of the host: separator and executable suffix.
#[derive(Clone, Copy, Debug, PartialEq, Eq, Structural)]
pub enum TargetOs {
    Windows,
    Unix,
}

/// The path-separator character of `os`, as a one-character string.
pub open spec fn spec_sep(os: TargetOs) -> Seq<char> {
    if os == TargetOs::Windows {
        "\\"@
    } else {
        "/"@
    }
}

/// `base`, the separator of `os`, then `component`.
pub open spec fn spec_join(base: Seq<char>, os: TargetOs, component: Seq<char>) -> Seq<char> {
    base + spec_sep(os) + component
}

/// The backend executable's file name under `os`.
pub open spec fn spec_exe_name(os: TargetOs) -> Seq<char> {
    if os == TargetOs::Windows {
        "backend.exe"@
    } else {
        "backend"@
    }
}

/// The path separator of `os`.
pub fn sep_str(os: TargetOs) -> (r: &'static str)
    ensures
        r@ == spec_sep(os),
{
    match os {
        TargetOs::Windows => "\\",
        TargetOs::Unix => "/",
    }
}

/// Joins one path component onto `base` with the separator of `os`.
pub fn join_path(base: &str, os: TargetOs, component: &str) -> (r: String)
    ensures
        r@ == spec_join(base@, os, component@),
{
    let mut s: String = base.to_owned();
    s.append(sep_str(os));
    s.append(component);
    s
}

/// The backend executable's file name under `os`.
pub fn backend_exe_name(os: TargetOs) -> (r: &'static str)
    ensures
        r@ == spec_exe_name(os),
{
    match os {
        TargetOs::Windows => "backend.exe",
        TargetOs::Unix => "backend",
    }
}

/// The backend source directory of a development checkout: `backend` under
/// the project root.
pub fn backend_dev_dir(project_root: &str, os: TargetOs) -> (r: String)
    ensures
        r@ == spec_join(project_root@, os, "backend"@),
{
    join_path(project_root, os, "backend")
}

/// The places a packaged backend executable may sit under the resource
/// directory, in the order they should be tried: directly under
/// `backend/`, nested one level deeper, or under the bundler's preserved
/// relative layout.
pub fn production_candidates(resource_dir: &str, os: TargetOs) -> (v: Vec<String>)
    ensures
        v@.len() == 4,
        v@[0]@ == spec_join(spec_join(resource_dir@, os, "backend"@), os, spec_exe_name(os)),
        v@[1]@ == spec_join(
            spec_join(spec_join(resource_dir@, os, "backend"@), os, "backend"@),
            os,
            spec_exe_name(os),
        ),
        v@[2]@ == spec_join(
            spec_join(
                spec_join(
                    spec_join(spec_join(resource_dir@, os, "_up_"@), os, "_up_"@),
                    os,
                    "tauri_backend_dist"@,
                ),
                os,
                "backend"@,
            ),
            os,
            spec_exe_name(os),
        ),
        v@[3]@ == spec_join(
            spec_join(spec_join(resource_dir@, os, "tauri_backend_dist"@), os, "backend"@),
            os,
            spec_exe_name(os),
        ),
{
    let exe: &str = backend_exe_name(os);
    let direct: String = join_path(resource_dir, os, "backend");
    let c0: String = join_path(direct.as_str(), os, exe);
    let nested: String = join_path(direct.as_str(), os, "backend");
    let c1: String = join_path(nested.as_str(), os, exe);
    let up1: String = join_path(resource_dir, os, "_up_");
    let up2: String = join_path(up1.as_str(), os, "_up_");
    let dist: String = join_path(up2.as_str(), os, "tauri_backend_dist");
    let dist_backend: String = join_path(dist.as_str(), os, "backend");
    let c2: String = join_path(dist_backend.as_str(), os, exe);
    let flat_dist: String = join_path(resource_dir, os, "tauri_backend_dist");
    let flat_backend: String = join_path(flat_dist.as_str(), os, "backend");
    let c3: String = join_path(flat_backend.as_str(), os, exe);
    let mut v: Vec<String> = Vec::new();
    v.push(c0);
    v.push(c1);
    v.push(c2);
    v.push(c3);
    v
}

/// The interpreters a development checkout may provide, in the order they
/// should be tried: a project-local virtualenv before any other, `.venv`
/// before `venv`.
pub fn venv_python_candidates(project_root: &str, os: TargetOs) -> (v: Vec<String>)
    ensures
        os == TargetOs::Windows ==> v@.len() == 2,
        os == TargetOs::Unix ==> v@.len() == 4,
        os == TargetOs::Windows ==> {
            &&& v@[0]@ == spec_join(
                spec_join(spec_join(project_root@, os, ".venv"@), os, "Scripts"@),
                os,
                "python.exe"@,
            )
            &&& v@[1]@ == spec_join(
                spec_join(spec_join(project_root@, os, "venv"@), os, "Scripts"@),
                os,
                "python.exe"@,
            )
        },
        os == TargetOs::Unix ==> {
            &&& v@[0]@ == spec_join(
                spec_join(spec_join(project_root@, os, ".venv"@), os, "bin"@),
                os,
                "python3"@,
            )
            &&& v@[1]@ == spec_join(
                spec_join(spec_join(project_root@, os, ".venv"@), os, "bin"@),
                os,
                "python"@,
            )
            &&& v@[2]@ == spec_join(
                spec_join(spec_join(project_root@, os, "venv"@), os, "bin"@),
                os,
                "python3"@,
            )
            &&& v@[3]@ == spec_join(
                spec_join(spec_join(project_root@, os, "venv"@), os, "bin"@),
                os,
                "python"@,
            )
        },
{
    let mut v: Vec<String> = Vec::new();
    match os {
        TargetOs::Windows => {
            let dot_scripts: String = join_path(
                join_path(project_root, os, ".venv").as_str(),
                os,
                "Scripts",
            );
            v.push(join_path(dot_scripts.as_str(), os, "python.exe"));
            let plain_scripts: String = join_path(
                join_path(project_root, os, "venv").as_str(),
                os,
                "Scripts",
            );
            v.push(join_path(plain_scripts.as_str(), os, "python.exe"));
        },
        TargetOs::Unix => {
            let dot_bin: String = join_path(
                join_path(project_root, os, ".venv").as_str(),
                os,
                "bin",
            );
            v.push(join_path(dot_bin.as_str(), os, "python3"));
            v.push(join_path(dot_bin.as_str(), os, "python"));
            let plain_bin: String = join_path(
                join_path(project_root, os, "venv").as_str(),
                os,
                "bin",
            );
            v.push(join_path(plain_bin.as_str(), os, "python3"));
            v.push(join_path(plain_bin.as_str(), os, "python"));
        },
    }
    v
}

/// A concrete command to run the backend: program, arguments, and the
/// working directory it must start in (absent in production, where the
/// executable is self-contained).
pub struct LaunchSpec {
    pub program: String,
    pub args: Vec<String>,
    pub working_dir: Option<String>,
}

/// The development launch spec: run `interpreter -m backend` from the
/// project root.
pub fn dev_launch_spec(interpreter: String, project_root: &str) -> (s: LaunchSpec)
    ensures
        s.program@ == interpreter@,
        s.args@.len() == 2,
        s.args@[0]@ == "-m"@,
        s.args@[1]@ == "backend"@,
        s.working_dir matches Some(w) && w@ == project_root@,
{
    let mut args: Vec<String> = Vec::new();
    args.push("-m".to_owned());
    args.push("backend".to_owned());
    LaunchSpec { program: interpreter, args, working_dir: Some(project_root.to_owned()) }
}

/// The production launch spec: run the standalone executable as it is,
/// with no arguments and no working-directory override.
pub fn prod_launch_spec(executable: String) -> (s: LaunchSpec)
    ensures
        s.program@ == executable@,
        s.args@.len() == 0,
        s.working_dir is None,
{
    LaunchSpec { program: executable, args: Vec::new(), working_dir: None }
}

} // verus!
