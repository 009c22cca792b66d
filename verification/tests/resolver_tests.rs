use backend_supervisor::resolver::{
    backend_dev_dir, backend_exe_name, dev_launch_spec, join_path, prod_launch_spec,
    production_candidates, venv_python_candidates, TargetOs,
};

#[test]
fn join_path_uses_the_os_separator() {
    assert_eq!(join_path("/root", TargetOs::Unix, "backend"), "/root/backend");
    assert_eq!(join_path("C:\\app", TargetOs::Windows, "backend"), "C:\\app\\backend");
}

#[test]
fn exe_name_per_os() {
    assert_eq!(backend_exe_name(TargetOs::Unix), "backend");
    assert_eq!(backend_exe_name(TargetOs::Windows), "backend.exe");
}

#[test]
fn dev_dir_is_backend_under_project_root() {
    assert_eq!(backend_dev_dir("/proj", TargetOs::Unix), "/proj/backend");
}

#[test]
fn production_candidates_in_documented_order() {
    let v = production_candidates("/res", TargetOs::Unix);
    assert_eq!(
        v,
        vec![
            "/res/backend/backend".to_string(),
            "/res/backend/backend/backend".to_string(),
            "/res/_up_/_up_/tauri_backend_dist/backend/backend".to_string(),
            "/res/tauri_backend_dist/backend/backend".to_string(),
        ]
    );
}

#[test]
fn production_candidates_on_windows_use_exe() {
    let v = production_candidates("C:\\res", TargetOs::Windows);
    assert_eq!(v.len(), 4);
    assert_eq!(v[0], "C:\\res\\backend\\backend.exe");
    assert!(v.iter().all(|p| p.ends_with("backend.exe")));
}

#[test]
fn venv_candidates_prefer_dot_venv() {
    let unix = venv_python_candidates("/proj", TargetOs::Unix);
    assert_eq!(
        unix,
        vec![
            "/proj/.venv/bin/python3".to_string(),
            "/proj/.venv/bin/python".to_string(),
            "/proj/venv/bin/python3".to_string(),
            "/proj/venv/bin/python".to_string(),
        ]
    );
    let win = venv_python_candidates("C:\\proj", TargetOs::Windows);
    assert_eq!(
        win,
        vec![
            "C:\\proj\\.venv\\Scripts\\python.exe".to_string(),
            "C:\\proj\\venv\\Scripts\\python.exe".to_string(),
        ]
    );
}

#[test]
fn dev_spec_runs_module_from_project_root() {
    let s = dev_launch_spec("/proj/.venv/bin/python3".to_string(), "/proj");
    assert_eq!(s.program, "/proj/.venv/bin/python3");
    assert_eq!(s.args, vec!["-m".to_string(), "backend".to_string()]);
    assert_eq!(s.working_dir.as_deref(), Some("/proj"));
}

#[test]
fn prod_spec_runs_executable_alone() {
    let s = prod_launch_spec("/res/backend/backend".to_string());
    assert_eq!(s.program, "/res/backend/backend");
    assert!(s.args.is_empty());
    assert!(s.working_dir.is_none());
}
