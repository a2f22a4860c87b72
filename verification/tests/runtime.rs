use nanobot_desktop::paths::JoinedPath;
use nanobot_desktop::runtime::{
    base_command, build_pythonpath, existing_roots, resource_root_candidates, CommandSpec, Runtime,
};

fn bare() -> Runtime {
    Runtime {
        embedded_python: None,
        venv_python: None,
        embedded_root: None,
        python_path: None,
        repo_root: None,
        home: None,
        log_level_set: false,
        nanobot_home_set: false,
        nanobot_home: "/home/u/.nanobot".to_string(),
    }
}

fn env(pairs: &[(&str, &str)]) -> Vec<(String, String)> {
    pairs.iter().map(|(k, v)| (k.to_string(), v.to_string())).collect()
}

fn path(root: &str, segments: &[&str]) -> JoinedPath {
    JoinedPath { root: root.to_string(), segments: segments.iter().map(|s| s.to_string()).collect() }
}

#[test]
fn a_bare_machine_runs_whatever_python_there_is() {
    assert_eq!(
        base_command(&bare()),
        CommandSpec {
            program: "python".to_string(),
            current_dir: None,
            env: env(&[
                ("PYTHONIOENCODING", "utf-8"),
                ("PYTHONUTF8", "1"),
                ("PYTHONUNBUFFERED", "1"),
                ("LOGURU_LEVEL", "INFO"),
                ("LOGURU_ENQUEUE", "True"),
                ("TERM", "dumb"),
                ("COLUMNS", "120"),
                ("NO_COLOR", "1"),
                ("RICH_DISABLE", "1"),
                ("NANOBOT_HOME", "/home/u/.nanobot"),
            ]),
            no_window: true,
        }
    );
}

#[test]
fn the_embedded_runtime_is_isolated() {
    let runtime = Runtime {
        embedded_python: Some("/app/python/bin/python3".to_string()),
        venv_python: Some("/src/.venv/bin/python3".to_string()),
        embedded_root: Some("/app/python".to_string()),
        python_path: Some("/app/site-packages".to_string()),
        repo_root: Some("/src".to_string()),
        home: Some("/home/u".to_string()),
        log_level_set: true,
        nanobot_home_set: true,
        nanobot_home: "/elsewhere".to_string(),
    };
    assert_eq!(
        base_command(&runtime),
        CommandSpec {
            program: "/app/python/bin/python3".to_string(),
            current_dir: Some("/src".to_string()),
            env: env(&[
                ("PYTHONIOENCODING", "utf-8"),
                ("PYTHONUTF8", "1"),
                ("PYTHONUNBUFFERED", "1"),
                ("LOGURU_ENQUEUE", "True"),
                ("TERM", "dumb"),
                ("COLUMNS", "120"),
                ("NO_COLOR", "1"),
                ("RICH_DISABLE", "1"),
                ("PYTHONHOME", "/app/python"),
                ("PYTHONNOUSERSITE", "1"),
                ("PYTHONDONTWRITEBYTECODE", "1"),
                ("PYTHONPATH", "/app/site-packages"),
            ]),
            no_window: true,
        }
    );
}

#[test]
fn the_virtual_environment_comes_second() {
    let runtime = Runtime {
        venv_python: Some("/src/.venv/bin/python".to_string()),
        embedded_root: Some("/stray/root".to_string()),
        home: Some("/home/u".to_string()),
        ..bare()
    };
    let command = base_command(&runtime);
    assert_eq!(command.program, "/src/.venv/bin/python");
    assert_eq!(command.current_dir, Some("/home/u".to_string()));
    assert!(command.env.iter().all(|(k, _)| k != "PYTHONHOME" && k != "PYTHONNOUSERSITE"));
    assert_eq!(command.env.len(), 10);
}

#[test]
fn an_embedded_interpreter_without_known_root_sets_no_home() {
    let runtime = Runtime { embedded_python: Some("/e/python".to_string()), ..bare() };
    let names: Vec<String> = base_command(&runtime).env.into_iter().map(|(k, _)| k).collect();
    assert_eq!(
        names,
        vec![
            "PYTHONIOENCODING",
            "PYTHONUTF8",
            "PYTHONUNBUFFERED",
            "LOGURU_LEVEL",
            "LOGURU_ENQUEUE",
            "TERM",
            "COLUMNS",
            "NO_COLOR",
            "RICH_DISABLE",
            "PYTHONNOUSERSITE",
            "PYTHONDONTWRITEBYTECODE",
            "NANOBOT_HOME",
        ]
    );
}

#[test]
fn the_search_path_is_put_together_in_order() {
    assert_eq!(
        build_pythonpath(Some("/site"), Some("/src"), false, vec!["/x".to_string(), "/y".to_string()]),
        Some(vec!["/site".to_string(), "/src".to_string(), "/x".to_string(), "/y".to_string()])
    );
    assert_eq!(
        build_pythonpath(Some("/site"), Some("/src"), true, vec!["/x".to_string()]),
        Some(vec!["/site".to_string(), "/x".to_string()])
    );
    assert_eq!(build_pythonpath(None, Some("/src"), false, Vec::new()), Some(vec!["/src".to_string()]));
    assert_eq!(build_pythonpath(None, None, false, vec!["/x".to_string()]), Some(vec!["/x".to_string()]));
}

#[test]
fn an_empty_search_path_is_none() {
    assert_eq!(build_pythonpath(None, None, false, Vec::new()), None);
    assert_eq!(build_pythonpath(None, Some("/src"), true, Vec::new()), None);
}

#[test]
fn resources_are_looked_for_around_the_executable() {
    assert_eq!(
        resource_root_candidates(Some(path("/res", &[])), Some(path("/bin", &[])), path("/m", &["..", "..", ".."])),
        vec![
            path("/res", &[]),
            path("/bin", &[]),
            path("/bin", &["resources"]),
            path("/bin", &["resources", "_up_"]),
            path("/bin", &["_up_"]),
            path("/m", &["..", "..", "..", "nanobot-desktop", "src-tauri", "resources"]),
        ]
    );
    assert_eq!(
        resource_root_candidates(None, None, path("/r", &[])),
        vec![path("/r", &["nanobot-desktop", "src-tauri", "resources"])]
    );
}

#[test]
fn roots_are_kept_once_and_only_where_they_exist() {
    let paths: Vec<String> =
        ["/a", "/b", "/a", "/c", "/b", "/d"].iter().map(|s| s.to_string()).collect();
    assert_eq!(
        existing_roots(&paths, &[true, true, true, false, true, true]),
        vec!["/a", "/b", "/d"]
    );
    assert_eq!(
        existing_roots(&paths, &[false, true, true, true, false, false]),
        vec!["/b", "/a", "/c"]
    );
    assert_eq!(existing_roots(&paths, &[true, true]), vec!["/a", "/b"]);
    assert_eq!(existing_roots(&paths, &[]), Vec::<String>::new());
    assert_eq!(existing_roots(&Vec::new(), &[true]), Vec::<String>::new());
}
