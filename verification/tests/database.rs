use compdb::config::{CommonConf, CompDBConf, IncludeConf, OptionConf, TargetConf, WorkSpaceConf};
use compdb::database::{generate, walk_plan, walk_roots, workspace_entries};
use compdb::walk::{WalkEntry, WorkspaceWalk};

fn list(items: &[&str]) -> Vec<String> {
    items.iter().map(|s| s.to_string()).collect()
}

fn found_dir(path: &str) -> WalkEntry {
    WalkEntry { path: path.to_string(), is_dir: true }
}

fn found_file(path: &str) -> WalkEntry {
    WalkEntry { path: path.to_string(), is_dir: false }
}

fn project() -> CompDBConf {
    CompDBConf {
        common: CommonConf {
            c_compiler: list(&["gcc", "-std=c11"]),
            cpp_compiler: list(&["g++"]),
            root_dir: "/proj".to_string(),
            target: TargetConf {
                match_pattern: Some(list(&[r".*\.c$"])),
                ignore_pattern: Some(list(&[r".*_test\.c$"])),
            },
            includes: Some(IncludeConf {
                root_dir: Some(list(&["inc"])),
                ignore_pattern: Some(list(&[r".*\/b$"])),
            }),
            option: Some(OptionConf { arg: Some(list(&["-Wall"])) }),
        },
        workspace: vec![
            WorkSpaceConf {
                path: "app".to_string(),
                target: Some(TargetConf {
                    match_pattern: Some(list(&[r".*\.cpp$"])),
                    ignore_pattern: None,
                }),
                includes: Some(IncludeConf {
                    root_dir: Some(list(&["local"])),
                    ignore_pattern: None,
                }),
                option: Some(OptionConf { arg: Some(list(&["-DAPP", "-Wall"])) }),
            },
            WorkSpaceConf { path: "lib".to_string(), target: None, includes: None, option: None },
        ],
    }
}

fn walks() -> Vec<WorkspaceWalk> {
    vec![
        WorkspaceWalk {
            targets: vec![
                found_dir("/proj/app"),
                found_file("/proj/app/main.cpp"),
                found_file("/proj/app/util.c"),
                found_file("/proj/app/util_test.c"),
                found_file("/proj/app/util.h"),
            ],
            header_dirs: vec![
                found_dir("/proj/inc"),
                found_dir("/proj/inc/a"),
                found_file("/proj/inc/a/x.h"),
                found_dir("/proj/inc/b"),
                found_dir("/proj/app/local"),
            ],
        },
        WorkspaceWalk {
            targets: vec![found_file("/proj/lib/z.c"), found_file("/proj/lib/a.c")],
            header_dirs: vec![found_dir("/proj/inc"), found_dir("/proj/inc/a"), found_dir("/proj/inc/b")],
        },
    ]
}

#[test]
fn plan_names_the_directories_of_each_workspace() {
    let plan = walk_plan(&project());
    assert_eq!(plan.len(), 2);
    assert_eq!(plan[0].targets, "/proj/app");
    assert_eq!(plan[0].header_roots, list(&["/proj/inc", "/proj/app/local"]));
    assert_eq!(plan[1].targets, "/proj/lib");
    assert_eq!(plan[1].header_roots, list(&["/proj/inc"]));
}

#[test]
fn plan_of_no_workspace_is_empty() {
    let mut conf = project();
    conf.workspace.clear();
    assert!(walk_plan(&conf).is_empty());
}

#[test]
fn roots_of_one_workspace() {
    let conf = project();
    let roots = walk_roots(&conf.common, &conf.workspace[0]);
    assert_eq!(roots.targets, "/proj/app");
    assert_eq!(roots.header_roots, list(&["/proj/inc", "/proj/app/local"]));
}

#[test]
fn database_has_the_entries_of_all_workspaces_in_order() {
    let db = generate(&project(), &walks()).unwrap();
    assert_eq!(db.len(), 4);
    let files: Vec<&str> = db.iter().map(|e| e.file.as_str()).collect();
    assert_eq!(files, vec!["app/main.cpp", "app/util.c", "lib/z.c", "lib/a.c"]);
    for entry in &db {
        assert_eq!(entry.directory, "/proj");
    }
    assert_eq!(
        db[0].arguments,
        list(&["g++", "-Iinc", "-Iinc/a", "-Iapp/local", "-Wall", "-DAPP", "-Wall", "-c", "app/main.cpp"])
    );
    assert_eq!(
        db[1].arguments,
        list(&[
            "gcc",
            "-std=c11",
            "-Iinc",
            "-Iinc/a",
            "-Iapp/local",
            "-Wall",
            "-DAPP",
            "-Wall",
            "-c",
            "app/util.c"
        ])
    );
    assert_eq!(
        db[2].arguments,
        list(&["gcc", "-std=c11", "-Iinc", "-Iinc/a", "-Wall", "-c", "lib/z.c"])
    );
    assert_eq!(
        db[3].arguments,
        list(&["gcc", "-std=c11", "-Iinc", "-Iinc/a", "-Wall", "-c", "lib/a.c"])
    );
}

#[test]
fn match_and_ignore_patterns_select_one_file() {
    let conf = CompDBConf {
        common: CommonConf {
            c_compiler: list(&["cc"]),
            cpp_compiler: list(&["c++"]),
            root_dir: "/proj".to_string(),
            target: TargetConf { match_pattern: None, ignore_pattern: None },
            includes: None,
            option: None,
        },
        workspace: vec![WorkSpaceConf {
            path: "ws".to_string(),
            target: Some(TargetConf {
                match_pattern: Some(list(&[r".*\.c$"])),
                ignore_pattern: Some(list(&[r".*_test\.c$"])),
            }),
            includes: None,
            option: None,
        }],
    };
    let walk = vec![WorkspaceWalk {
        targets: vec![
            found_dir("/proj/ws"),
            found_file("/proj/ws/a.c"),
            found_file("/proj/ws/b_test.c"),
            found_file("/proj/ws/c.h"),
        ],
        header_dirs: Vec::new(),
    }];
    let db = generate(&conf, &walk).unwrap();
    assert_eq!(db.len(), 1);
    assert_eq!(db[0].file, "ws/a.c");
    assert_eq!(db[0].arguments, list(&["cc", "-c", "ws/a.c"]));
    assert_eq!(db[0].directory, "/proj");
}

#[test]
fn workspace_without_match_pattern_has_no_entry() {
    let mut conf = project();
    conf.common.target.match_pattern = None;
    conf.workspace[0].target = None;
    let db = generate(&conf, &walks()).unwrap();
    assert!(db.is_empty());
    let entries = workspace_entries(&conf.common, &conf.workspace[1], &walks()[1]).unwrap();
    assert!(entries.is_empty());
}

#[test]
fn overlapping_workspaces_repeat_a_file() {
    let mut conf = project();
    conf.workspace[1].path = "app".to_string();
    let mut found = walks();
    found[1].targets = vec![found_file("/proj/app/util.c")];
    let db = generate(&conf, &found).unwrap();
    let files: Vec<&str> = db.iter().map(|e| e.file.as_str()).collect();
    assert_eq!(files, vec!["app/main.cpp", "app/util.c", "app/util.c"]);
}

#[test]
fn generating_twice_gives_the_same_database() {
    let first = generate(&project(), &walks()).unwrap();
    let second = generate(&project(), &walks()).unwrap();
    assert_eq!(first.len(), second.len());
    for (a, b) in first.iter().zip(second.iter()) {
        assert_eq!(a.directory, b.directory);
        assert_eq!(a.arguments, b.arguments);
        assert_eq!(a.file, b.file);
    }
}

#[test]
fn every_entry_has_one_flag_for_each_header_dir() {
    let conf = project();
    let found = walks();
    let db = workspace_entries(&conf.common, &conf.workspace[0], &found[0]).unwrap();
    let dirs = ["inc", "inc/a", "app/local"];
    assert_eq!(db.len(), 2);
    for entry in &db {
        let start = if entry.file.ends_with(".cpp") { 1 } else { 2 };
        for (i, dir) in dirs.iter().enumerate() {
            assert_eq!(entry.arguments[start + i], format!("-I{}", dir));
        }
        assert_eq!(entry.arguments[start + dirs.len()], "-Wall");
    }
}

#[test]
fn invalid_pattern_in_a_later_workspace_fails_the_whole_run() {
    let mut conf = project();
    conf.workspace[1].target =
        Some(TargetConf { match_pattern: Some(list(&["["])), ignore_pattern: None });
    let r = generate(&conf, &walks());
    match r {
        Ok(_) => panic!("an invalid match pattern must fail the run"),
        Err(error) => assert!(!error.message.is_empty()),
    }
}

#[test]
fn invalid_header_ignore_pattern_fails_even_with_nothing_walked() {
    let mut conf = project();
    conf.workspace[1].includes =
        Some(IncludeConf { root_dir: None, ignore_pattern: Some(list(&["(unclosed"])) });
    let mut found = walks();
    found[1].header_dirs.clear();
    assert!(generate(&conf, &found).is_err());
    assert!(workspace_entries(&conf.common, &conf.workspace[1], &found[1]).is_err());
    assert!(workspace_entries(&conf.common, &conf.workspace[0], &found[0]).is_ok());
}

#[test]
fn project_without_workspaces_has_an_empty_database() {
    let mut conf = project();
    conf.workspace.clear();
    assert!(generate(&conf, &Vec::new()).unwrap().is_empty());
}

#[test]
fn workspace_with_nothing_walked_has_no_entry() {
    let conf = project();
    let nothing = WorkspaceWalk { targets: Vec::new(), header_dirs: Vec::new() };
    assert!(workspace_entries(&conf.common, &conf.workspace[0], &nothing).unwrap().is_empty());
}
