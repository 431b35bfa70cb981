use compdb::config::{CommonConf, TargetConf};
use compdb::entries::{
    build_entry, build_header_flag, build_shared_arguments, entry_for_file, has_cpp_extension,
    is_cpp_source, select_compiler,
};

fn args(items: &[&str]) -> Vec<String> {
    items.iter().map(|s| s.to_string()).collect()
}

fn compilers() -> CommonConf {
    CommonConf {
        c_compiler: args(&["gcc", "-std=c11"]),
        cpp_compiler: args(&["g++", "-std=c++17"]),
        root_dir: "/proj".to_string(),
        target: TargetConf { match_pattern: None, ignore_pattern: None },
        includes: None,
        option: None,
    }
}

#[test]
fn cpp_extensions_are_the_six() {
    for ext in ["cc", "CC", "cpp", "CPP", "cxx", "CXX"] {
        assert!(has_cpp_extension(Some(ext)));
    }
}

#[test]
fn other_extensions_are_not_cpp() {
    for ext in ["c", "C", "h", "hpp", "Cpp", "cPP", "Cc", "c++", "cppx", "", "xcpp"] {
        assert!(!has_cpp_extension(Some(ext)));
    }
    assert!(!has_cpp_extension(None));
}

#[test]
fn cpp_source_is_told_by_its_extension() {
    assert!(is_cpp_source("ws/a.cpp"));
    assert!(is_cpp_source("ws/a.b.CXX"));
    assert!(is_cpp_source("a.cc"));
    assert!(!is_cpp_source("ws/a.c"));
    assert!(!is_cpp_source("ws/cpp"));
    assert!(!is_cpp_source("ws/Makefile"));
    assert!(!is_cpp_source("ws.cpp/a"));
    assert!(!is_cpp_source("ws/.cpp"));
    assert!(!is_cpp_source(""));
}

#[test]
fn compiler_follows_the_language() {
    let common = compilers();
    assert_eq!(select_compiler(&common, true), &args(&["g++", "-std=c++17"]));
    assert_eq!(select_compiler(&common, false), &args(&["gcc", "-std=c11"]));
}

#[test]
fn header_flag_is_dash_i_and_the_directory() {
    assert_eq!(build_header_flag("inc/a"), "-Iinc/a");
    assert_eq!(build_header_flag(""), "-I");
}

#[test]
fn shared_arguments_are_flags_then_options() {
    let shared = build_shared_arguments(&args(&["inc", "inc/a", "inc"]), &args(&["-Wall", "-Ix"]));
    assert_eq!(shared, args(&["-Iinc", "-Iinc/a", "-Iinc", "-Wall", "-Ix"]));
    assert_eq!(build_shared_arguments(&Vec::new(), &Vec::new()), Vec::<String>::new());
}

#[test]
fn entry_arguments_are_in_fixed_order() {
    let entry = build_entry("/proj", &args(&["gcc", "-m32"]), &args(&["-Iinc", "-Wall"]), "ws/a.c");
    assert_eq!(entry.directory, "/proj");
    assert_eq!(entry.file, "ws/a.c");
    assert_eq!(entry.arguments, args(&["gcc", "-m32", "-Iinc", "-Wall", "-c", "ws/a.c"]));
}

#[test]
fn entry_with_nothing_shared_ends_with_the_file() {
    let entry = build_entry("", &Vec::new(), &Vec::new(), "a.c");
    assert_eq!(entry.arguments, args(&["-c", "a.c"]));
    assert_eq!(entry.directory, "");
}

#[test]
fn entry_for_a_c_file_uses_the_c_compiler() {
    let entry = entry_for_file(&compilers(), &args(&["-Iinc"]), "ws/a.c");
    assert_eq!(entry.arguments, args(&["gcc", "-std=c11", "-Iinc", "-c", "ws/a.c"]));
    assert_eq!(entry.directory, "/proj");
    assert_eq!(entry.file, "ws/a.c");
}

#[test]
fn entry_for_a_cpp_file_uses_the_cpp_compiler() {
    let entry = entry_for_file(&compilers(), &args(&["-Iinc"]), "ws/a.cxx");
    assert_eq!(entry.arguments, args(&["g++", "-std=c++17", "-Iinc", "-c", "ws/a.cxx"]));
}

#[test]
fn entry_for_a_file_without_extension_uses_the_c_compiler() {
    let entry = entry_for_file(&compilers(), &Vec::new(), "ws/README");
    assert_eq!(entry.arguments, args(&["gcc", "-std=c11", "-c", "ws/README"]));
}

#[test]
fn header_flags_are_as_many_as_directories_and_in_their_order() {
    let dirs = args(&["inc", "inc/a", "third/x"]);
    let shared = build_shared_arguments(&dirs, &args(&["-O2"]));
    let common = compilers();
    let entry = entry_for_file(&common, &shared, "ws/a.c");
    let start = common.c_compiler.len();
    let flags = &entry.arguments[start..start + dirs.len()];
    for (flag, dir) in flags.iter().zip(dirs.iter()) {
        assert_eq!(flag, &format!("-I{}", dir));
    }
    assert_eq!(entry.arguments[start + dirs.len()], "-O2");
}
