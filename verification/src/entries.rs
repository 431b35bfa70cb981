//! One entry of the compilation database: how one source file is compiled.

use crate::config::{CommonConf, CommonView};
use crate::lists::append_strings;
use crate::paths::{extension, opt_view, path_extension};
use vstd::prelude::*;
use vstd::string::StringExecFns;

verus! {

/// How one source file is compiled.
#[derive(Debug, Clone, Default)]
pub struct CompilationEntry {
    /// The directory in which the compiler runs: the root of the project.
    pub directory: String,
    /// The compiler with its fixed arguments, a flag for each directory in
    /// which headers are searched, the other arguments, `-c`, the file.
    pub arguments: Vec<String>,
    /// The source file.
    pub file: String,
}

/// The content of a `CompilationEntry`.
pub struct EntryView {
    pub directory: Seq<char>,
    pub arguments: Seq<Seq<char>>,
    pub file: Seq<char>,
}

impl View for CompilationEntry {
    type V = EntryView;

    open spec fn view(&self) -> EntryView {
        EntryView {
            directory: self.directory@,
            arguments: self.arguments.deep_view(),
            file: self.file@,
        }
    }
}

impl DeepView for CompilationEntry {
    type V = EntryView;

    open spec fn deep_view(&self) -> EntryView {
        self@
    }
}

/// Whether an extension, taken without its dot and by its exact letters,
/// is one of a C++ source file. A file without extension has none of them.
pub open spec fn is_cpp_extension(ext: Option<Seq<char>>) -> bool {
    ext matches Some(ext) && (ext == "cc"@ || ext == "CC"@ || ext == "cpp"@ || ext == "CPP"@
        || ext == "cxx"@ || ext == "CXX"@)
}

/// Whether a file is compiled as C++: by its extension.
pub open spec fn is_cpp_file(file: Seq<char>) -> bool {
    is_cpp_extension(path_extension(file))
}

/// The compiler for a file: the C++ compiler for a C++ source file, the C
/// compiler for every other file.
pub open spec fn compiler_for(common: CommonView, file: Seq<char>) -> Seq<Seq<char>> {
    if is_cpp_file(file) {
        common.cpp_compiler
    } else {
        common.c_compiler
    }
}

/// The flag that makes the compiler search `dir` for headers.
pub open spec fn header_flag(dir: Seq<char>) -> Seq<char> {
    "-I"@ + dir
}

/// One flag for each directory, in the order of the directories.
pub open spec fn header_flags(dirs: Seq<Seq<char>>) -> Seq<Seq<char>> {
    dirs.map_values(|dir: Seq<char>| header_flag(dir))
}

/// The arguments that all files of a workspace share: the flags for its
/// header directories, then its options.
pub open spec fn shared_arguments(dirs: Seq<Seq<char>>, options: Seq<Seq<char>>) -> Seq<
    Seq<char>,
> {
    header_flags(dirs) + options
}

/// The arguments of an entry: the compiler, the shared arguments, the
/// compile-only flag and the file.
pub open spec fn entry_arguments(
    compiler: Seq<Seq<char>>,
    shared: Seq<Seq<char>>,
    file: Seq<char>,
) -> Seq<Seq<char>> {
    compiler + shared + seq!["-c"@, file]
}

/// The entry for `file` in a project with the settings `common`.
pub open spec fn entry_for(common: CommonView, shared: Seq<Seq<char>>, file: Seq<char>) -> EntryView {
    EntryView {
        directory: common.root_dir,
        arguments: entry_arguments(compiler_for(common, file), shared, file),
        file,
    }
}

/// In the arguments of an entry, the flags for the header directories stand
/// right after the compiler: as many as there are directories, one for each,
/// in the order of the directories. The options follow them, and the last
/// two arguments are `-c` and the file.
pub proof fn lemma_entry_arguments_layout(
    compiler: Seq<Seq<char>>,
    dirs: Seq<Seq<char>>,
    options: Seq<Seq<char>>,
    file: Seq<char>,
)
    ensures
        ({
            let args = entry_arguments(compiler, shared_arguments(dirs, options), file);
            let c = compiler.len() as int;
            let d = dirs.len() as int;
            let o = options.len() as int;
            &&& args.len() == c + d + o + 2
            &&& args.subrange(0, c) == compiler
            &&& args.subrange(c, c + d) == header_flags(dirs)
            &&& forall|i: int| 0 <= i < d ==> #[trigger] args[c + i] == "-I"@ + dirs[i]
            &&& args.subrange(c + d, c + d + o) == options
            &&& args[c + d + o] == "-c"@
            &&& args[c + d + o + 1] == file
        }),
{
    let args = entry_arguments(compiler, shared_arguments(dirs, options), file);
    let c = compiler.len() as int;
    let d = dirs.len() as int;
    let o = options.len() as int;
}

/// The entry of a file starts with the C++ compiler where the extension of
/// the file is one of `cc`, `CC`, `cpp`, `CPP`, `cxx`, `CXX`, and with the C
/// compiler for every other file, a file without extension among them.
pub proof fn lemma_compiler_follows_extension(
    common: CommonView,
    shared: Seq<Seq<char>>,
    file: Seq<char>,
)
    ensures
        ({
            let args = entry_for(common, shared, file).arguments;
            let ext = path_extension(file);
            let cpp = ext == Some("cc"@) || ext == Some("CC"@) || ext == Some("cpp"@) || ext
                == Some("CPP"@) || ext == Some("cxx"@) || ext == Some("CXX"@);
            &&& cpp ==> args.subrange(0, common.cpp_compiler.len() as int) == common.cpp_compiler
            &&& !cpp ==> args.subrange(0, common.c_compiler.len() as int) == common.c_compiler
            &&& ext is None ==> !cpp
        }),
{
    let args = entry_for(common, shared, file).arguments;
    let compiler = compiler_for(common, file);
}

/// Whether `ext` is one of the extensions of C++ source files.
pub fn has_cpp_extension(ext: Option<&str>) -> (b: bool)
    ensures
        b == is_cpp_extension(opt_view(ext)),
{
    match ext {
        Some(ext) => {
            let ext = ext.to_owned();
            ext == "cc".to_owned() || ext == "CC".to_owned() || ext == "cpp".to_owned() || ext
                == "CPP".to_owned() || ext == "cxx".to_owned() || ext == "CXX".to_owned()
        },
        None => false,
    }
}

/// Whether `file` is compiled as C++.
pub fn is_cpp_source(file: &str) -> (b: bool)
    ensures
        b == is_cpp_file(file@),
{
    has_cpp_extension(extension(file))
}

/// The compiler to use: the C++ compiler where `cpp` holds, else the C
/// compiler.
pub fn select_compiler(common: &CommonConf, cpp: bool) -> (compiler: &Vec<String>)
    ensures
        compiler.deep_view() == if cpp {
            common@.cpp_compiler
        } else {
            common@.c_compiler
        },
{
    if cpp {
        &common.cpp_compiler
    } else {
        &common.c_compiler
    }
}

/// The flag that makes the compiler search `dir` for headers.
pub fn build_header_flag(dir: &str) -> (flag: String)
    ensures
        flag@ == header_flag(dir@),
{
    let mut flag = "-I".to_owned();
    flag.append(dir);
    flag
}

/// The arguments that all files of a workspace share: one flag for each
/// header directory, in order, then the options.
pub fn build_shared_arguments(dirs: &Vec<String>, options: &Vec<String>) -> (shared: Vec<String>)
    ensures
        shared.deep_view() == shared_arguments(dirs.deep_view(), options.deep_view()),
{
    let mut shared: Vec<String> = Vec::new();
    let mut i: usize = 0;
    while i < dirs.len()
        invariant
            i <= dirs.len(),
            shared.deep_view() == header_flags(dirs.deep_view().take(i as int)),
        decreases dirs.len() - i,
    {
        let ghost before = shared.deep_view();
        shared.push(build_header_flag(dirs[i].as_str()));
        assert(shared.deep_view() =~= before.push(header_flag(dirs[i as int]@)));
        i += 1;
    }
    append_strings(&mut shared, options);
    shared
}

/// The entry for `file`: in the directory `root`, with the arguments
/// `compiler`, `shared`, `-c` and `file`, in this order.
pub fn build_entry(root: &str, compiler: &Vec<String>, shared: &Vec<String>, file: &str) -> (entry:
    CompilationEntry)
    ensures
        entry@ == (EntryView {
            directory: root@,
            arguments: entry_arguments(compiler.deep_view(), shared.deep_view(), file@),
            file: file@,
        }),
{
    let mut arguments: Vec<String> = Vec::new();
    append_strings(&mut arguments, compiler);
    append_strings(&mut arguments, shared);
    let ghost before = arguments.deep_view();
    arguments.push("-c".to_owned());
    arguments.push(file.to_owned());
    assert(arguments.deep_view() =~= entry_arguments(
        compiler.deep_view(),
        shared.deep_view(),
        file@,
    ));
    CompilationEntry { directory: root.to_owned(), arguments, file: file.to_owned() }
}

/// The entry for `file` in a project with the settings `common`: the
/// compiler is chosen by the extension of `file`.
pub fn entry_for_file(common: &CommonConf, shared: &Vec<String>, file: &str) -> (entry:
    CompilationEntry)
    ensures
        entry@ == entry_for(common@, shared.deep_view(), file@),
{
    let compiler = select_compiler(common, is_cpp_source(file));
    build_entry(common.root_dir.as_str(), compiler, shared, file)
}

} // verus!
