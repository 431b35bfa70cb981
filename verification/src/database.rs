//! The compilation database of a project: the entries of its workspaces, in
//! the order of the configuration, and within a workspace in the order in
//! which the walk found the files.
//!
//! Generation has two steps, with the walks of the file system between
//! them: `walk_plan` says which directories to walk for each workspace, and
//! `generate` makes the database of what the walks found.

use crate::config::{
    CommonConf,
    CommonView,
    CompDBConf,
    ProjectView,
    WorkSpaceConf,
    WorkspaceView,
};
use crate::entries::{
    build_shared_arguments,
    compiler_for,
    entry_for,
    entry_for_file,
    header_flags,
    lemma_entry_arguments_layout,
    shared_arguments,
    CompilationEntry,
    EntryView,
};
use crate::includes::{
    build_include_roots_from_include_conf,
    kept_dirs,
    list_include_dirs,
    merged_ignores,
    merged_roots,
    roots_under,
};
use crate::options::{list_options, merged_options};
use crate::paths::{path_join, resolved};
use crate::patterns::{patterns_compile, PatternError};
use crate::targets::{
    list_target_files,
    merged_ignore_patterns,
    merged_match_patterns,
    selected_files,
    workspace_root,
};
use crate::walk::{WalkFound, WorkspaceWalk};
use vstd::prelude::*;

verus! {

/// The directories to walk for one workspace.
#[derive(Debug, Clone, Default)]
pub struct WalkRoots {
    /// The directory of the workspace, under which its files are.
    pub targets: String,
    /// The roots under which its headers are searched, in order.
    pub header_roots: Vec<String>,
}

/// The content of a `WalkRoots`.
pub struct RootsView {
    pub targets: Seq<char>,
    pub header_roots: Seq<Seq<char>>,
}

impl View for WalkRoots {
    type V = RootsView;

    open spec fn view(&self) -> RootsView {
        RootsView { targets: self.targets@, header_roots: self.header_roots.deep_view() }
    }
}

impl DeepView for WalkRoots {
    type V = RootsView;

    open spec fn deep_view(&self) -> RootsView {
        self@
    }
}

/// The directories to walk for a workspace: its own directory, joined to the
/// project root, and its header roots, common ones first.
pub open spec fn roots_of(common: CommonView, workspace: WorkspaceView) -> RootsView {
    RootsView {
        targets: path_join(common.root_dir, workspace.path),
        header_roots: merged_roots(
            common.root_dir,
            common.includes,
            workspace.path,
            workspace.includes,
        ),
    }
}

/// Whether `merged` is `first` with `second` after it: as long as both
/// together, with the items of `first` at its start and those of `second`
/// behind them, each at its place.
pub open spec fn follows<T>(merged: Seq<T>, first: Seq<T>, second: Seq<T>) -> bool {
    &&& merged.len() == first.len() + second.len()
    &&& forall|i: int| 0 <= i < first.len() ==> merged[i] == first[i]
    &&& forall|i: int| 0 <= i < second.len() ==> merged[first.len() + i] == second[i]
}

/// Whether every list of patterns of a workspace compiles: its match
/// patterns, its ignore patterns and the ignore patterns of its header
/// directories, each with the common ones first.
pub open spec fn workspace_compiles(common: CommonView, workspace: WorkspaceView) -> bool {
    &&& patterns_compile(merged_match_patterns(common.target, workspace.target))
    &&& patterns_compile(merged_ignore_patterns(common.target, workspace.target))
    &&& patterns_compile(merged_ignores(common.includes, workspace.includes))
}

/// The source files of a workspace, given what its walk found.
pub open spec fn workspace_files(
    common: CommonView,
    workspace: WorkspaceView,
    found: WalkFound,
) -> Seq<Seq<char>> {
    selected_files(
        common.root_dir,
        merged_match_patterns(common.target, workspace.target),
        merged_ignore_patterns(common.target, workspace.target),
        found.targets,
    )
}

/// The header directories of a workspace, given what its walk found.
pub open spec fn workspace_dirs(
    common: CommonView,
    workspace: WorkspaceView,
    found: WalkFound,
) -> Seq<Seq<char>> {
    kept_dirs(
        common.root_dir,
        merged_ignores(common.includes, workspace.includes),
        found.header_dirs,
    )
}

/// The arguments that all entries of a workspace share.
pub open spec fn workspace_arguments(
    common: CommonView,
    workspace: WorkspaceView,
    found: WalkFound,
) -> Seq<Seq<char>> {
    shared_arguments(
        workspace_dirs(common, workspace, found),
        merged_options(common.options, workspace.options),
    )
}

/// The entries of a workspace: one for each of its source files, in their
/// order.
pub open spec fn workspace_database(
    common: CommonView,
    workspace: WorkspaceView,
    found: WalkFound,
) -> Seq<EntryView> {
    workspace_files(common, workspace, found).map_values(
        |file: Seq<char>| entry_for(common, workspace_arguments(common, workspace, found), file),
    )
}

/// Whether the patterns of the first `count` workspaces compile.
pub open spec fn workspaces_compile(project: ProjectView, count: int) -> bool {
    forall|i: int| 0 <= i < count ==> #[trigger] workspace_compiles(
        project.common,
        project.workspaces[i],
    )
}

/// The entries of the first `count` workspaces, workspace after workspace.
pub open spec fn database_of_first(project: ProjectView, found: Seq<WalkFound>, count: int) -> Seq<
    EntryView,
>
    decreases count,
{
    if count <= 0 {
        Seq::empty()
    } else {
        database_of_first(project, found, count - 1) + workspace_database(
            project.common,
            project.workspaces[count - 1],
            found[count - 1],
        )
    }
}

/// The database of a project, given what the walk of each workspace found.
pub open spec fn database(project: ProjectView, found: Seq<WalkFound>) -> Seq<EntryView> {
    database_of_first(project, found, project.workspaces.len() as int)
}

/// What a run gives: the content of the database, or nothing where the run
/// failed.
pub open spec fn outcome(r: Result<Vec<CompilationEntry>, PatternError>) -> Option<
    Seq<EntryView>,
> {
    match r {
        Ok(entries) => Some(entries.deep_view()),
        Err(_) => None,
    }
}

/// Whether `given` is what a run gives for a project and what the walks
/// found: the database where all patterns compile, and nothing where some
/// do not.
pub open spec fn generated(
    project: ProjectView,
    found: Seq<WalkFound>,
    given: Option<Seq<EntryView>>,
) -> bool {
    if workspaces_compile(project, project.workspaces.len() as int) {
        given == Some(database(project, found))
    } else {
        given is None
    }
}

/// Two runs on the same configuration and the same findings end alike: both
/// fail, or both give the same database.
pub proof fn lemma_generation_is_deterministic(
    project: ProjectView,
    found: Seq<WalkFound>,
    first: Option<Seq<EntryView>>,
    second: Option<Seq<EntryView>>,
)
    requires
        generated(project, found, first),
        generated(project, found, second),
    ensures
        first == second,
{
}

/// In every list of a workspace the common items come first, in their
/// order, and the workspace's own follow, in theirs: nothing is left out,
/// moved or merged. This holds of the match patterns, the ignore patterns,
/// the ignore patterns of the header directories, the options, and the
/// header roots once each is resolved.
pub proof fn lemma_workspace_lists_follow_common(common: CommonView, workspace: WorkspaceView)
    ensures
        follows(
            merged_match_patterns(common.target, workspace.target),
            common.target.match_patterns,
            workspace.target.match_patterns,
        ),
        follows(
            merged_ignore_patterns(common.target, workspace.target),
            common.target.ignore_patterns,
            workspace.target.ignore_patterns,
        ),
        follows(
            merged_ignores(common.includes, workspace.includes),
            common.includes.ignore_patterns,
            workspace.includes.ignore_patterns,
        ),
        follows(
            merged_options(common.options, workspace.options),
            common.options,
            workspace.options,
        ),
        follows(
            roots_of(common, workspace).header_roots,
            roots_under(common.root_dir, common.includes),
            roots_under(resolved(common.root_dir, workspace.path), workspace.includes),
        ),
        roots_under(common.root_dir, common.includes).len() == common.includes.roots.len(),
        roots_under(resolved(common.root_dir, workspace.path), workspace.includes).len()
            == workspace.includes.roots.len(),
{
}

/// Every entry of a workspace carries, right after its compiler, one flag
/// for each header directory of the workspace, in the order of the
/// directories; and it is the entry of the source file at its place.
pub proof fn lemma_entries_carry_header_dirs(
    common: CommonView,
    workspace: WorkspaceView,
    found: WalkFound,
    k: int,
)
    requires
        0 <= k < workspace_database(common, workspace, found).len(),
    ensures
        ({
            let entry = workspace_database(common, workspace, found)[k];
            let dirs = workspace_dirs(common, workspace, found);
            let c = compiler_for(common, entry.file).len() as int;
            &&& entry.file == workspace_files(common, workspace, found)[k]
            &&& entry.directory == common.root_dir
            &&& entry.arguments.subrange(0, c) == compiler_for(common, entry.file)
            &&& entry.arguments.subrange(c, c + dirs.len()) == header_flags(dirs)
        }),
{
    let entry = workspace_database(common, workspace, found)[k];
    lemma_entry_arguments_layout(
        compiler_for(common, entry.file),
        workspace_dirs(common, workspace, found),
        merged_options(common.options, workspace.options),
        entry.file,
    );
}

/// A workspace without any match pattern, common or its own, has no entry.
pub proof fn lemma_no_match_pattern_no_entry(
    common: CommonView,
    workspace: WorkspaceView,
    found: WalkFound,
)
    requires
        merged_match_patterns(common.target, workspace.target).len() == 0,
    ensures
        workspace_database(common, workspace, found).len() == 0,
{
    assert(merged_match_patterns(common.target, workspace.target) =~= Seq::empty());
    crate::targets::lemma_no_match_pattern_selects_nothing(
        common.root_dir,
        merged_ignore_patterns(common.target, workspace.target),
        found.targets,
    );
}

/// The directories to walk for a workspace.
pub fn walk_roots(common: &CommonConf, workspace: &WorkSpaceConf) -> (roots: WalkRoots)
    ensures
        roots@ == roots_of(common@, workspace@),
{
    WalkRoots {
        targets: workspace_root(common.root_dir.as_str(), workspace.path.as_str()),
        header_roots: build_include_roots_from_include_conf(
            common.root_dir.as_str(),
            &common.includes,
            workspace.path.as_str(),
            &workspace.includes,
        ),
    }
}

/// The directories to walk for each workspace, in the order of the
/// workspaces.
pub fn walk_plan(conf: &CompDBConf) -> (plan: Vec<WalkRoots>)
    ensures
        plan.deep_view() == conf@.workspaces.map_values(
            |workspace: WorkspaceView| roots_of(conf@.common, workspace),
        ),
{
    let mut plan: Vec<WalkRoots> = Vec::new();
    let mut i: usize = 0;
    let ghost to = |workspace: WorkspaceView| roots_of(conf@.common, workspace);
    while i < conf.workspace.len()
        invariant
            i <= conf.workspace.len(),
            to == |workspace: WorkspaceView| roots_of(conf@.common, workspace),
            plan.deep_view() == conf@.workspaces.take(i as int).map_values(to),
        decreases conf.workspace.len() - i,
    {
        let ghost before = plan.deep_view();
        let roots = walk_roots(&conf.common, &conf.workspace[i]);
        plan.push(roots);
        assert(plan.deep_view() =~= before.push(roots@));
        i += 1;
    }
    plan
}

/// The entries of one workspace, given what its walk found. Fails where one
/// of its pattern lists does not compile.
pub fn workspace_entries(common: &CommonConf, workspace: &WorkSpaceConf, walk: &WorkspaceWalk) -> (r:
    Result<Vec<CompilationEntry>, PatternError>)
    ensures
        r is Ok <==> workspace_compiles(common@, workspace@),
        r matches Ok(entries) ==> entries.deep_view() == workspace_database(
            common@,
            workspace@,
            walk@,
        ),
{
    let files = match list_target_files(
        common.root_dir.as_str(),
        &common.target,
        &workspace.target,
        &walk.targets,
    ) {
        Ok(files) => files,
        Err(error) => { return Err(error); },
    };
    let dirs = match list_include_dirs(
        common.root_dir.as_str(),
        &common.includes,
        &workspace.includes,
        &walk.header_dirs,
    ) {
        Ok(dirs) => dirs,
        Err(error) => { return Err(error); },
    };
    let options = list_options(&common.option, &workspace.option);
    let shared = build_shared_arguments(&dirs, &options);
    let ghost to = |file: Seq<char>|
        entry_for(common@, workspace_arguments(common@, workspace@, walk@), file);
    let mut entries: Vec<CompilationEntry> = Vec::new();
    let mut i: usize = 0;
    while i < files.len()
        invariant
            i <= files.len(),
            shared.deep_view() == workspace_arguments(common@, workspace@, walk@),
            to == |file: Seq<char>|
                entry_for(common@, workspace_arguments(common@, workspace@, walk@), file),
            entries.deep_view() == files.deep_view().take(i as int).map_values(to),
        decreases files.len() - i,
    {
        let ghost before = entries.deep_view();
        let entry = entry_for_file(common, &shared, files[i].as_str());
        entries.push(entry);
        assert(entries.deep_view() =~= before.push(entry@));
        i += 1;
    }
    Ok(entries)
}

/// The database of a project, given for each workspace what its walk found.
/// Fails, with no entry at all, where a pattern list of some workspace does
/// not compile.
pub fn generate(conf: &CompDBConf, walks: &Vec<WorkspaceWalk>) -> (r: Result<
    Vec<CompilationEntry>,
    PatternError,
>)
    requires
        walks.len() == conf.workspace.len(),
    ensures
        r is Ok <==> workspaces_compile(conf@, conf@.workspaces.len() as int),
        r matches Ok(entries) ==> entries.deep_view() == database(conf@, walks.deep_view()),
        generated(conf@, walks.deep_view(), outcome(r)),
{
    let mut entries: Vec<CompilationEntry> = Vec::new();
    let mut i: usize = 0;
    while i < conf.workspace.len()
        invariant
            i <= conf.workspace.len(),
            walks.len() == conf.workspace.len(),
            workspaces_compile(conf@, i as int),
            entries.deep_view() == database_of_first(conf@, walks.deep_view(), i as int),
        decreases conf.workspace.len() - i,
    {
        let ghost before = entries.deep_view();
        match workspace_entries(&conf.common, &conf.workspace[i], &walks[i]) {
            Ok(mut added) => {
                entries.append(&mut added);
            },
            Err(error) => {
                assert(!workspace_compiles(conf@.common, conf@.workspaces[i as int]));
                return Err(error);
            },
        }
        i += 1;
    }
    Ok(entries)
}

} // verus!
