//! The source files of a workspace.

use crate::config::{target_view, TargetConf, TargetView};
use crate::lists::append_listed;
use crate::paths::{get_slashed_path_without_prefix, join, normalized, path_join};
use crate::patterns::{any_matches, patterns_compile, PatternError, PatternSet};
use crate::walk::{EntryFound, WalkEntry};
use vstd::prelude::*;

verus! {

/// The match patterns of a workspace: the common ones, then its own.
pub open spec fn merged_match_patterns(common: TargetView, workspace: TargetView) -> Seq<
    Seq<char>,
> {
    common.match_patterns + workspace.match_patterns
}

/// The ignore patterns of a workspace: the common ones, then its own.
pub open spec fn merged_ignore_patterns(common: TargetView, workspace: TargetView) -> Seq<
    Seq<char>,
> {
    common.ignore_patterns + workspace.ignore_patterns
}

/// Whether a path is a source file: one of `matched` matches it and none of
/// `ignored` does.
pub open spec fn is_target(matched: Seq<Seq<char>>, ignored: Seq<Seq<char>>, path: Seq<char>) -> bool {
    any_matches(matched, path) && !any_matches(ignored, path)
}

/// The entries of `walked`, files and directories alike, each normalised
/// against `prefix`, that are source files; in the order of `walked`.
pub open spec fn selected_files(
    prefix: Seq<char>,
    matched: Seq<Seq<char>>,
    ignored: Seq<Seq<char>>,
    walked: Seq<EntryFound>,
) -> Seq<Seq<char>> {
    walked.map_values(|entry: EntryFound| normalized(entry.path, prefix)).filter(
        |path: Seq<char>| is_target(matched, ignored, path),
    )
}

/// What one more walked entry adds to the selected files.
pub proof fn lemma_selected_files_push(
    prefix: Seq<char>,
    matched: Seq<Seq<char>>,
    ignored: Seq<Seq<char>>,
    walked: Seq<EntryFound>,
    entry: EntryFound,
)
    ensures
        selected_files(prefix, matched, ignored, walked.push(entry)) == if is_target(
            matched,
            ignored,
            normalized(entry.path, prefix),
        ) {
            selected_files(prefix, matched, ignored, walked).push(normalized(entry.path, prefix))
        } else {
            selected_files(prefix, matched, ignored, walked)
        },
{
    let norm = |entry: EntryFound| normalized(entry.path, prefix);
    let keep = |path: Seq<char>| is_target(matched, ignored, path);
    assert(walked.push(entry).map_values(norm) =~= walked.map_values(norm).push(norm(entry)));
    walked.map_values(norm).lemma_filter_push(norm(entry), keep);
}

/// With no match pattern at all, no file is selected, whatever the walk
/// found and whatever is ignored.
pub proof fn lemma_no_match_pattern_selects_nothing(
    prefix: Seq<char>,
    ignored: Seq<Seq<char>>,
    walked: Seq<EntryFound>,
)
    ensures
        selected_files(prefix, Seq::empty(), ignored, walked) == Seq::<Seq<char>>::empty(),
    decreases walked.len(),
{
    if walked.len() == 0 {
        let norm = |entry: EntryFound| normalized(entry.path, prefix);
        let keep = |path: Seq<char>| is_target(Seq::empty(), ignored, path);
        walked.map_values(norm).lemma_filter_len(keep);
    } else {
        lemma_no_match_pattern_selects_nothing(prefix, ignored, walked.drop_last());
        lemma_selected_files_push(
            prefix,
            Seq::empty(),
            ignored,
            walked.drop_last(),
            walked.last(),
        );
        assert(walked.drop_last().push(walked.last()) =~= walked);
    }
}

/// The directory to walk for the files of a workspace: its path joined to
/// the project root.
pub fn workspace_root(common_root: &str, workspace_path: &str) -> (root: String)
    ensures
        root@ == path_join(common_root@, workspace_path@),
{
    join(common_root, workspace_path)
}

/// The match patterns and the ignore patterns of a workspace, common ones
/// first in each.
pub fn build_target_pattern(common: &TargetConf, workspace: &Option<TargetConf>) -> (r: (
    Vec<String>,
    Vec<String>,
))
    ensures
        r.0.deep_view() == merged_match_patterns(common@, target_view(*workspace)),
        r.1.deep_view() == merged_ignore_patterns(common@, target_view(*workspace)),
{
    let mut matched: Vec<String> = Vec::new();
    let mut ignored: Vec<String> = Vec::new();
    append_listed(&mut matched, &common.match_pattern);
    append_listed(&mut ignored, &common.ignore_pattern);
    if let Some(workspace) = workspace {
        append_listed(&mut matched, &workspace.match_pattern);
        append_listed(&mut ignored, &workspace.ignore_pattern);
    }
    (matched, ignored)
}

/// Appends `file` to `files` where it is matched and not ignored.
pub fn add_target_file_if_selected(
    files: &mut Vec<String>,
    file: String,
    matched: bool,
    ignored: bool,
)
    ensures
        final(files).deep_view() == if matched && !ignored {
            old(files).deep_view().push(file@)
        } else {
            old(files).deep_view()
        },
{
    if matched && !ignored {
        files.push(file);
    }
}

/// Appends to `files` the entries of `walked`, normalised against `prefix`,
/// that `matched` matches and `ignored` does not.
pub fn add_target_files(
    files: &mut Vec<String>,
    walked: &Vec<WalkEntry>,
    prefix: &str,
    matched: &PatternSet,
    ignored: &PatternSet,
)
    ensures
        final(files).deep_view() == old(files).deep_view() + selected_files(
            prefix@,
            matched@,
            ignored@,
            walked.deep_view(),
        ),
{
    let mut i: usize = 0;
    while i < walked.len()
        invariant
            i <= walked.len(),
            files.deep_view() == old(files).deep_view() + selected_files(
                prefix@,
                matched@,
                ignored@,
                walked.deep_view().take(i as int),
            ),
        decreases walked.len() - i,
    {
        proof {
            lemma_selected_files_push(
                prefix@,
                matched@,
                ignored@,
                walked.deep_view().take(i as int),
                walked@[i as int]@,
            );
            assert(walked.deep_view().take(i + 1) =~= walked.deep_view().take(i as int).push(
                walked@[i as int]@,
            ));
        }
        let file = get_slashed_path_without_prefix(walked[i].path.as_str(), prefix);
        let is_matched = matched.matches(file.as_str());
        let is_ignored = is_matched && ignored.matches(file.as_str());
        add_target_file_if_selected(files, file, is_matched, is_ignored);
        i += 1;
    }
    assert(walked.deep_view().take(i as int) =~= walked.deep_view());
}

/// The source files of a workspace, given what the walk of its directory
/// found: every entry, relative to the project root where it lies under it,
/// that a match pattern matches and no ignore pattern matches. The order is
/// that of the walk. Fails where the match patterns or the ignore patterns
/// do not compile. With no match pattern, no file is selected.
pub fn list_target_files(
    common_root: &str,
    common_conf: &TargetConf,
    workspace_conf: &Option<TargetConf>,
    walked: &Vec<WalkEntry>,
) -> (r: Result<Vec<String>, PatternError>)
    ensures
        r is Ok <==> patterns_compile(
            merged_match_patterns(common_conf@, target_view(*workspace_conf)),
        ) && patterns_compile(merged_ignore_patterns(common_conf@, target_view(*workspace_conf))),
        r matches Ok(files) ==> files.deep_view() == selected_files(
            common_root@,
            merged_match_patterns(common_conf@, target_view(*workspace_conf)),
            merged_ignore_patterns(common_conf@, target_view(*workspace_conf)),
            walked.deep_view(),
        ),
        r matches Ok(files) ==> (merged_match_patterns(
            common_conf@,
            target_view(*workspace_conf),
        ).len() == 0 ==> files@.len() == 0),
{
    let (match_patterns, ignore_patterns) = build_target_pattern(common_conf, workspace_conf);
    let matched = match PatternSet::new(&match_patterns) {
        Ok(set) => set,
        Err(error) => { return Err(error); },
    };
    let ignored = match PatternSet::new(&ignore_patterns) {
        Ok(set) => set,
        Err(error) => { return Err(error); },
    };
    let mut files: Vec<String> = Vec::new();
    add_target_files(&mut files, walked, common_root, &matched, &ignored);
    proof {
        if matched@.len() == 0 {
            assert(matched@ =~= Seq::<Seq<char>>::empty());
            lemma_no_match_pattern_selects_nothing(common_root@, ignored@, walked.deep_view());
        }
    }
    Ok(files)
}

} // verus!
