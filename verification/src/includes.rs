//! The directories in which a workspace's headers are searched.

use crate::config::{include_view, IncludeConf, IncludeView};
use crate::lists::append_listed;
use crate::paths::{get_slashed_path_without_prefix, normalized, resolve, resolved};
use crate::patterns::{any_matches, patterns_compile, PatternError, PatternSet};
use crate::walk::{EntryFound, WalkEntry};
use vstd::prelude::*;

verus! {

/// The roots of a configuration, each resolved against `base`.
pub open spec fn roots_under(base: Seq<char>, conf: IncludeView) -> Seq<Seq<char>> {
    conf.roots.map_values(|root: Seq<char>| resolved(base, root))
}

/// The roots to walk for a workspace: the common ones, resolved against the
/// project root, then the workspace's own, resolved against the workspace's
/// directory.
pub open spec fn merged_roots(
    common_root: Seq<char>,
    common_conf: IncludeView,
    workspace_path: Seq<char>,
    workspace_conf: IncludeView,
) -> Seq<Seq<char>> {
    roots_under(common_root, common_conf) + roots_under(
        resolved(common_root, workspace_path),
        workspace_conf,
    )
}

/// The ignore patterns of a workspace: the common ones, then its own.
pub open spec fn merged_ignores(common_conf: IncludeView, workspace_conf: IncludeView) -> Seq<
    Seq<char>,
> {
    common_conf.ignore_patterns + workspace_conf.ignore_patterns
}

/// The directories among `walked`, each normalised against `prefix`, without
/// those that one of `ignored` matches; in the order of `walked`.
pub open spec fn kept_dirs(
    prefix: Seq<char>,
    ignored: Seq<Seq<char>>,
    walked: Seq<EntryFound>,
) -> Seq<Seq<char>> {
    walked.filter(|entry: EntryFound| entry.is_dir).map_values(
        |entry: EntryFound| normalized(entry.path, prefix),
    ).filter(|dir: Seq<char>| !any_matches(ignored, dir))
}

/// What one more walked entry adds to the kept directories.
pub proof fn lemma_kept_dirs_push(
    prefix: Seq<char>,
    ignored: Seq<Seq<char>>,
    walked: Seq<EntryFound>,
    entry: EntryFound,
)
    ensures
        kept_dirs(prefix, ignored, walked.push(entry)) == if entry.is_dir && !any_matches(
            ignored,
            normalized(entry.path, prefix),
        ) {
            kept_dirs(prefix, ignored, walked).push(normalized(entry.path, prefix))
        } else {
            kept_dirs(prefix, ignored, walked)
        },
{
    let is_dir = |entry: EntryFound| entry.is_dir;
    let norm = |entry: EntryFound| normalized(entry.path, prefix);
    let keep = |dir: Seq<char>| !any_matches(ignored, dir);
    let dirs = walked.filter(is_dir);
    walked.lemma_filter_push(entry, is_dir);
    if entry.is_dir {
        assert(dirs.push(entry).map_values(norm) =~= dirs.map_values(norm).push(norm(entry)));
        dirs.map_values(norm).lemma_filter_push(norm(entry), keep);
    }
}

/// Appends to `org` the roots of `conf`, each resolved against `root`.
pub fn add_include_roots_from_include_conf(
    org: &mut Vec<String>,
    root: &str,
    conf: &Option<IncludeConf>,
)
    ensures
        final(org).deep_view() == old(org).deep_view() + roots_under(root@, include_view(*conf)),
{
    if let Some(conf) = conf {
        if let Some(roots) = &conf.root_dir {
            let mut i: usize = 0;
            while i < roots.len()
                invariant
                    i <= roots.len(),
                    org.deep_view() == old(org).deep_view() + roots.deep_view().take(
                        i as int,
                    ).map_values(|r: Seq<char>| resolved(root@, r)),
                decreases roots.len() - i,
            {
                let ghost before = org.deep_view();
                org.push(resolve(root, roots[i].as_str()));
                assert(org.deep_view() =~= before.push(resolved(root@, roots[i as int]@)));
                i += 1;
            }
        }
    }
}

/// The roots to walk for a workspace, common ones first.
pub fn build_include_roots_from_include_conf(
    common_root: &str,
    common_conf: &Option<IncludeConf>,
    workspace_path: &str,
    workspace_conf: &Option<IncludeConf>,
) -> (roots: Vec<String>)
    ensures
        roots.deep_view() == merged_roots(
            common_root@,
            include_view(*common_conf),
            workspace_path@,
            include_view(*workspace_conf),
        ),
{
    let mut roots: Vec<String> = Vec::new();
    add_include_roots_from_include_conf(&mut roots, common_root, common_conf);
    let workspace_root = resolve(common_root, workspace_path);
    add_include_roots_from_include_conf(&mut roots, workspace_root.as_str(), workspace_conf);
    roots
}

/// Appends to `patterns` the ignore patterns of `conf`.
pub fn add_ignore_regex_pattern(patterns: &mut Vec<String>, conf: &Option<IncludeConf>)
    ensures
        final(patterns).deep_view() == old(patterns).deep_view() + include_view(
            *conf,
        ).ignore_patterns,
{
    match conf {
        Some(conf) => append_listed(patterns, &conf.ignore_pattern),
        None => {},
    }
}

/// The ignore patterns of a workspace, common ones first.
pub fn build_ignore_regex_patterns(
    common_conf: &Option<IncludeConf>,
    workspace_conf: &Option<IncludeConf>,
) -> (patterns: Vec<String>)
    ensures
        patterns.deep_view() == merged_ignores(
            include_view(*common_conf),
            include_view(*workspace_conf),
        ),
{
    let mut patterns: Vec<String> = Vec::new();
    add_ignore_regex_pattern(&mut patterns, common_conf);
    add_ignore_regex_pattern(&mut patterns, workspace_conf);
    patterns
}

/// Appends `path` to `dirs` unless it is ignored.
pub fn add_include_dirs_if_not_ignored(dirs: &mut Vec<String>, path: String, ignored: bool)
    ensures
        final(dirs).deep_view() == if ignored {
            old(dirs).deep_view()
        } else {
            old(dirs).deep_view().push(path@)
        },
{
    if !ignored {
        dirs.push(path);
    }
}

/// Appends to `dirs` the directories among `walked`, normalised against
/// `prefix`, that the set does not match.
pub fn add_dirs_under_the_root(
    dirs: &mut Vec<String>,
    walked: &Vec<WalkEntry>,
    prefix: &str,
    ignored: &PatternSet,
)
    ensures
        final(dirs).deep_view() == old(dirs).deep_view() + kept_dirs(
            prefix@,
            ignored@,
            walked.deep_view(),
        ),
{
    let mut i: usize = 0;
    while i < walked.len()
        invariant
            i <= walked.len(),
            dirs.deep_view() == old(dirs).deep_view() + kept_dirs(
                prefix@,
                ignored@,
                walked.deep_view().take(i as int),
            ),
        decreases walked.len() - i,
    {
        proof {
            lemma_kept_dirs_push(
                prefix@,
                ignored@,
                walked.deep_view().take(i as int),
                walked@[i as int]@,
            );
            assert(walked.deep_view().take(i + 1) =~= walked.deep_view().take(i as int).push(
                walked@[i as int]@,
            ));
        }
        if walked[i].is_dir {
            let dir = get_slashed_path_without_prefix(walked[i].path.as_str(), prefix);
            let is_ignored = ignored.matches(dir.as_str());
            add_include_dirs_if_not_ignored(dirs, dir, is_ignored);
        }
        i += 1;
    }
    assert(walked.deep_view().take(i as int) =~= walked.deep_view());
}

/// The directories to search for a workspace's headers, given what the walk
/// of its roots found: every directory found, relative to the project root
/// where it lies under it, that no ignore pattern matches. The order is that
/// of the walk. Fails where the ignore patterns do not compile.
pub fn list_include_dirs(
    common_root: &str,
    common_conf: &Option<IncludeConf>,
    workspace_conf: &Option<IncludeConf>,
    walked: &Vec<WalkEntry>,
) -> (r: Result<Vec<String>, PatternError>)
    ensures
        r is Ok <==> patterns_compile(
            merged_ignores(include_view(*common_conf), include_view(*workspace_conf)),
        ),
        r matches Ok(dirs) ==> dirs.deep_view() == kept_dirs(
            common_root@,
            merged_ignores(include_view(*common_conf), include_view(*workspace_conf)),
            walked.deep_view(),
        ),
{
    let patterns = build_ignore_regex_patterns(common_conf, workspace_conf);
    match PatternSet::new(&patterns) {
        Ok(ignored) => {
            let mut dirs: Vec<String> = Vec::new();
            add_dirs_under_the_root(&mut dirs, walked, common_root, &ignored);
            Ok(dirs)
        },
        Err(error) => Err(error),
    }
}

} // verus!
