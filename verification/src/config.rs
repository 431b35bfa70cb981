//! The configuration of a project: settings common to all workspaces, and
//! the workspaces, each of which adds its own settings to the common ones.
//!
//! Every list of a workspace comes after the common list of the same kind.
//! A list that is absent stands for the empty list, so the view of a
//! configuration holds plain sequences.

use crate::lists::listed;
use vstd::prelude::*;

verus! {

/// Which paths are source files: those that a match pattern matches and no
/// ignore pattern matches.
#[derive(Debug, Clone, Default)]
pub struct TargetConf {
    pub match_pattern: Option<Vec<String>>,
    pub ignore_pattern: Option<Vec<String>>,
}

/// Where headers are searched: every directory under one of the roots that
/// no ignore pattern matches.
#[derive(Debug, Clone, Default)]
pub struct IncludeConf {
    pub root_dir: Option<Vec<String>>,
    pub ignore_pattern: Option<Vec<String>>,
}

/// Arguments handed to the compiler as they are.
#[derive(Debug, Clone, Default)]
pub struct OptionConf {
    pub arg: Option<Vec<String>>,
}

/// The settings shared by all workspaces.
#[derive(Debug, Clone, Default)]
pub struct CommonConf {
    /// The C compiler: its command, then its fixed arguments.
    pub c_compiler: Vec<String>,
    /// The C++ compiler: its command, then its fixed arguments.
    pub cpp_compiler: Vec<String>,
    /// The root directory of the project.
    pub root_dir: String,
    pub target: TargetConf,
    pub includes: Option<IncludeConf>,
    pub option: Option<OptionConf>,
}

/// One workspace: a directory below the root, with settings that come after
/// the common ones.
#[derive(Debug, Clone, Default)]
pub struct WorkSpaceConf {
    pub path: String,
    pub target: Option<TargetConf>,
    pub includes: Option<IncludeConf>,
    pub option: Option<OptionConf>,
}

/// A whole project.
#[derive(Debug, Clone, Default)]
pub struct CompDBConf {
    pub common: CommonConf,
    pub workspace: Vec<WorkSpaceConf>,
}

/// The patterns of a `TargetConf`.
pub struct TargetView {
    pub match_patterns: Seq<Seq<char>>,
    pub ignore_patterns: Seq<Seq<char>>,
}

/// The roots and patterns of an `IncludeConf`.
pub struct IncludeView {
    pub roots: Seq<Seq<char>>,
    pub ignore_patterns: Seq<Seq<char>>,
}

/// The content of a `CommonConf`.
pub struct CommonView {
    pub c_compiler: Seq<Seq<char>>,
    pub cpp_compiler: Seq<Seq<char>>,
    pub root_dir: Seq<char>,
    pub target: TargetView,
    pub includes: IncludeView,
    pub options: Seq<Seq<char>>,
}

/// The content of a `WorkSpaceConf`.
pub struct WorkspaceView {
    pub path: Seq<char>,
    pub target: TargetView,
    pub includes: IncludeView,
    pub options: Seq<Seq<char>>,
}

/// The content of a `CompDBConf`.
pub struct ProjectView {
    pub common: CommonView,
    pub workspaces: Seq<WorkspaceView>,
}

impl View for TargetConf {
    type V = TargetView;

    open spec fn view(&self) -> TargetView {
        TargetView {
            match_patterns: listed(self.match_pattern),
            ignore_patterns: listed(self.ignore_pattern),
        }
    }
}

impl View for IncludeConf {
    type V = IncludeView;

    open spec fn view(&self) -> IncludeView {
        IncludeView { roots: listed(self.root_dir), ignore_patterns: listed(self.ignore_pattern) }
    }
}

impl View for OptionConf {
    type V = Seq<Seq<char>>;

    open spec fn view(&self) -> Seq<Seq<char>> {
        listed(self.arg)
    }
}

/// The patterns of a target configuration that may be absent.
pub open spec fn target_view(conf: Option<TargetConf>) -> TargetView {
    match conf {
        Some(conf) => conf@,
        None => TargetView { match_patterns: Seq::empty(), ignore_patterns: Seq::empty() },
    }
}

/// The roots and patterns of a header configuration that may be absent.
pub open spec fn include_view(conf: Option<IncludeConf>) -> IncludeView {
    match conf {
        Some(conf) => conf@,
        None => IncludeView { roots: Seq::empty(), ignore_patterns: Seq::empty() },
    }
}

/// The arguments of an option configuration that may be absent.
pub open spec fn option_view(conf: Option<OptionConf>) -> Seq<Seq<char>> {
    match conf {
        Some(conf) => conf@,
        None => Seq::empty(),
    }
}

impl View for CommonConf {
    type V = CommonView;

    open spec fn view(&self) -> CommonView {
        CommonView {
            c_compiler: self.c_compiler.deep_view(),
            cpp_compiler: self.cpp_compiler.deep_view(),
            root_dir: self.root_dir@,
            target: self.target@,
            includes: include_view(self.includes),
            options: option_view(self.option),
        }
    }
}

impl View for WorkSpaceConf {
    type V = WorkspaceView;

    open spec fn view(&self) -> WorkspaceView {
        WorkspaceView {
            path: self.path@,
            target: target_view(self.target),
            includes: include_view(self.includes),
            options: option_view(self.option),
        }
    }
}

impl DeepView for WorkSpaceConf {
    type V = WorkspaceView;

    open spec fn deep_view(&self) -> WorkspaceView {
        self@
    }
}

impl View for CompDBConf {
    type V = ProjectView;

    open spec fn view(&self) -> ProjectView {
        ProjectView { common: self.common@, workspaces: self.workspace.deep_view() }
    }
}

} // verus!
