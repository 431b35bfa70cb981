//! The arguments that are handed to the compiler as they are.

use crate::config::{option_view, OptionConf};
use crate::lists::append_listed;
use vstd::prelude::*;

verus! {

/// The arguments of a workspace: the common ones, then its own, with every
/// repetition kept.
pub open spec fn merged_options(common: Seq<Seq<char>>, workspace: Seq<Seq<char>>) -> Seq<
    Seq<char>,
> {
    common + workspace
}

/// Appends to `options` the arguments of `added`.
pub fn add_options(options: &mut Vec<String>, added: &Option<OptionConf>)
    ensures
        final(options).deep_view() == old(options).deep_view() + option_view(*added),
{
    match added {
        Some(added) => append_listed(options, &added.arg),
        None => {},
    }
}

/// The arguments of a workspace: the common ones, then its own, in order
/// and with every repetition kept.
pub fn list_options(common: &Option<OptionConf>, workspace: &Option<OptionConf>) -> (options: Vec<
    String,
>)
    ensures
        options.deep_view() == merged_options(option_view(*common), option_view(*workspace)),
{
    let mut options: Vec<String> = Vec::new();
    add_options(&mut options, common);
    add_options(&mut options, workspace);
    options
}

} // verus!
