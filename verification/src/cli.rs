//! Arguments shared by every tool, and the choice of configuration
//! documents that follows from them.

use crate::config::{
    merged_bindings, scope_text, AppConfig, Bindings, ConfigError, ConfigFault, ConfigSources,
};
use vstd::prelude::*;
use vstd::string::*;

verus! {

/// Arguments that every tool accepts.
#[derive(Clone, Debug, PartialEq, Eq)]
pub struct CommonArgs {
    /// Path of the root configuration document.
    pub config: String,
    /// Path of the scope document, merged over the root.
    pub lab_config: Option<String>,
    /// Subject override.
    pub subject: Option<String>,
}

impl Default for CommonArgs {
    /// The arguments of an invocation that passes none: the root document
    /// is `config.toml`, and nothing is overridden.
    fn default() -> (args: CommonArgs)
        ensures
            args.config@ == "config.toml"@,
            args.lab_config is None,
            args.subject is None,
    {
        CommonArgs { config: String::from_str("config.toml"), lab_config: None, subject: None }
    }
}

/// The scope path an invocation uses: the one passed explicitly, else the
/// tool's own default unless that is empty.
pub open spec fn chosen_scope(common: CommonArgs, default_lab_cfg: Seq<char>) -> Option<Seq<char>> {
    match common.lab_config {
        Some(p) => Some(p@),
        None => if default_lab_cfg.len() > 0 {
            Some(default_lab_cfg)
        } else {
            None
        },
    }
}

/// Picks the path of the scope document for an invocation.
pub fn lab_config_path<'a>(common: &'a CommonArgs, default_lab_cfg: &'a str) -> (path: Option<
    &'a str,
>)
    ensures
        scope_text(path) == chosen_scope(*common, default_lab_cfg@),
{
    match &common.lab_config {
        Some(p) => Some(p.as_str()),
        None => if !default_lab_cfg.is_empty() {
            Some(default_lab_cfg)
        } else {
            None
        },
    }
}

/// Builds the snapshot of an invocation: the root document named by
/// `common`, the scope document chosen by `lab_config_path`, and the
/// environment, merged in that order.
pub fn merged_config(common: &CommonArgs, default_lab_cfg: &str, sources: &ConfigSources) -> (loaded:
    Result<AppConfig, ConfigError>)
    ensures
        match loaded {
            Ok(cfg) => merged_bindings(
                *sources,
                common.config@,
                chosen_scope(*common, default_lab_cfg@),
            ) == Ok::<Bindings, ConfigFault>(cfg@),
            Err(e) => merged_bindings(
                *sources,
                common.config@,
                chosen_scope(*common, default_lab_cfg@),
            ) == Err::<Bindings, ConfigFault>(e@),
        },
{
    AppConfig::load_merged(
        common.config.as_str(),
        lab_config_path(common, default_lab_cfg),
        sources,
    )
}

} // verus!
