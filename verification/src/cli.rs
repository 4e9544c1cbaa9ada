//! The command surface: the options each subcommand carries, as plain
//! data; a host program reads its arguments into these.

use vstd::prelude::*;
use crate::build_cmd::BuildCommand;
use crate::orchestrate::PackageCommand;
use crate::publish::{BasePublishCommand, PublishDepsCommand};

verus! {

/// Sets up a fresh plugin project.
#[derive(Clone, Debug)]
pub struct InitCommand {}

impl InitCommand {
    /// The dependencies a fresh plugin project is given, in the order
    /// they are added.
    pub fn dependencies_to_add(&self) -> (r: Vec<&'static str>)
        ensures
            r.deep_view() =~= seq!["abi_stable"@, "swc_atoms"@, "swc_common"@, "swc_plugin"@],
    {
        let mut v: Vec<&'static str> = Vec::new();
        v.push("abi_stable");
        v.push("swc_atoms");
        v.push("swc_common");
        v.push("swc_plugin");
        v
    }
}

/// The plugin subcommands.
#[derive(Debug)]
pub enum PluginCommand {
    Init(InitCommand),
    Build(BuildCommand),
    Package(PackageCommand),
    PublishDeps(PublishDepsCommand),
    Publish(BasePublishCommand),
}

/// The top-level command.
#[derive(Debug)]
pub enum Cmd {
    Plugin(PluginCommand),
}

} // verus!
