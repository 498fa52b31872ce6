//! What the editor extension decides between its calls to the editor: when
//! to install, and which plugin to hand to which language server.

use crate::text::same_text;
use vstd::prelude::*;

verus! {

/// Whether the language server has to be looked for: not where it was found
/// before and is still there.
pub fn needs_lookup(found_before: bool, on_disk: bool) -> (needed: bool)
    ensures
        needed == !(found_before && on_disk),
{
    !(found_before && on_disk)
}

/// Whether the version `installed` has to give way to `latest`.
pub open spec fn is_outdated(installed: Option<Seq<char>>, latest: Seq<char>) -> bool {
    installed != Some(latest)
}

/// Whether a package has to be installed: where what is installed is not
/// the latest version.
pub fn needs_install(installed: &Option<String>, latest: &str) -> (needed: bool)
    ensures
        needed == is_outdated(crate::pattern::optional_text(*installed), latest@),
{
    match installed {
        Some(version) => !same_text(version.as_str(), latest),
        None => true,
    }
}

/// Whether the language server has to be installed: where it is missing, or
/// where what is installed is not the latest version.
pub fn needs_server_install(on_disk: bool, installed: &Option<String>, latest: &str) -> (needed: bool)
    ensures
        needed == (!on_disk || is_outdated(crate::pattern::optional_text(*installed), latest@)),
{
    !on_disk || needs_install(installed, latest)
}

/// What an installation came to.
#[derive(Clone, Copy, Debug, PartialEq, Eq, Structural)]
pub enum InstallOutcome {
    /// The server is there, whether or not the installation went through.
    Ready,
    /// The installation went through, but the server is not where it was
    /// expected.
    MissingBinary,
    /// The installation failed, and no server is there.
    Failed,
}

/// Judges an installation by whether it went through and whether the server
/// is there afterwards.
pub fn judge_install(installed: bool, on_disk: bool) -> (outcome: InstallOutcome)
    ensures
        outcome == if on_disk {
            InstallOutcome::Ready
        } else if installed {
            InstallOutcome::MissingBinary
        } else {
            InstallOutcome::Failed
        },
{
    if on_disk {
        InstallOutcome::Ready
    } else if installed {
        InstallOutcome::MissingBinary
    } else {
        InstallOutcome::Failed
    }
}

/// Whether the project brings the plugin itself, among the dependencies or
/// the development dependencies of its package file.
pub fn has_local_plugin(in_dependencies: bool, in_dev_dependencies: bool) -> (local: bool)
    ensures
        local == (in_dev_dependencies || in_dependencies),
{
    in_dev_dependencies || in_dependencies
}

/// The language servers that are handed the plugin.
#[derive(Clone, Copy, Debug, PartialEq, Eq, Structural)]
pub enum PluginHost {
    /// `typescript-language-server`, which takes it among its
    /// initialization options.
    TypescriptLanguageServer,
    /// `vtsls`, which takes it in its workspace configuration.
    Vtsls,
    /// Any other server, which gets nothing.
    Other,
}

/// Tells which of the known language servers `server_id` names.
pub fn plugin_host(server_id: &str) -> (host: PluginHost)
    ensures
        host == if server_id@ == "typescript-language-server"@ {
            PluginHost::TypescriptLanguageServer
        } else if server_id@ == "vtsls"@ {
            PluginHost::Vtsls
        } else {
            PluginHost::Other
        },
{
    if same_text(server_id, "typescript-language-server") {
        PluginHost::TypescriptLanguageServer
    } else if same_text(server_id, "vtsls") {
        PluginHost::Vtsls
    } else {
        PluginHost::Other
    }
}

} // verus!
