//! The switches of the plugin, and the passes they select.

use crate::import::AutoImport;
use crate::import::AutoImportDts;
use vstd::prelude::*;

verus! {

/// The configuration that the host hands to the plugin.
#[derive(Debug, PartialEq)]
pub struct PluginConfig {
    pub style_minify: bool,
    pub auto_import: AutoImport,
    /// Where the declarations of the imported members are written.
    pub auto_import_dts: AutoImportDts,
    /// Whether import specifiers are written as relative paths.
    pub resolve_path: bool,
    /// Whether preload imports are rewritten.
    pub preload: bool,
    /// Whether classes are made replaceable while the program runs.
    pub hmr: bool,
    pub lazy_view: bool,
}

/// One of the passes over a program.
#[derive(Clone, Copy, Debug, PartialEq, Eq, Structural)]
pub enum Pass {
    Memo,
    Import,
    Minify,
    Path,
    Preload,
    Hmr,
}

/// Whether the automatic imports are switched on.
pub open spec fn imports_enabled(auto_import: AutoImport) -> bool {
    match auto_import {
        AutoImport::Gem(on) => on,
        AutoImport::CustomContent(_) => true,
    }
}

/// `passes` with `pass` at its end where `enabled` holds.
pub open spec fn with_pass(passes: Seq<Pass>, enabled: bool, pass: Pass) -> Seq<Pass> {
    if enabled {
        passes.push(pass)
    } else {
        passes
    }
}

/// The passes that a configuration selects, in the order in which they
/// run: the memo pass always and first, then each of the others where its
/// switch is on, the hot-replacement pass last.
pub open spec fn selected_passes(config: PluginConfig) -> Seq<Pass> {
    with_pass(
        with_pass(
            with_pass(
                with_pass(
                    with_pass(seq![Pass::Memo], imports_enabled(config.auto_import), Pass::Import),
                    config.style_minify,
                    Pass::Minify,
                ),
                config.resolve_path,
                Pass::Path,
            ),
            config.preload,
            Pass::Preload,
        ),
        config.hmr,
        Pass::Hmr,
    )
}

impl Default for PluginConfig {
    fn default() -> (config: Self)
        ensures
            config == (PluginConfig {
                style_minify: false,
                auto_import: AutoImport::Gem(false),
                auto_import_dts: AutoImportDts::Src(false),
                resolve_path: false,
                preload: false,
                hmr: false,
                lazy_view: false,
            }),
    {
        PluginConfig {
            style_minify: false,
            auto_import: AutoImport::Gem(false),
            auto_import_dts: AutoImportDts::Src(false),
            resolve_path: false,
            preload: false,
            hmr: false,
            lazy_view: false,
        }
    }
}

impl PluginConfig {
    /// Lists the passes to run over a program, in order.
    pub fn passes(&self) -> (out: Vec<Pass>)
        ensures
            out@ == selected_passes(*self),
    {
        let mut out: Vec<Pass> = Vec::new();
        out.push(Pass::Memo);
        assert(out@ =~= seq![Pass::Memo]);
        if self.auto_import.is_enabled() {
            out.push(Pass::Import);
        }
        if self.style_minify {
            out.push(Pass::Minify);
        }
        if self.resolve_path {
            out.push(Pass::Path);
        }
        if self.preload {
            out.push(Pass::Preload);
        }
        if self.hmr {
            out.push(Pass::Hmr);
        }
        out
    }
}

} // verus!
