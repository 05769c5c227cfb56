//! `compile` of the second command line.
use vstd::prelude::*;
use crate::cmd_cli::new::Manifest;
use crate::plan::{js_entry, CompilePlan, UnsupportedLanguage};
use crate::text::str_equal;
use crate::vars::{lemma_languages_differ, PROJECT_LANGUAGE_JS, PROJECT_LANGUAGE_RUST};

verus! {

/// `compile`: compiles the project.
#[derive(Debug)]
pub struct CompileCommand {
    /// The file to write.
    pub output: Option<String>,
    /// Whether to optimize the output.
    pub optimize: bool,
    /// Whether to build in debug mode.
    pub debug: bool,
}

impl CompileCommand {
    /// The compiler call for the project: cargo for Rust, the JavaScript
    /// compiler (without an engine) for JavaScript, an error otherwise.
    pub fn do_compile(&self, manifest: &Manifest) -> (r: Result<CompilePlan, UnsupportedLanguage>)
        ensures
            manifest.is_rust() ==> (r matches Ok(CompilePlan::Rust { arch, target, optimize, debug })
                && arch@ == manifest.spec_compile_arch()->Ok_0
                && target@ == manifest.spec_compiling_target()->Ok_0 && optimize == self.optimize
                && debug == self.debug),
            manifest.is_js() ==> (r matches Ok(CompilePlan::Js { target, entry, js_engine })
                && target@ == manifest.spec_compiling_target()->Ok_0 && entry@ == "src/index.js"@
                && js_engine is None),
            !manifest.is_rust() && !manifest.is_js() ==> (r matches Err(e) && e.language@
                == manifest.language@),
    {
        proof {
            lemma_languages_differ();
        }
        if str_equal(manifest.language.as_str(), PROJECT_LANGUAGE_RUST) {
            match (manifest.determine_compile_arch(), manifest.determine_compiling_target()) {
                (Ok(arch), Ok(target)) => {
                    return Ok(
                        CompilePlan::Rust { arch, target, optimize: self.optimize, debug: self.debug },
                    );
                },
                _ => {
                    assert(false);
                },
            }
        }
        if str_equal(manifest.language.as_str(), PROJECT_LANGUAGE_JS) {
            match manifest.determine_compiling_target() {
                Ok(target) => {
                    return Ok(CompilePlan::Js { target, entry: js_entry(), js_engine: None });
                },
                Err(_) => {
                    assert(false);
                },
            }
        }
        Err(UnsupportedLanguage { language: manifest.language.clone() })
    }
}

} // verus!
