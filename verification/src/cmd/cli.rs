//! The commands of `leaf-cli`: `init`, `build`, `serve` and `component`.
use vstd::prelude::*;
use crate::manifest::{Manifest, TargetError};
use crate::plan::{js_entry, CompilePlan, UnsupportedLanguage};
use crate::text::{contains, contains_spec};
use crate::vars::{lemma_languages_differ, PROJECT_LANGUAGE_JS, PROJECT_LANGUAGE_RUST};

verus! {

/// The language a template is for: Rust when its name mentions `rust`, else
/// JavaScript when it mentions `js`, else Rust.
pub open spec fn spec_template_language(template: Option<String>) -> Seq<char> {
    match template {
        Some(t) => if contains_spec(t@, "rust"@) {
            PROJECT_LANGUAGE_RUST@
        } else if contains_spec(t@, "js"@) {
            PROJECT_LANGUAGE_JS@
        } else {
            PROJECT_LANGUAGE_RUST@
        },
        None => PROJECT_LANGUAGE_RUST@,
    }
}

/// The language of a template, as `init` decides it.
pub fn template_language(template: &Option<String>) -> (r: String)
    ensures
        r@ == spec_template_language(*template),
{
    match template {
        Some(t) => {
            if contains(t.as_str(), "rust") {
                return String::from_str(PROJECT_LANGUAGE_RUST);
            }
            if contains(t.as_str(), "js") {
                return String::from_str(PROJECT_LANGUAGE_JS);
            }
            String::from_str(PROJECT_LANGUAGE_RUST)
        },
        None => String::from_str(PROJECT_LANGUAGE_RUST),
    }
}

/// `init`: creates a new project.
#[derive(Debug)]
pub struct Init {
    /// The name of the project.
    pub name: String,
    /// The template to use.
    pub template: Option<String>,
}

impl Init {
    /// The language the new project's manifest names.
    pub fn determine_language(&self) -> (r: String)
        ensures
            r@ == spec_template_language(self.template),
    {
        template_language(&self.template)
    }
}

/// `build`: compiles the project.
#[derive(Debug)]
pub struct Build {
    /// Whether to optimize the output.
    pub optimize: bool,
    /// Whether to build in debug mode.
    pub debug: bool,
    /// The JavaScript engine to embed.
    pub js_engine: Option<String>,
}

impl Build {
    /// The compiler call for the project: cargo for Rust with the manifest's
    /// compile target and compiled file; the JavaScript compiler for JavaScript
    /// with the compiled file, `src/index.js` and the engine; an error for any
    /// other language.
    pub fn build(&self, manifest: &Manifest) -> (r: Result<CompilePlan, UnsupportedLanguage>)
        ensures
            manifest.is_rust() ==> (r matches Ok(CompilePlan::Rust { arch, target, optimize, debug })
                && arch@ == manifest.spec_compile_arch()->Ok_0
                && target@ == manifest.spec_compiling_target()->Ok_0 && optimize == self.optimize
                && debug == self.debug),
            manifest.is_js() ==> (r matches Ok(CompilePlan::Js { target, entry, js_engine })
                && target@ == manifest.spec_compiling_target()->Ok_0 && entry@ == "src/index.js"@
                && js_engine == self.js_engine),
            !manifest.is_rust() && !manifest.is_js() ==> (r matches Err(e) && e.language@
                == manifest.language@),
    {
        proof {
            lemma_languages_differ();
        }
        if crate::text::str_equal(manifest.language.as_str(), PROJECT_LANGUAGE_RUST) {
            let arch = manifest.compile_arch();
            let target = manifest.compiling_target();
            match (arch, target) {
                (Ok(arch), Ok(target)) => {
                    return Ok(
                        CompilePlan::Rust { arch, target, optimize: self.optimize, debug: self.debug },
                    );
                },
                _ => {
                    assert(false);
                },
            }
        }
        if crate::text::str_equal(manifest.language.as_str(), PROJECT_LANGUAGE_JS) {
            match manifest.compiling_target() {
                Ok(target) => {
                    return Ok(
                        CompilePlan::Js {
                            target,
                            entry: js_entry(),
                            js_engine: self.js_engine.clone(),
                        },
                    );
                },
                Err(_) => {
                    assert(false);
                },
            }
        }
        Err(UnsupportedLanguage { language: manifest.language.clone() })
    }
}

/// What `serve` runs: a wasm file, with or without WASI.
#[derive(Debug)]
pub struct ServeTarget {
    /// The wasm file.
    pub wasm_file: String,
    /// Whether WASI is on.
    pub enable_wasi: bool,
}

/// Why `serve` could not find what to run.
#[derive(Debug, Clone, Copy, PartialEq, Eq, Structural)]
pub enum ServeError {
    /// Whether to enable WASI could not be determined.
    EnableWasi(TargetError),
    /// The wasm file could not be determined.
    FindWasm(TargetError),
}

/// What `serve` runs for a project: the manifest's final target, with WASI on
/// when the command line asks for it and otherwise as the manifest says.
pub fn serve_target_from_manifest(manifest: &Manifest, enable_wasi: bool) -> (r: Result<
    ServeTarget,
    ServeError,
>)
    ensures
        !enable_wasi && manifest.spec_enable_wasi() is Err ==> r == Err::<ServeTarget, ServeError>(
            ServeError::EnableWasi(manifest.spec_enable_wasi()->Err_0),
        ),
        (enable_wasi || manifest.spec_enable_wasi() is Ok) && manifest.spec_final_target() is Err
            ==> r == Err::<ServeTarget, ServeError>(
            ServeError::FindWasm(manifest.spec_final_target()->Err_0),
        ),
        r is Ok ==> r->Ok_0.wasm_file@ == manifest.spec_final_target()->Ok_0 && r->Ok_0.enable_wasi
            == (enable_wasi || manifest.spec_enable_wasi()->Ok_0),
        (enable_wasi || manifest.spec_enable_wasi() is Ok) && manifest.spec_final_target() is Ok
            ==> r is Ok,
{
    let mut wasi = enable_wasi;
    if !wasi {
        wasi = match manifest.is_enable_wasi() {
            Ok(w) => w,
            Err(e) => {
                return Err(ServeError::EnableWasi(e));
            },
        };
    }
    match manifest.final_target() {
        Ok(file) => Ok(ServeTarget { wasm_file: file, enable_wasi: wasi }),
        Err(e) => Err(ServeError::FindWasm(e)),
    }
}

/// `component`: converts a wasm module into a component.
#[derive(Debug)]
pub struct Component {
    /// The wasm module.
    pub input: String,
    /// The file to write; `component.wasm` when absent.
    pub output: Option<String>,
}

impl Component {
    /// The file the component is written to.
    pub fn output_file(&self) -> (r: String)
        ensures
            r@ == (match self.output {
                Some(o) => o@,
                None => "component.wasm"@,
            }),
    {
        match &self.output {
            Some(o) => o.clone(),
            None => String::from_str("component.wasm"),
        }
    }
}

} // verus!
