//! `new` of the second command line, and the manifest it writes.
use vstd::prelude::*;
use crate::cmd::cli::{spec_template_language, template_language};
use crate::cmd::spec_release_wasm_path;
use crate::manifest::{wasm_file_name, TargetError, target_view};
use crate::text::{concat, replace_char, str_equal};
use crate::vars::{
    COMPILE_TARGET_WASM32_UNKNOWN_UNKNOWN, COMPILE_TARGET_WASM32_WASI, PROJECT_LANGUAGE_JS,
    PROJECT_LANGUAGE_RUST,
};

verus! {

/// `new`: creates a project from a template.
#[derive(Debug)]
pub struct NewCommand {
    /// The name of the project.
    pub name: String,
    /// The template to use.
    pub template: Option<String>,
}

impl NewCommand {
    /// The language the new project's manifest names.
    pub fn determine_language(&self) -> (r: String)
        ensures
            r@ == spec_template_language(self.template),
    {
        template_language(&self.template)
    }
}

/// The manifest of a project, without a build section.
#[derive(Debug)]
pub struct Manifest {
    /// The manifest format version.
    pub manifest: String,
    /// The project's name.
    pub name: String,
    /// What the project is.
    pub description: String,
    /// Who wrote it.
    pub authors: Vec<String>,
    /// The project's language.
    pub language: String,
}

impl Default for Manifest {
    fn default() -> (r: Self)
        ensures
            r.manifest@ == "v1"@,
            r.name@ == "leaf"@,
            r.description@ == "leaf wasm project"@,
            r.authors@.len() == 0,
            r.language@ == "rust"@,
    {
        Manifest {
            manifest: String::from_str("v1"),
            name: String::from_str("leaf"),
            description: String::from_str("leaf wasm project"),
            authors: Vec::new(),
            language: String::from_str("rust"),
        }
    }
}

impl Manifest {
    /// The language is Rust.
    pub open spec fn is_rust(&self) -> bool {
        self.language@ == PROJECT_LANGUAGE_RUST@
    }

    /// The language is JavaScript.
    pub open spec fn is_js(&self) -> bool {
        self.language@ == PROJECT_LANGUAGE_JS@
    }

    /// The compiled file: cargo's release build for Rust, `<name>.wasm` for
    /// JavaScript, with `-` in the name replaced by `_`.
    pub open spec fn spec_compiling_target(&self) -> Result<Seq<char>, TargetError> {
        if self.is_rust() {
            Ok(spec_release_wasm_path(self.name@))
        } else if self.is_js() {
            Ok(wasm_file_name(self.name@))
        } else {
            Err(TargetError::UnknownLanguage)
        }
    }

    /// The optimized file: the compiled file for Rust, `<name>_wizer.wasm` for JavaScript.
    pub open spec fn spec_optimized_target(&self) -> Result<Seq<char>, TargetError> {
        if self.is_rust() {
            Ok(spec_release_wasm_path(self.name@))
        } else if self.is_js() {
            Ok(crate::text::replace_char_spec(self.name@, '-', '_') + "_wizer.wasm"@)
        } else {
            Err(TargetError::UnknownLanguage)
        }
    }

    /// The compile target: the bare one for Rust, the WASI one for JavaScript.
    pub open spec fn spec_compile_arch(&self) -> Result<Seq<char>, TargetError> {
        if self.is_rust() {
            Ok(COMPILE_TARGET_WASM32_UNKNOWN_UNKNOWN@)
        } else if self.is_js() {
            Ok(COMPILE_TARGET_WASM32_WASI@)
        } else {
            Err(TargetError::UnknownCompileTarget)
        }
    }

    /// Whether WASI is on: never for Rust, always for JavaScript.
    pub open spec fn spec_enable_wasi(&self) -> Result<bool, TargetError> {
        if self.is_rust() {
            Ok(false)
        } else if self.is_js() {
            Ok(true)
        } else {
            Err(TargetError::UnknownLanguage)
        }
    }

    /// The file the compiler writes, before optimization.
    pub fn determine_compiling_target(&self) -> (r: Result<String, TargetError>)
        ensures
            target_view(r) == self.spec_compiling_target(),
    {
        if str_equal(self.language.as_str(), PROJECT_LANGUAGE_RUST) {
            Ok(crate::cmd::release_wasm_path(self.name.as_str()))
        } else if str_equal(self.language.as_str(), PROJECT_LANGUAGE_JS) {
            Ok(crate::manifest::wasm_file(self.name.as_str()))
        } else {
            Err(TargetError::UnknownLanguage)
        }
    }

    /// The file that is run after optimization.
    pub fn determine_optimized_target(&self) -> (r: Result<String, TargetError>)
        ensures
            target_view(r) == self.spec_optimized_target(),
    {
        if str_equal(self.language.as_str(), PROJECT_LANGUAGE_RUST) {
            Ok(crate::cmd::release_wasm_path(self.name.as_str()))
        } else if str_equal(self.language.as_str(), PROJECT_LANGUAGE_JS) {
            let name = replace_char(self.name.as_str(), '-', '_');
            Ok(concat(name.as_str(), "_wizer.wasm"))
        } else {
            Err(TargetError::UnknownLanguage)
        }
    }

    /// The compile target.
    pub fn determine_compile_arch(&self) -> (r: Result<String, TargetError>)
        ensures
            target_view(r) == self.spec_compile_arch(),
    {
        if str_equal(self.language.as_str(), PROJECT_LANGUAGE_RUST) {
            Ok(String::from_str(COMPILE_TARGET_WASM32_UNKNOWN_UNKNOWN))
        } else if str_equal(self.language.as_str(), PROJECT_LANGUAGE_JS) {
            Ok(String::from_str(COMPILE_TARGET_WASM32_WASI))
        } else {
            Err(TargetError::UnknownCompileTarget)
        }
    }

    /// Whether WASI is on.
    pub fn determine_enable_wasi(&self) -> (r: Result<bool, TargetError>)
        ensures
            r == self.spec_enable_wasi(),
    {
        if str_equal(self.language.as_str(), PROJECT_LANGUAGE_RUST) {
            Ok(false)
        } else if str_equal(self.language.as_str(), PROJECT_LANGUAGE_JS) {
            Ok(true)
        } else {
            Err(TargetError::UnknownLanguage)
        }
    }
}

/// The compile target and the WASI switch agree: both are known for the same
/// languages, and the target is the WASI one exactly when WASI is on.
pub proof fn lemma_arch_agrees_with_wasi(m: &Manifest)
    ensures
        m.spec_compile_arch() is Ok <==> m.spec_enable_wasi() is Ok,
        m.spec_enable_wasi() is Ok ==> (m.spec_compile_arch()->Ok_0 == COMPILE_TARGET_WASM32_WASI@
            <==> m.spec_enable_wasi()->Ok_0),
{
    reveal_strlit("wasm32-wasi");
    reveal_strlit("wasm32-unknown-unknown");
    assert(COMPILE_TARGET_WASM32_WASI@.len() != COMPILE_TARGET_WASM32_UNKNOWN_UNKNOWN@.len());
}

/// For Rust the file that is run is the file the compiler writes.
pub proof fn lemma_rust_optimized_is_compiled(m: &Manifest)
    ensures
        m.is_rust() ==> m.spec_optimized_target() == m.spec_compiling_target(),
{
}

/// The optimized file of a JavaScript project is its name with every `-` made
/// `_` (so no `-` is left) and every other character kept, followed by
/// `_wizer.wasm`; it is the compiled file with its `.wasm` made `_wizer.wasm`.
pub proof fn lemma_js_optimized_target(m: &Manifest)
    requires
        m.language@ == "js"@,
    ensures
        m.spec_optimized_target() is Ok,
        m.spec_optimized_target()->Ok_0.len() == m.name@.len() + 11,
        forall|i: int|
            0 <= i < m.name@.len() ==> #[trigger] m.spec_optimized_target()->Ok_0[i] == (if m.name@[i]
                == '-' {
                '_'
            } else {
                m.name@[i]
            }),
        m.spec_optimized_target()->Ok_0.skip(m.name@.len() as int) == "_wizer.wasm"@,
        forall|i: int|
            0 <= i < m.spec_optimized_target()->Ok_0.len() ==> #[trigger] m.spec_optimized_target()->Ok_0[i]
                != '-',
        m.spec_compiling_target() is Ok,
        m.spec_optimized_target()->Ok_0 == m.spec_compiling_target()->Ok_0.take(m.name@.len() as int)
            + "_wizer.wasm"@,
{
    reveal_strlit("js");
    reveal_strlit("rust");
    reveal_strlit("_wizer.wasm");
    reveal_strlit(".wasm");
    crate::vars::lemma_languages_differ();
    assert(m.is_js() && !m.is_rust());
    let n = m.name@;
    let t = m.spec_optimized_target()->Ok_0;
    assert(t == crate::text::replace_char_spec(n, '-', '_') + "_wizer.wasm"@);
    assert(t.skip(n.len() as int) =~= "_wizer.wasm"@);
    assert forall|i: int| 0 <= i < t.len() implies #[trigger] t[i] != '-' by {
        if i >= n.len() {
            assert(t[i] == "_wizer.wasm"@[i - n.len()]);
        }
    }
    let c = m.spec_compiling_target()->Ok_0;
    crate::manifest::lemma_wasm_file_name(n);
    assert(c.take(n.len() as int) =~= crate::text::replace_char_spec(n, '-', '_'));
}

/// A Rust project of this command line compiles, without WASI, for
/// `wasm32-unknown-unknown`, and its file lies in that target's release
/// directory under `target`; it is run as it is.
pub proof fn lemma_rust_targets(m: &Manifest)
    requires
        m.language@ == "rust"@,
    ensures
        m.spec_enable_wasi() == Ok::<bool, TargetError>(false),
        m.spec_compile_arch() == Ok::<Seq<char>, TargetError>("wasm32-unknown-unknown"@),
        m.spec_compiling_target() == Ok::<Seq<char>, TargetError>(
            "target/"@ + m.spec_compile_arch()->Ok_0 + "/release/"@ + crate::manifest::wasm_file_name(
                m.name@,
            ),
        ),
        m.spec_optimized_target() == m.spec_compiling_target(),
{
    reveal_strlit("rust");
    reveal_strlit("wasm32-unknown-unknown");
    reveal_strlit("target/wasm32-unknown-unknown/release");
    reveal_strlit("/");
    reveal_strlit("target/");
    reveal_strlit("/release/");
    assert("target/"@ + "wasm32-unknown-unknown"@ + "/release/"@ =~= "target/wasm32-unknown-unknown/release"@
        + "/"@);
}

} // verus!
