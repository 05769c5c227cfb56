//! The project manifest and the build targets it determines.
use vstd::prelude::*;
use crate::text::{concat, join_path, join_path_spec, replace_all, replace_all_spec, replace_char, replace_char_spec, str_equal};
use crate::vars::{COMPILE_TARGET_WASM32_UNKNOWN_UNKNOWN, COMPILE_TARGET_WASM32_WASI, PROJECT_LANGUAGE_JS, PROJECT_LANGUAGE_RUST};

verus! {

/// Why a build target could not be determined.
#[derive(Debug, Clone, Copy, PartialEq, Eq, Structural)]
pub enum TargetError {
    /// The manifest names a language the tools do not know.
    UnknownLanguage,
    /// No compile target is known for the manifest's language.
    UnknownCompileTarget,
}

impl TargetError {
    /// The error's text.
    pub fn message(&self) -> (r: &'static str)
        ensures
            r@ == (match self {
                TargetError::UnknownLanguage => "unknown language"@,
                TargetError::UnknownCompileTarget => "unknown compile target"@,
            }),
    {
        match self {
            TargetError::UnknownLanguage => "unknown language",
            TargetError::UnknownCompileTarget => "unknown compile target",
        }
    }
}

/// A computed string or the reason it could not be computed, as a character sequence.
pub open spec fn target_view(r: Result<String, TargetError>) -> Result<Seq<char>, TargetError> {
    match r {
        Ok(s) => Ok(s@),
        Err(e) => Err(e),
    }
}

/// The file that a project called `name` compiles to: `-` becomes `_`, and `.wasm` is appended.
pub open spec fn wasm_file_name(name: Seq<char>) -> Seq<char> {
    replace_char_spec(name, '-', '_') + ".wasm"@
}

/// `name` with `-` replaced by `_`, followed by `.wasm`.
pub fn wasm_file(name: &str) -> (r: String)
    ensures
        r@ == wasm_file_name(name@),
{
    let n = replace_char(name, '-', '_');
    concat(n.as_str(), ".wasm")
}

/// The build section of the manifest.
#[derive(Debug)]
pub struct ManifestBuild {
    /// Where cargo writes its output; `target` when absent.
    pub rust_target_dir: Option<String>,
    /// Whether a Rust project is compiled for WASI; no when absent.
    pub rust_enable_wasi: Option<bool>,
}

impl Default for ManifestBuild {
    fn default() -> (r: Self)
        ensures
            r.rust_target_dir is None,
            r.rust_enable_wasi is None,
    {
        ManifestBuild { rust_target_dir: None, rust_enable_wasi: None }
    }
}

/// The manifest of a project.
#[derive(Debug)]
pub struct Manifest {
    /// The manifest format version.
    pub manifest: String,
    /// The project's name.
    pub name: String,
    /// What the project is.
    pub description: String,
    /// Who wrote it.
    pub authors: Vec<String>,
    /// The project's language (`rust` or `js`).
    pub language: String,
    /// The build section, if any.
    pub build: Option<ManifestBuild>,
}

impl Default for Manifest {
    fn default() -> (r: Self)
        ensures
            r.manifest@ == "v1"@,
            r.name@ == "leaf"@,
            r.description@ == "leaf wasm project"@,
            r.authors@.len() == 0,
            r.language@ == "rust"@,
            r.build is None,
    {
        Manifest {
            manifest: String::from_str("v1"),
            name: String::from_str("leaf"),
            description: String::from_str("leaf wasm project"),
            authors: Vec::new(),
            language: String::from_str("rust"),
            build: None,
        }
    }
}

impl Manifest {
    /// The directory cargo writes to: the build section's, else `target`.
    pub open spec fn spec_target_dir(&self) -> Seq<char> {
        match self.build {
            Some(b) => match b.rust_target_dir {
                Some(d) => d@,
                None => "target"@,
            },
            None => "target"@,
        }
    }

    /// Whether the build section asks for WASI; no when it says nothing.
    pub open spec fn spec_build_wasi(&self) -> bool {
        match self.build {
            Some(b) => match b.rust_enable_wasi {
                Some(f) => f,
                None => false,
            },
            None => false,
        }
    }

    /// The language is Rust.
    pub open spec fn is_rust(&self) -> bool {
        self.language@ == PROJECT_LANGUAGE_RUST@
    }

    /// The language is JavaScript.
    pub open spec fn is_js(&self) -> bool {
        self.language@ == PROJECT_LANGUAGE_JS@
    }

    /// The compile target: for Rust the WASI target when the build section asks
    /// for it, else the bare one; for JavaScript the WASI target.
    pub open spec fn spec_compile_arch(&self) -> Result<Seq<char>, TargetError> {
        if self.is_rust() {
            if self.spec_build_wasi() {
                Ok(COMPILE_TARGET_WASM32_WASI@)
            } else {
                Ok(COMPILE_TARGET_WASM32_UNKNOWN_UNKNOWN@)
            }
        } else if self.is_js() {
            Ok(COMPILE_TARGET_WASM32_WASI@)
        } else {
            Err(TargetError::UnknownCompileTarget)
        }
    }

    /// Whether the project runs with WASI: as the build section says for Rust,
    /// always for JavaScript.
    pub open spec fn spec_enable_wasi(&self) -> Result<bool, TargetError> {
        if self.is_rust() {
            Ok(self.spec_build_wasi())
        } else if self.is_js() {
            Ok(true)
        } else {
            Err(TargetError::UnknownLanguage)
        }
    }

    /// The file the compiler writes: for Rust
    /// `<target dir>/<compile target>/release/<name>.wasm`, for JavaScript
    /// `<name>.wasm`, with `-` in the name replaced by `_`.
    pub open spec fn spec_compiling_target(&self) -> Result<Seq<char>, TargetError> {
        if self.is_rust() {
            let arch = if self.spec_build_wasi() {
                COMPILE_TARGET_WASM32_WASI@
            } else {
                COMPILE_TARGET_WASM32_UNKNOWN_UNKNOWN@
            };
            Ok(
                join_path_spec(
                    join_path_spec(join_path_spec(self.spec_target_dir(), arch), "release"@),
                    wasm_file_name(self.name@),
                ),
            )
        } else if self.is_js() {
            Ok(wasm_file_name(self.name@))
        } else {
            Err(TargetError::UnknownLanguage)
        }
    }

    /// The file that is finally run: the compiled file for Rust; for JavaScript
    /// the compiled file with every `.wasm` replaced by `_wizer.wasm`.
    pub open spec fn spec_final_target(&self) -> Result<Seq<char>, TargetError> {
        if self.is_rust() {
            self.spec_compiling_target()
        } else if self.is_js() {
            Ok(replace_all_spec(wasm_file_name(self.name@), ".wasm"@, "_wizer.wasm"@))
        } else {
            Err(TargetError::UnknownLanguage)
        }
    }

    /// The file the compiler writes, before optimization.
    pub fn compiling_target(&self) -> (r: Result<String, TargetError>)
        ensures
            target_view(r) == self.spec_compiling_target(),
    {
        let target: &str = match &self.build {
            Some(b) => match &b.rust_target_dir {
                Some(d) => d.as_str(),
                None => "target",
            },
            None => "target",
        };
        let arch = match self.compile_arch() {
            Ok(a) => a,
            Err(_) => String::from_str("rust"),
        };
        let dir = join_path(target, arch.as_str());
        let dir = join_path(dir.as_str(), "release");
        let name = wasm_file(self.name.as_str());
        if str_equal(self.language.as_str(), PROJECT_LANGUAGE_RUST) {
            Ok(join_path(dir.as_str(), name.as_str()))
        } else if str_equal(self.language.as_str(), PROJECT_LANGUAGE_JS) {
            Ok(name)
        } else {
            Err(TargetError::UnknownLanguage)
        }
    }

    /// The file that is finally run, after optimization.
    pub fn final_target(&self) -> (r: Result<String, TargetError>)
        ensures
            target_view(r) == self.spec_final_target(),
    {
        let compile_target = self.compiling_target();
        if str_equal(self.language.as_str(), PROJECT_LANGUAGE_RUST) {
            compile_target
        } else if str_equal(self.language.as_str(), PROJECT_LANGUAGE_JS) {
            match compile_target {
                Ok(t) => {
                    proof {
                        reveal_strlit(".wasm");
                    }
                    Ok(replace_all(t.as_str(), ".wasm", "_wizer.wasm"))
                },
                Err(e) => Err(e),
            }
        } else {
            Err(TargetError::UnknownLanguage)
        }
    }

    /// The compile target.
    pub fn compile_arch(&self) -> (r: Result<String, TargetError>)
        ensures
            target_view(r) == self.spec_compile_arch(),
    {
        if str_equal(self.language.as_str(), PROJECT_LANGUAGE_RUST) {
            let flag = match &self.build {
                Some(b) => match b.rust_enable_wasi {
                    Some(f) => f,
                    None => false,
                },
                None => false,
            };
            if flag {
                return Ok(String::from_str(COMPILE_TARGET_WASM32_WASI));
            }
            Ok(String::from_str(COMPILE_TARGET_WASM32_UNKNOWN_UNKNOWN))
        } else if str_equal(self.language.as_str(), PROJECT_LANGUAGE_JS) {
            Ok(String::from_str(COMPILE_TARGET_WASM32_WASI))
        } else {
            Err(TargetError::UnknownCompileTarget)
        }
    }

    /// Whether the project runs with WASI.
    pub fn is_enable_wasi(&self) -> (r: Result<bool, TargetError>)
        ensures
            r == self.spec_enable_wasi(),
    {
        if str_equal(self.language.as_str(), PROJECT_LANGUAGE_RUST) {
            let flag = match &self.build {
                Some(b) => match b.rust_enable_wasi {
                    Some(f) => f,
                    None => false,
                },
                None => false,
            };
            Ok(flag)
        } else if str_equal(self.language.as_str(), PROJECT_LANGUAGE_JS) {
            Ok(true)
        } else {
            Err(TargetError::UnknownLanguage)
        }
    }
}

/// `s` ends with `t`.
pub open spec fn ends_with_spec(s: Seq<char>, t: Seq<char>) -> bool {
    t.len() <= s.len() && s.skip(s.len() - t.len()) == t
}

/// A joined path ends with the component that was joined on.
pub proof fn lemma_join_path_ends_with(base: Seq<char>, comp: Seq<char>)
    ensures
        ends_with_spec(join_path_spec(base, comp), comp),
{
    let j = join_path_spec(base, comp);
    assert(j.skip(j.len() - comp.len()) =~= comp);
}

/// The compile target and the WASI switch agree: both are known for the same
/// languages, and the target is the WASI one exactly when WASI is on.
pub proof fn lemma_arch_agrees_with_wasi(m: &Manifest)
    ensures
        m.spec_compile_arch() is Ok <==> m.spec_enable_wasi() is Ok,
        m.spec_enable_wasi() is Ok ==> (m.spec_compile_arch()->Ok_0 == COMPILE_TARGET_WASM32_WASI@
            <==> m.spec_enable_wasi()->Ok_0),
{
    reveal_strlit("wasm32-wasi");
    reveal_strlit("wasm32-unknown-unknown");
    assert(COMPILE_TARGET_WASM32_WASI@ != COMPILE_TARGET_WASM32_UNKNOWN_UNKNOWN@) by {
        assert(COMPILE_TARGET_WASM32_WASI@.len() != COMPILE_TARGET_WASM32_UNKNOWN_UNKNOWN@.len());
    }
}

/// The targets and the WASI switch fail together, on exactly the languages
/// that are neither Rust nor JavaScript.
pub proof fn lemma_targets_fail_together(m: &Manifest)
    ensures
        m.spec_compiling_target() is Err <==> !(m.is_rust() || m.is_js()),
        m.spec_final_target() is Err <==> !(m.is_rust() || m.is_js()),
        m.spec_enable_wasi() is Err <==> !(m.is_rust() || m.is_js()),
        m.spec_compile_arch() is Err <==> !(m.is_rust() || m.is_js()),
{
}

/// The final target is the compiled file itself for Rust, and the compiled
/// file with `.wasm` replaced by `_wizer.wasm` for JavaScript.
pub proof fn lemma_final_from_compiling(m: &Manifest)
    ensures
        m.is_rust() ==> m.spec_final_target() == m.spec_compiling_target(),
        m.is_js() ==> m.spec_final_target() == Ok::<Seq<char>, TargetError>(
            replace_all_spec(m.spec_compiling_target()->Ok_0, ".wasm"@, "_wizer.wasm"@),
        ),
{
    reveal_strlit("rust");
    reveal_strlit("js");
    assert(PROJECT_LANGUAGE_RUST@.len() != PROJECT_LANGUAGE_JS@.len());
}

/// Every compiled file ends with the project's file name.
pub proof fn lemma_compiling_target_ends_with_name(m: &Manifest)
    ensures
        m.spec_compiling_target() is Ok ==> ends_with_spec(
            m.spec_compiling_target()->Ok_0,
            wasm_file_name(m.name@),
        ),
{
    if m.is_rust() {
        let arch = if m.spec_build_wasi() {
            COMPILE_TARGET_WASM32_WASI@
        } else {
            COMPILE_TARGET_WASM32_UNKNOWN_UNKNOWN@
        };
        lemma_join_path_ends_with(
            join_path_spec(join_path_spec(m.spec_target_dir(), arch), "release"@),
            wasm_file_name(m.name@),
        );
    } else if m.is_js() {
        let n = wasm_file_name(m.name@);
        assert(n.skip(0) =~= n);
    }
}

/// A Rust project without a build section compiles to the file that the
/// `up` and `compile` commands look for, when its name is not an absolute path.
pub proof fn lemma_default_build_is_release_path(m: &Manifest)
    requires
        m.is_rust(),
        m.build is None,
        !(m.name@.len() > 0 && m.name@[0] == '/'),
    ensures
        m.spec_compiling_target() == Ok::<Seq<char>, TargetError>(
            crate::cmd::spec_release_wasm_path(m.name@),
        ),
{
    reveal_strlit("target");
    reveal_strlit("wasm32-unknown-unknown");
    reveal_strlit("release");
    reveal_strlit("/");
    reveal_strlit("target/wasm32-unknown-unknown/release");
    reveal_strlit("target/wasm32-unknown-unknown");
    reveal_strlit(".wasm");
    let n = wasm_file_name(m.name@);
    assert(replace_char_spec(m.name@, '-', '_').len() > 0 ==> n[0] == replace_char_spec(m.name@, '-', '_')[0]);
    assert(n.len() > 0 && n[0] != '/');
    let d1 = join_path_spec("target"@, COMPILE_TARGET_WASM32_UNKNOWN_UNKNOWN@);
    assert(d1 =~= "target/wasm32-unknown-unknown"@);
    let d2 = join_path_spec(d1, "release"@);
    assert(d2 =~= "target/wasm32-unknown-unknown/release"@);
    assert(join_path_spec(d2, n) =~= crate::cmd::spec_release_wasm_path(m.name@));
}

/// The file a project called `name` compiles to has the name's characters, with
/// each `-` made `_` and every other one kept, followed by `.wasm`.
pub proof fn lemma_wasm_file_name(name: Seq<char>)
    ensures
        wasm_file_name(name).len() == name.len() + 5,
        forall|i: int|
            0 <= i < name.len() ==> #[trigger] wasm_file_name(name)[i] == (if name[i] == '-' {
                '_'
            } else {
                name[i]
            }),
        wasm_file_name(name).skip(name.len() as int) == ".wasm"@,
{
    reveal_strlit(".wasm");
    let f = wasm_file_name(name);
    assert(f.skip(name.len() as int) =~= ".wasm"@);
}

/// For a Rust project: WASI is on exactly when the build section sets its flag
/// to true (an unset flag, or no build section, means off); the compile target
/// is `wasm32-wasi` when WASI is on and `wasm32-unknown-unknown` otherwise; the
/// compiled file lies in `<target dir>/<compile target>/release`, under the
/// target dir the build section names (`target` when none), and it is the file
/// that is run.
pub proof fn lemma_rust_build_targets(m: &Manifest)
    requires
        m.language@ == "rust"@,
    ensures
        m.spec_enable_wasi() == Ok::<bool, TargetError>(
            match m.build {
                Some(b) => b.rust_enable_wasi == Some(true),
                None => false,
            },
        ),
        m.spec_compile_arch() == Ok::<Seq<char>, TargetError>(
            if m.spec_enable_wasi()->Ok_0 {
                "wasm32-wasi"@
            } else {
                "wasm32-unknown-unknown"@
            },
        ),
        m.spec_compiling_target() == Ok::<Seq<char>, TargetError>(
            join_path_spec(
                join_path_spec(
                    join_path_spec(
                        match m.build {
                            Some(b) => match b.rust_target_dir {
                                Some(d) => d@,
                                None => "target"@,
                            },
                            None => "target"@,
                        },
                        m.spec_compile_arch()->Ok_0,
                    ),
                    "release"@,
                ),
                wasm_file_name(m.name@),
            ),
        ),
        m.spec_final_target() == m.spec_compiling_target(),
{
    reveal_strlit("rust");
    reveal_strlit("wasm32-wasi");
    reveal_strlit("wasm32-unknown-unknown");
    match m.build {
        Some(b) => match b.rust_enable_wasi {
            Some(f) => {
                assert(f == (b.rust_enable_wasi == Some(true)));
            },
            None => {},
        },
        None => {},
    }
}

/// The compile target and the directory of the compiled file agree: for a
/// Rust project the compiled file is `<dir>/<compile target>/release/<file>`,
/// so with WASI on it lies under `wasm32-wasi`, whatever the target dir.
pub proof fn lemma_compiled_under_compile_target(m: &Manifest)
    requires
        m.is_rust(),
    ensures
        m.spec_compiling_target() == Ok::<Seq<char>, TargetError>(
            join_path_spec(
                join_path_spec(join_path_spec(m.spec_target_dir(), m.spec_compile_arch()->Ok_0), "release"@),
                wasm_file_name(m.name@),
            ),
        ),
        m.spec_enable_wasi() == Ok::<bool, TargetError>(true) ==> m.spec_compile_arch() == Ok::<
            Seq<char>,
            TargetError,
        >("wasm32-wasi"@),
{
    reveal_strlit("rust");
    lemma_rust_build_targets(m);
    assert(m.spec_target_dir() == match m.build {
        Some(b) => match b.rust_target_dir {
            Some(d) => d@,
            None => "target"@,
        },
        None => "target"@,
    });
}

} // verus!
