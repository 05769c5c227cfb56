use leaf::cmd::cli::{serve_target_from_manifest, Build, Component, Init, ServeError};
use leaf::cmd::new::{code_file_path, render_template, select_code_template, CodeTemplate, NewCommand};
use leaf::cmd::{build_info, release_wasm_path};
use leaf::cmd_cli::compile::CompileCommand;
use leaf::cmd_cli::new::{Manifest as CliManifest, NewCommand as CliNewCommand};
use leaf::manifest::{Manifest, ManifestBuild, TargetError};
use leaf::plan::CompilePlan;

fn manifest(name: &str, language: &str, build: Option<ManifestBuild>) -> Manifest {
    Manifest {
        name: name.to_string(),
        language: language.to_string(),
        build,
        ..Default::default()
    }
}

#[test]
fn default_manifest() {
    let m = Manifest::default();
    assert_eq!(m.manifest, "v1");
    assert_eq!(m.name, "leaf");
    assert_eq!(m.description, "leaf wasm project");
    assert!(m.authors.is_empty());
    assert_eq!(m.language, "rust");
    assert!(m.build.is_none());
}

#[test]
fn rust_target_without_build_section() {
    let m = manifest("rust-basic", "rust", None);
    assert_eq!(
        m.compiling_target().unwrap(),
        "target/wasm32-unknown-unknown/release/rust_basic.wasm"
    );
    assert_eq!(m.final_target().unwrap(), m.compiling_target().unwrap());
    assert_eq!(m.compile_arch().unwrap(), "wasm32-unknown-unknown");
    assert_eq!(m.is_enable_wasi().unwrap(), false);
    assert_eq!(m.compiling_target().unwrap(), release_wasm_path("rust-basic"));
}

#[test]
fn rust_target_with_wasi_build() {
    let build = ManifestBuild {
        rust_target_dir: Some("./target".to_string()),
        rust_enable_wasi: Some(true),
    };
    let m = manifest("rust-basic", "rust", Some(build));
    assert_eq!(m.compiling_target().unwrap(), "./target/wasm32-wasi/release/rust_basic.wasm");
    assert_eq!(m.compile_arch().unwrap(), "wasm32-wasi");
    assert_eq!(m.is_enable_wasi().unwrap(), true);
}

#[test]
fn rust_target_dir_with_trailing_slash() {
    let build = ManifestBuild { rust_target_dir: Some("out/".to_string()), rust_enable_wasi: None };
    let m = manifest("app", "rust", Some(build));
    assert_eq!(m.compiling_target().unwrap(), "out/wasm32-unknown-unknown/release/app.wasm");
}

#[test]
fn js_targets() {
    let m = manifest("my-js-app", "js", None);
    assert_eq!(m.compiling_target().unwrap(), "my_js_app.wasm");
    assert_eq!(m.final_target().unwrap(), "my_js_app_wizer.wasm");
    assert_eq!(m.compile_arch().unwrap(), "wasm32-wasi");
    assert_eq!(m.is_enable_wasi().unwrap(), true);
}

#[test]
fn unknown_language() {
    let m = manifest("x", "go", None);
    assert_eq!(m.compiling_target(), Err(TargetError::UnknownLanguage));
    assert_eq!(m.final_target(), Err(TargetError::UnknownLanguage));
    assert_eq!(m.is_enable_wasi(), Err(TargetError::UnknownLanguage));
    assert_eq!(m.compile_arch(), Err(TargetError::UnknownCompileTarget));
    assert_eq!(TargetError::UnknownLanguage.message(), "unknown language");
    assert_eq!(TargetError::UnknownCompileTarget.message(), "unknown compile target");
}

#[test]
fn build_plans() {
    let b = Build { optimize: true, debug: false, js_engine: Some("engine.wasm".to_string()) };
    match b.build(&manifest("demo", "rust", None)).unwrap() {
        CompilePlan::Rust { arch, target, optimize, debug } => {
            assert_eq!(arch, "wasm32-unknown-unknown");
            assert_eq!(target, "target/wasm32-unknown-unknown/release/demo.wasm");
            assert!(optimize);
            assert!(!debug);
        }
        other => panic!("unexpected plan {:?}", other),
    }
    match b.build(&manifest("demo", "js", None)).unwrap() {
        CompilePlan::Js { target, entry, js_engine } => {
            assert_eq!(target, "demo.wasm");
            assert_eq!(entry, "src/index.js");
            assert_eq!(js_engine, Some("engine.wasm".to_string()));
        }
        other => panic!("unexpected plan {:?}", other),
    }
    let e = b.build(&manifest("demo", "go", None)).err().unwrap();
    assert_eq!(e.message(), "Unsupported language: go");
}

#[test]
fn serve_targets() {
    let t = serve_target_from_manifest(&manifest("demo", "js", None), false).unwrap();
    assert_eq!(t.wasm_file, "demo_wizer.wasm");
    assert!(t.enable_wasi);
    let t = serve_target_from_manifest(&manifest("demo", "rust", None), false).unwrap();
    assert_eq!(t.wasm_file, "target/wasm32-unknown-unknown/release/demo.wasm");
    assert!(!t.enable_wasi);
    let t = serve_target_from_manifest(&manifest("demo", "rust", None), true).unwrap();
    assert!(t.enable_wasi);
    assert_eq!(
        serve_target_from_manifest(&manifest("demo", "go", None), false).err(),
        Some(ServeError::EnableWasi(TargetError::UnknownLanguage))
    );
    assert_eq!(
        serve_target_from_manifest(&manifest("demo", "go", None), true).err(),
        Some(ServeError::FindWasm(TargetError::UnknownLanguage))
    );
}

#[test]
fn init_language_from_template() {
    let lang = |t: Option<&str>| Init { name: "p".to_string(), template: t.map(|s| s.to_string()) }
        .determine_language();
    assert_eq!(lang(Some("hello-rust")), "rust");
    assert_eq!(lang(Some("hello-js")), "js");
    assert_eq!(lang(Some("rust-js")), "rust");
    assert_eq!(lang(Some("hello")), "rust");
    assert_eq!(lang(None), "rust");
    let cli = CliNewCommand { name: "p".to_string(), template: Some("fetch-js".to_string()) };
    assert_eq!(cli.determine_language(), "js");
    let old = NewCommand { name: "p".to_string(), template: Some("fetch-js".to_string()) };
    assert_eq!(old.determine_language(), "rust");
}

#[test]
fn component_output() {
    let c = Component { input: "in.wasm".to_string(), output: None };
    assert_eq!(c.output_file(), "component.wasm");
    let c = Component { input: "in.wasm".to_string(), output: Some("out.wasm".to_string()) };
    assert_eq!(c.output_file(), "out.wasm");
}

#[test]
fn templates_of_new() {
    assert_eq!(select_code_template("hello-rust"), CodeTemplate::HttpHello);
    assert_eq!(select_code_template("fetch-rust"), CodeTemplate::HttpFetchHello);
    assert_eq!(select_code_template("rust"), CodeTemplate::Empty);
    assert_eq!(render_template("[package]\nname = \"{{name}}\"", "demo"), "[package]\nname = \"demo\"");
    assert_eq!(code_file_path("demo"), "demo/src/lib.rs");
}

#[test]
fn cli_manifest_targets() {
    let m = CliManifest { name: "my-app".to_string(), ..Default::default() };
    assert_eq!(m.determine_compiling_target().unwrap(), "target/wasm32-unknown-unknown/release/my_app.wasm");
    assert_eq!(m.determine_optimized_target().unwrap(), "target/wasm32-unknown-unknown/release/my_app.wasm");
    assert_eq!(m.determine_compile_arch().unwrap(), "wasm32-unknown-unknown");
    assert_eq!(m.determine_enable_wasi().unwrap(), false);
    let js = CliManifest { name: "my-app".to_string(), language: "js".to_string(), ..Default::default() };
    assert_eq!(js.determine_compiling_target().unwrap(), "my_app.wasm");
    assert_eq!(js.determine_optimized_target().unwrap(), "my_app_wizer.wasm");
    assert_eq!(js.determine_compile_arch().unwrap(), "wasm32-wasi");
    assert_eq!(js.determine_enable_wasi().unwrap(), true);
    let other = CliManifest { language: "c".to_string(), ..Default::default() };
    assert_eq!(other.determine_compiling_target(), Err(TargetError::UnknownLanguage));
    assert_eq!(other.determine_optimized_target(), Err(TargetError::UnknownLanguage));
    assert_eq!(other.determine_compile_arch(), Err(TargetError::UnknownCompileTarget));
    assert_eq!(other.determine_enable_wasi(), Err(TargetError::UnknownLanguage));
}

#[test]
fn cli_compile_plans() {
    let c = CompileCommand { output: None, optimize: false, debug: true };
    match c.do_compile(&CliManifest::default()).unwrap() {
        CompilePlan::Rust { arch, target, optimize, debug } => {
            assert_eq!(arch, "wasm32-unknown-unknown");
            assert_eq!(target, "target/wasm32-unknown-unknown/release/leaf.wasm");
            assert!(!optimize);
            assert!(debug);
        }
        other => panic!("unexpected plan {:?}", other),
    }
    let js = CliManifest { language: "js".to_string(), ..Default::default() };
    match c.do_compile(&js).unwrap() {
        CompilePlan::Js { target, entry, js_engine } => {
            assert_eq!(target, "leaf.wasm");
            assert_eq!(entry, "src/index.js");
            assert_eq!(js_engine, None);
        }
        other => panic!("unexpected plan {:?}", other),
    }
    let other = CliManifest { language: "zig".to_string(), ..Default::default() };
    assert_eq!(c.do_compile(&other).err().unwrap().language, "zig");
}

#[test]
fn version_text() {
    assert_eq!(build_info("0.1.0", "abc1234", "2023-03-01"), "0.1.0 (abc1234 2023-03-01)");
}
