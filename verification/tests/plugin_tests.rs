use std::io::Cursor;
use std::io::Write;

use zip::write::SimpleFileOptions;
use zip::write::ZipWriter;

use vplugin::VPluginError;
use vplugin::plugin::DestructorOutcome;
use vplugin::plugin::ExtractAction;
use vplugin::plugin::Plugin;

const MANIFEST_ALPHA: &[u8] =
    b"[metadata]\ndescription = \"Example plugin\"\nversion = \"0.1.0\"\nname = \"alpha\"\nobjfile = \"mod.so\"\n";

fn build_zip(dirs: &[&str], files: &[(&str, &[u8])]) -> Vec<u8> {
    let mut w = ZipWriter::new(Cursor::new(Vec::new()));
    let opts = SimpleFileOptions::default();
    for d in dirs {
        w.add_directory(*d, opts).unwrap();
    }
    for (name, data) in files {
        w.start_file(*name, opts).unwrap();
        w.write_all(data).unwrap();
    }
    w.finish().unwrap().into_inner()
}

fn alpha_zip() -> Vec<u8> {
    build_zip(
        &[],
        &[("metadata.toml", MANIFEST_ALPHA), ("mod.so", b"not really code")],
    )
}

fn this_library() -> libloading::Library {
    libloading::os::unix::Library::this().into()
}

#[test]
fn load_reads_metadata_from_a_valid_archive() {
    let plugin = Plugin::load(alpha_zip(), String::from("alpha.vpl")).unwrap();
    assert!(plugin.is_metadata_loaded());
    let m = plugin.get_metadata().as_ref().unwrap();
    assert_eq!(m.name, "alpha");
    assert_eq!(m.version, "0.1.0");
    assert_eq!(m.objfile, "mod.so");
    assert_eq!(plugin.filename, "alpha.vpl");
    assert!(!plugin.is_valid);
    assert!(!plugin.started);
}

#[test]
fn extract_parse_bind_yields_a_valid_plugin() {
    let mut plugin = Plugin::load(alpha_zip(), String::from("alpha.vpl")).unwrap();
    plugin.attach_module(this_library());
    assert!(plugin.is_valid);
    assert_eq!(plugin.get_metadata().as_ref().unwrap().name, "alpha");
    plugin.start().unwrap();
    assert!(plugin.started);
}

#[test]
fn garbage_bytes_are_an_internal_error() {
    let r = Plugin::load_archive(vec![1u8, 2, 3, 4], String::from("junk.vpl"));
    match r {
        Err(VPluginError::InternalError(_)) => {}
        other => panic!("unexpected result: {:?}", other.map(|_| ())),
    }
}

#[test]
fn missing_manifest_is_no_such_file_and_nothing_is_bound() {
    let data = build_zip(&[], &[("mod.so", b"code")]);
    let r = Plugin::load(data, String::from("p.vpl"));
    match r {
        Err(VPluginError::NoSuchFile) => {}
        other => panic!("unexpected result: {:?}", other.map(|_| ())),
    }
    // The same, stage by stage: after the failed manifest stage the plugin
    // is still unbound.
    let data = build_zip(&[], &[("mod.so", b"code")]);
    let mut plugin = Plugin::load_archive(data, String::from("p.vpl")).unwrap();
    assert_eq!(plugin.load_metadata().unwrap_err(), VPluginError::NoSuchFile);
    assert!(!plugin.is_valid);
    assert!(plugin.raw.is_none());
}

#[test]
fn spaced_name_is_a_structured_identity_error() {
    let manifest = b"[metadata]\nversion = \"1\"\nname = \"has space\"\nobjfile = \"o.so\"\n";
    let data = build_zip(&[], &[("metadata.toml", manifest)]);
    let r = Plugin::load(data, String::from("p.vpl"));
    assert_eq!(r.unwrap_err(), VPluginError::InvalidPlugin);
}

#[test]
fn empty_name_is_a_structured_identity_error() {
    let manifest = b"[metadata]\nversion = \"1\"\nname = \"\"\nobjfile = \"o.so\"\n";
    let data = build_zip(&[], &[("metadata.toml", manifest)]);
    let r = Plugin::load(data, String::from("p.vpl"));
    assert_eq!(r.unwrap_err(), VPluginError::InvalidPlugin);
}

#[test]
fn unparsable_manifest_is_a_parameters_error() {
    let manifest = b"this is not a manifest";
    let data = build_zip(&[], &[("metadata.toml", manifest)]);
    let r = Plugin::load(data, String::from("p.vpl"));
    assert_eq!(r.unwrap_err(), VPluginError::ParametersError);
}

#[test]
fn hooks_refuse_a_plugin_that_is_not_started() {
    // Not bound at all.
    let plugin = Plugin::load(alpha_zip(), String::from("alpha.vpl")).unwrap();
    assert_eq!(
        plugin.hook_symbol("my_hook").unwrap_err(),
        VPluginError::InvalidPlugin
    );
    // Bound, but never started: still refused.
    let mut plugin = Plugin::load(alpha_zip(), String::from("alpha.vpl")).unwrap();
    plugin.attach_module(this_library());
    assert!(plugin.is_valid);
    assert_eq!(
        plugin.hook_symbol("my_hook").unwrap_err(),
        VPluginError::InvalidPlugin
    );
}

#[test]
fn hook_symbol_is_nul_terminated_once_started() {
    let mut plugin = Plugin::load(alpha_zip(), String::from("alpha.vpl")).unwrap();
    plugin.attach_module(this_library());
    plugin.start().unwrap();
    assert_eq!(plugin.hook_symbol("my_hook").unwrap(), b"my_hook\0".to_vec());
    assert_eq!(
        plugin.destructor_symbol().unwrap(),
        b"vplugin_exit\0".to_vec()
    );
}

#[test]
fn probe_symbol_is_none_for_an_unbound_plugin() {
    let plugin = Plugin::load(alpha_zip(), String::from("alpha.vpl")).unwrap();
    assert!(plugin.probe_symbol("anything").is_none());
    let mut plugin = Plugin::load(alpha_zip(), String::from("alpha.vpl")).unwrap();
    plugin.attach_module(this_library());
    assert_eq!(plugin.probe_symbol("anything").unwrap(), b"anything".to_vec());
}

#[test]
fn start_refuses_an_invalid_plugin() {
    let mut plugin = Plugin::load(alpha_zip(), String::from("alpha.vpl")).unwrap();
    assert_eq!(plugin.start().unwrap_err(), VPluginError::InvalidPlugin);
    assert!(!plugin.started);
}

#[test]
fn terminate_refuses_a_plugin_that_was_never_started() {
    let mut plugin = Plugin::load(alpha_zip(), String::from("alpha.vpl")).unwrap();
    plugin.attach_module(this_library());
    let before_valid = plugin.is_valid;
    assert_eq!(
        plugin.terminate(DestructorOutcome::Invoked).unwrap_err(),
        VPluginError::InvalidPlugin
    );
    assert_eq!(plugin.is_valid, before_valid);
    assert!(!plugin.started);
    // Never bound either: refused the same way.
    let mut unbound = Plugin::load(alpha_zip(), String::from("alpha.vpl")).unwrap();
    assert_eq!(
        unbound.terminate(DestructorOutcome::Invoked).unwrap_err(),
        VPluginError::InvalidPlugin
    );
}

#[test]
fn terminate_without_destructor_leaves_started_set() {
    let mut plugin = Plugin::load(alpha_zip(), String::from("alpha.vpl")).unwrap();
    plugin.attach_module(this_library());
    plugin.start().unwrap();
    assert_eq!(
        plugin.terminate(DestructorOutcome::Missing).unwrap_err(),
        VPluginError::InvalidPlugin
    );
    assert!(plugin.started);
    assert!(plugin.is_valid);
}

#[test]
fn reusable_terminate_returns_to_bound() {
    let mut plugin = Plugin::load(alpha_zip(), String::from("alpha.vpl")).unwrap();
    plugin.attach_module(this_library());
    plugin.start().unwrap();
    plugin.terminate(DestructorOutcome::Invoked).unwrap();
    assert!(!plugin.started);
    assert!(plugin.is_valid);
    assert!(plugin.is_metadata_loaded());
    // A reusable plugin may be started again.
    plugin.start().unwrap();
    assert!(plugin.started);
}

#[test]
fn non_reusable_terminate_clears_the_plugin() {
    let mut plugin = Plugin::load(alpha_zip(), String::from("alpha.vpl")).unwrap();
    plugin.reusable = false;
    plugin.attach_module(this_library());
    plugin.start().unwrap();
    plugin.terminate(DestructorOutcome::Invoked).unwrap();
    assert!(!plugin.started);
    assert!(!plugin.is_valid);
    assert!(plugin.raw.is_none());
    assert!(!plugin.is_metadata_loaded());
    assert_eq!(plugin.filename, "");
    // A later hook resolution fails with the invalid-plugin kind.
    assert_eq!(
        plugin.hook_symbol("my_hook").unwrap_err(),
        VPluginError::InvalidPlugin
    );
}

#[test]
fn distinct_names_use_distinct_directories() {
    let manifest_beta =
        b"[metadata]\nversion = \"0.1.0\"\nname = \"beta\"\nobjfile = \"mod.so\"\n";
    let alpha = Plugin::load(alpha_zip(), String::from("a.vpl")).unwrap();
    let beta_zip = build_zip(
        &[],
        &[("metadata.toml", manifest_beta.as_slice()), ("mod.so", b"code")],
    );
    let beta = Plugin::load(beta_zip, String::from("b.vpl")).unwrap();
    let root = "/tmp/vplugin";
    let dir_a = alpha.cleanup_path(root).unwrap();
    let dir_b = beta.cleanup_path(root).unwrap();
    assert_eq!(dir_a, "/tmp/vplugin/alpha");
    assert_eq!(dir_b, "/tmp/vplugin/beta");
    assert_ne!(dir_a, dir_b);
    let paths_a = alpha.module_paths(root).unwrap();
    let paths_b = beta.module_paths(root).unwrap();
    assert_eq!(paths_a.plugin_dir, "/tmp/vplugin/alpha");
    assert_eq!(paths_a.source, "/tmp/vplugin/mod.so");
    assert_eq!(paths_a.destination, "/tmp/vplugin/alpha/mod.so");
    assert_ne!(paths_a.destination, paths_b.destination);
}

#[test]
fn cleanup_is_skipped_without_an_identity() {
    let data = build_zip(&[], &[("mod.so", b"code")]);
    let plugin = Plugin::load_archive(data, String::from("p.vpl")).unwrap();
    assert!(plugin.cleanup_path("/tmp/vplugin").is_none());
    assert_eq!(
        plugin.module_paths("/tmp/vplugin").unwrap_err(),
        VPluginError::InvalidPlugin
    );
}

#[test]
fn extraction_plan_confines_and_skips_escaping_entries() {
    let data = build_zip(
        &["sub"],
        &[
            ("metadata.toml", MANIFEST_ALPHA),
            ("sub/data.txt", b"payload"),
            ("../evil.txt", b"escape"),
            ("/abs.txt", b"absolute"),
            ("..\\up.txt", b"backslash"),
        ],
    );
    let mut plugin = Plugin::load(data, String::from("alpha.vpl")).unwrap();
    let acts = plugin.extraction_actions("/tmp/vplugin").unwrap();
    let mut dirs: Vec<String> = Vec::new();
    let mut files: Vec<(String, Vec<u8>)> = Vec::new();
    for a in acts {
        match a {
            ExtractAction::MakeDir(p) => dirs.push(p),
            ExtractAction::WriteFile(p, d) => files.push((p, d)),
        }
    }
    assert_eq!(dirs, vec![String::from("/tmp/vplugin/sub/")]);
    let names: Vec<&str> = files.iter().map(|f| f.0.as_str()).collect();
    assert!(names.contains(&"/tmp/vplugin/metadata.toml"));
    assert!(names.contains(&"/tmp/vplugin/sub/data.txt"));
    assert!(!names.iter().any(|n| n.contains("evil")));
    assert!(!names.iter().any(|n| n.contains("abs.txt")));
    assert!(!names.iter().any(|n| n.contains("up.txt")));
    for (p, _) in &files {
        assert!(p.starts_with("/tmp/vplugin/"));
        assert!(!p.contains(".."));
    }
    let payload = files.iter().find(|f| f.0.ends_with("data.txt")).unwrap();
    assert_eq!(payload.1, b"payload".to_vec());
}

#[test]
fn load_metadata_works_stage_by_stage() {
    let mut plugin = Plugin::load_archive(alpha_zip(), String::from("alpha.vpl")).unwrap();
    assert!(!plugin.is_metadata_loaded());
    assert!(plugin.get_metadata().is_none());
    plugin.load_metadata().unwrap();
    assert!(plugin.is_metadata_loaded());
    let m = plugin.get_metadata().as_ref().unwrap();
    assert_eq!(m.name, "alpha");
    assert_eq!(m.filename, "metadata.toml");
    // The manifest stage binds nothing.
    assert!(!plugin.is_valid);
    assert!(plugin.raw.is_none());
}

#[test]
fn load_metadata_rejects_a_bad_manifest_in_place() {
    let manifest = b"[metadata\nversion = \"1\"\nname = \"p\"\nobjfile = \"o\"\n";
    let data = build_zip(&[], &[("metadata.toml", manifest)]);
    let mut plugin = Plugin::load_archive(data, String::from("p.vpl")).unwrap();
    assert_eq!(
        plugin.load_metadata().unwrap_err(),
        VPluginError::ParametersError
    );
    assert!(!plugin.is_metadata_loaded());
}
