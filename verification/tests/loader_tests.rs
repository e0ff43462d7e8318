use ssr_sandbox::loader::SandboxedLoader;

fn s(text: &str) -> String {
    text.to_string()
}

#[test]
fn test_blocks_remote_urls() {
    let loader = SandboxedLoader::new(".").unwrap();

    let result = loader.resolve("https://evil.com/payload.js", "file:///test.js");
    assert!(result.is_err());
    assert!(result.unwrap_err().message().contains("Remote imports are forbidden"));
}

#[test]
fn test_blocks_path_traversal() {
    let loader = SandboxedLoader::new(".").unwrap();

    let result = loader.resolve("../../../etc/passwd", "file:///tmp/a/b/entry.js");
    assert!(result.is_err());
}

#[test]
fn test_blocks_non_js_files() {
    // The proc filesystem provides a real directory with a real non-JS
    // file in it, without creating anything on disk.
    let loader = SandboxedLoader::new("/proc/self").unwrap();

    let result = loader.resolve("status", "file:///unused.js");
    assert!(result.is_err());
    assert!(result.unwrap_err().message().contains("Only .js and .mjs"));
}

#[test]
fn blocks_data_and_blob_urls() {
    let loader = SandboxedLoader::new(".").unwrap();
    for spec in ["data:text/javascript,alert(1)", "blob:https://a/b", "http://evil.com/x.js"] {
        let result = loader.resolve(spec, "file:///test.js");
        assert!(result.unwrap_err().message().contains("Remote imports are forbidden"));
    }
}

#[test]
fn absolute_path_outside_is_denied() {
    let loader = SandboxedLoader::new(".").unwrap();
    let result = loader.resolve("/etc/passwd", "file:///test.js");
    assert!(result.is_err());
    assert!(result.unwrap_err().message().contains("outside the allowed directory"));
}

#[test]
fn file_url_specifier_outside_is_denied() {
    let loader = SandboxedLoader::new(".").unwrap();
    let result = loader.resolve("file:///etc/passwd", "file:///test.js");
    assert!(result.is_err());
    assert!(result.unwrap_err().message().contains("outside the allowed directory"));
}

#[test]
fn load_denies_paths_outside_dir() {
    let loader = SandboxedLoader::new(".").unwrap();
    let result = loader.load("file:///etc/passwd");
    assert!(result.is_err());
    assert!(result.unwrap_err().message().contains("Access denied"));
}

#[test]
fn extension_rules() {
    assert!(SandboxedLoader::is_extension_allowed("/srv/chunks/a.js"));
    assert!(SandboxedLoader::is_extension_allowed("/srv/chunks/a.mjs"));
    assert!(SandboxedLoader::is_extension_allowed("/srv/chunks/a.b.js"));
    assert!(!SandboxedLoader::is_extension_allowed("/srv/chunks/a.json"));
    assert!(!SandboxedLoader::is_extension_allowed("/srv/chunks/a.JS"));
    // A hidden file named exactly ".js" has no extension at all.
    assert!(!SandboxedLoader::is_extension_allowed("/srv/chunks/.js"));
    assert!(!SandboxedLoader::is_extension_allowed("/srv/chunks/ajs"));
    assert!(!SandboxedLoader::is_extension_allowed("/srv/chunks/"));
}

#[test]
fn containment_respects_component_boundaries() {
    let loader = SandboxedLoader { allowed_dir: s("/srv/chunks") };
    assert!(loader.is_path_allowed("/srv/chunks/a.js"));
    assert!(loader.is_path_allowed("/srv/chunks"));
    assert!(loader.is_path_allowed("/srv/chunks/sub/dir/b.mjs"));
    // Not a child of the directory, only a sibling with the same prefix.
    assert!(!loader.is_path_allowed("/srv/chunksevil/a.js"));
    assert!(!loader.is_path_allowed("/srv"));
    assert!(!loader.is_path_allowed("/etc/passwd"));
}

#[test]
fn root_directory_contains_all_absolute_paths() {
    let loader = SandboxedLoader { allowed_dir: s("/") };
    assert!(loader.is_path_allowed("/etc/passwd"));
    assert!(loader.is_path_allowed("/"));
}

#[test]
fn new_rejects_missing_or_non_directories() {
    let err = SandboxedLoader::new("/no/such/directory/anywhere").unwrap_err();
    assert!(err.message().contains("Failed to canonicalize"));

    let err = SandboxedLoader::new("/proc/self/status").unwrap_err();
    assert!(err.message().contains("must be a directory"));
}

#[test]
fn relative_specifier_needs_a_parseable_referrer() {
    let loader = SandboxedLoader::new(".").unwrap();
    let result = loader.resolve("./chunk.js", "not a url");
    assert!(result.is_err());
    assert!(result.unwrap_err().message().contains("Invalid referrer"));
}

#[test]
fn relative_specifier_resolves_against_referrer() {
    let loader = SandboxedLoader::new(".").unwrap();
    // The join itself works; the resolved path does not exist under the
    // allowed directory, so containment turns it away.
    let result = loader.resolve("./chunk.js", "file:///tmp/app/entry.js");
    assert!(result.is_err());
    assert!(result.unwrap_err().message().contains("outside the allowed directory"));
}

