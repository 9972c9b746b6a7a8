use lsp_mcp_rs::language::{ext_to_language_id, language_id_for_path};
use lsp_mcp_rs::paths::{chars_of, extension_of, join_path, parent_dir};
use lsp_mcp_rs::roots::{find_project_root, root_for};
use std::collections::HashSet;

fn existing(paths: &[&str]) -> HashSet<String> {
    paths.iter().map(|p| p.to_string()).collect()
}

#[test]
fn parent_dir_takes_the_last_component_off() {
    assert_eq!(parent_dir("/proj/src/pkg/file.ext"), Some("/proj/src/pkg".to_string()));
    assert_eq!(parent_dir("/proj/src"), Some("/proj".to_string()));
    assert_eq!(parent_dir("/proj"), Some("/".to_string()));
    assert_eq!(parent_dir("a/b"), Some("a".to_string()));
    assert_eq!(parent_dir("a"), Some("".to_string()));
    assert_eq!(parent_dir("/"), None);
    assert_eq!(parent_dir(""), None);
}

#[test]
fn parent_dir_ignores_repeated_and_trailing_slashes() {
    assert_eq!(parent_dir("/proj/src/"), Some("/proj".to_string()));
    assert_eq!(parent_dir("a//b"), Some("a".to_string()));
    assert_eq!(parent_dir("/a/"), Some("/".to_string()));
    assert_eq!(parent_dir("///"), None);
    assert_eq!(parent_dir("a/"), Some("".to_string()));
}

#[test]
fn parent_dir_keeps_characters_outside_ascii() {
    assert_eq!(parent_dir("/prøj/ünï/файл.rs"), Some("/prøj/ünï".to_string()));
}

#[test]
fn join_path_puts_one_slash_between() {
    assert_eq!(join_path("/proj", ".git"), "/proj/.git");
    assert_eq!(join_path("/", ".git"), "/.git");
    assert_eq!(join_path("", ".git"), ".git");
    assert_eq!(join_path("a/", "b"), "a/b");
}

#[test]
fn extension_is_what_follows_the_last_dot() {
    assert_eq!(extension_of("/proj/file.ext"), Some("ext".to_string()));
    assert_eq!(extension_of("archive.tar.gz"), Some("gz".to_string()));
    assert_eq!(extension_of("/a.b/file"), None);
    assert_eq!(extension_of(".bashrc"), None);
    assert_eq!(extension_of("/home/.config.toml"), Some("toml".to_string()));
    assert_eq!(extension_of("file."), Some("".to_string()));
    assert_eq!(extension_of(".."), None);
    assert_eq!(extension_of(""), None);
    assert_eq!(extension_of("dir.d/"), Some("d".to_string()));
}

#[test]
fn chars_of_gives_every_character() {
    assert_eq!(chars_of("aé✓"), vec!['a', 'é', '✓']);
    assert_eq!(chars_of(""), Vec::<char>::new());
}

#[test]
fn root_is_the_directory_that_holds_the_marker() {
    let disk = existing(&["/proj/.git"]);
    let root = find_project_root("/proj/src/pkg/file.ext", |p: &str| disk.contains(p));
    assert_eq!(root, Some("/proj".to_string()));
}

#[test]
fn nearest_marked_ancestor_wins_over_a_farther_one() {
    let disk = existing(&["/proj/.git", "/proj/src/Cargo.toml", "/.git"]);
    let root = find_project_root("/proj/src/pkg/file.ext", |p: &str| disk.contains(p));
    assert_eq!(root, Some("/proj/src".to_string()));
}

#[test]
fn every_marker_marks_a_root() {
    for marker in [
        ".git",
        "Cargo.toml",
        "package.json",
        "pyproject.toml",
        "go.mod",
        ".luarc.json",
        "compile_commands.json",
    ] {
        let marked = format!("/w/p/{}", marker);
        let root = find_project_root("/w/p/a/b.c", |p: &str| p == marked);
        assert_eq!(root, Some("/w/p".to_string()));
    }
}

#[test]
fn markers_are_probed_nearest_directory_first_and_in_order() {
    let asked = std::cell::RefCell::new(Vec::new());
    let root = find_project_root("/a/b/c.rs", |p: &str| {
        asked.borrow_mut().push(p.to_string());
        p == "/a/package.json"
    });
    assert_eq!(root, Some("/a".to_string()));
    let asked = asked.into_inner();
    assert_eq!(asked.len(), 7 + 3);
    assert_eq!(asked[0], "/a/b/.git");
    assert_eq!(asked[1], "/a/b/Cargo.toml");
    assert_eq!(asked[6], "/a/b/compile_commands.json");
    assert_eq!(asked[7], "/a/.git");
    assert_eq!(asked[9], "/a/package.json");
}

#[test]
fn marker_in_the_root_directory_is_found() {
    let disk = existing(&["/.git"]);
    let root = find_project_root("/x/y.rs", |p: &str| disk.contains(p));
    assert_eq!(root, Some("/".to_string()));
}

#[test]
fn no_marker_means_no_project_root() {
    assert_eq!(find_project_root("/proj/src/file.ext", |_: &str| false), None);
    assert_eq!(find_project_root("/", |_: &str| true), None);
    assert_eq!(find_project_root("", |_: &str| true), None);
}

#[test]
fn root_falls_back_to_the_directory_of_the_file() {
    assert_eq!(root_for("/proj/src/file.ext", |_: &str| false), "/proj/src");
    assert_eq!(root_for("file.ext", |_: &str| false), "");
    assert_eq!(root_for("/", |_: &str| false), "/");
    let disk = existing(&["/proj/go.mod"]);
    assert_eq!(root_for("/proj/src/file.go", |p: &str| disk.contains(p)), "/proj");
}

#[test]
fn language_is_known_by_extension() {
    assert_eq!(ext_to_language_id("lua"), "lua");
    assert_eq!(ext_to_language_id("rs"), "rust");
    assert_eq!(ext_to_language_id("py"), "python");
    assert_eq!(ext_to_language_id("pyi"), "python");
    assert_eq!(ext_to_language_id("js"), "javascript");
    assert_eq!(ext_to_language_id("jsx"), "javascriptreact");
    assert_eq!(ext_to_language_id("ts"), "typescript");
    assert_eq!(ext_to_language_id("tsx"), "typescriptreact");
    assert_eq!(ext_to_language_id("go"), "go");
    assert_eq!(ext_to_language_id("c"), "c");
    assert_eq!(ext_to_language_id("h"), "c");
    assert_eq!(ext_to_language_id("cpp"), "cpp");
    assert_eq!(ext_to_language_id("hpp"), "cpp");
    assert_eq!(ext_to_language_id("cc"), "cpp");
    assert_eq!(ext_to_language_id("cxx"), "cpp");
    assert_eq!(ext_to_language_id("json"), "json");
    assert_eq!(ext_to_language_id("yaml"), "yaml");
    assert_eq!(ext_to_language_id("yml"), "yaml");
    assert_eq!(ext_to_language_id("md"), "markdown");
}

#[test]
fn language_is_matched_in_any_case() {
    assert_eq!(ext_to_language_id("RS"), "rust");
    assert_eq!(ext_to_language_id("Json"), "json");
}

#[test]
fn unknown_extension_is_plain_text() {
    assert_eq!(ext_to_language_id("unknownext"), "plaintext");
    assert_eq!(ext_to_language_id(""), "plaintext");
    assert_eq!(ext_to_language_id(".rs"), "plaintext");
}

#[test]
fn language_of_a_path_goes_by_its_extension() {
    assert_eq!(language_id_for_path("/proj/src/main.rs"), "rust");
    assert_eq!(language_id_for_path("/proj/README.MD"), "markdown");
    assert_eq!(language_id_for_path("/proj/Makefile"), "plaintext");
    assert_eq!(language_id_for_path("/proj/.gitignore"), "plaintext");
}
