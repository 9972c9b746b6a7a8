//! Which language a file is written in, by its extension.

use vstd::prelude::*;
use crate::paths::{extension, extension_of};
use crate::text::{lowercase, str_eq};

verus! {

/// The language identifier for an extension that is already in lower case;
/// `plaintext` for one that is not known.
pub open spec fn language_of(lower: Seq<char>) -> Seq<char> {
    if lower == "lua"@ {
        "lua"@
    } else if lower == "rs"@ {
        "rust"@
    } else if lower == "py"@ || lower == "pyi"@ {
        "python"@
    } else if lower == "js"@ {
        "javascript"@
    } else if lower == "jsx"@ {
        "javascriptreact"@
    } else if lower == "ts"@ {
        "typescript"@
    } else if lower == "tsx"@ {
        "typescriptreact"@
    } else if lower == "go"@ {
        "go"@
    } else if lower == "c"@ || lower == "h"@ {
        "c"@
    } else if lower == "cpp"@ || lower == "hpp"@ || lower == "cc"@ || lower == "cxx"@ {
        "cpp"@
    } else if lower == "json"@ {
        "json"@
    } else if lower == "yaml"@ || lower == "yml"@ {
        "yaml"@
    } else if lower == "md"@ {
        "markdown"@
    } else {
        "plaintext"@
    }
}

/// The language identifier of the file `path`: that of its extension, and
/// `plaintext` for a path without one.
pub open spec fn language_of_path(path: Seq<char>) -> Seq<char> {
    match extension(path) {
        Some(ext) => language_of(lowercase(ext)),
        None => "plaintext"@,
    }
}

/// Gives the language identifier for a file extension, written without its
/// dot and in any case.
pub fn ext_to_language_id(ext: &str) -> (id: &'static str)
    ensures
        id@ == language_of(lowercase(ext@)),
{
    let lowered = ext.to_lowercase();
    let lower = lowered.as_str();
    if str_eq(lower, "lua") {
        "lua"
    } else if str_eq(lower, "rs") {
        "rust"
    } else if str_eq(lower, "py") || str_eq(lower, "pyi") {
        "python"
    } else if str_eq(lower, "js") {
        "javascript"
    } else if str_eq(lower, "jsx") {
        "javascriptreact"
    } else if str_eq(lower, "ts") {
        "typescript"
    } else if str_eq(lower, "tsx") {
        "typescriptreact"
    } else if str_eq(lower, "go") {
        "go"
    } else if str_eq(lower, "c") || str_eq(lower, "h") {
        "c"
    } else if str_eq(lower, "cpp") || str_eq(lower, "hpp") || str_eq(lower, "cc") || str_eq(
        lower,
        "cxx",
    ) {
        "cpp"
    } else if str_eq(lower, "json") {
        "json"
    } else if str_eq(lower, "yaml") || str_eq(lower, "yml") {
        "yaml"
    } else if str_eq(lower, "md") {
        "markdown"
    } else {
        "plaintext"
    }
}

/// Gives the language identifier of the file `path`.
pub fn language_id_for_path(path: &str) -> (id: &'static str)
    ensures
        id@ == language_of_path(path@),
{
    match extension_of(path) {
        Some(ext) => ext_to_language_id(ext.as_str()),
        None => "plaintext",
    }
}

} // verus!
