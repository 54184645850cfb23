//! File types, told from file name extensions.

use vstd::prelude::*;
use crate::text::{lowercase, str_eq, to_lowercase};

verus! {

/// The name of the file type that a lowercase extension stands for;
/// `Plain Text` for an extension that is not known, and for none.
pub open spec fn filetype_name(ext: Seq<char>) -> Seq<char> {
    if ext == "rs"@ {
        "Rust"@
    } else if ext == "py"@ {
        "Python"@
    } else if ext == "js"@ {
        "JavaScript"@
    } else if ext == "ts"@ {
        "TypeScript"@
    } else if ext == "jsx"@ {
        "JavaScript (React)"@
    } else if ext == "tsx"@ {
        "TypeScript (React)"@
    } else if ext == "c"@ || ext == "h"@ {
        "C"@
    } else if ext == "cpp"@ || ext == "cc"@ || ext == "cxx"@ || ext == "hpp"@ || ext == "hxx"@ {
        "C++"@
    } else if ext == "java"@ {
        "Java"@
    } else if ext == "go"@ {
        "Go"@
    } else if ext == "rb"@ {
        "Ruby"@
    } else if ext == "php"@ {
        "PHP"@
    } else if ext == "swift"@ {
        "Swift"@
    } else if ext == "kt"@ || ext == "kts"@ {
        "Kotlin"@
    } else if ext == "scala"@ {
        "Scala"@
    } else if ext == "cs"@ {
        "C#"@
    } else if ext == "fs"@ || ext == "fsx"@ {
        "F#"@
    } else if ext == "hs"@ {
        "Haskell"@
    } else if ext == "ml"@ || ext == "mli"@ {
        "OCaml"@
    } else if ext == "ex"@ || ext == "exs"@ {
        "Elixir"@
    } else if ext == "erl"@ || ext == "hrl"@ {
        "Erlang"@
    } else if ext == "clj"@ || ext == "cljs"@ || ext == "cljc"@ {
        "Clojure"@
    } else if ext == "lua"@ {
        "Lua"@
    } else if ext == "pl"@ || ext == "pm"@ {
        "Perl"@
    } else if ext == "r"@ {
        "R"@
    } else if ext == "jl"@ {
        "Julia"@
    } else if ext == "dart"@ {
        "Dart"@
    } else if ext == "v"@ {
        "V"@
    } else if ext == "zig"@ {
        "Zig"@
    } else if ext == "nim"@ {
        "Nim"@
    } else if ext == "cr"@ {
        "Crystal"@
    } else if ext == "sh"@ || ext == "bash"@ || ext == "zsh"@ {
        "Shell"@
    } else if ext == "ps1"@ {
        "PowerShell"@
    } else if ext == "sql"@ {
        "SQL"@
    } else if ext == "html"@ || ext == "htm"@ {
        "HTML"@
    } else if ext == "css"@ {
        "CSS"@
    } else if ext == "scss"@ || ext == "sass"@ {
        "SCSS"@
    } else if ext == "less"@ {
        "Less"@
    } else if ext == "json"@ {
        "JSON"@
    } else if ext == "yaml"@ || ext == "yml"@ {
        "YAML"@
    } else if ext == "toml"@ {
        "TOML"@
    } else if ext == "xml"@ {
        "XML"@
    } else if ext == "md"@ || ext == "markdown"@ {
        "Markdown"@
    } else if ext == "rst"@ {
        "reStructuredText"@
    } else if ext == "tex"@ {
        "LaTeX"@
    } else if ext == "vim"@ {
        "Vim Script"@
    } else if ext == "dockerfile"@ {
        "Dockerfile"@
    } else if ext == "makefile"@ {
        "Makefile"@
    } else if ext == "cmake"@ {
        "CMake"@
    } else if ext == "gradle"@ {
        "Gradle"@
    } else {
        "Plain Text"@
    }
}

/// The name of the file type that a lowercase extension stands for.
fn filetype_label(ext: &str) -> (name: &'static str)
    ensures
        name@ == filetype_name(ext@),
{
    if str_eq(ext, "rs") {
        "Rust"
    } else if str_eq(ext, "py") {
        "Python"
    } else if str_eq(ext, "js") {
        "JavaScript"
    } else if str_eq(ext, "ts") {
        "TypeScript"
    } else if str_eq(ext, "jsx") {
        "JavaScript (React)"
    } else if str_eq(ext, "tsx") {
        "TypeScript (React)"
    } else if str_eq(ext, "c") || str_eq(ext, "h") {
        "C"
    } else if str_eq(ext, "cpp") || str_eq(ext, "cc") || str_eq(ext, "cxx") || str_eq(ext, "hpp") || str_eq(ext, "hxx") {
        "C++"
    } else if str_eq(ext, "java") {
        "Java"
    } else if str_eq(ext, "go") {
        "Go"
    } else if str_eq(ext, "rb") {
        "Ruby"
    } else if str_eq(ext, "php") {
        "PHP"
    } else if str_eq(ext, "swift") {
        "Swift"
    } else if str_eq(ext, "kt") || str_eq(ext, "kts") {
        "Kotlin"
    } else if str_eq(ext, "scala") {
        "Scala"
    } else if str_eq(ext, "cs") {
        "C#"
    } else if str_eq(ext, "fs") || str_eq(ext, "fsx") {
        "F#"
    } else if str_eq(ext, "hs") {
        "Haskell"
    } else if str_eq(ext, "ml") || str_eq(ext, "mli") {
        "OCaml"
    } else if str_eq(ext, "ex") || str_eq(ext, "exs") {
        "Elixir"
    } else if str_eq(ext, "erl") || str_eq(ext, "hrl") {
        "Erlang"
    } else if str_eq(ext, "clj") || str_eq(ext, "cljs") || str_eq(ext, "cljc") {
        "Clojure"
    } else if str_eq(ext, "lua") {
        "Lua"
    } else if str_eq(ext, "pl") || str_eq(ext, "pm") {
        "Perl"
    } else if str_eq(ext, "r") {
        "R"
    } else if str_eq(ext, "jl") {
        "Julia"
    } else if str_eq(ext, "dart") {
        "Dart"
    } else if str_eq(ext, "v") {
        "V"
    } else if str_eq(ext, "zig") {
        "Zig"
    } else if str_eq(ext, "nim") {
        "Nim"
    } else if str_eq(ext, "cr") {
        "Crystal"
    } else if str_eq(ext, "sh") || str_eq(ext, "bash") || str_eq(ext, "zsh") {
        "Shell"
    } else if str_eq(ext, "ps1") {
        "PowerShell"
    } else if str_eq(ext, "sql") {
        "SQL"
    } else if str_eq(ext, "html") || str_eq(ext, "htm") {
        "HTML"
    } else if str_eq(ext, "css") {
        "CSS"
    } else if str_eq(ext, "scss") || str_eq(ext, "sass") {
        "SCSS"
    } else if str_eq(ext, "less") {
        "Less"
    } else if str_eq(ext, "json") {
        "JSON"
    } else if str_eq(ext, "yaml") || str_eq(ext, "yml") {
        "YAML"
    } else if str_eq(ext, "toml") {
        "TOML"
    } else if str_eq(ext, "xml") {
        "XML"
    } else if str_eq(ext, "md") || str_eq(ext, "markdown") {
        "Markdown"
    } else if str_eq(ext, "rst") {
        "reStructuredText"
    } else if str_eq(ext, "tex") {
        "LaTeX"
    } else if str_eq(ext, "vim") {
        "Vim Script"
    } else if str_eq(ext, "dockerfile") {
        "Dockerfile"
    } else if str_eq(ext, "makefile") {
        "Makefile"
    } else if str_eq(ext, "cmake") {
        "CMake"
    } else if str_eq(ext, "gradle") {
        "Gradle"
    } else {
        "Plain Text"
    }
}

/// The file type of a file with the given extension, whatever the case
/// of its letters; without an extension the file is plain text.
pub fn filetype_for_extension(extension: Option<&str>) -> (name: String)
    ensures
        name@ == match extension {
            Some(ext) => filetype_name(lowercase(ext@)),
            None => filetype_name(Seq::empty()),
        },
{
    match extension {
        Some(ext) => {
            let lower = to_lowercase(ext);
            filetype_label(lower.as_str()).to_string()
        },
        None => {
            proof {
                reveal_strlit("");
            }
            assert(""@ =~= Seq::<char>::empty());
            filetype_label("").to_string()
        },
    }
}

} // verus!
