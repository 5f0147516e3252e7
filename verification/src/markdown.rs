//! The one computable piece of the markdown view: which file extension a
//! fenced code block's language name maps to, for the syntax highlighter.
//! The rendering itself is the caller's business.

use vstd::prelude::*;

use crate::text::str_eq;

verus! {

/// The extension table: unknown languages fall back to plain text.
pub open spec fn extension_of(lang: Seq<char>) -> Seq<char> {
    if lang == "python"@ {
        "py"@
    } else if lang == "javascript"@ {
        "js"@
    } else if lang == "java"@ {
        "java"@
    } else if lang == "c"@ {
        "c"@
    } else if lang == "cpp"@ {
        "cpp"@
    } else if lang == "c++"@ {
        "cpp"@
    } else if lang == "csharp"@ {
        "cs"@
    } else if lang == "c#"@ {
        "cs"@
    } else if lang == "php"@ {
        "php"@
    } else if lang == "ruby"@ {
        "rb"@
    } else if lang == "swift"@ {
        "swift"@
    } else if lang == "kotlin"@ {
        "kt"@
    } else if lang == "go"@ {
        "go"@
    } else if lang == "r"@ {
        "r"@
    } else if lang == "perl"@ {
        "pl"@
    } else if lang == "shell"@ {
        "sh"@
    } else if lang == "bash"@ {
        "sh"@
    } else if lang == "objective-c"@ {
        "m"@
    } else if lang == "objective-c++"@ {
        "mm"@
    } else if lang == "typescript"@ {
        "ts"@
    } else if lang == "html"@ {
        "html"@
    } else if lang == "css"@ {
        "css"@
    } else if lang == "sql"@ {
        "sql"@
    } else if lang == "matlab"@ {
        "m"@
    } else if lang == "scala"@ {
        "scala"@
    } else if lang == "rust"@ {
        "rs"@
    } else if lang == "dart"@ {
        "dart"@
    } else if lang == "elixir"@ {
        "ex"@
    } else if lang == "haskell"@ {
        "hs"@
    } else if lang == "lua"@ {
        "lua"@
    } else if lang == "assembly"@ {
        "asm"@
    } else if lang == "fortran"@ {
        "f90"@
    } else if lang == "pascal"@ {
        "pas"@
    } else if lang == "cobol"@ {
        "cob"@
    } else if lang == "erlang"@ {
        "erl"@
    } else if lang == "fsharp"@ {
        "fs"@
    } else if lang == "f#"@ {
        "fs"@
    } else if lang == "julia"@ {
        "jl"@
    } else if lang == "groovy"@ {
        "groovy"@
    } else if lang == "ada"@ {
        "adb"@
    } else if lang == "markdown"@ {
        "md"@
    } else {
        "txt"@
    }
}

/// Maps a fenced code block's language name to the file extension the
/// syntax highlighter knows it by.
pub fn language_to_extension(lang: &str) -> (r: &'static str)
    ensures
        r@ == extension_of(lang@),
{
    if str_eq(lang, "python") {
        "py"
    } else if str_eq(lang, "javascript") {
        "js"
    } else if str_eq(lang, "java") {
        "java"
    } else if str_eq(lang, "c") {
        "c"
    } else if str_eq(lang, "cpp") {
        "cpp"
    } else if str_eq(lang, "c++") {
        "cpp"
    } else if str_eq(lang, "csharp") {
        "cs"
    } else if str_eq(lang, "c#") {
        "cs"
    } else if str_eq(lang, "php") {
        "php"
    } else if str_eq(lang, "ruby") {
        "rb"
    } else if str_eq(lang, "swift") {
        "swift"
    } else if str_eq(lang, "kotlin") {
        "kt"
    } else if str_eq(lang, "go") {
        "go"
    } else if str_eq(lang, "r") {
        "r"
    } else if str_eq(lang, "perl") {
        "pl"
    } else if str_eq(lang, "shell") {
        "sh"
    } else if str_eq(lang, "bash") {
        "sh"
    } else if str_eq(lang, "objective-c") {
        "m"
    } else if str_eq(lang, "objective-c++") {
        "mm"
    } else if str_eq(lang, "typescript") {
        "ts"
    } else if str_eq(lang, "html") {
        "html"
    } else if str_eq(lang, "css") {
        "css"
    } else if str_eq(lang, "sql") {
        "sql"
    } else if str_eq(lang, "matlab") {
        "m"
    } else if str_eq(lang, "scala") {
        "scala"
    } else if str_eq(lang, "rust") {
        "rs"
    } else if str_eq(lang, "dart") {
        "dart"
    } else if str_eq(lang, "elixir") {
        "ex"
    } else if str_eq(lang, "haskell") {
        "hs"
    } else if str_eq(lang, "lua") {
        "lua"
    } else if str_eq(lang, "assembly") {
        "asm"
    } else if str_eq(lang, "fortran") {
        "f90"
    } else if str_eq(lang, "pascal") {
        "pas"
    } else if str_eq(lang, "cobol") {
        "cob"
    } else if str_eq(lang, "erlang") {
        "erl"
    } else if str_eq(lang, "fsharp") {
        "fs"
    } else if str_eq(lang, "f#") {
        "fs"
    } else if str_eq(lang, "julia") {
        "jl"
    } else if str_eq(lang, "groovy") {
        "groovy"
    } else if str_eq(lang, "ada") {
        "adb"
    } else if str_eq(lang, "markdown") {
        "md"
    } else {
        "txt"
    }
}

} // verus!
