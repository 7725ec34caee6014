//! Mapping a file name's extension to the language it is edited as.

use vstd::prelude::*;

verus! {

/// The language name a file extension stands for; an unknown extension is
/// plain text.
pub open spec fn language_of(ext: Seq<char>) -> Seq<char> {
    if ext == "rs"@ {
        "rust"@
    } else if ext == "py"@ {
        "python"@
    } else if ext == "js"@ {
        "javascript"@
    } else if ext == "ts"@ {
        "typescript"@
    } else if ext == "tsx"@ {
        "typescript"@
    } else if ext == "jsx"@ {
        "javascript"@
    } else if ext == "cs"@ {
        "csharp"@
    } else if ext == "java"@ {
        "java"@
    } else if ext == "cpp"@ {
        "cpp"@
    } else if ext == "c"@ {
        "c"@
    } else if ext == "go"@ {
        "go"@
    } else if ext == "php"@ {
        "php"@
    } else if ext == "rb"@ {
        "ruby"@
    } else if ext == "sql"@ {
        "sql"@
    } else if ext == "html"@ {
        "html"@
    } else if ext == "css"@ {
        "css"@
    } else if ext == "scss"@ {
        "scss"@
    } else if ext == "json"@ {
        "json"@
    } else if ext == "xml"@ {
        "xml"@
    } else if ext == "yaml"@ || ext == "yml"@ {
        "yaml"@
    } else if ext == "md"@ {
        "markdown"@
    } else {
        "plaintext"@
    }
}

/// The language a file with extension `ext` (without its leading dot) is
/// edited as.
pub fn get_language_from_extension(ext: &str) -> (lang: String)
    ensures
        lang@ == language_of(ext@),
{
    let e = ext.to_owned();
    if e == "rs".to_owned() {
        "rust".to_owned()
    } else if e == "py".to_owned() {
        "python".to_owned()
    } else if e == "js".to_owned() {
        "javascript".to_owned()
    } else if e == "ts".to_owned() {
        "typescript".to_owned()
    } else if e == "tsx".to_owned() {
        "typescript".to_owned()
    } else if e == "jsx".to_owned() {
        "javascript".to_owned()
    } else if e == "cs".to_owned() {
        "csharp".to_owned()
    } else if e == "java".to_owned() {
        "java".to_owned()
    } else if e == "cpp".to_owned() {
        "cpp".to_owned()
    } else if e == "c".to_owned() {
        "c".to_owned()
    } else if e == "go".to_owned() {
        "go".to_owned()
    } else if e == "php".to_owned() {
        "php".to_owned()
    } else if e == "rb".to_owned() {
        "ruby".to_owned()
    } else if e == "sql".to_owned() {
        "sql".to_owned()
    } else if e == "html".to_owned() {
        "html".to_owned()
    } else if e == "css".to_owned() {
        "css".to_owned()
    } else if e == "scss".to_owned() {
        "scss".to_owned()
    } else if e == "json".to_owned() {
        "json".to_owned()
    } else if e == "xml".to_owned() {
        "xml".to_owned()
    } else if e == "yaml".to_owned() || e == "yml".to_owned() {
        "yaml".to_owned()
    } else if e == "md".to_owned() {
        "markdown".to_owned()
    } else {
        "plaintext".to_owned()
    }
}

} // verus!
