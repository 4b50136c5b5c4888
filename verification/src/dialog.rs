//! Configuration of the native file dialogs and mapping of their outcome.
//!
//! Both dialogs carry the same filter allow-list: a "Text Files" filter over
//! a fixed set of common source and text extensions, followed by an
//! "All Files" wildcard. The save dialog may additionally pre-fill a file
//! name. A dialog resolves to the chosen path, or to nothing when the user
//! cancels; cancellation is an ordinary outcome, never an error.

use vstd::prelude::*;

verus! {

/// One filter entry of a native file dialog: a display name and the file
/// extensions it admits.
pub struct FileFilter {
    pub name: String,
    pub extensions: Vec<String>,
}

/// Everything the bridge decides about a dialog before the OS shows it.
pub struct DialogConfig {
    /// Window title of the dialog.
    pub title: String,
    /// Filters offered to the user, in order.
    pub filters: Vec<FileFilter>,
    /// File name the save dialog is pre-filled with, if any.
    pub file_name: Option<String>,
}

/// The extensions admitted by the "Text Files" filter, in the order the
/// dialogs offer them.
pub open spec fn text_extensions() -> Seq<Seq<char>> {
    seq![
        "txt"@, "md"@, "js"@, "ts"@, "html"@, "css"@, "json"@, "py"@,
        "java"@, "cpp"@, "c"@, "h"@, "rs"@, "go"@, "php"@, "rb"@,
        "swift"@, "kt"@, "dart"@, "vue"@, "jsx"@, "tsx"@,
    ]
}

/// The views of a vector of extension strings.
pub open spec fn extension_views(v: Seq<String>) -> Seq<Seq<char>> {
    v.map_values(|s: String| s@)
}

/// A filter with exactly this display name and these extensions.
pub open spec fn filter_is(f: FileFilter, name: Seq<char>, exts: Seq<Seq<char>>) -> bool {
    &&& f.name@ == name
    &&& extension_views(f.extensions@) == exts
}

/// The filter list both dialogs carry: the "Text Files" allow-list, then an
/// "All Files" wildcard.
pub open spec fn standard_filters(fs: Seq<FileFilter>) -> bool {
    &&& fs.len() == 2
    &&& filter_is(fs[0], "Text Files"@, text_extensions())
    &&& filter_is(fs[1], "All Files"@, seq!["*"@])
}

fn text_extension_list() -> (v: Vec<String>)
    ensures
        extension_views(v@) == text_extensions(),
{
    let mut v: Vec<String> = Vec::new();
    v.push(String::from_str("txt"));
    v.push(String::from_str("md"));
    v.push(String::from_str("js"));
    v.push(String::from_str("ts"));
    v.push(String::from_str("html"));
    v.push(String::from_str("css"));
    v.push(String::from_str("json"));
    v.push(String::from_str("py"));
    v.push(String::from_str("java"));
    v.push(String::from_str("cpp"));
    v.push(String::from_str("c"));
    v.push(String::from_str("h"));
    v.push(String::from_str("rs"));
    v.push(String::from_str("go"));
    v.push(String::from_str("php"));
    v.push(String::from_str("rb"));
    v.push(String::from_str("swift"));
    v.push(String::from_str("kt"));
    v.push(String::from_str("dart"));
    v.push(String::from_str("vue"));
    v.push(String::from_str("jsx"));
    v.push(String::from_str("tsx"));
    proof {
        assert(extension_views(v@) =~= text_extensions());
    }
    v
}

/// Build the filter list shared by the open and the save dialog.
pub fn dialog_filters() -> (fs: Vec<FileFilter>)
    ensures
        standard_filters(fs@),
{
    let mut fs: Vec<FileFilter> = Vec::new();
    fs.push(FileFilter { name: String::from_str("Text Files"), extensions: text_extension_list() });
    let mut wildcard: Vec<String> = Vec::new();
    wildcard.push(String::from_str("*"));
    proof {
        assert(extension_views(wildcard@) =~= seq!["*"@]);
    }
    fs.push(FileFilter { name: String::from_str("All Files"), extensions: wildcard });
    fs
}

/// Configuration of the open dialog: titled "Open File", carrying the
/// standard filters, with no file name to pre-fill.
pub fn open_dialog_config() -> (c: DialogConfig)
    ensures
        c.title@ == "Open File"@,
        standard_filters(c.filters@),
        c.file_name is None,
{
    DialogConfig {
        title: String::from_str("Open File"),
        filters: dialog_filters(),
        file_name: None,
    }
}

/// Configuration of the save dialog: titled "Save File", carrying the
/// standard filters. The dialog is pre-filled with `default_name` exactly
/// when one is supplied, and left blank when none is.
pub fn save_dialog_config(default_name: Option<String>) -> (c: DialogConfig)
    ensures
        c.title@ == "Save File"@,
        standard_filters(c.filters@),
        c.file_name == default_name,
{
    DialogConfig {
        title: String::from_str("Save File"),
        filters: dialog_filters(),
        file_name: default_name,
    }
}

/// Turn what a dialog resolved to into the command's response.
///
/// A dialog has no error outcome: the user either chose a path or cancelled,
/// and cancellation is reported as "no path", never as an error.
pub fn dialog_response(choice: Option<String>) -> (r: Result<Option<String>, String>)
    ensures
        r == Ok::<Option<String>, String>(choice),
{
    Ok(choice)
}

} // verus!
