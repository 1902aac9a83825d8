//! The native file dialogs: what each one is asked to show, and what the
//! user's answer means.
//!
//! The caller shows the dialog that a `DialogPlan` describes and hands the
//! user's choice to `dialog_outcome`.

use vstd::prelude::*;
use vstd::string::*;
use crate::text::optional_text;

verus! {

/// A named group of file extensions that a dialog offers.
#[derive(Debug)]
pub struct DialogFilter {
    pub name: String,
    pub extensions: Vec<String>,
}

/// Which dialog is shown.
#[derive(Clone, Copy, Debug, PartialEq, Eq, Structural)]
pub enum DialogKind {
    /// Pick an existing file to open.
    Open,
    /// Pick a place to save to.
    Save,
}

/// What a dialog is asked to show.
#[derive(Debug)]
pub struct DialogPlan {
    pub kind: DialogKind,
    pub filters: Vec<DialogFilter>,
    /// The file name that a save dialog starts with.
    pub file_name: Option<String>,
}

/// The filter has this name and this one extension.
pub open spec fn filter_is(filter: DialogFilter, name: Seq<char>, extension: Seq<char>) -> bool {
    &&& filter.name@ == name
    &&& filter.extensions@.len() == 1
    &&& filter.extensions@[0]@ == extension
}

/// The plan of the open dialog: documents first, then every file.
pub open spec fn is_open_plan(plan: DialogPlan) -> bool {
    &&& plan.kind == DialogKind::Open
    &&& plan.filters@.len() == 2
    &&& filter_is(plan.filters@[0], "PDF Files"@, "pdf"@)
    &&& filter_is(plan.filters@[1], "All Files"@, "*"@)
    &&& plan.file_name is None
}

/// The plan of the save dialog: documents only, starting at the given name.
pub open spec fn is_save_plan(plan: DialogPlan, default_name: Option<Seq<char>>) -> bool {
    &&& plan.kind == DialogKind::Save
    &&& plan.filters@.len() == 1
    &&& filter_is(plan.filters@[0], "PDF Files"@, "pdf"@)
    &&& optional_text(plan.file_name) == default_name
}

/// A filter with one extension.
pub fn single_filter(name: &str, extension: &str) -> (r: DialogFilter)
    ensures
        filter_is(r, name@, extension@),
{
    let mut extensions: Vec<String> = Vec::new();
    extensions.push(String::from_str(extension));
    DialogFilter { name: String::from_str(name), extensions }
}

/// The dialog that picks a file to open.
pub fn open_file_dialog() -> (r: DialogPlan)
    ensures
        is_open_plan(r),
{
    let mut filters: Vec<DialogFilter> = Vec::new();
    filters.push(single_filter("PDF Files", "pdf"));
    filters.push(single_filter("All Files", "*"));
    DialogPlan { kind: DialogKind::Open, filters, file_name: None }
}

/// The dialog that picks where to save, starting at `default_name` where one
/// is given.
pub fn save_file_dialog(default_name: Option<String>) -> (r: DialogPlan)
    ensures
        is_save_plan(r, optional_text(default_name)),
{
    let mut filters: Vec<DialogFilter> = Vec::new();
    filters.push(single_filter("PDF Files", "pdf"));
    DialogPlan { kind: DialogKind::Save, filters, file_name: default_name }
}

/// What a dialog's answer means to the front-end: the chosen path, or no
/// selection where the user cancelled. Neither is an error.
pub fn dialog_outcome(picked: Option<String>) -> (r: Result<Option<String>, String>)
    ensures
        r == Ok::<Option<String>, String>(picked),
{
    match picked {
        Some(path) => Ok(Some(path)),
        None => Ok(None),
    }
}

} // verus!
