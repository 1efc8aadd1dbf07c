//! The caller's dialog configuration, and the plan of native configuration
//! calls that one dialog invocation applies.

use vstd::prelude::*;
use crate::filters::{Filter, pattern_list, filter_table, default_extension};
use crate::wide::{utf16, encode_utf16_nul};

verus! {

/// Folder-picking mode of the native open dialog.
pub const FOS_PICKFOLDERS: u32 = 0x20;

/// Multi-selection mode of the native open dialog.
pub const FOS_ALLOWMULTISELECT: u32 = 0x200;

/// What a caller asks of one dialog: filters, starting directory, initial
/// file name, window title, and an optional parent window.
///
/// Paths and titles are host strings; the parent is the numeric value of the
/// native window handle.
pub struct FileDialog {
    pub filters: Vec<Filter>,
    pub starting_directory: Option<String>,
    pub file_name: Option<String>,
    pub title: Option<String>,
    pub parent: Option<usize>,
}

/// Everything a platform driver passes to one native dialog, already
/// marshalled to NUL-terminated wide strings. The driver creates an open or
/// a save dialog according to `save`, applies the fields in declaration
/// order — skipping each `None` and an empty `file_types` — and shows the
/// dialog under `parent`.
pub struct DialogPlan {
    /// Argument of the native default-extension call.
    pub default_extension: Option<Vec<u16>>,
    /// Name and pattern list of each filter: the native file-type table.
    pub file_types: Vec<(Vec<u16>, Vec<u16>)>,
    /// The folder the dialog starts in. The driver hands it to the
    /// folder-setting call that is documented to take precedence, not to the
    /// default-folder one with the weaker promise.
    pub folder: Option<Vec<u16>>,
    /// The file name the dialog starts with.
    pub file_name: Option<Vec<u16>>,
    /// The dialog's window title.
    pub title: Option<Vec<u16>>,
    /// Extra dialog options, where a mode asks for them.
    pub options: Option<u32>,
    /// The parent window handle the dialog is shown under.
    pub parent: Option<usize>,
    /// Whether the native save dialog is used instead of the open dialog.
    pub save: bool,
}

/// The plan fields every dialog mode fills: folder, title, parent. Each
/// wide string is exactly the UTF-16 encoding of the caller's string plus
/// the terminator, and is present exactly when the caller set the field.
pub open spec fn common_fields(p: DialogPlan, opt: FileDialog) -> bool {
    &&& (p.folder is Some <==> opt.starting_directory is Some)
    &&& (p.folder is Some ==> p.folder->0@ == utf16(opt.starting_directory->0@).push(0u16))
    &&& (p.title is Some <==> opt.title is Some)
    &&& (p.title is Some ==> p.title->0@ == utf16(opt.title->0@).push(0u16))
    &&& p.parent == opt.parent
}

/// The plan fields of the modes that pick or save files: the default
/// extension is the first extension of the first filter when there is one,
/// the file-type table lists every filter's name and pattern list, and the
/// initial file name is present exactly when the caller set it.
pub open spec fn filter_fields(p: DialogPlan, opt: FileDialog) -> bool {
    &&& (p.default_extension is Some <==> opt.filters@.len() > 0
        && opt.filters@[0].extensions@.len() > 0)
    &&& (p.default_extension is Some ==> p.default_extension->0@ == utf16(
        opt.filters@[0].extensions@[0]@,
    ).push(0u16))
    &&& p.file_types@.len() == opt.filters@.len()
    &&& (forall|i: int|
        0 <= i < opt.filters@.len() ==> {
            &&& (#[trigger] p.file_types@[i]).0@ == utf16(opt.filters@[i].name@).push(0u16)
            &&& p.file_types@[i].1@ == utf16(
                pattern_list(opt.filters@[i].extensions.deep_view()),
            ).push(0u16)
        })
    &&& (p.file_name is Some <==> opt.file_name is Some)
    &&& (p.file_name is Some ==> p.file_name->0@ == utf16(opt.file_name->0@).push(0u16))
}

/// The NUL-terminated wide form of an optional host string.
fn encode_opt(s: &Option<String>) -> (r: Option<Vec<u16>>)
    ensures
        r is Some <==> s is Some,
        r is Some ==> r->0@ == utf16(s->0@).push(0u16),
{
    match s {
        Some(t) => Some(encode_utf16_nul(t.as_str())),
        None => None,
    }
}

impl DialogPlan {
    /// The plan of an open dialog that picks one file.
    pub fn build_pick_file(opt: &FileDialog) -> (r: DialogPlan)
        ensures
            common_fields(r, *opt),
            filter_fields(r, *opt),
            r.options is None,
            !r.save,
    {
        DialogPlan {
            default_extension: default_extension(&opt.filters),
            file_types: filter_table(&opt.filters),
            folder: encode_opt(&opt.starting_directory),
            file_name: encode_opt(&opt.file_name),
            title: encode_opt(&opt.title),
            options: None,
            parent: opt.parent,
            save: false,
        }
    }

    /// The plan of a save dialog.
    pub fn build_save_file(opt: &FileDialog) -> (r: DialogPlan)
        ensures
            common_fields(r, *opt),
            filter_fields(r, *opt),
            r.options is None,
            r.save,
    {
        DialogPlan {
            default_extension: default_extension(&opt.filters),
            file_types: filter_table(&opt.filters),
            folder: encode_opt(&opt.starting_directory),
            file_name: encode_opt(&opt.file_name),
            title: encode_opt(&opt.title),
            options: None,
            parent: opt.parent,
            save: true,
        }
    }

    /// The plan of an open dialog that picks a folder: no filters and no
    /// initial file name, and the folder-picking option set.
    pub fn build_pick_folder(opt: &FileDialog) -> (r: DialogPlan)
        ensures
            common_fields(r, *opt),
            r.default_extension is None,
            r.file_types@.len() == 0,
            r.file_name is None,
            r.options == Some(FOS_PICKFOLDERS),
            !r.save,
    {
        DialogPlan {
            default_extension: None,
            file_types: Vec::new(),
            folder: encode_opt(&opt.starting_directory),
            file_name: None,
            title: encode_opt(&opt.title),
            options: Some(FOS_PICKFOLDERS),
            parent: opt.parent,
            save: false,
        }
    }

    /// The plan of an open dialog that picks several files: as for one
    /// file, with the multi-selection option set.
    pub fn build_pick_files(opt: &FileDialog) -> (r: DialogPlan)
        ensures
            common_fields(r, *opt),
            filter_fields(r, *opt),
            r.options == Some(FOS_ALLOWMULTISELECT),
            !r.save,
    {
        DialogPlan {
            default_extension: default_extension(&opt.filters),
            file_types: filter_table(&opt.filters),
            folder: encode_opt(&opt.starting_directory),
            file_name: encode_opt(&opt.file_name),
            title: encode_opt(&opt.title),
            options: Some(FOS_ALLOWMULTISELECT),
            parent: opt.parent,
            save: false,
        }
    }
}

} // verus!
