//! What the window shows and allows, decided from what is selected.

use vstd::prelude::*;
use crate::process::{ProcessRecord, ProcessView};
use crate::text::{decimal, spec_decimal, spec_is_infix};

verus! {

/// `Path::file_name`: the last component of a path, where it has one. Which
/// characters part the components depends on the platform, so the contract
/// only says that the name is a piece of the path as it was given.
#[verifier::external_body]
fn file_name_of(path: &str) -> (r: Option<String>)
    ensures
        r matches Some(name) ==> spec_is_infix(name@, path@),
{
    match std::path::Path::new(path).file_name() {
        Some(name) => Some(name.to_string_lossy().into_owned()),
        None => None,
    }
}

/// The caption of a process in a list: its name, and its pid in brackets.
pub open spec fn spec_process_caption(record: ProcessView) -> Seq<char> {
    record.name + " ("@ + spec_decimal(record.pid as nat) + ")"@
}

/// The line that names the selected process.
pub open spec fn spec_process_label(selected: Option<ProcessView>) -> Seq<char> {
    match selected {
        Some(record) => "Process: "@ + spec_process_caption(record),
        None => "Process: None"@,
    }
}

/// The line that names the selected library by the name of its file.
pub open spec fn spec_dll_label(file_name: Option<Seq<char>>) -> Seq<char> {
    match file_name {
        Some(name) => "DLL: "@ + name,
        None => "DLL: None"@,
    }
}

/// The caption of a process in a list: its name, and its pid in brackets.
pub fn process_caption(record: &ProcessRecord) -> (r: String)
    ensures
        r@ == spec_process_caption(record@),
{
    let mut r = record.name.clone();
    r.append(" (");
    let number = decimal(record.pid);
    r.append(number.as_str());
    r.append(")");
    r
}

/// The line that names the selected process, or says that there is none.
pub fn process_label(selected: Option<&ProcessRecord>) -> (r: String)
    ensures
        r@ == spec_process_label(
            match selected {
                Some(record) => Some(record@),
                None => None,
            },
        ),
{
    match selected {
        Some(record) => {
            let mut r = String::from_str("Process: ");
            let caption = process_caption(record);
            r.append(caption.as_str());
            r
        },
        None => String::from_str("Process: None"),
    }
}

/// The line that names the selected library, given the name of its file, or
/// says that there is none.
pub fn dll_label_from(file_name: Option<&str>) -> (r: String)
    ensures
        r@ == spec_dll_label(
            match file_name {
                Some(name) => Some(name@),
                None => None,
            },
        ),
{
    match file_name {
        Some(name) => {
            let mut r = String::from_str("DLL: ");
            r.append(name);
            r
        },
        None => String::from_str("DLL: None"),
    }
}

/// The name under which a library is listed: the last component of its path,
/// or nothing where the path has none.
pub fn display_name(path: &str) -> (r: String)
    ensures
        spec_is_infix(r@, path@),
{
    match file_name_of(path) {
        Some(name) => name,
        None => {
            let r = String::new();
            assert(path@.subrange(0int, 0int + r@.len()) =~= r@);
            r
        },
    }
}

/// The line that names the selected library by the last component of its
/// path, or says that there is none.
pub fn dll_label(selected_path: Option<&str>) -> (r: String)
    ensures
        match selected_path {
            Some(path) => exists|name: Seq<char>|
                spec_is_infix(name, path@) && r@ == #[trigger] spec_dll_label(Some(name)),
            None => r@ == spec_dll_label(None),
        },
{
    match selected_path {
        Some(path) => {
            let name = display_name(path);
            dll_label_from(Some(name.as_str()))
        },
        None => dll_label_from(None),
    }
}

/// An attempt can be started when a process and a library are selected.
pub fn inject_enabled(selected_process: Option<u32>, selected_dll: Option<usize>) -> (r: bool)
    ensures
        r == (selected_process.is_some() && selected_dll.is_some()),
{
    selected_process.is_some() && selected_dll.is_some()
}

/// A library can be taken out of the catalog when one is selected.
pub fn remove_enabled(selected_dll: Option<usize>) -> (r: bool)
    ensures
        r == selected_dll.is_some(),
{
    selected_dll.is_some()
}

} // verus!
