//! Settings persistence: the GUI engine's serialized layout blob is
//! written verbatim to the file path the engine designates, and read back
//! verbatim on the next construction.
//!
//! Absence of a path means the engine disabled persistence; absence of the
//! file on startup is not an error (the default layout is used).  The file
//! input and output themselves happen outside this crate; these functions
//! decide exactly what is written and what is handed to the engine's
//! deserializer.
use vstd::prelude::*;

verus! {

/// What the save step writes: the designated path and the blob, verbatim;
/// nothing when the engine designates no path.
pub open spec fn save_plan(ini_path: Option<Seq<char>>, blob: Seq<char>) -> Option<
    (Seq<char>, Seq<char>),
> {
    match ini_path {
        Some(p) => Some((p, blob)),
        None => None,
    }
}

/// What the load step hands the engine's deserializer: the file contents
/// verbatim, and nothing when there is no path or no file.
pub open spec fn load_result(ini_path: Option<Seq<char>>, file: Option<Seq<char>>) -> Option<
    Seq<char>,
> {
    match ini_path {
        Some(_) => match file {
            Some(c) => Some(c),
            None => None,
        },
        None => None,
    }
}

/// The view of an optional string.
pub open spec fn opt_str_view(s: Option<String>) -> Option<Seq<char>> {
    match s {
        Some(p) => Some(p@),
        None => None,
    }
}

/// Decides what the save step writes on shutdown: the layout blob,
/// verbatim, to the engine's designated path.
pub fn save_ini_settings(ini_path: Option<String>, blob: String) -> (w: Option<(String, String)>)
    ensures
        (match w {
            Some((p, b)) => save_plan(opt_str_view(ini_path), blob@) == Some((p@, b@)),
            None => save_plan(opt_str_view(ini_path), blob@) is None,
        }),
{
    match ini_path {
        Some(p) => Some((p, blob)),
        None => None,
    }
}

/// Decides what the load step hands the engine on startup: the persisted
/// file's contents, verbatim, when the path was designated and the file
/// exists.
pub fn load_ini_settings(ini_path: &Option<String>, file: Option<String>) -> (r: Option<String>)
    ensures
        (match r {
            Some(c) => load_result(opt_str_view(*ini_path), opt_str_view(file)) == Some(c@),
            None => load_result(opt_str_view(*ini_path), opt_str_view(file)) is None,
        }),
{
    match ini_path {
        Some(_) => file,
        None => None,
    }
}

/// Round trip: a layout blob saved to the persistence file and reloaded on
/// the next construction reaches the engine's deserializer byte-for-byte
/// unchanged.
pub proof fn lemma_settings_round_trip(path: Seq<char>, blob: Seq<char>)
    ensures
        save_plan(Some(path), blob) matches Some((p, b)) && p == path && load_result(
            Some(p),
            Some(b),
        ) == Some(blob),
{
}

} // verus!
