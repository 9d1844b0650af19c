//! Resolution of the fixed set of native entry points.
//!
//! The table of entry points is all-or-nothing: either every required
//! symbol resolves, or loading fails naming the first symbol that did
//! not, and no table is handed out.

use vstd::prelude::*;

use crate::error::PvRecorderError;
use crate::error::PvRecorderErrorStatus;
use crate::error::lemma_mentions_infix;
use crate::error::mentions;
use crate::port::SymbolSource;

verus! {

/// How many entry points the native library must export.
pub const ENTRY_POINT_COUNT: usize = 12;

/// The exported name of each required entry point, in the order they
/// are resolved.
pub open spec fn spec_entry_point_name(index: int) -> Seq<char> {
    if index == 0 {
        "pv_recorder_init"@
    } else if index == 1 {
        "pv_recorder_delete"@
    } else if index == 2 {
        "pv_recorder_start"@
    } else if index == 3 {
        "pv_recorder_stop"@
    } else if index == 4 {
        "pv_recorder_read"@
    } else if index == 5 {
        "pv_recorder_set_debug_logging"@
    } else if index == 6 {
        "pv_recorder_get_is_recording"@
    } else if index == 7 {
        "pv_recorder_get_selected_device"@
    } else if index == 8 {
        "pv_recorder_get_available_devices"@
    } else if index == 9 {
        "pv_recorder_free_available_devices"@
    } else if index == 10 {
        "pv_recorder_sample_rate"@
    } else {
        "pv_recorder_version"@
    }
}

/// The exported name of one required entry point.
pub fn entry_point_name(index: usize) -> (r: &'static str)
    requires
        index < ENTRY_POINT_COUNT,
    ensures
        r@ == spec_entry_point_name(index as int),
{
    if index == 0 {
        "pv_recorder_init"
    } else if index == 1 {
        "pv_recorder_delete"
    } else if index == 2 {
        "pv_recorder_start"
    } else if index == 3 {
        "pv_recorder_stop"
    } else if index == 4 {
        "pv_recorder_read"
    } else if index == 5 {
        "pv_recorder_set_debug_logging"
    } else if index == 6 {
        "pv_recorder_get_is_recording"
    } else if index == 7 {
        "pv_recorder_get_selected_device"
    } else if index == 8 {
        "pv_recorder_get_available_devices"
    } else if index == 9 {
        "pv_recorder_free_available_devices"
    } else if index == 10 {
        "pv_recorder_sample_rate"
    } else {
        "pv_recorder_version"
    }
}

/// The message reported when the dynamic library itself cannot be
/// loaded.
pub open spec fn spec_library_message(detail: Seq<char>) -> Seq<char> {
    "Failed to load pvrecorder dynamic library: "@ + detail
}

/// The error for a dynamic library that could not be loaded; `detail`
/// carries what the loading layer reported.
pub fn library_load_error(detail: &str) -> (r: PvRecorderError)
    ensures
        r.spec_status() is LibraryLoadError,
        r.spec_message() == spec_library_message(detail@),
{
    let mut m = "Failed to load pvrecorder dynamic library: ".to_owned();
    m.append(detail);
    PvRecorderError::new(PvRecorderErrorStatus::LibraryLoadError, m.as_str())
}

/// The message reported when one entry point is missing.
pub open spec fn spec_symbol_message(symbol: Seq<char>) -> Seq<char> {
    "Failed to load function symbol from pvrecorder library: "@ + symbol
}

/// The error for a missing entry point; the message names the symbol.
pub fn symbol_load_error(symbol: &str) -> (r: PvRecorderError)
    ensures
        r.spec_status() is LibraryLoadError,
        r.spec_message() == spec_symbol_message(symbol@),
        mentions(r.spec_message(), symbol@),
{
    let mut m = "Failed to load function symbol from pvrecorder library: ".to_owned();
    m.append(symbol);
    proof {
        assert(m@ =~= "Failed to load function symbol from pvrecorder library: "@ + symbol@
            + Seq::<char>::empty());
        lemma_mentions_infix(
            "Failed to load function symbol from pvrecorder library: "@,
            symbol@,
            Seq::<char>::empty(),
        );
    }
    PvRecorderError::new(PvRecorderErrorStatus::LibraryLoadError, m.as_str())
}

/// Resolves every required entry point from `source`, in order,
/// failing on the first symbol the source does not offer. Nothing is
/// resolved past a missing symbol, so a partial table is never kept.
pub fn load_entry_points<S: SymbolSource>(source: &mut S) -> (r: Result<(), PvRecorderError>)
    ensures
        r is Err ==> {
            &&& (r->Err_0).spec_status() is LibraryLoadError
            &&& exists|j: int|
                0 <= j < ENTRY_POINT_COUNT && (r->Err_0).spec_message() == spec_symbol_message(
                    #[trigger] spec_entry_point_name(j),
                )
        },
{
    let mut index: usize = 0;
    while index < ENTRY_POINT_COUNT
        invariant
            index <= ENTRY_POINT_COUNT,
        decreases ENTRY_POINT_COUNT - index,
    {
        let name = entry_point_name(index);
        let resolved = source.resolve(name);
        if !resolved {
            return Err(symbol_load_error(name));
        }
        index += 1;
    }
    Ok(())
}

} // verus!
