//! The operations the user interface invokes, with their errors turned into
//! the messages it shows.
use vstd::prelude::*;

use crate::history::{is_error_text, HistoryEntry, HistoryError, HistoryManager};

verus! {

/// Whether `out` is `r` with its error turned into the error's message.
pub open spec fn is_reported<T>(r: Result<T, HistoryError>, out: Result<T, String>) -> bool {
    match r {
        Ok(v) => out == Ok::<T, String>(v),
        Err(e) => out matches Err(m) && is_error_text(e, m),
    }
}

/// `r`, with an error replaced by its message.
pub fn report<T>(r: Result<T, HistoryError>) -> (out: Result<T, String>)
    ensures
        is_reported(r, out),
{
    match r {
        Ok(v) => Ok(v),
        Err(e) => Err(e.message()),
    }
}

/// The whole history, newest first.
pub fn get_history(history: &HistoryManager) -> (r: Result<Vec<HistoryEntry>, String>)
    ensures
        r matches Ok(v) ==> forall|i: int, j: int|
            0 <= i < j < v@.len() ==> #[trigger] v@[i].timestamp >= #[trigger] v@[j].timestamp,
        r matches Err(m) ==> exists|e: HistoryError| e is Database && #[trigger] is_error_text(e, m),
{
    report(history.get_entries())
}

/// Removes one transcription from the history.
pub fn delete_history_entry(history: &HistoryManager, id: i64) -> (r: Result<(), String>)
    ensures
        r matches Err(m) ==> exists|e: HistoryError| e is Database && #[trigger] is_error_text(e, m),
{
    report(history.delete_entry(id))
}

/// Empties the history.
pub fn clear_history(history: &HistoryManager) -> (r: Result<(), String>)
    ensures
        r matches Err(m) ==> exists|e: HistoryError| e is Database && #[trigger] is_error_text(e, m),
{
    report(history.clear_all())
}

/// Whether the keyboard simulator is to be created: never without the
/// accessibility permission, and not again once it exists.
pub fn enigo_setup(accessibility_trusted: bool, already_initialized: bool) -> (r: Result<bool, String>)
    ensures
        match r {
            Ok(create) => accessibility_trusted && create == !already_initialized,
            Err(e) => !accessibility_trusted && e@ == "Accessibility not granted"@,
        },
{
    if !accessibility_trusted {
        return Err(String::from_str("Accessibility not granted"));
    }
    Ok(!already_initialized)
}

} // verus!
