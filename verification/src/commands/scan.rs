//! The `scan` command: which scan a cancellation names.

use vstd::prelude::*;

verus! {

/// The scan a cancellation names: the id given, or `current`.
pub fn cancel_scan_id(scan_id: &Option<String>) -> (r: String)
    ensures
        match scan_id {
            Some(id) => r@ == id@,
            None => r@ == "current"@,
        },
{
    match scan_id {
        Some(id) => id.clone(),
        None => "current".to_owned(),
    }
}

} // verus!
