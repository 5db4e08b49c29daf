//! The `quarantine` command: how many entries a listing shows, finding an
//! entry by an id prefix, when a restore or delete waits for `--force`, and
//! the unit a file size is shown in.

use crate::cli::QuarantineListArgs;
use crate::commands::alerts::id_matches;
use crate::ipc::QuarantineEntry;
use crate::text::{chars_of, starts_with};
use vstd::prelude::*;

verus! {

/// The listing shown when `quarantine` is given no subcommand: up to 50
/// entries.
pub fn default_list_args() -> (r: QuarantineListArgs)
    ensures
        r.limit == 50,
{
    QuarantineListArgs { limit: 50 }
}

/// The first `limit` entries, in the order the agent sent them.
pub fn take_entries(files: Vec<QuarantineEntry>, limit: usize) -> (r: Vec<QuarantineEntry>)
    ensures
        r@ == crate::commands::events::first_n(files@, limit as nat),
{
    let mut files = files;
    if limit < files.len() {
        files.truncate(limit);
    }
    files
}

/// The first entry whose id starts with `id`.
pub fn find_entry(files: &[QuarantineEntry], id: &str) -> (r: Option<usize>)
    ensures
        match r {
            Some(i) => i < files@.len() && id_matches(files@[i as int].id@, id@) && forall|
                j: int,
            |
                0 <= j < i ==> !id_matches(#[trigger] files@[j].id@, id@),
            None => forall|j: int|
                0 <= j < files@.len() ==> !id_matches(#[trigger] files@[j].id@, id@),
        },
{
    let asked = chars_of(id);
    let mut i: usize = 0;
    while i < files.len()
        invariant
            0 <= i <= files@.len(),
            asked@ == id@,
            forall|j: int| 0 <= j < i ==> !id_matches(#[trigger] files@[j].id@, id@),
        decreases files@.len() - i,
    {
        let cand = chars_of(files[i].id.as_str());
        if starts_with(cand.as_slice(), asked.as_slice()) {
            return Some(i);
        }
        i = i + 1;
    }
    None
}

/// What a restore or delete does first.
#[derive(Clone, Copy, Debug, PartialEq, Eq, Structural)]
pub enum RemovalStep {
    /// Show a warning and stop: `--force` was not given on table output.
    WarnOnly,
    /// Report in JSON that `--force` is needed, and stop.
    RefuseAsJson,
    /// Go ahead: `--force` was given.
    Proceed,
}

/// A restore or delete goes ahead only with `--force`; without it nothing
/// is asked of the agent, and the refusal is shown as a warning or, under
/// JSON output, as a JSON report.
pub fn removal_step(force: bool, json: bool) -> (r: RemovalStep)
    ensures
        r == (if force {
            RemovalStep::Proceed
        } else if json {
            RemovalStep::RefuseAsJson
        } else {
            RemovalStep::WarnOnly
        }),
        (r == RemovalStep::Proceed) == force,
{
    if force {
        RemovalStep::Proceed
    } else if json {
        RemovalStep::RefuseAsJson
    } else {
        RemovalStep::WarnOnly
    }
}

/// The unit a file size is shown in.
#[derive(Clone, Copy, Debug, PartialEq, Eq, Structural)]
pub enum SizeUnit {
    Bytes,
    KiloBytes,
    MegaBytes,
    GigaBytes,
}

/// Bytes below 1 KiB, then KB below 1 MiB, MB below 1 GiB, GB above.
pub open spec fn size_unit_spec(bytes: u64) -> SizeUnit {
    if bytes < 1024 {
        SizeUnit::Bytes
    } else if bytes < 1024 * 1024 {
        SizeUnit::KiloBytes
    } else if bytes < 1024 * 1024 * 1024 {
        SizeUnit::MegaBytes
    } else {
        SizeUnit::GigaBytes
    }
}

/// The unit a file size is shown in.
pub fn size_unit(bytes: u64) -> (r: SizeUnit)
    ensures
        r == size_unit_spec(bytes),
{
    if bytes < 1024 {
        SizeUnit::Bytes
    } else if bytes < 1024 * 1024 {
        SizeUnit::KiloBytes
    } else if bytes < 1024 * 1024 * 1024 {
        SizeUnit::MegaBytes
    } else {
        SizeUnit::GigaBytes
    }
}

} // verus!
