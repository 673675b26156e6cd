//! The record of imported files, as the import machine reads and writes it:
//! one line for each file name, put there when an import of the file ends
//! well, replaced by a later import of the same file, and never taken away.

use crate::import::{recorded_rows, skips};
use vstd::prelude::*;

verus! {

/// The record of imported files: for each file name on record, the row
/// count of its last import.
pub type Ledger = Map<Seq<char>, nat>;

/// Whether the file is on record as imported.
pub open spec fn on_record(ledger: Ledger, filename: Seq<char>) -> bool {
    ledger.dom().contains(filename)
}

/// How many rows a run over the file maps: none where the file is left
/// out, else all `rows` of the file.
pub open spec fn rows_processed(ledger: Ledger, filename: Seq<char>, force: bool, rows: nat) -> nat {
    if skips(on_record(ledger, filename), force) {
        0
    } else {
        rows
    }
}

/// The record after a run over the file that ended well: unchanged where
/// the file was left out, else with the line of this import in the place of
/// any older one.
pub open spec fn ledger_after(ledger: Ledger, filename: Seq<char>, force: bool, rows: nat) -> Ledger {
    if skips(on_record(ledger, filename), force) {
        ledger
    } else {
        ledger.insert(filename, recorded_rows(rows))
    }
}

/// After a run over a file that ended well, the file is on record.
pub proof fn lemma_imported_file_is_on_record(
    ledger: Ledger,
    filename: Seq<char>,
    force: bool,
    rows: nat,
)
    ensures
        on_record(ledger_after(ledger, filename, force, rows), filename),
{
}

/// Importing a file twice without force processes it once: the second run
/// maps no row and leaves the record as the first run left it.
pub proof fn lemma_second_run_is_left_out(
    ledger: Ledger,
    filename: Seq<char>,
    force: bool,
    first_rows: nat,
    second_rows: nat,
)
    ensures
        ({
            let after_first = ledger_after(ledger, filename, force, first_rows);
            &&& rows_processed(after_first, filename, false, second_rows) == 0
            &&& ledger_after(after_first, filename, false, second_rows) == after_first
        }),
{
}

/// Importing a file again with force processes all of it, and the record
/// then holds the row count of that run alone.
pub proof fn lemma_forced_run_replaces_the_line(
    ledger: Ledger,
    filename: Seq<char>,
    force: bool,
    first_rows: nat,
    second_rows: nat,
)
    ensures
        ({
            let after_first = ledger_after(ledger, filename, force, first_rows);
            let after_second = ledger_after(after_first, filename, true, second_rows);
            &&& rows_processed(after_first, filename, true, second_rows) == second_rows
            &&& after_second[filename] == recorded_rows(second_rows)
            &&& after_second.dom() == after_first.dom()
        }),
{
}

/// A run over one file changes no line of another file.
pub proof fn lemma_other_files_keep_their_lines(
    ledger: Ledger,
    filename: Seq<char>,
    force: bool,
    rows: nat,
    other: Seq<char>,
)
    requires
        other != filename,
    ensures
        on_record(ledger_after(ledger, filename, force, rows), other) == on_record(ledger, other),
        on_record(ledger, other) ==> ledger_after(ledger, filename, force, rows)[other]
            == ledger[other],
{
}

} // verus!
