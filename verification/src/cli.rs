//! The options of a run, as the command line gave them.

use vstd::prelude::*;

verus! {

/// The options of a run.
pub struct Cli {
    /// How many records go into one bulk write.
    pub rows_per_insert: usize,
    /// Report progress after each bulk write.
    pub verbose: bool,
    /// The target table is empty: insert, do not replace.
    pub empty: bool,
    /// Drop indexes and keys before the first part of a large table, and
    /// build them again after the last.
    pub drop_indexes: bool,
    /// Empty the table before the first part.
    pub truncate_table: bool,
    /// `path_to_import` names a directory of archives.
    pub folder: bool,
    /// Import a file again even where it is on record as imported.
    pub force: bool,
    /// The archive, or the directory of archives, to import.
    pub path_to_import: String,
}

} // verus!
