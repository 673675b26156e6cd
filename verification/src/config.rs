//! What is known of one file before its import starts: its kind, its part
//! number, and the options of the run.

use crate::cli::Cli;
use crate::text::{chars_of, find, first_occurrence, occurs_at};
use crate::tipo_de_arquivo::TipoDeArquivo;
use vstd::prelude::*;

verus! {

/// The token that precedes the part number in the name of a file of a large
/// table.
pub open spec fn part_marker() -> Seq<char> {
    ".K03200Y"@
}

/// The decimal digit that `c` is, if it is one.
pub open spec fn digit_of(c: char) -> Option<nat> {
    if '0' <= c <= '9' {
        Some((c as u32 - '0' as u32) as nat)
    } else {
        None
    }
}

/// The part number that a file's name shows: the digit that follows the first
/// part marker. A name without a marker, or without a digit behind it, shows
/// none and is taken as part 0.
pub open spec fn part_of_filename(name: Seq<char>) -> nat {
    match first_occurrence(name, part_marker()) {
        Some(at) => {
            let place = at + part_marker().len();
            if place < name.len() && digit_of(name[place]) is Some {
                digit_of(name[place])->0
            } else {
                0
            }
        },
        None => 0,
    }
}

/// The part number that a file's name shows.
pub fn part_number(filename: &str) -> (part: u8)
    ensures
        part == part_of_filename(filename@),
        part <= 9,
{
    let name = chars_of(filename);
    let marker = chars_of(".K03200Y");
    match find(&name, &marker) {
        Some(at) => {
            let length: usize = name.len();
            let place: usize = at + marker.len();
            if place < length {
                let c: char = name[place];
                if '0' <= c && c <= '9' {
                    (c as u32 - '0' as u32) as u8
                } else {
                    0
                }
            } else {
                0
            }
        },
        None => 0,
    }
}

/// The message of a file name that no kind claims.
pub open spec fn invalid_file_type() -> Seq<char> {
    "Tipo de arquivo inválido!"@
}

/// One file to import.
pub struct Config<'a> {
    tipo_de_arquivo: TipoDeArquivo,
    file_part_number: u8,
    args: &'a Cli,
}

impl<'a> Config<'a> {
    /// The kind of the file.
    pub closed spec fn kind(&self) -> TipoDeArquivo {
        self.tipo_de_arquivo
    }

    /// The part number of the file.
    pub closed spec fn part(&self) -> nat {
        self.file_part_number as nat
    }

    /// The options of the run.
    pub closed spec fn options(&self) -> Cli {
        *self.args
    }

    #[verifier::type_invariant]
    spec fn part_is_a_digit(&self) -> bool {
        self.file_part_number <= 9
    }

    /// Classifies the file called `filename`; fails where no kind claims the
    /// name.
    pub fn new(filename: &str, args: &'a Cli) -> (r: Result<Config<'a>, &'static str>)
        ensures
            match r {
                Ok(config) => {
                    &&& TipoDeArquivo::of_filename(filename@) == Some(config.kind())
                    &&& config.part() == part_of_filename(filename@)
                    &&& config.options() == *args
                },
                Err(message) => {
                    &&& TipoDeArquivo::of_filename(filename@) is None
                    &&& message@ == invalid_file_type()
                },
            },
    {
        let file_part_number = part_number(filename);
        match TipoDeArquivo::from_str(filename) {
            Ok(v) => Ok(Config { tipo_de_arquivo: v, file_part_number, args }),
            Err(_) => Err("Tipo de arquivo inválido!"),
        }
    }

    /// The kind of the file.
    pub fn tipo_de_arquivo(&self) -> (kind: &TipoDeArquivo)
        ensures
            *kind == self.kind(),
    {
        &self.tipo_de_arquivo
    }

    /// The part number of the file, 0 to 9.
    pub fn file_part_number(&self) -> (part: u8)
        ensures
            part == self.part(),
            part <= 9,
    {
        proof {
            use_type_invariant(self);
        }
        self.file_part_number
    }

    /// Whether this is the first file of its table.
    pub fn is_first_file_number(&self) -> (first: bool)
        ensures
            first == (self.part() == 0),
    {
        self.file_part_number == 0
    }

    /// Whether this is the last file of its table.
    pub fn is_last_file_number(&self) -> (last: bool)
        ensures
            last == (self.part() == self.kind().last_part()),
    {
        self.file_part_number == self.tipo_de_arquivo.last_part_number()
    }

    /// How many records go into one bulk write.
    pub fn rows_per_insert(&self) -> (rows: usize)
        ensures
            rows == self.options().rows_per_insert,
    {
        self.args.rows_per_insert
    }

    /// Whether progress is reported.
    pub fn verbose(&self) -> (on: bool)
        ensures
            on == self.options().verbose,
    {
        self.args.verbose
    }

    /// Whether the target table is said to be empty.
    pub fn empty(&self) -> (on: bool)
        ensures
            on == self.options().empty,
    {
        self.args.empty
    }

    /// Whether the table is emptied before its first part.
    pub fn truncate_table(&self) -> (on: bool)
        ensures
            on == self.options().truncate_table,
    {
        self.args.truncate_table
    }

    /// Whether indexes and keys are dropped and built again around the load.
    pub fn drop_indexes(&self) -> (on: bool)
        ensures
            on == self.options().drop_indexes,
    {
        self.args.drop_indexes
    }

    /// Whether a file on record as imported is imported again.
    pub fn force(&self) -> (on: bool)
        ensures
            on == self.options().force,
    {
        self.args.force
    }
}

} // verus!
