//! The import of one file, as a machine of states: it is told what happened
//! and answers with what to do next. Reading rows, talking to the database
//! and taking the time are the caller's part; every decision is made here.

use crate::batch::{all_writes, buffered_after, full_writes, Batch};
use crate::cli::Cli;
use crate::config::Config;
use crate::database::{
    after_plan, before_plan, plan_view, restore_plan, write_mode_of, Database, OnFailure,
    Statement, WriteMode,
};
use crate::mapper::{is_record_of, map_row, row_fault};
use crate::models::{NewArquivoImportado, TypedRecord};
use crate::row::{RawRow, RowError};
use crate::tipo_de_arquivo::TipoDeArquivo;
use vstd::prelude::*;

verus! {

/// Rows per second; a run of less than a second counts its rows as the rate.
pub open spec fn rate(rows: nat, seconds: nat) -> nat {
    if seconds == 0 {
        rows
    } else {
        rows / seconds
    }
}

/// Rows per second; a run of less than a second counts its rows as the rate.
pub fn records_per_seconds(num_records: u64, duration_in_seconds: u64) -> (r: u64)
    ensures
        r == rate(num_records as nat, duration_in_seconds as nat),
{
    if duration_in_seconds == 0 {
        return num_records;
    }
    num_records / duration_in_seconds
}

/// Whether a file is left out: it is on record as imported, and the run
/// does not force it.
pub open spec fn skips(already_imported: bool, force: bool) -> bool {
    already_imported && !force
}

/// Where the import of a file stands.
#[derive(Clone, Copy, Debug, PartialEq, Eq, Structural)]
pub enum Phase {
    /// Nothing has happened yet.
    Idle,
    /// The record of imported files is being asked for this file.
    Start,
    /// The statements before the first row are running.
    Preparing,
    /// A row is awaited.
    Reading,
    /// A full batch is being written.
    Writing,
    /// What was left at the end of the file is being written.
    LastWrite,
    /// The statements after the last row are running.
    Finalizing,
    /// The import is being put on record.
    Recording,
    /// After a failure, the checks are being brought back.
    Restoring,
    /// An outcome was given.
    Done,
}

/// What the caller reports to the machine.
#[derive(Clone, Debug, PartialEq, Eq)]
pub enum Event {
    /// Whether the file is on record as imported.
    Ledger { already_imported: bool },
    /// What was asked for has been done.
    Succeeded,
    /// What was asked for has failed.
    Failed,
    /// The next row of the file.
    Row(RawRow),
    /// The file has no more rows.
    EndOfRows,
}

/// Why the import of a file failed.
#[derive(Clone, Copy, Debug, PartialEq, Eq, Structural)]
pub enum ImportError {
    /// The row with this number, counted from 1, could not be mapped.
    Row { line: u64, error: RowError },
    /// A statement whose failure is fatal has failed.
    Statement,
    /// A bulk write has failed.
    Write,
    /// The file could not be read to its end.
    Read,
    /// The import could not be put on record.
    Ledger,
    /// The file has more rows than can be counted.
    TooManyRows,
    /// The caller reported what the machine was not waiting for.
    Unexpected,
}

/// How far an import has come.
#[derive(Clone, Copy, Debug, PartialEq, Eq, Structural)]
pub struct Progress {
    pub rows: u64,
    pub rows_per_second: u64,
}

/// What a finished import has done.
#[derive(Clone, Copy, Debug, PartialEq, Eq, Structural)]
pub struct Summary {
    pub rows: u64,
    pub seconds: u64,
    pub millis: u64,
    pub rows_per_second: u64,
}

/// How the import of a file ended.
#[derive(Clone, Copy, Debug, PartialEq, Eq, Structural)]
pub enum Outcome {
    /// The file was on record as imported and was left out.
    Skipped,
    /// The file was imported.
    Imported(Summary),
    /// The import failed; nothing was put on record.
    Failed(ImportError),
}

/// What the machine asks the caller to do.
#[derive(Clone, Debug, PartialEq, Eq)]
pub enum Action {
    /// Look the file up in the record of imported files, and report `Ledger`.
    LookUp { filename: String },
    /// Run the statement.
    Execute(Statement),
    /// Read the next row; report it, or the end of the rows. Progress is
    /// there to be shown.
    ReadRow { progress: Option<Progress> },
    /// Write the records in one bulk write.
    Write { records: Vec<TypedRecord>, mode: WriteMode },
    /// Put the import on record, replacing an older entry of the file.
    Record(NewArquivoImportado),
    /// Nothing more: the import has ended.
    Finish(Outcome),
}

/// The progress to show after a bulk write.
pub open spec fn progress_of(verbose: bool, rows: nat, millis: nat) -> Option<Progress> {
    if verbose {
        Some(Progress { rows: rows as u64, rows_per_second: rate(rows, millis / 1000) as u64 })
    } else {
        None
    }
}

/// The summary of an import of `rows` rows that took `millis` milliseconds.
pub open spec fn summary_of(rows: nat, millis: nat) -> Summary {
    Summary {
        rows: rows as u64,
        seconds: (millis / 1000) as u64,
        millis: millis as u64,
        rows_per_second: rate(rows, millis / 1000) as u64,
    }
}

/// The row count as the record of imported files holds it: counts beyond
/// its column's range are held as the largest it can hold.
pub open spec fn recorded_rows(rows: nat) -> nat {
    if rows > 4294967295 {
        4294967295
    } else {
        rows
    }
}

/// `entry` puts on record that the file was imported into `table`, with
/// that many rows, in that many milliseconds.
pub open spec fn is_entry(
    entry: NewArquivoImportado,
    filename: Seq<char>,
    table: Seq<char>,
    rows: nat,
    millis: nat,
) -> bool {
    &&& entry.nome_do_arquivo@ == filename
    &&& entry.tabela@ == table
    &&& entry.registros_processados == recorded_rows(rows)
    &&& entry.tempo_decorrido_em_segundos == Some((millis / 1000) as u64)
}

/// The capacity of the batches of a file: the four large tables take what
/// the run asks for; a code table is written record by record.
pub open spec fn batch_capacity(kind: TipoDeArquivo, options: Cli) -> nat {
    match kind {
        TipoDeArquivo::Empresas => options.rows_per_insert as nat,
        TipoDeArquivo::Estabelecimentos => options.rows_per_insert as nat,
        TipoDeArquivo::Socios => options.rows_per_insert as nat,
        TipoDeArquivo::Simples => options.rows_per_insert as nat,
        _ => 1,
    }
}

/// The import of one file.
pub struct Import<'a> {
    config: &'a Config<'a>,
    filename: String,
    phase: Phase,
    plan: Vec<Statement>,
    next: usize,
    fatal: bool,
    batch: Batch,
    num_records: u64,
    error: Option<ImportError>,
    finished_millis: u64,
}

impl<'a> Import<'a> {
    /// The kind of the file.
    pub closed spec fn kind(&self) -> TipoDeArquivo {
        self.config.kind()
    }

    /// The part number of the file.
    pub closed spec fn part(&self) -> nat {
        self.config.part()
    }

    /// The options of the run.
    pub closed spec fn options(&self) -> Cli {
        self.config.options()
    }

    /// The name of the file, once `run` was told it.
    pub closed spec fn filename(&self) -> Seq<char> {
        self.filename@
    }

    /// Where the import stands.
    pub closed spec fn phase(&self) -> Phase {
        self.phase
    }

    /// The statements of the plan that is running.
    pub closed spec fn plan(&self) -> Seq<(Seq<char>, OnFailure)> {
        plan_view(self.plan@)
    }

    /// How many statements of the plan were handed out.
    pub closed spec fn issued(&self) -> nat {
        self.next as nat
    }

    /// Whether a failure of the statement that was handed out last is fatal.
    pub closed spec fn fatal(&self) -> bool {
        self.fatal
    }

    /// The records that wait for their bulk write.
    pub closed spec fn buffered(&self) -> Seq<TypedRecord> {
        self.batch@
    }

    /// The number of records at which a batch is written.
    pub closed spec fn capacity(&self) -> nat {
        self.batch.capacity()
    }

    /// How many rows were mapped.
    pub closed spec fn rows(&self) -> nat {
        self.num_records as nat
    }

    /// Why the import is failing, once it does.
    pub closed spec fn error(&self) -> Option<ImportError> {
        self.error
    }

    /// The time that the import took, known once its last statement ran.
    pub closed spec fn millis(&self) -> nat {
        self.finished_millis as nat
    }

    /// A new import of the file of `config`.
    pub fn new(config: &'a Config<'a>) -> (import: Import<'a>)
        ensures
            import.kind() == config.kind(),
            import.part() == config.part(),
            import.options() == config.options(),
            import.phase() == Phase::Idle,
            import.rows() == 0,
            import.buffered().len() == 0,
            import.capacity() == batch_capacity(config.kind(), config.options()),
            import.error() is None,
    {
        let capacity: usize = match config.tipo_de_arquivo() {
            TipoDeArquivo::Empresas => config.rows_per_insert(),
            TipoDeArquivo::Estabelecimentos => config.rows_per_insert(),
            TipoDeArquivo::Socios => config.rows_per_insert(),
            TipoDeArquivo::Simples => config.rows_per_insert(),
            _ => 1,
        };
        Import {
            config,
            filename: String::new(),
            phase: Phase::Idle,
            plan: Vec::new(),
            next: 0,
            fatal: false,
            batch: Batch::new(capacity),
            num_records: 0,
            error: None,
            finished_millis: 0,
        }
    }

    /// How many rows were mapped so far.
    pub fn num_records(&self) -> (rows: u64)
        ensures
            rows == self.rows(),
    {
        self.num_records
    }

    /// Where the import stands.
    pub fn current_phase(&self) -> (phase: Phase)
        ensures
            phase == self.phase(),
    {
        self.phase
    }

    /// Whether what waits is what the rows read so far leave waiting. This
    /// holds from the start of an import up to the end of its rows.
    pub open spec fn consistent(&self) -> bool {
        (self.phase() == Phase::Idle || self.phase() == Phase::Start || self.phase()
            == Phase::Preparing || self.phase() == Phase::Reading || self.phase() == Phase::Writing)
            ==> self.buffered().len() == buffered_after(self.rows(), self.capacity())
    }

    /// Starts the import of the file called `filename`: the caller is asked
    /// whether that file is on record as imported.
    pub fn run(&mut self, filename: &str) -> (action: Action)
        ensures
            same_file(*old(self), *final(self)),
            old(self).phase() == Phase::Idle ==> {
                &&& final(self).phase() == Phase::Start
                &&& final(self).filename() == filename@
                &&& is_look_up(action, filename@)
                &&& final(self).rows() == old(self).rows()
                &&& final(self).buffered() == old(self).buffered()
                &&& final(self).error() == old(self).error()
            },
            old(self).phase() != Phase::Idle ==> finishes(
                *old(self),
                *final(self),
                action,
                Outcome::Failed(ImportError::Unexpected),
            ),
            old(self).consistent() ==> final(self).consistent(),
    {
        match self.phase {
            Phase::Idle => {
                self.filename = filename.to_owned();
                self.phase = Phase::Start;
                Action::LookUp { filename: filename.to_owned() }
            },
            _ => self.finish(Outcome::Failed(ImportError::Unexpected)),
        }
    }

    /// Takes what happened and says what to do next. `elapsed_millis` is the
    /// time since the import started.
    pub fn step(&mut self, event: Event, elapsed_millis: u64) -> (action: Action)
        ensures
            is_step(*old(self), event, elapsed_millis, *final(self), action),
            old(self).consistent() ==> final(self).consistent(),
    {
        match (self.phase, event) {
            (Phase::Start, Event::Ledger { already_imported }) => {
                if already_imported && !self.config.force() {
                    self.finish(Outcome::Skipped)
                } else {
                    let plan = Database::new(self.config).before_table_update();
                    self.start_plan(plan, Phase::Preparing)
                }
            },
            (Phase::Preparing, Event::Succeeded) => self.advance(elapsed_millis),
            (Phase::Preparing, Event::Failed) => {
                if self.fatal {
                    self.abort(ImportError::Statement)
                } else {
                    self.advance(elapsed_millis)
                }
            },
            (Phase::Finalizing, Event::Succeeded) => self.advance(elapsed_millis),
            (Phase::Finalizing, Event::Failed) => {
                if self.fatal {
                    self.abort(ImportError::Statement)
                } else {
                    self.advance(elapsed_millis)
                }
            },
            (Phase::Restoring, Event::Succeeded) => self.advance(elapsed_millis),
            (Phase::Restoring, Event::Failed) => self.advance(elapsed_millis),
            (Phase::Reading, Event::Row(row)) => self.read(&row),
            (Phase::Reading, Event::EndOfRows) => {
                if self.batch.len() > 0 {
                    let records = self.batch.take();
                    self.phase = Phase::LastWrite;
                    Action::Write { records, mode: Database::new(self.config).write_mode() }
                } else {
                    let plan = Database::new(self.config).after_table_update();
                    self.start_plan(plan, Phase::Finalizing)
                }
            },
            (Phase::Reading, Event::Failed) => self.abort(ImportError::Read),
            (Phase::Writing, Event::Succeeded) => {
                self.phase = Phase::Reading;
                let progress = if self.config.verbose() {
                    Some(
                        Progress {
                            rows: self.num_records,
                            rows_per_second: records_per_seconds(
                                self.num_records,
                                elapsed_millis / 1000,
                            ),
                        },
                    )
                } else {
                    None
                };
                Action::ReadRow { progress }
            },
            (Phase::Writing, Event::Failed) => self.abort(ImportError::Write),
            (Phase::LastWrite, Event::Succeeded) => {
                let plan = Database::new(self.config).after_table_update();
                self.start_plan(plan, Phase::Finalizing)
            },
            (Phase::LastWrite, Event::Failed) => self.abort(ImportError::Write),
            (Phase::Recording, Event::Succeeded) => {
                let seconds: u64 = self.finished_millis / 1000;
                let summary = Summary {
                    rows: self.num_records,
                    seconds,
                    millis: self.finished_millis,
                    rows_per_second: records_per_seconds(self.num_records, seconds),
                };
                self.finish(Outcome::Imported(summary))
            },
            (Phase::Recording, Event::Failed) => self.finish(Outcome::Failed(ImportError::Ledger)),
            _ => self.finish(Outcome::Failed(ImportError::Unexpected)),
        }
    }

    fn finish(&mut self, outcome: Outcome) -> (action: Action)
        ensures
            *final(self) == (Import { phase: Phase::Done, ..*old(self) }),
            is_finish(action, outcome),
    {
        self.phase = Phase::Done;
        Action::Finish(outcome)
    }

    fn start_plan(&mut self, plan: Vec<Statement>, phase: Phase) -> (action: Action)
        requires
            plan@.len() > 0,
        ensures
            *final(self) == (Import {
                phase,
                plan,
                next: 1,
                fatal: plan@[0].on_failure == OnFailure::Abort,
                ..*old(self)
            }),
            is_execute(action, plan@[0]@),
    {
        let first = copy_of(&plan[0]);
        self.fatal = is_fatal(&first);
        self.plan = plan;
        self.next = 1;
        self.phase = phase;
        Action::Execute(first)
    }

    fn abort(&mut self, error: ImportError) -> (action: Action)
        ensures
            aborts(*old(self), *final(self), action, error),
            same_file(*old(self), *final(self)),
            final(self).filename() == old(self).filename(),
    {
        let _ = self.batch.take();
        self.error = Some(error);
        let plan = Database::new(self.config).restore_checks();
        self.start_plan(plan, Phase::Restoring)
    }

    fn advance(&mut self, elapsed_millis: u64) -> (action: Action)
        ensures
            continues(*old(self), *final(self), action, elapsed_millis),
            same_file(*old(self), *final(self)),
            final(self).filename() == old(self).filename(),
            old(self).phase() == Phase::Preparing ==> final(self).phase() == Phase::Preparing
                || final(self).phase() == Phase::Reading,
    {
        if self.next < self.plan.len() {
            let statement = copy_of(&self.plan[self.next]);
            self.fatal = is_fatal(&statement);
            self.next = self.next + 1;
            return Action::Execute(statement);
        }
        match self.phase {
            Phase::Preparing => {
                self.phase = Phase::Reading;
                Action::ReadRow { progress: None }
            },
            Phase::Finalizing => {
                self.phase = Phase::Recording;
                self.finished_millis = elapsed_millis;
                let rows: u32 = if self.num_records > 4294967295 {
                    4294967295
                } else {
                    self.num_records as u32
                };
                Action::Record(
                    NewArquivoImportado {
                        nome_do_arquivo: self.filename.clone(),
                        tabela: self.config.tipo_de_arquivo().table_name().to_owned(),
                        registros_processados: rows,
                        tempo_decorrido_em_segundos: Some(elapsed_millis / 1000),
                    },
                )
            },
            _ => {
                let error = match self.error {
                    Some(error) => error,
                    None => ImportError::Unexpected,
                };
                self.finish(Outcome::Failed(error))
            },
        }
    }

    fn read(&mut self, row: &RawRow) -> (action: Action)
        requires
            old(self).phase() == Phase::Reading,
        ensures
            reads(*old(self), row@, *final(self), action),
            same_file(*old(self), *final(self)),
            final(self).filename() == old(self).filename(),
            old(self).consistent() ==> final(self).consistent(),
    {
        if self.num_records == u64::MAX {
            return self.abort(ImportError::TooManyRows);
        }
        match map_row(self.config.tipo_de_arquivo(), row) {
            Err(error) => self.abort(ImportError::Row { line: self.num_records + 1, error }),
            Ok(record) => {
                self.num_records = self.num_records + 1;
                let ghost waiting = self.batch@;
                match self.batch.push(record) {
                    Some(records) => {
                        assert(records@.drop_last() =~= waiting);
                        self.phase = Phase::Writing;
                        Action::Write { records, mode: Database::new(self.config).write_mode() }
                    },
                    None => {
                        assert(self.batch@.drop_last() =~= waiting);
                        Action::ReadRow { progress: None }
                    },
                }
            },
        }
    }
}

fn copy_of(statement: &Statement) -> (r: Statement)
    ensures
        r@ == statement@,
{
    Statement { sql: statement.sql.clone(), on_failure: statement.on_failure }
}

fn is_fatal(statement: &Statement) -> (r: bool)
    ensures
        r == (statement.on_failure == OnFailure::Abort),
{
    match statement.on_failure {
        OnFailure::Abort => true,
        OnFailure::Warn => false,
    }
}

/// The action asks for the ledger entry of the file.
pub open spec fn is_look_up(action: Action, filename: Seq<char>) -> bool {
    action matches Action::LookUp { filename: name } && name@ == filename
}

/// The action asks to run the statement.
pub open spec fn is_execute(action: Action, statement: (Seq<char>, OnFailure)) -> bool {
    action matches Action::Execute(s) && s@ == statement
}

/// The action asks for the next row, with the given progress to show.
pub open spec fn is_read(action: Action, progress: Option<Progress>) -> bool {
    action matches Action::ReadRow { progress: p } && p == progress
}

/// The action asks to write the records, in the given way.
pub open spec fn is_write(action: Action, records: Seq<TypedRecord>, mode: WriteMode) -> bool {
    action matches Action::Write { records: r, mode: m } && r@ == records && m == mode
}

/// The action asks to put the import on record.
pub open spec fn is_record(
    action: Action,
    filename: Seq<char>,
    table: Seq<char>,
    rows: nat,
    millis: nat,
) -> bool {
    action matches Action::Record(entry) && is_entry(entry, filename, table, rows, millis)
}

/// The action ends the import with the given outcome.
pub open spec fn is_finish(action: Action, outcome: Outcome) -> bool {
    action matches Action::Finish(o) && o == outcome
}

/// The two states are of the same file and run.
pub open spec fn same_file(pre: Import, post: Import) -> bool {
    &&& post.kind() == pre.kind()
    &&& post.part() == pre.part()
    &&& post.options() == pre.options()
    &&& post.capacity() == pre.capacity()
}

/// The import ends.
pub open spec fn finishes(pre: Import, post: Import, action: Action, outcome: Outcome) -> bool {
    &&& post.phase() == Phase::Done
    &&& is_finish(action, outcome)
    &&& post.rows() == pre.rows()
    &&& post.buffered() == pre.buffered()
    &&& post.error() == pre.error()
}

/// A plan starts to run: its first statement is handed out.
pub open spec fn begins(
    pre: Import,
    post: Import,
    action: Action,
    phase: Phase,
    plan: Seq<(Seq<char>, OnFailure)>,
) -> bool {
    &&& plan.len() > 0
    &&& post.phase() == phase
    &&& post.plan() == plan
    &&& post.issued() == 1
    &&& post.fatal() == (plan[0].1 == OnFailure::Abort)
    &&& is_execute(action, plan[0])
    &&& post.rows() == pre.rows()
}

/// A plan starts to run, and nothing else changes.
pub open spec fn starts(
    pre: Import,
    post: Import,
    action: Action,
    phase: Phase,
    plan: Seq<(Seq<char>, OnFailure)>,
) -> bool {
    &&& begins(pre, post, action, phase, plan)
    &&& post.buffered() == pre.buffered()
    &&& post.error() == pre.error()
}

/// The import fails: what waits is dropped, and the checks are brought back
/// before the failure is reported.
pub open spec fn aborts(pre: Import, post: Import, action: Action, error: ImportError) -> bool {
    &&& post.error() == Some(error)
    &&& post.buffered().len() == 0
    &&& begins(pre, post, action, Phase::Restoring, restore_plan())
}

/// A plan has run to its end. After the statements before the first row,
/// rows are read; after those behind the last row, the import is put on
/// record; after those that follow a failure, the failure is reported.
pub open spec fn completes(pre: Import, post: Import, action: Action, elapsed_millis: u64) -> bool {
    match pre.phase() {
        Phase::Preparing => {
            &&& post.phase() == Phase::Reading
            &&& is_read(action, None)
            &&& post.rows() == pre.rows()
            &&& post.buffered() == pre.buffered()
            &&& post.error() == pre.error()
        },
        Phase::Finalizing => {
            &&& post.phase() == Phase::Recording
            &&& post.millis() == elapsed_millis
            &&& is_record(
                action,
                pre.filename(),
                pre.kind().table(),
                pre.rows(),
                elapsed_millis as nat,
            )
            &&& post.rows() == pre.rows()
            &&& post.buffered() == pre.buffered()
            &&& post.error() == pre.error()
        },
        _ => finishes(
            pre,
            post,
            action,
            Outcome::Failed(
                match pre.error() {
                    Some(error) => error,
                    None => ImportError::Unexpected,
                },
            ),
        ),
    }
}

/// The plan that is running goes on: its next statement is handed out, or,
/// where there is none, the plan has run to its end.
pub open spec fn continues(pre: Import, post: Import, action: Action, elapsed_millis: u64) -> bool {
    if pre.issued() < pre.plan().len() {
        &&& post.phase() == pre.phase()
        &&& post.plan() == pre.plan()
        &&& post.issued() == pre.issued() + 1
        &&& post.fatal() == (pre.plan()[pre.issued() as int].1 == OnFailure::Abort)
        &&& is_execute(action, pre.plan()[pre.issued() as int])
        &&& post.rows() == pre.rows()
        &&& post.buffered() == pre.buffered()
        &&& post.error() == pre.error()
    } else {
        completes(pre, post, action, elapsed_millis)
    }
}

/// A row is taken in. A row that cannot be mapped fails the import. A row
/// that fills the batch sends the batch to be written, the new record last;
/// any other row waits.
pub open spec fn reads(pre: Import, row: Seq<Seq<u8>>, post: Import, action: Action) -> bool {
    if pre.rows() >= u64::MAX {
        aborts(pre, post, action, ImportError::TooManyRows)
    } else {
        match row_fault(pre.kind(), row) {
            Some(error) => aborts(
                pre,
                post,
                action,
                ImportError::Row { line: (pre.rows() + 1) as u64, error },
            ),
            None => {
                &&& post.rows() == pre.rows() + 1
                &&& post.error() == pre.error()
                &&& if pre.buffered().len() + 1 == pre.capacity() {
                    &&& post.phase() == Phase::Writing
                    &&& post.buffered().len() == 0
                    &&& action matches Action::Write { records, mode }
                    &&& mode == write_mode_of(pre.kind(), pre.options())
                    &&& records@.len() == pre.buffered().len() + 1
                    &&& records@.drop_last() == pre.buffered()
                    &&& is_record_of(records@.last(), pre.kind(), row)
                } else {
                    &&& post.phase() == Phase::Reading
                    &&& is_read(action, None)
                    &&& post.buffered().len() == pre.buffered().len() + 1
                    &&& post.buffered().drop_last() == pre.buffered()
                    &&& is_record_of(post.buffered().last(), pre.kind(), row)
                }
            },
        }
    }
}

/// What a step does, by the state it finds and the event it is given.
pub open spec fn is_step(
    pre: Import,
    event: Event,
    elapsed_millis: u64,
    post: Import,
    action: Action,
) -> bool {
    &&& same_file(pre, post)
    &&& post.filename() == pre.filename()
    &&& match (pre.phase(), event) {
        (Phase::Start, Event::Ledger { already_imported }) => {
            if skips(already_imported, pre.options().force) {
                finishes(pre, post, action, Outcome::Skipped)
            } else {
                starts(
                    pre,
                    post,
                    action,
                    Phase::Preparing,
                    before_plan(pre.kind(), pre.part(), pre.options()),
                )
            }
        },
        (Phase::Preparing, Event::Succeeded) => continues(pre, post, action, elapsed_millis),
        (Phase::Preparing, Event::Failed) => {
            if pre.fatal() {
                aborts(pre, post, action, ImportError::Statement)
            } else {
                continues(pre, post, action, elapsed_millis)
            }
        },
        (Phase::Finalizing, Event::Succeeded) => continues(pre, post, action, elapsed_millis),
        (Phase::Finalizing, Event::Failed) => {
            if pre.fatal() {
                aborts(pre, post, action, ImportError::Statement)
            } else {
                continues(pre, post, action, elapsed_millis)
            }
        },
        (Phase::Restoring, Event::Succeeded) => continues(pre, post, action, elapsed_millis),
        (Phase::Restoring, Event::Failed) => continues(pre, post, action, elapsed_millis),
        (Phase::Reading, Event::Row(row)) => reads(pre, row@, post, action),
        (Phase::Reading, Event::EndOfRows) => {
            if pre.buffered().len() > 0 {
                &&& post.phase() == Phase::LastWrite
                &&& is_write(action, pre.buffered(), write_mode_of(pre.kind(), pre.options()))
                &&& post.buffered().len() == 0
                &&& post.rows() == pre.rows()
                &&& post.error() == pre.error()
            } else {
                starts(
                    pre,
                    post,
                    action,
                    Phase::Finalizing,
                    after_plan(pre.kind(), pre.part(), pre.options()),
                )
            }
        },
        (Phase::Reading, Event::Failed) => aborts(pre, post, action, ImportError::Read),
        (Phase::Writing, Event::Succeeded) => {
            &&& post.phase() == Phase::Reading
            &&& is_read(
                action,
                progress_of(pre.options().verbose, pre.rows(), elapsed_millis as nat),
            )
            &&& post.rows() == pre.rows()
            &&& post.buffered() == pre.buffered()
            &&& post.error() == pre.error()
        },
        (Phase::Writing, Event::Failed) => aborts(pre, post, action, ImportError::Write),
        (Phase::LastWrite, Event::Succeeded) => starts(
            pre,
            post,
            action,
            Phase::Finalizing,
            after_plan(pre.kind(), pre.part(), pre.options()),
        ),
        (Phase::LastWrite, Event::Failed) => aborts(pre, post, action, ImportError::Write),
        (Phase::Recording, Event::Succeeded) => finishes(
            pre,
            post,
            action,
            Outcome::Imported(summary_of(pre.rows(), pre.millis())),
        ),
        (Phase::Recording, Event::Failed) => finishes(
            pre,
            post,
            action,
            Outcome::Failed(ImportError::Ledger),
        ),
        _ => finishes(pre, post, action, Outcome::Failed(ImportError::Unexpected)),
    }
}

/// A row that maps is sent to be written exactly when the batch becomes full
/// with it, and the write then has the size that the count of the rows
/// gives: the writes of the machine are those of `full_writes`.
pub proof fn lemma_row_follows_the_batch_model(
    pre: Import,
    row: Seq<Seq<u8>>,
    post: Import,
    action: Action,
)
    requires
        pre.consistent(),
        pre.phase() == Phase::Reading,
        pre.rows() < u64::MAX,
        row_fault(pre.kind(), row) is None,
        reads(pre, row, post, action),
        post.capacity() == pre.capacity(),
    ensures
        post.consistent(),
        post.rows() == pre.rows() + 1,
        match action {
            Action::Write { records, .. } => full_writes(post.rows(), pre.capacity())
                == full_writes(pre.rows(), pre.capacity()).push(records@.len()),
            _ => full_writes(post.rows(), pre.capacity()) == full_writes(
                pre.rows(),
                pre.capacity(),
            ),
        },
{
}

/// At the end of the rows, what waits is written, if anything waits: with
/// that, the writes of the machine are those of `all_writes`.
pub proof fn lemma_end_follows_the_batch_model(
    pre: Import,
    elapsed_millis: u64,
    post: Import,
    action: Action,
)
    requires
        pre.consistent(),
        pre.phase() == Phase::Reading,
        is_step(pre, Event::EndOfRows, elapsed_millis, post, action),
    ensures
        match action {
            Action::Write { records, .. } => all_writes(pre.rows(), pre.capacity()) == full_writes(
                pre.rows(),
                pre.capacity(),
            ).push(records@.len()),
            _ => all_writes(pre.rows(), pre.capacity()) == full_writes(pre.rows(), pre.capacity()),
        },
{
}

} // verus!
