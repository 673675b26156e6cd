//! The statements that surround a bulk load, and the way records are
//! written. The plan is made here; carrying it to the database is the
//! caller's part.
//!
//! What only makes the load faster is advisory: a statement that switches
//! checks or keys, or drops or builds an index or a key, may fail, and the
//! import goes on with a warning. Emptying the table and the commit are not:
//! where one of them fails, the import of the file fails.

use crate::cli::Cli;
use crate::config::Config;
use crate::tipo_de_arquivo::TipoDeArquivo;
use vstd::prelude::*;
use vstd::string::*;

verus! {

/// What a failed statement means for the file being imported.
#[derive(Clone, Copy, Debug, PartialEq, Eq, Structural)]
pub enum OnFailure {
    /// The import of the file fails.
    Abort,
    /// A warning; the import goes on.
    Warn,
}

/// One statement for the database.
#[derive(Clone, Debug, PartialEq, Eq)]
pub struct Statement {
    pub sql: String,
    pub on_failure: OnFailure,
}

impl View for Statement {
    type V = (Seq<char>, OnFailure);

    open spec fn view(&self) -> (Seq<char>, OnFailure) {
        (self.sql@, self.on_failure)
    }
}

/// The statements of a list, each by its text and its failure policy.
pub open spec fn plan_view(plan: Seq<Statement>) -> Seq<(Seq<char>, OnFailure)> {
    Seq::new(plan.len(), |i: int| plan[i]@)
}

/// How a batch of records goes into its table.
#[derive(Clone, Copy, Debug, PartialEq, Eq, Structural)]
pub enum WriteMode {
    /// Plain inserts: the table holds none of the records yet.
    Insert,
    /// A record replaces the one with the same key.
    Replace,
}

/// The policy of a statement: fatal or advisory.
pub open spec fn policy(fatal: bool) -> OnFailure {
    if fatal {
        OnFailure::Abort
    } else {
        OnFailure::Warn
    }
}

/// The text of a change to a table.
pub open spec fn alter_table_sql(table: Seq<char>, clause: Seq<char>) -> Seq<char> {
    "ALTER TABLE "@ + table + " "@ + clause
}

/// The changes of a list, as statements of one policy.
pub open spec fn alter_statements(lines: Seq<(Seq<char>, Seq<char>)>, on_failure: OnFailure) -> Seq<
    (Seq<char>, OnFailure),
> {
    Seq::new(lines.len(), |i: int| (alter_table_sql(lines[i].0, lines[i].1), on_failure))
}

/// What is dropped before the first part of a large table: foreign keys
/// and their indexes first, the primary key last, and with the primary key
/// of companies the foreign key of establishments that points to it.
pub open spec fn drop_lines(kind: TipoDeArquivo) -> Seq<(Seq<char>, Seq<char>)> {
    match kind {
        TipoDeArquivo::Estabelecimentos => {
            let t = TipoDeArquivo::Estabelecimentos.table();
            seq![
                (t, "DROP FOREIGN KEY FK_EstabSitCad"@),
                (t, "DROP INDEX FK_EstabSitCad"@),
                (t, "DROP FOREIGN KEY FK_EstabMotivCad"@),
                (t, "DROP INDEX FK_EstabMotivCad"@),
                (t, "DROP FOREIGN KEY FK_EstabPais"@),
                (t, "DROP INDEX FK_EstabPais"@),
                (t, "DROP FOREIGN KEY FK_EstabCnaePrinc"@),
                (t, "DROP INDEX FK_EstabCnaePrinc"@),
                (t, "DROP FOREIGN KEY FK_EstabMunic"@),
                (t, "DROP INDEX FK_EstabMunic"@),
                (t, "DROP FOREIGN KEY FK_EstabEmp"@),
                (t, "DROP PRIMARY KEY"@),
            ]
        },
        TipoDeArquivo::Empresas => {
            let t = TipoDeArquivo::Empresas.table();
            seq![
                (t, "DROP FOREIGN KEY FK_EmpNatJur"@),
                (t, "DROP INDEX FK_EmpNatJur"@),
                (t, "DROP FOREIGN KEY FK_EmpQualResp"@),
                (t, "DROP INDEX FK_EmpQualResp"@),
                (TipoDeArquivo::Estabelecimentos.table(), "DROP FOREIGN KEY FK_EstabEmp"@),
                (t, "DROP PRIMARY KEY"@),
            ]
        },
        _ => seq![],
    }
}

/// What is built again after the last part of a large table: the primary key
/// first, then the foreign keys, so that a key is there before a foreign key
/// points to it.
pub open spec fn add_lines(kind: TipoDeArquivo) -> Seq<(Seq<char>, Seq<char>)> {
    match kind {
        TipoDeArquivo::Estabelecimentos => {
            let t = TipoDeArquivo::Estabelecimentos.table();
            seq![
                (t, "ADD PRIMARY KEY (cnpj_basico, cnpj_ordem, cnpj_dv)"@),
                (
                    t,
                    "ADD CONSTRAINT FK_EstabEmp FOREIGN KEY (cnpj_basico) REFERENCES empresas(cnpj_basico)"@,
                ),
                (
                    t,
                    "ADD CONSTRAINT FK_EstabMotivCad FOREIGN KEY (motivo_situacao_cadastral) REFERENCES motivos_de_situacoes_cadastrais(id)"@,
                ),
                (t, "ADD CONSTRAINT FK_EstabPais FOREIGN KEY (pais) REFERENCES paises(id)"@),
                (
                    t,
                    "ADD CONSTRAINT FK_EstabCnaePrinc FOREIGN KEY (cnae_fiscal_principal) REFERENCES cnaes(id)"@,
                ),
                (
                    t,
                    "ADD CONSTRAINT FK_EstabMunic FOREIGN KEY (municipio) REFERENCES municipios(id)"@,
                ),
                (
                    t,
                    "ADD CONSTRAINT FK_EstabSitCad FOREIGN KEY (situacao_cadastral) REFERENCES situacoes_cadastrais(id)"@,
                ),
            ]
        },
        TipoDeArquivo::Empresas => {
            let t = TipoDeArquivo::Empresas.table();
            seq![
                (t, "ADD PRIMARY KEY (cnpj_basico)"@),
                (
                    t,
                    "ADD CONSTRAINT FK_EmpNatJur FOREIGN KEY (natureza_juridica) REFERENCES naturezas_juridicas(id)"@,
                ),
                (
                    t,
                    "ADD CONSTRAINT FK_EmpQualResp FOREIGN KEY (qualificacao_do_responsavel) REFERENCES qualificacoes_de_socios(id)"@,
                ),
                (
                    TipoDeArquivo::Estabelecimentos.table(),
                    "ADD CONSTRAINT FK_EstabEmp FOREIGN KEY (cnpj_basico) REFERENCES empresas(cnpj_basico)"@,
                ),
            ]
        },
        _ => seq![],
    }
}

/// The statements that suspend the checks and the automatic commit for the
/// time of one file. Each is advisory.
pub open spec fn suspend_plan() -> Seq<(Seq<char>, OnFailure)> {
    seq![
        ("SET autocommit=0"@, OnFailure::Warn),
        ("SET foreign_key_checks = 0"@, OnFailure::Warn),
        ("SET unique_checks=0"@, OnFailure::Warn),
    ]
}

/// The statements that bring the checks and the automatic commit back. Each
/// is advisory.
pub open spec fn restore_plan() -> Seq<(Seq<char>, OnFailure)> {
    seq![
        ("SET foreign_key_checks = 1"@, OnFailure::Warn),
        ("SET unique_checks=1"@, OnFailure::Warn),
        ("SET autocommit=1"@, OnFailure::Warn),
    ]
}

/// The text that empties a table.
pub open spec fn truncate_sql(table: Seq<char>) -> Seq<char> {
    "TRUNCATE TABLE "@ + table
}

/// Whether the table is emptied before this file: on request, and only
/// before the first part.
pub open spec fn truncates(part: nat, options: Cli) -> bool {
    options.truncate_table && part == 0
}

/// Whether indexes and keys are dropped before this file: on request, and
/// only before the first part.
pub open spec fn drops_indexes(part: nat, options: Cli) -> bool {
    part == 0 && options.drop_indexes
}

/// Whether indexes and keys are built again after this file: on request, and
/// only after the last part of the kind.
pub open spec fn rebuilds_indexes(kind: TipoDeArquivo, part: nat, options: Cli) -> bool {
    part == kind.last_part() && options.drop_indexes
}

/// What runs before the first row of a file: the checks are suspended, the
/// table is emptied where that applies, indexes and keys are dropped where
/// that applies. Only emptying the table is fatal where it fails.
pub open spec fn before_plan(kind: TipoDeArquivo, part: nat, options: Cli) -> Seq<
    (Seq<char>, OnFailure),
> {
    suspend_plan() + (if truncates(part, options) {
        seq![(truncate_sql(kind.table()), OnFailure::Abort)]
    } else {
        seq![]
    }) + (if drops_indexes(part, options) {
        alter_statements(drop_lines(kind), OnFailure::Warn)
    } else {
        seq![]
    })
}

/// What runs after the last row of a file: indexes and keys are built again
/// where that applies, the writes are committed, the checks are brought
/// back. Only the commit is fatal where it fails.
pub open spec fn after_plan(kind: TipoDeArquivo, part: nat, options: Cli) -> Seq<
    (Seq<char>, OnFailure),
> {
    (if rebuilds_indexes(kind, part, options) {
        alter_statements(add_lines(kind), OnFailure::Warn)
    } else {
        seq![]
    }) + seq![("COMMIT"@, OnFailure::Abort)] + restore_plan()
}

/// How the records of a file are written: the four large tables take plain
/// inserts where they were emptied or are said to be empty; everything else
/// replaces by key.
pub open spec fn write_mode_of(kind: TipoDeArquivo, options: Cli) -> WriteMode {
    if (options.truncate_table || options.empty) && (kind == TipoDeArquivo::Empresas || kind
        == TipoDeArquivo::Estabelecimentos || kind == TipoDeArquivo::Socios || kind
        == TipoDeArquivo::Simples) {
        WriteMode::Insert
    } else {
        WriteMode::Replace
    }
}

fn statement(sql: &str, on_failure: OnFailure) -> (r: Statement)
    ensures
        r@ == (sql@, on_failure),
{
    Statement { sql: sql.to_owned(), on_failure }
}

fn on_failure(fatal: bool) -> (r: OnFailure)
    ensures
        r == policy(fatal),
{
    if fatal {
        OnFailure::Abort
    } else {
        OnFailure::Warn
    }
}

/// The planner of the statements around the import of one file.
pub struct Database<'a> {
    config: &'a Config<'a>,
}

impl<'a> Database<'a> {
    /// The kind of the file.
    pub closed spec fn kind(&self) -> TipoDeArquivo {
        self.config.kind()
    }

    /// The part number of the file.
    pub closed spec fn part(&self) -> nat {
        self.config.part()
    }

    /// The options of the run.
    pub closed spec fn options(&self) -> Cli {
        self.config.options()
    }

    /// The planner for the file of `config`.
    pub fn new(config: &'a Config<'a>) -> (db: Database<'a>)
        ensures
            db.kind() == config.kind(),
            db.part() == config.part(),
            db.options() == config.options(),
    {
        Database { config }
    }

    /// The statements to run before the first row: suspend the checks,
    /// empty the table where asked, drop indexes and keys where asked.
    pub fn before_table_update(&self) -> (plan: Vec<Statement>)
        ensures
            plan_view(plan@) == before_plan(self.kind(), self.part(), self.options()),
            plan@.len() >= 3,
    {
        let table_name = self.config.tipo_de_arquivo().table_name();
        let mut queries: Vec<&str> = Vec::new();
        queries.push("SET autocommit=0");
        queries.push("SET foreign_key_checks = 0");
        queries.push("SET unique_checks=0");
        let mut plan = self.sql_queries(queries, false);
        if self.config.truncate_table() && self.config.is_first_file_number() {
            let truncate = self.truncate_table(table_name);
            plan.push(truncate);
        }
        if self.config.is_first_file_number() && self.config.drop_indexes() {
            let mut drops = self.drop_indexes_and_primary_keys();
            plan.append(&mut drops);
        }
        plan
    }

    /// The statements to run after the last row: build indexes and keys
    /// again where asked, commit, bring the checks back.
    pub fn after_table_update(&self) -> (plan: Vec<Statement>)
        ensures
            plan_view(plan@) == after_plan(self.kind(), self.part(), self.options()),
            plan@.len() >= 4,
    {
        let mut plan: Vec<Statement> = Vec::new();
        if self.config.is_last_file_number() && self.config.drop_indexes() {
            plan = self.add_indexes_and_primary_keys();
        }
        plan.push(self.commit());
        let mut queries: Vec<&str> = Vec::new();
        queries.push("SET foreign_key_checks = 1");
        queries.push("SET unique_checks=1");
        queries.push("SET autocommit=1");
        let mut restore = self.sql_queries(queries, false);
        plan.append(&mut restore);
        plan
    }

    /// The statements that bring the checks and the automatic commit back
    /// after a file whose import failed.
    pub fn restore_checks(&self) -> (plan: Vec<Statement>)
        ensures
            plan_view(plan@) == restore_plan(),
            plan@.len() == 3,
    {
        let mut queries: Vec<&str> = Vec::new();
        queries.push("SET foreign_key_checks = 1");
        queries.push("SET unique_checks=1");
        queries.push("SET autocommit=1");
        let plan = self.sql_queries(queries, false);
        plan
    }

    /// The statement that makes the written records durable.
    pub fn commit(&self) -> (r: Statement)
        ensures
            r@ == ("COMMIT"@, OnFailure::Abort),
    {
        statement("COMMIT", OnFailure::Abort)
    }

    /// The statement that switches the keys of a table on; advisory.
    pub fn enable_keys(&self, table_name: &str) -> (r: Statement)
        ensures
            r@ == (alter_table_sql(table_name@, "ENABLE KEYS"@), OnFailure::Warn),
    {
        Statement { sql: alter_table(table_name, "ENABLE KEYS"), on_failure: OnFailure::Warn }
    }

    /// The statement that switches the keys of a table off; advisory.
    pub fn disable_keys(&self, table_name: &str) -> (r: Statement)
        ensures
            r@ == (alter_table_sql(table_name@, "DISABLE KEYS"@), OnFailure::Warn),
    {
        Statement { sql: alter_table(table_name, "DISABLE KEYS"), on_failure: OnFailure::Warn }
    }

    /// The statements that drop the indexes and keys of the file's table;
    /// none for a table that is small enough to keep them.
    pub fn drop_indexes_and_primary_keys(&self) -> (plan: Vec<Statement>)
        ensures
            plan_view(plan@) == alter_statements(drop_lines(self.kind()), OnFailure::Warn),
    {
        let table_name = self.config.tipo_de_arquivo().table_name();
        let mut lines: Vec<(&str, &str)> = Vec::new();
        match self.config.tipo_de_arquivo() {
            TipoDeArquivo::Estabelecimentos => {
                lines.push((table_name, "DROP FOREIGN KEY FK_EstabSitCad"));
                lines.push((table_name, "DROP INDEX FK_EstabSitCad"));
                lines.push((table_name, "DROP FOREIGN KEY FK_EstabMotivCad"));
                lines.push((table_name, "DROP INDEX FK_EstabMotivCad"));
                lines.push((table_name, "DROP FOREIGN KEY FK_EstabPais"));
                lines.push((table_name, "DROP INDEX FK_EstabPais"));
                lines.push((table_name, "DROP FOREIGN KEY FK_EstabCnaePrinc"));
                lines.push((table_name, "DROP INDEX FK_EstabCnaePrinc"));
                lines.push((table_name, "DROP FOREIGN KEY FK_EstabMunic"));
                lines.push((table_name, "DROP INDEX FK_EstabMunic"));
                lines.push((table_name, "DROP FOREIGN KEY FK_EstabEmp"));
                lines.push((table_name, "DROP PRIMARY KEY"));
            },
            TipoDeArquivo::Empresas => {
                lines.push((table_name, "DROP FOREIGN KEY FK_EmpNatJur"));
                lines.push((table_name, "DROP INDEX FK_EmpNatJur"));
                lines.push((table_name, "DROP FOREIGN KEY FK_EmpQualResp"));
                lines.push((table_name, "DROP INDEX FK_EmpQualResp"));
                lines.push(
                    (TipoDeArquivo::Estabelecimentos.table_name(), "DROP FOREIGN KEY FK_EstabEmp"),
                );
                lines.push((table_name, "DROP PRIMARY KEY"));
            },
            _ => {},
        }
        self.alter_table_modifications(lines, false)
    }

    /// The statements that build the indexes and keys of the file's table
    /// again; none for a table that kept them.
    pub fn add_indexes_and_primary_keys(&self) -> (plan: Vec<Statement>)
        ensures
            plan_view(plan@) == alter_statements(add_lines(self.kind()), OnFailure::Warn),
    {
        let table_name = self.config.tipo_de_arquivo().table_name();
        let mut lines: Vec<(&str, &str)> = Vec::new();
        match self.config.tipo_de_arquivo() {
            TipoDeArquivo::Estabelecimentos => {
                lines.push((table_name, "ADD PRIMARY KEY (cnpj_basico, cnpj_ordem, cnpj_dv)"));
                lines.push(
                    (
                        table_name,
                        "ADD CONSTRAINT FK_EstabEmp FOREIGN KEY (cnpj_basico) REFERENCES empresas(cnpj_basico)",
                    ),
                );
                lines.push(
                    (
                        table_name,
                        "ADD CONSTRAINT FK_EstabMotivCad FOREIGN KEY (motivo_situacao_cadastral) REFERENCES motivos_de_situacoes_cadastrais(id)",
                    ),
                );
                lines.push(
                    (
                        table_name,
                        "ADD CONSTRAINT FK_EstabPais FOREIGN KEY (pais) REFERENCES paises(id)",
                    ),
                );
                lines.push(
                    (
                        table_name,
                        "ADD CONSTRAINT FK_EstabCnaePrinc FOREIGN KEY (cnae_fiscal_principal) REFERENCES cnaes(id)",
                    ),
                );
                lines.push(
                    (
                        table_name,
                        "ADD CONSTRAINT FK_EstabMunic FOREIGN KEY (municipio) REFERENCES municipios(id)",
                    ),
                );
                lines.push(
                    (
                        table_name,
                        "ADD CONSTRAINT FK_EstabSitCad FOREIGN KEY (situacao_cadastral) REFERENCES situacoes_cadastrais(id)",
                    ),
                );
            },
            TipoDeArquivo::Empresas => {
                lines.push((table_name, "ADD PRIMARY KEY (cnpj_basico)"));
                lines.push(
                    (
                        table_name,
                        "ADD CONSTRAINT FK_EmpNatJur FOREIGN KEY (natureza_juridica) REFERENCES naturezas_juridicas(id)",
                    ),
                );
                lines.push(
                    (
                        table_name,
                        "ADD CONSTRAINT FK_EmpQualResp FOREIGN KEY (qualificacao_do_responsavel) REFERENCES qualificacoes_de_socios(id)",
                    ),
                );
                lines.push(
                    (
                        TipoDeArquivo::Estabelecimentos.table_name(),
                        "ADD CONSTRAINT FK_EstabEmp FOREIGN KEY (cnpj_basico) REFERENCES empresas(cnpj_basico)",
                    ),
                );
            },
            _ => {},
        }
        self.alter_table_modifications(lines, false)
    }

    /// The statement that empties a table.
    pub fn truncate_table(&self, table_name: &str) -> (r: Statement)
        ensures
            r@ == (truncate_sql(table_name@), OnFailure::Abort),
    {
        let mut sql = String::from_str("TRUNCATE TABLE ");
        sql.append(table_name);
        Statement { sql, on_failure: OnFailure::Abort }
    }

    /// The statements that make the given changes to tables, each line a
    /// table and a clause; `panic` says whether a failure is fatal.
    pub fn alter_table_modifications(&self, alter_table_lines: Vec<(&str, &str)>, panic: bool) -> (plan:
        Vec<Statement>)
        ensures
            plan_view(plan@) == alter_statements(lines_view(alter_table_lines@), policy(panic)),
    {
        let mut plan: Vec<Statement> = Vec::new();
        let mut i: usize = 0;
        while i < alter_table_lines.len()
            invariant
                i <= alter_table_lines.len(),
                plan@.len() == i,
                forall|j: int|
                    0 <= j < i ==> (#[trigger] plan@[j])@ == (
                        alter_table_sql(alter_table_lines@[j].0@, alter_table_lines@[j].1@),
                        policy(panic),
                    ),
            decreases alter_table_lines.len() - i,
        {
            let (table_name, line) = alter_table_lines[i];
            plan.push(Statement { sql: alter_table(table_name, line), on_failure: on_failure(panic) });
            i += 1;
        }
        plan
    }

    /// The given texts as statements; `panic` says whether a failure is
    /// fatal.
    pub fn sql_queries(&self, queries: Vec<&str>, panic: bool) -> (plan: Vec<Statement>)
        ensures
            plan@.len() == queries@.len(),
            forall|i: int|
                0 <= i < queries@.len() ==> (#[trigger] plan@[i])@ == (queries@[i]@, policy(panic)),
    {
        let mut plan: Vec<Statement> = Vec::new();
        let mut i: usize = 0;
        while i < queries.len()
            invariant
                i <= queries.len(),
                plan@.len() == i,
                forall|j: int| 0 <= j < i ==> (#[trigger] plan@[j])@ == (queries@[j]@, policy(panic)),
            decreases queries.len() - i,
        {
            plan.push(statement(queries[i], on_failure(panic)));
            i += 1;
        }
        plan
    }

    /// How the records of the file are written.
    pub fn write_mode(&self) -> (mode: WriteMode)
        ensures
            mode == write_mode_of(self.kind(), self.options()),
    {
        let large = match self.config.tipo_de_arquivo() {
            TipoDeArquivo::Empresas => true,
            TipoDeArquivo::Estabelecimentos => true,
            TipoDeArquivo::Socios => true,
            TipoDeArquivo::Simples => true,
            _ => false,
        };
        if large && (self.config.truncate_table() || self.config.empty()) {
            WriteMode::Insert
        } else {
            WriteMode::Replace
        }
    }
}

/// The lines of a list, each by the views of its table and its clause.
pub open spec fn lines_view(lines: Seq<(&str, &str)>) -> Seq<(Seq<char>, Seq<char>)> {
    Seq::new(lines.len(), |i: int| (lines[i].0@, lines[i].1@))
}

/// The text of a change to a table.
pub fn alter_table(table_name: &str, clause: &str) -> (sql: String)
    ensures
        sql@ == alter_table_sql(table_name@, clause@),
{
    let mut sql = String::from_str("ALTER TABLE ");
    sql.append(table_name);
    sql.append(" ");
    sql.append(clause);
    sql
}

/// The statements before the first row start with those that suspend the
/// checks; the table is emptied and indexes are dropped only behind them.
pub proof fn lemma_before_plan_shape(kind: TipoDeArquivo, part: nat, options: Cli)
    ensures
        ({
            let plan = before_plan(kind, part, options);
            &&& plan.len() == 3 + (if truncates(part, options) {
                1nat
            } else {
                0nat
            }) + (if drops_indexes(part, options) {
                drop_lines(kind).len()
            } else {
                0nat
            })
            &&& plan.take(3) == suspend_plan()
        }),
{
}

/// The statements after the last row end with the commit and those that
/// bring the checks back; indexes are built again only before them.
pub proof fn lemma_after_plan_shape(kind: TipoDeArquivo, part: nat, options: Cli)
    ensures
        ({
            let plan = after_plan(kind, part, options);
            let rebuilt = if rebuilds_indexes(kind, part, options) {
                add_lines(kind).len()
            } else {
                0nat
            };
            &&& plan.len() == rebuilt + 4
            &&& plan[rebuilt as int] == ("COMMIT"@, OnFailure::Abort)
            &&& plan.skip(rebuilt as int + 1) == restore_plan()
        }),
{
}

/// The only statement before the first row whose failure fails the file is
/// the one that empties the table; the only such statement after the last
/// row is the commit.
pub proof fn lemma_fatal_statements(kind: TipoDeArquivo, part: nat, options: Cli, i: int)
    ensures
        0 <= i < before_plan(kind, part, options).len() && before_plan(kind, part, options)[i].1
            == OnFailure::Abort ==> truncates(part, options) && i == 3 && before_plan(
            kind,
            part,
            options,
        )[i].0 == truncate_sql(kind.table()),
        0 <= i < after_plan(kind, part, options).len() && after_plan(kind, part, options)[i].1
            == OnFailure::Abort ==> after_plan(kind, part, options)[i].0 == "COMMIT"@,
{
}

/// Over the files of one table, each part number at most once: indexes are
/// dropped before the file of part 0 and before no other, so at most once;
/// they are built again after the file of the last part and after no other,
/// so at most once.
pub proof fn lemma_one_drop_one_rebuild(
    kind: TipoDeArquivo,
    parts: Seq<nat>,
    options: Cli,
    i: int,
    j: int,
)
    requires
        parts.no_duplicates(),
        0 <= i < parts.len(),
        0 <= j < parts.len(),
    ensures
        drops_indexes(parts[i], options) <==> options.drop_indexes && parts[i] == 0,
        rebuilds_indexes(kind, parts[i], options) <==> options.drop_indexes && parts[i]
            == kind.last_part(),
        drops_indexes(parts[i], options) && drops_indexes(parts[j], options) ==> i == j,
        rebuilds_indexes(kind, parts[i], options) && rebuilds_indexes(kind, parts[j], options) ==> i
            == j,
{
}

/// Where the files come with rising part numbers, as the order of their
/// names brings them, no rebuild comes before the drop.
pub proof fn lemma_drop_before_rebuild(
    kind: TipoDeArquivo,
    parts: Seq<nat>,
    options: Cli,
    i: int,
    j: int,
)
    requires
        forall|a: int, b: int| 0 <= a < b < parts.len() ==> parts[a] < parts[b],
        0 <= i < parts.len(),
        0 <= j < parts.len(),
        drops_indexes(parts[i], options),
        rebuilds_indexes(kind, parts[j], options),
    ensures
        i <= j,
        kind.last_part() > 0 ==> i < j,
{
}

} // verus!
