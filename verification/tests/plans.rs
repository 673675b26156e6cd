use cnpj_import::cli::Cli;
use cnpj_import::config::Config;
use cnpj_import::database::{alter_table, Database, OnFailure, Statement, WriteMode};

fn options(drop_indexes: bool, truncate_table: bool, empty: bool) -> Cli {
    Cli {
        rows_per_insert: 1000,
        verbose: false,
        empty,
        drop_indexes,
        truncate_table,
        folder: false,
        force: false,
        path_to_import: String::new(),
    }
}

fn texts(plan: &[Statement]) -> Vec<&str> {
    plan.iter().map(|s| s.sql.as_str()).collect()
}

fn drops(plan: &[Statement]) -> usize {
    plan.iter().filter(|s| s.sql.contains(" DROP ")).count()
}

fn adds(plan: &[Statement]) -> usize {
    plan.iter().filter(|s| s.sql.contains(" ADD ")).count()
}

const SUSPEND: [&str; 3] = ["SET autocommit=0", "SET foreign_key_checks = 0", "SET unique_checks=0"];

const RESTORE: [&str; 4] =
    ["COMMIT", "SET foreign_key_checks = 1", "SET unique_checks=1", "SET autocommit=1"];

#[test]
fn a_plain_file_only_suspends_and_restores_the_checks() {
    let args = options(false, false, false);
    let config = Config::new("K3241.K03200Y0.D10710.ESTABELE", &args).ok().unwrap();
    let db = Database::new(&config);
    let before = db.before_table_update();
    assert_eq!(texts(&before), SUSPEND.to_vec());
    assert!(before.iter().all(|s| s.on_failure == OnFailure::Warn));
    let after = db.after_table_update();
    assert_eq!(texts(&after), RESTORE.to_vec());
    assert_eq!(after[0].on_failure, OnFailure::Abort);
    assert!(after[1..].iter().all(|s| s.on_failure == OnFailure::Warn));
}

#[test]
fn indexes_of_establishments_are_dropped_before_the_first_part() {
    let args = options(true, false, false);
    let config = Config::new("K3241.K03200Y0.D10710.ESTABELE", &args).ok().unwrap();
    let before = Database::new(&config).before_table_update();
    let expected = vec![
        "SET autocommit=0",
        "SET foreign_key_checks = 0",
        "SET unique_checks=0",
        "ALTER TABLE estabelecimentos DROP FOREIGN KEY FK_EstabSitCad",
        "ALTER TABLE estabelecimentos DROP INDEX FK_EstabSitCad",
        "ALTER TABLE estabelecimentos DROP FOREIGN KEY FK_EstabMotivCad",
        "ALTER TABLE estabelecimentos DROP INDEX FK_EstabMotivCad",
        "ALTER TABLE estabelecimentos DROP FOREIGN KEY FK_EstabPais",
        "ALTER TABLE estabelecimentos DROP INDEX FK_EstabPais",
        "ALTER TABLE estabelecimentos DROP FOREIGN KEY FK_EstabCnaePrinc",
        "ALTER TABLE estabelecimentos DROP INDEX FK_EstabCnaePrinc",
        "ALTER TABLE estabelecimentos DROP FOREIGN KEY FK_EstabMunic",
        "ALTER TABLE estabelecimentos DROP INDEX FK_EstabMunic",
        "ALTER TABLE estabelecimentos DROP FOREIGN KEY FK_EstabEmp",
        "ALTER TABLE estabelecimentos DROP PRIMARY KEY",
    ];
    assert_eq!(texts(&before), expected);
    for statement in &before {
        assert_eq!(statement.on_failure, OnFailure::Warn);
    }
}

#[test]
fn indexes_of_establishments_are_built_after_the_last_part() {
    let args = options(true, false, false);
    let config = Config::new("K3241.K03200Y9.D10710.ESTABELE", &args).ok().unwrap();
    let after = Database::new(&config).after_table_update();
    let expected = vec![
        "ALTER TABLE estabelecimentos ADD PRIMARY KEY (cnpj_basico, cnpj_ordem, cnpj_dv)",
        "ALTER TABLE estabelecimentos ADD CONSTRAINT FK_EstabEmp FOREIGN KEY (cnpj_basico) REFERENCES empresas(cnpj_basico)",
        "ALTER TABLE estabelecimentos ADD CONSTRAINT FK_EstabMotivCad FOREIGN KEY (motivo_situacao_cadastral) REFERENCES motivos_de_situacoes_cadastrais(id)",
        "ALTER TABLE estabelecimentos ADD CONSTRAINT FK_EstabPais FOREIGN KEY (pais) REFERENCES paises(id)",
        "ALTER TABLE estabelecimentos ADD CONSTRAINT FK_EstabCnaePrinc FOREIGN KEY (cnae_fiscal_principal) REFERENCES cnaes(id)",
        "ALTER TABLE estabelecimentos ADD CONSTRAINT FK_EstabMunic FOREIGN KEY (municipio) REFERENCES municipios(id)",
        "ALTER TABLE estabelecimentos ADD CONSTRAINT FK_EstabSitCad FOREIGN KEY (situacao_cadastral) REFERENCES situacoes_cadastrais(id)",
        "COMMIT",
        "SET foreign_key_checks = 1",
        "SET unique_checks=1",
        "SET autocommit=1",
    ];
    assert_eq!(texts(&after), expected);
    for statement in &after[..7] {
        assert_eq!(statement.on_failure, OnFailure::Warn);
    }
    assert_eq!(after[7].sql, "COMMIT");
    assert_eq!(after[7].on_failure, OnFailure::Abort);
    for statement in &after[8..] {
        assert_eq!(statement.on_failure, OnFailure::Warn);
    }
}

#[test]
fn indexes_of_companies() {
    let args = options(true, false, false);
    let config = Config::new("K3241.K03200Y0.D10710.EMPRECSV", &args).ok().unwrap();
    let db = Database::new(&config);
    assert_eq!(
        texts(&db.drop_indexes_and_primary_keys()),
        vec![
            "ALTER TABLE empresas DROP FOREIGN KEY FK_EmpNatJur",
            "ALTER TABLE empresas DROP INDEX FK_EmpNatJur",
            "ALTER TABLE empresas DROP FOREIGN KEY FK_EmpQualResp",
            "ALTER TABLE empresas DROP INDEX FK_EmpQualResp",
            "ALTER TABLE estabelecimentos DROP FOREIGN KEY FK_EstabEmp",
            "ALTER TABLE empresas DROP PRIMARY KEY",
        ]
    );
    assert_eq!(
        texts(&db.add_indexes_and_primary_keys()),
        vec![
            "ALTER TABLE empresas ADD PRIMARY KEY (cnpj_basico)",
            "ALTER TABLE empresas ADD CONSTRAINT FK_EmpNatJur FOREIGN KEY (natureza_juridica) REFERENCES naturezas_juridicas(id)",
            "ALTER TABLE empresas ADD CONSTRAINT FK_EmpQualResp FOREIGN KEY (qualificacao_do_responsavel) REFERENCES qualificacoes_de_socios(id)",
            "ALTER TABLE estabelecimentos ADD CONSTRAINT FK_EstabEmp FOREIGN KEY (cnpj_basico) REFERENCES empresas(cnpj_basico)",
        ]
    );
}

#[test]
fn three_parts_drop_once_and_build_once() {
    let args = options(true, false, false);
    let mut dropped = Vec::new();
    let mut built = Vec::new();
    for name in [
        "K3241.K03200Y0.D10710.ESTABELE",
        "K3241.K03200Y5.D10710.ESTABELE",
        "K3241.K03200Y9.D10710.ESTABELE",
    ] {
        let config = Config::new(name, &args).ok().unwrap();
        let db = Database::new(&config);
        let before = db.before_table_update();
        let after = db.after_table_update();
        assert_eq!(adds(&before), 0);
        assert_eq!(drops(&after), 0);
        if drops(&before) > 0 {
            assert_eq!(drops(&before), 12);
            dropped.push(config.file_part_number());
        }
        if adds(&after) > 0 {
            assert_eq!(adds(&after), 7);
            built.push(config.file_part_number());
        }
    }
    assert_eq!(dropped, vec![0]);
    assert_eq!(built, vec![9]);
}

#[test]
fn in_the_first_plan_no_drop_comes_before_the_checks_are_suspended() {
    let args = options(true, true, false);
    let config = Config::new("K3241.K03200Y0.D10710.ESTABELE", &args).ok().unwrap();
    let before = Database::new(&config).before_table_update();
    assert_eq!(texts(&before[..3]), SUSPEND.to_vec());
    assert_eq!(before[3].sql, "TRUNCATE TABLE estabelecimentos");
    assert_eq!(before[3].on_failure, OnFailure::Abort);
    assert_eq!(drops(&before[..4]), 0);
    assert_eq!(drops(&before[4..]), 12);
}

#[test]
fn the_table_is_emptied_before_the_first_part_only() {
    let args = options(false, true, false);
    let first = Config::new("K3241.K03200Y0.D10710.SOCIOCSV", &args).ok().unwrap();
    let plan = Database::new(&first).before_table_update();
    assert_eq!(plan.len(), 4);
    assert_eq!(plan[3].sql, "TRUNCATE TABLE socios");
    let later = Config::new("K3241.K03200Y1.D10710.SOCIOCSV", &args).ok().unwrap();
    assert_eq!(texts(&Database::new(&later).before_table_update()), SUSPEND.to_vec());
}

#[test]
fn small_tables_keep_their_indexes() {
    let args = options(true, false, false);
    for name in [
        "F.K03200$Z.D10710.CNAECSV",
        "F.K03200$W.SIMPLES.CSV.D10710",
        "K3241.K03200Y0.D10710.SOCIOCSV",
        "K3241.K03200Y9.D10710.SOCIOCSV",
    ] {
        let config = Config::new(name, &args).ok().unwrap();
        let db = Database::new(&config);
        assert!(db.drop_indexes_and_primary_keys().is_empty());
        assert!(db.add_indexes_and_primary_keys().is_empty());
        assert_eq!(texts(&db.before_table_update()), SUSPEND.to_vec());
        assert_eq!(texts(&db.after_table_update()), RESTORE.to_vec());
    }
}

#[test]
fn middle_parts_leave_the_indexes_alone() {
    let args = options(true, false, false);
    for part in 1..9 {
        let name = format!("K3241.K03200Y{}.D10710.EMPRECSV", part);
        let config = Config::new(&name, &args).ok().unwrap();
        let db = Database::new(&config);
        assert_eq!(texts(&db.before_table_update()), SUSPEND.to_vec());
        assert_eq!(texts(&db.after_table_update()), RESTORE.to_vec());
    }
}

#[test]
fn statements_of_single_use() {
    let args = options(false, false, false);
    let config = Config::new("F.K03200$Z.D10710.CNAECSV", &args).ok().unwrap();
    let db = Database::new(&config);
    assert_eq!(
        db.commit(),
        Statement { sql: String::from("COMMIT"), on_failure: OnFailure::Abort }
    );
    assert_eq!(
        db.truncate_table("cnaes"),
        Statement { sql: String::from("TRUNCATE TABLE cnaes"), on_failure: OnFailure::Abort }
    );
    assert_eq!(
        db.enable_keys("cnaes"),
        Statement {
            sql: String::from("ALTER TABLE cnaes ENABLE KEYS"),
            on_failure: OnFailure::Warn
        }
    );
    assert_eq!(
        db.disable_keys("cnaes"),
        Statement {
            sql: String::from("ALTER TABLE cnaes DISABLE KEYS"),
            on_failure: OnFailure::Warn
        }
    );
    assert_eq!(alter_table("t", "DROP PRIMARY KEY"), "ALTER TABLE t DROP PRIMARY KEY");
    let restore = db.restore_checks();
    assert_eq!(
        texts(&restore),
        vec!["SET foreign_key_checks = 1", "SET unique_checks=1", "SET autocommit=1"]
    );
    assert!(restore.iter().all(|s| s.on_failure == OnFailure::Warn));
}

#[test]
fn lists_of_statements_carry_their_policy() {
    let args = options(false, false, false);
    let config = Config::new("F.K03200$Z.D10710.CNAECSV", &args).ok().unwrap();
    let db = Database::new(&config);
    let fatal = db.sql_queries(vec!["A", "B"], true);
    assert_eq!(texts(&fatal), vec!["A", "B"]);
    assert!(fatal.iter().all(|s| s.on_failure == OnFailure::Abort));
    let advisory = db.alter_table_modifications(vec![("t", "X"), ("u", "Y")], false);
    assert_eq!(texts(&advisory), vec!["ALTER TABLE t X", "ALTER TABLE u Y"]);
    assert!(advisory.iter().all(|s| s.on_failure == OnFailure::Warn));
    assert!(db.sql_queries(Vec::new(), false).is_empty());
}

#[test]
fn records_are_replaced_unless_the_table_is_empty() {
    let large = "K3241.K03200Y3.D10710.EMPRECSV";
    let small = "F.K03200$Z.D10710.PAISCSV";
    let plain = options(false, false, false);
    let emptied = options(false, true, false);
    let empty = options(false, false, true);
    let mode = |name: &str, args: &Cli| {
        let config = Config::new(name, args).ok().unwrap();
        Database::new(&config).write_mode()
    };
    assert_eq!(mode(large, &plain), WriteMode::Replace);
    assert_eq!(mode(large, &emptied), WriteMode::Insert);
    assert_eq!(mode(large, &empty), WriteMode::Insert);
    assert_eq!(mode(small, &plain), WriteMode::Replace);
    assert_eq!(mode(small, &emptied), WriteMode::Replace);
    assert_eq!(mode(small, &empty), WriteMode::Replace);
    assert_eq!(mode("K3241.K03200Y3.D10710.ESTABELE", &empty), WriteMode::Insert);
    assert_eq!(mode("K3241.K03200Y3.D10710.SOCIOCSV", &empty), WriteMode::Insert);
    assert_eq!(mode("F.K03200$W.SIMPLES.CSV.D10710", &empty), WriteMode::Insert);
}
