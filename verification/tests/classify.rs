use cnpj_import::cli::Cli;
use cnpj_import::config::{part_number, Config};
use cnpj_import::tipo_de_arquivo::TipoDeArquivo;

fn options() -> Cli {
    Cli {
        rows_per_insert: 1000,
        verbose: false,
        empty: false,
        drop_indexes: false,
        truncate_table: false,
        folder: false,
        force: false,
        path_to_import: String::from("dados"),
    }
}

#[test]
fn classifies_each_kind_by_its_marker() {
    let cases = [
        ("K3241.K03200Y0.D10710.EMPRECSV", TipoDeArquivo::Empresas),
        ("K3241.K03200Y5.D10710.ESTABELE", TipoDeArquivo::Estabelecimentos),
        ("K3241.K03200Y9.D10710.SOCIOCSV", TipoDeArquivo::Socios),
        ("F.K03200$W.SIMPLES.CSV.D10710", TipoDeArquivo::Simples),
        ("F.K03200$Z.D10710.CNAECSV", TipoDeArquivo::CNAES),
        ("F.K03200$Z.D10710.MOTICSV", TipoDeArquivo::MotivosDeSituacoesCadastrais),
        ("F.K03200$Z.D10710.MUNICCSV", TipoDeArquivo::Municipios),
        ("F.K03200$Z.D10710.NATJUCSV", TipoDeArquivo::NaturezasJuridicas),
        ("F.K03200$Z.D10710.PAISCSV", TipoDeArquivo::Paises),
        ("F.K03200$Z.D10710.QUALSCSV", TipoDeArquivo::QualificacoesDeSocios),
    ];
    for (name, kind) in cases {
        assert_eq!(TipoDeArquivo::from_str(name), Ok(kind), "{}", name);
    }
}

#[test]
fn classification_is_the_same_every_time() {
    let name = "K3241.K03200Y7.D10710.ESTABELE";
    let first = TipoDeArquivo::from_str(name);
    let second = TipoDeArquivo::from_str(name);
    assert_eq!(first, second);
    assert_eq!(part_number(name), part_number(name));
    assert_eq!(part_number(name), 7);
}

#[test]
fn a_name_without_marker_is_not_classified() {
    assert_eq!(TipoDeArquivo::from_str("leiame.txt"), Err(()));
    assert_eq!(TipoDeArquivo::from_str(""), Err(()));
    assert_eq!(TipoDeArquivo::from_str(".EMPRECS"), Err(()));
}

#[test]
fn markers_are_case_sensitive() {
    assert_eq!(TipoDeArquivo::from_str("k3241.k03200y0.d10710.emprecsv"), Err(()));
}

#[test]
fn the_marker_may_stand_anywhere_in_the_name() {
    assert_eq!(TipoDeArquivo::from_str(".EMPRECSV"), Ok(TipoDeArquivo::Empresas));
    assert_eq!(TipoDeArquivo::from_str("dir/x.EMPRECSV.bak"), Ok(TipoDeArquivo::Empresas));
    assert_eq!(TipoDeArquivo::from_str("ação.PAISCSV"), Ok(TipoDeArquivo::Paises));
}

#[test]
fn table_names() {
    assert_eq!(TipoDeArquivo::CNAES.table_name(), "cnaes");
    assert_eq!(TipoDeArquivo::Empresas.table_name(), "empresas");
    assert_eq!(TipoDeArquivo::Estabelecimentos.table_name(), "estabelecimentos");
    assert_eq!(
        TipoDeArquivo::MotivosDeSituacoesCadastrais.table_name(),
        "motivos_de_situacoes_cadastrais"
    );
    assert_eq!(TipoDeArquivo::Municipios.table_name(), "municipios");
    assert_eq!(TipoDeArquivo::NaturezasJuridicas.table_name(), "naturezas_juridicas");
    assert_eq!(TipoDeArquivo::Paises.table_name(), "paises");
    assert_eq!(TipoDeArquivo::QualificacoesDeSocios.table_name(), "qualificacoes_de_socios");
    assert_eq!(TipoDeArquivo::Simples.table_name(), "simples");
    assert_eq!(TipoDeArquivo::Socios.table_name(), "socios");
}

#[test]
fn last_part_numbers() {
    assert_eq!(TipoDeArquivo::Empresas.last_part_number(), 9);
    assert_eq!(TipoDeArquivo::Estabelecimentos.last_part_number(), 9);
    assert_eq!(TipoDeArquivo::Socios.last_part_number(), 9);
    assert_eq!(TipoDeArquivo::Simples.last_part_number(), 0);
    assert_eq!(TipoDeArquivo::CNAES.last_part_number(), 0);
}

#[test]
fn part_number_is_the_digit_behind_the_marker() {
    for digit in 0u8..=9 {
        let name = format!("K3241.K03200Y{}.D10710.EMPRECSV", digit);
        assert_eq!(part_number(&name), digit);
    }
}

#[test]
fn part_number_defaults_to_zero() {
    assert_eq!(part_number("F.K03200$Z.D10710.CNAECSV"), 0);
    assert_eq!(part_number("K3241.K03200Y"), 0);
    assert_eq!(part_number("K3241.K03200YX.D10710.EMPRECSV"), 0);
    assert_eq!(part_number(""), 0);
}

#[test]
fn part_number_comes_from_the_first_marker() {
    assert_eq!(part_number("a.K03200Y3.K03200Y8.EMPRECSV"), 3);
}

#[test]
fn config_of_a_first_part() {
    let args = options();
    let config = Config::new("K3241.K03200Y0.D10710.ESTABELE", &args).ok().unwrap();
    assert_eq!(*config.tipo_de_arquivo(), TipoDeArquivo::Estabelecimentos);
    assert_eq!(config.file_part_number(), 0);
    assert!(config.is_first_file_number());
    assert!(!config.is_last_file_number());
}

#[test]
fn config_of_a_last_part() {
    let args = options();
    let config = Config::new("K3241.K03200Y9.D10710.SOCIOCSV", &args).ok().unwrap();
    assert_eq!(*config.tipo_de_arquivo(), TipoDeArquivo::Socios);
    assert!(!config.is_first_file_number());
    assert!(config.is_last_file_number());
}

#[test]
fn config_of_a_middle_part() {
    let args = options();
    let config = Config::new("K3241.K03200Y5.D10710.EMPRECSV", &args).ok().unwrap();
    assert!(!config.is_first_file_number());
    assert!(!config.is_last_file_number());
}

#[test]
fn a_single_part_kind_is_first_and_last() {
    let args = options();
    let config = Config::new("F.K03200$W.SIMPLES.CSV.D10710", &args).ok().unwrap();
    assert_eq!(*config.tipo_de_arquivo(), TipoDeArquivo::Simples);
    assert!(config.is_first_file_number());
    assert!(config.is_last_file_number());
}

#[test]
fn config_rejects_an_unknown_file() {
    let args = options();
    match Config::new("leiame.txt", &args) {
        Ok(_) => panic!("classified"),
        Err(message) => assert_eq!(message, "Tipo de arquivo inválido!"),
    }
}

#[test]
fn config_hands_the_options_on() {
    let mut args = options();
    args.rows_per_insert = 250;
    args.verbose = true;
    args.empty = true;
    args.truncate_table = true;
    args.drop_indexes = true;
    args.force = true;
    let config = Config::new("F.K03200$Z.D10710.CNAECSV", &args).ok().unwrap();
    assert_eq!(config.rows_per_insert(), 250);
    assert!(config.verbose());
    assert!(config.empty());
    assert!(config.truncate_table());
    assert!(config.drop_indexes());
    assert!(config.force());
    let plain = options();
    let config = Config::new("F.K03200$Z.D10710.CNAECSV", &plain).ok().unwrap();
    assert_eq!(config.rows_per_insert(), 1000);
    assert!(!config.verbose());
    assert!(!config.empty());
    assert!(!config.truncate_table());
    assert!(!config.drop_indexes());
    assert!(!config.force());
}
