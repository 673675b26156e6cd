use cnpj_import::archive::{
    archives_in_order, has_zip_extension, member_of, precedes, target_of, Member, Target,
};
use cnpj_import::cli::Cli;
use cnpj_import::tipo_de_arquivo::TipoDeArquivo;

fn options(folder: bool) -> Cli {
    Cli {
        rows_per_insert: 1000,
        verbose: false,
        empty: false,
        drop_indexes: false,
        truncate_table: false,
        folder,
        force: false,
        path_to_import: String::new(),
    }
}

fn chars(s: &str) -> Vec<char> {
    s.chars().collect()
}

fn names(list: &[&str]) -> Vec<String> {
    list.iter().map(|n| String::from(*n)).collect()
}

#[test]
fn order_of_the_dictionary() {
    assert!(precedes(&chars(""), &chars("")));
    assert!(precedes(&chars(""), &chars("a")));
    assert!(!precedes(&chars("a"), &chars("")));
    assert!(precedes(&chars("a"), &chars("a")));
    assert!(precedes(&chars("a"), &chars("b")));
    assert!(!precedes(&chars("b"), &chars("a")));
    assert!(precedes(&chars("ab"), &chars("abc")));
    assert!(!precedes(&chars("abc"), &chars("ab")));
    assert!(precedes(&chars("Y0"), &chars("Y9")));
    assert!(precedes(&chars("Z"), &chars("a")));
    assert!(precedes(&chars("z"), &chars("é")));
}

#[test]
fn agrees_with_the_order_of_strings() {
    let samples = ["", "a", "ab", "b", "B", "é", "z", "K3241.K03200Y0", "K3241.K03200Y1", "日本"];
    for a in samples {
        for b in samples {
            assert_eq!(precedes(&chars(a), &chars(b)), a <= b, "{:?} {:?}", a, b);
        }
    }
}

#[test]
fn the_extension_must_be_zip() {
    assert!(has_zip_extension(&chars("a.zip")));
    assert!(has_zip_extension(&chars("K3241.K03200Y0.D10710.EMPRECSV.zip")));
    assert!(has_zip_extension(&chars("..zip")));
    assert!(!has_zip_extension(&chars(".zip")));
    assert!(!has_zip_extension(&chars("zip")));
    assert!(!has_zip_extension(&chars("a.ZIP")));
    assert!(!has_zip_extension(&chars("a.zip.part")));
    assert!(!has_zip_extension(&chars("a.zipx")));
    assert!(!has_zip_extension(&chars("")));
}

#[test]
fn archives_come_in_the_order_of_their_names() {
    let found = names(&[
        "K3241.K03200Y9.D10710.ESTABELE.zip",
        "leiame.txt",
        "K3241.K03200Y0.D10710.ESTABELE.zip",
        "F.K03200$Z.D10710.CNAECSV.zip",
        "K3241.K03200Y5.D10710.ESTABELE.zip",
        "notas.ZIP",
    ]);
    assert_eq!(
        archives_in_order(&found),
        names(&[
            "F.K03200$Z.D10710.CNAECSV.zip",
            "K3241.K03200Y0.D10710.ESTABELE.zip",
            "K3241.K03200Y5.D10710.ESTABELE.zip",
            "K3241.K03200Y9.D10710.ESTABELE.zip",
        ])
    );
}

#[test]
fn ordering_keeps_every_archive() {
    let found = names(&["b.zip", "a.zip", "b.zip", "c.txt", "a.zip", "0.zip"]);
    assert_eq!(archives_in_order(&found), names(&["0.zip", "a.zip", "a.zip", "b.zip", "b.zip"]));
    assert_eq!(archives_in_order(&Vec::new()), Vec::<String>::new());
    assert_eq!(archives_in_order(&names(&["x", "y"])), Vec::<String>::new());
}

#[test]
fn ordering_agrees_with_sorting() {
    let found = names(&["q.zip", "é.zip", "Q.zip", "10.zip", "9.zip", "aa.zip", "a.zip", "z.zip"]);
    let mut expected = found.clone();
    expected.sort();
    assert_eq!(archives_in_order(&found), expected);
}

#[test]
fn a_directory_inside_an_archive_is_passed_over() {
    let args = options(false);
    assert!(matches!(member_of("dados/", &args), Ok(Member::Directory)));
    assert!(matches!(member_of("dados.EMPRECSV/", &args), Ok(Member::Directory)));
    assert!(matches!(member_of("/", &args), Ok(Member::Directory)));
}

#[test]
fn a_file_inside_an_archive_is_classified() {
    let args = options(false);
    match member_of("K3241.K03200Y4.D10710.EMPRECSV", &args) {
        Ok(Member::File(config)) => {
            assert_eq!(*config.tipo_de_arquivo(), TipoDeArquivo::Empresas);
            assert_eq!(config.file_part_number(), 4);
        }
        _ => panic!("not classified"),
    }
}

#[test]
fn an_unknown_file_inside_an_archive_ends_the_run() {
    let args = options(false);
    match member_of("leiame.txt", &args) {
        Err(message) => assert_eq!(message, "Tipo de arquivo inválido!"),
        _ => panic!("classified"),
    }
    assert!(member_of("", &args).is_err());
}

#[test]
fn the_target_of_a_run() {
    assert_eq!(target_of(&options(true)), Target::Directory);
    assert_eq!(target_of(&options(false)), Target::Archive);
}
