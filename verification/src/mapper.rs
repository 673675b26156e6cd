//! From a row to a record: one mapper for each kind of file.
//!
//! Each mapper reads the fields of its kind from left to right and stops at
//! the first that cannot be read. A row may be longer than its kind needs;
//! what is behind the last field of the kind is not looked at.

use crate::date::ymd_of;
use crate::decimal::decimal_of;
use crate::models::{
    NewCNAE, NewEmpresa, NewEstabelecimento, NewMotivoDeSituacaoCadastral, NewMunicipio,
    NewNaturezaJuridica, NewPais, NewQualificacaoDeSocio, NewSimples, NewSocio, TypedRecord,
};
use crate::number::number_of;
use crate::row::{
    date_view, decimal_view, is_blank, legacy_text, lenient_number, lenient_text,
    lenient_text_of, number_view, optional_date, optional_number, optional_number_of,
    optional_text, optional_text_of, optional_text_or, optional_text_or_of, required_date,
    required_decimal, required_number,
    required_text, text_view, FieldFault, RawRow, RowError,
};
use crate::text::{latin9_text, utf8_text};
use crate::tipo_de_arquivo::TipoDeArquivo;
use vstd::prelude::*;

verus! {

/// The fault `fault` at the field `field`.
pub open spec fn fault_at(field: int, fault: FieldFault) -> RowError {
    RowError { field: field as usize, fault }
}

/// The view of an optional number of one byte.
pub open spec fn u8_view(number: Option<u8>) -> Option<nat> {
    match number {
        Some(number) => Some(number as nat),
        None => None,
    }
}

/// The view of an optional number of two bytes.
pub open spec fn u16_view(number: Option<u16>) -> Option<nat> {
    match number {
        Some(number) => Some(number as nat),
        None => None,
    }
}

fn narrow_u8(number: Option<u32>) -> (r: Option<u8>)
    requires
        number matches Some(n) ==> n <= 255,
    ensures
        u8_view(r) == number_view(number),
{
    match number {
        Some(n) => Some(n as u8),
        None => None,
    }
}

fn narrow_u16(number: Option<u32>) -> (r: Option<u16>)
    requires
        number matches Some(n) ==> n <= 65535,
    ensures
        u16_view(r) == number_view(number),
{
    match number {
        Some(n) => Some(n as u16),
        None => None,
    }
}

/// The fields of a company, in the order of the file.
pub open spec fn empresa_fault(row: Seq<Seq<u8>>) -> Option<RowError> {
    if row.len() < 7 {
        Some(fault_at(row.len() as int, FieldFault::Missing))
    } else if utf8_text(row[0]) is None {
        Some(fault_at(0, FieldFault::NotText))
    } else if number_of(row[2], 65535) is None {
        Some(fault_at(2, FieldFault::NotANumber))
    } else if number_of(row[3], 255) is None {
        Some(fault_at(3, FieldFault::NotANumber))
    } else if decimal_of(row[4]) is None {
        Some(fault_at(4, FieldFault::NotADecimal))
    } else {
        None
    }
}

/// `record` is the company that `row` writes. The size code is null where its
/// field is blank; a size code that is not UTF-8 is kept as the marker `ER`.
pub open spec fn is_empresa_of(record: NewEmpresa, row: Seq<Seq<u8>>) -> bool {
    &&& row.len() >= 7
    &&& Some(record.cnpj_basico@) == utf8_text(row[0])
    &&& record.razao_social@ == latin9_text(row[1])
    &&& u16_view(record.natureza_juridica) == number_of(row[2], 65535)
    &&& record.natureza_juridica is Some
    &&& u8_view(record.qualificacao_do_responsavel) == number_of(row[3], 255)
    &&& record.qualificacao_do_responsavel is Some
    &&& decimal_view(record.capital_social) == decimal_of(row[4])
    &&& record.capital_social is Some
    &&& text_view(record.porte) == optional_text_or_of(row[5], "ER"@)
    &&& text_view(record.ente_federativo_responsavel) == Some(latin9_text(row[6]))
}

/// Maps a row of a file of companies.
pub fn map_empresa(row: &RawRow) -> (r: Result<NewEmpresa, RowError>)
    ensures
        r matches Ok(record) ==> empresa_fault(row@) is None && is_empresa_of(record, row@),
        r matches Err(e) ==> empresa_fault(row@) == Some(e),
{
    if row.len() < 7 {
        return Err(RowError { field: row.len(), fault: FieldFault::Missing });
    }
    let cnpj_basico = required_text(row.field(0), 0)?;
    let razao_social = legacy_text(row.field(1), 1)?;
    let natureza_juridica = required_number(row.field(2), 2, 65535)?;
    let qualificacao_do_responsavel = required_number(row.field(3), 3, 255)?;
    let capital_social = required_decimal(row.field(4), 4)?;
    let porte = optional_text_or(row.field(5), "ER");
    let ente_federativo_responsavel = legacy_text(row.field(6), 6)?;
    Ok(
        NewEmpresa {
            cnpj_basico,
            razao_social,
            natureza_juridica: Some(natureza_juridica as u16),
            qualificacao_do_responsavel: Some(qualificacao_do_responsavel as u8),
            capital_social: Some(capital_social),
            porte,
            ente_federativo_responsavel: Some(ente_federativo_responsavel),
        },
    )
}

/// The first field of a row of establishments that cannot be read.
pub open spec fn estabelecimento_fault(row: Seq<Seq<u8>>) -> Option<RowError> {
    if row.len() < 30 {
        Some(fault_at(row.len() as int, FieldFault::Missing))
    } else if utf8_text(row[0]) is None {
        Some(fault_at(0, FieldFault::NotText))
    } else if utf8_text(row[1]) is None {
        Some(fault_at(1, FieldFault::NotText))
    } else if utf8_text(row[2]) is None {
        Some(fault_at(2, FieldFault::NotText))
    } else if utf8_text(row[3]) is None {
        Some(fault_at(3, FieldFault::NotText))
    } else if number_of(row[5], 255) is None {
        Some(fault_at(5, FieldFault::NotANumber))
    } else if optional_number_of(row[7], 255) is None {
        Some(fault_at(7, FieldFault::NotANumber))
    } else if optional_text_of(row[18]) is None {
        Some(fault_at(18, FieldFault::NotText))
    } else if optional_text_of(row[19]) is None {
        Some(fault_at(19, FieldFault::NotText))
    } else if optional_text_of(row[28]) is None {
        Some(fault_at(28, FieldFault::NotText))
    } else {
        None
    }
}

/// `record` is the establishment that `row` writes. The list of secondary
/// activities stays one text, commas and all.
pub open spec fn is_estabelecimento_of(record: NewEstabelecimento, row: Seq<Seq<u8>>) -> bool {
    &&& row.len() >= 30
    &&& Some(record.cnpj_basico@) == utf8_text(row[0])
    &&& Some(record.cnpj_ordem@) == utf8_text(row[1])
    &&& Some(record.cnpj_dv@) == utf8_text(row[2])
    &&& Some(record.identificador_matriz_filial@) == utf8_text(row[3])
    &&& text_view(record.nome_fantasia) == Some(latin9_text(row[4]))
    &&& Some(record.situacao_cadastral as nat) == number_of(row[5], 255)
    &&& date_view(record.data_situacao_cadastral) == ymd_of(row[6])
    &&& Some(u8_view(record.motivo_situacao_cadastral)) == optional_number_of(row[7], 255)
    &&& text_view(record.nome_da_cidade_no_exterior) == Some(latin9_text(row[8]))
    &&& u16_view(record.pais) == number_of(row[9], 65535)
    &&& date_view(record.data_de_inicio_da_atividade) == ymd_of(row[10])
    &&& number_view(record.cnae_fiscal_principal) == number_of(row[11], 4294967295)
    &&& text_view(record.cnae_fiscal_secundaria) == lenient_text_of(row[12])
    &&& text_view(record.tipo_logradouro) == Some(latin9_text(row[13]))
    &&& text_view(record.logradouro) == Some(latin9_text(row[14]))
    &&& text_view(record.numero) == Some(latin9_text(row[15]))
    &&& text_view(record.complemento) == Some(latin9_text(row[16]))
    &&& text_view(record.bairro) == Some(latin9_text(row[17]))
    &&& Some(text_view(record.cep)) == optional_text_of(row[18])
    &&& Some(text_view(record.uf)) == optional_text_of(row[19])
    &&& u16_view(record.municipio) == number_of(row[20], 65535)
    &&& text_view(record.ddd1) == lenient_text_of(row[21])
    &&& text_view(record.telefone1) == lenient_text_of(row[22])
    &&& text_view(record.ddd2) == lenient_text_of(row[23])
    &&& text_view(record.telefone2) == lenient_text_of(row[24])
    &&& text_view(record.ddd_fax) == lenient_text_of(row[25])
    &&& text_view(record.telefone_fax) == lenient_text_of(row[26])
    &&& text_view(record.correio_eletronico) == Some(latin9_text(row[27]))
    &&& Some(text_view(record.situacao_especial)) == optional_text_of(row[28])
    &&& date_view(record.data_situacao_especial) == ymd_of(row[29])
}

/// Maps a row of a file of establishments.
pub fn map_estabelecimento(row: &RawRow) -> (r: Result<NewEstabelecimento, RowError>)
    ensures
        r matches Ok(record) ==> estabelecimento_fault(row@) is None && is_estabelecimento_of(
            record,
            row@,
        ),
        r matches Err(e) ==> estabelecimento_fault(row@) == Some(e),
{
    if row.len() < 30 {
        return Err(RowError { field: row.len(), fault: FieldFault::Missing });
    }
    let cnpj_basico = required_text(row.field(0), 0)?;
    let cnpj_ordem = required_text(row.field(1), 1)?;
    let cnpj_dv = required_text(row.field(2), 2)?;
    let identificador_matriz_filial = required_text(row.field(3), 3)?;
    let nome_fantasia = legacy_text(row.field(4), 4)?;
    let situacao_cadastral = required_number(row.field(5), 5, 255)?;
    let data_situacao_cadastral = optional_date(row.field(6));
    let motivo_situacao_cadastral = optional_number(row.field(7), 7, 255)?;
    let nome_da_cidade_no_exterior = legacy_text(row.field(8), 8)?;
    let pais = lenient_number(row.field(9), 65535);
    let data_de_inicio_da_atividade = optional_date(row.field(10));
    let cnae_fiscal_principal = lenient_number(row.field(11), 4294967295);
    let cnae_fiscal_secundaria = lenient_text(row.field(12));
    let tipo_logradouro = legacy_text(row.field(13), 13)?;
    let logradouro = legacy_text(row.field(14), 14)?;
    let numero = legacy_text(row.field(15), 15)?;
    let complemento = legacy_text(row.field(16), 16)?;
    let bairro = legacy_text(row.field(17), 17)?;
    let cep = optional_text(row.field(18), 18)?;
    let uf = optional_text(row.field(19), 19)?;
    let municipio = lenient_number(row.field(20), 65535);
    let ddd1 = lenient_text(row.field(21));
    let telefone1 = lenient_text(row.field(22));
    let ddd2 = lenient_text(row.field(23));
    let telefone2 = lenient_text(row.field(24));
    let ddd_fax = lenient_text(row.field(25));
    let telefone_fax = lenient_text(row.field(26));
    let correio_eletronico = legacy_text(row.field(27), 27)?;
    let situacao_especial = optional_text(row.field(28), 28)?;
    let data_situacao_especial = optional_date(row.field(29));
    Ok(
        NewEstabelecimento {
            cnpj_basico,
            cnpj_ordem,
            cnpj_dv,
            identificador_matriz_filial,
            nome_fantasia: Some(nome_fantasia),
            situacao_cadastral: situacao_cadastral as u8,
            data_situacao_cadastral,
            motivo_situacao_cadastral: narrow_u8(motivo_situacao_cadastral),
            nome_da_cidade_no_exterior: Some(nome_da_cidade_no_exterior),
            pais: narrow_u16(pais),
            data_de_inicio_da_atividade,
            cnae_fiscal_principal,
            cnae_fiscal_secundaria,
            tipo_logradouro: Some(tipo_logradouro),
            logradouro: Some(logradouro),
            numero: Some(numero),
            complemento: Some(complemento),
            bairro: Some(bairro),
            cep,
            uf,
            municipio: narrow_u16(municipio),
            ddd1,
            telefone1,
            ddd2,
            telefone2,
            ddd_fax,
            telefone_fax,
            correio_eletronico: Some(correio_eletronico),
            situacao_especial,
            data_situacao_especial,
        },
    )
}

/// The first field of a row of partners that cannot be read.
pub open spec fn socio_fault(row: Seq<Seq<u8>>) -> Option<RowError> {
    if row.len() < 11 {
        Some(fault_at(row.len() as int, FieldFault::Missing))
    } else if utf8_text(row[0]) is None {
        Some(fault_at(0, FieldFault::NotText))
    } else if number_of(row[1], 255) is None {
        Some(fault_at(1, FieldFault::NotANumber))
    } else if optional_text_of(row[3]) is None {
        Some(fault_at(3, FieldFault::NotText))
    } else if number_of(row[4], 255) is None {
        Some(fault_at(4, FieldFault::NotANumber))
    } else if ymd_of(row[5]) is None {
        Some(fault_at(5, FieldFault::NotADate))
    } else if optional_number_of(row[6], 65535) is None {
        Some(fault_at(6, FieldFault::NotANumber))
    } else if utf8_text(row[7]) is None {
        Some(fault_at(7, FieldFault::NotText))
    } else if number_of(row[9], 255) is None {
        Some(fault_at(9, FieldFault::NotANumber))
    } else if number_of(row[10], 255) is None {
        Some(fault_at(10, FieldFault::NotANumber))
    } else {
        None
    }
}

/// `record` is the partner that `row` writes. The date of entry has no null in
/// the record, so a row whose date of entry is blank or not a date has a
/// fault and maps to no record; every other date of the feed forgives.
pub open spec fn is_socio_of(record: NewSocio, row: Seq<Seq<u8>>) -> bool {
    &&& row.len() >= 11
    &&& Some(record.cnpj_basico@) == utf8_text(row[0])
    &&& Some(record.identificador_de_socio as nat) == number_of(row[1], 255)
    &&& record.nome_ou_razao_social_do_socio@ == latin9_text(row[2])
    &&& Some(text_view(record.cnpj_ou_cpf_do_socio)) == optional_text_of(row[3])
    &&& Some(record.qualificacao_do_socio as nat) == number_of(row[4], 255)
    &&& Some(record.data_de_entrada_na_sociedade.ymd()) == ymd_of(row[5])
    &&& Some(u16_view(record.pais_do_socio)) == optional_number_of(row[6], 65535)
    &&& Some(record.cpf_do_representante_legal@) == utf8_text(row[7])
    &&& record.nome_do_representante_legal@ == latin9_text(row[8])
    &&& Some(record.qualificacao_do_representante_legal as nat) == number_of(row[9], 255)
    &&& Some(record.faixa_etaria_do_socio as nat) == number_of(row[10], 255)
}

/// Maps a row of a file of partners.
pub fn map_socio(row: &RawRow) -> (r: Result<NewSocio, RowError>)
    ensures
        r matches Ok(record) ==> socio_fault(row@) is None && is_socio_of(record, row@),
        r matches Err(e) ==> socio_fault(row@) == Some(e),
{
    if row.len() < 11 {
        return Err(RowError { field: row.len(), fault: FieldFault::Missing });
    }
    let cnpj_basico = required_text(row.field(0), 0)?;
    let identificador_de_socio = required_number(row.field(1), 1, 255)?;
    let nome_ou_razao_social_do_socio = legacy_text(row.field(2), 2)?;
    let cnpj_ou_cpf_do_socio = optional_text(row.field(3), 3)?;
    let qualificacao_do_socio = required_number(row.field(4), 4, 255)?;
    let data_de_entrada_na_sociedade = required_date(row.field(5), 5)?;
    let pais_do_socio = optional_number(row.field(6), 6, 65535)?;
    let cpf_do_representante_legal = required_text(row.field(7), 7)?;
    let nome_do_representante_legal = legacy_text(row.field(8), 8)?;
    let qualificacao_do_representante_legal = required_number(row.field(9), 9, 255)?;
    let faixa_etaria_do_socio = required_number(row.field(10), 10, 255)?;
    Ok(
        NewSocio {
            cnpj_basico,
            identificador_de_socio: identificador_de_socio as u8,
            nome_ou_razao_social_do_socio,
            cnpj_ou_cpf_do_socio,
            qualificacao_do_socio: qualificacao_do_socio as u8,
            data_de_entrada_na_sociedade,
            pais_do_socio: narrow_u16(pais_do_socio),
            cpf_do_representante_legal,
            nome_do_representante_legal,
            qualificacao_do_representante_legal: qualificacao_do_representante_legal as u8,
            faixa_etaria_do_socio: faixa_etaria_do_socio as u8,
        },
    )
}

/// The first field of a row of tax-regime choices that cannot be read.
pub open spec fn simples_fault(row: Seq<Seq<u8>>) -> Option<RowError> {
    if row.len() < 7 {
        Some(fault_at(row.len() as int, FieldFault::Missing))
    } else if utf8_text(row[0]) is None {
        Some(fault_at(0, FieldFault::NotText))
    } else if utf8_text(row[1]) is None {
        Some(fault_at(1, FieldFault::NotText))
    } else if utf8_text(row[4]) is None {
        Some(fault_at(4, FieldFault::NotText))
    } else {
        None
    }
}

/// `record` is the tax-regime choice that `row` writes.
pub open spec fn is_simples_of(record: NewSimples, row: Seq<Seq<u8>>) -> bool {
    &&& row.len() >= 7
    &&& Some(record.cnpj_basico@) == utf8_text(row[0])
    &&& Some(record.opcao_pelo_simples@) == utf8_text(row[1])
    &&& date_view(record.data_de_opcao_pelo_simples) == ymd_of(row[2])
    &&& date_view(record.data_de_exclusao_do_simples) == ymd_of(row[3])
    &&& Some(record.opcao_pelo_mei@) == utf8_text(row[4])
    &&& date_view(record.data_de_opcao_pelo_mei) == ymd_of(row[5])
    &&& date_view(record.data_de_exclusao_do_mei) == ymd_of(row[6])
}

/// Maps a row of a file of tax-regime choices.
pub fn map_simples(row: &RawRow) -> (r: Result<NewSimples, RowError>)
    ensures
        r matches Ok(record) ==> simples_fault(row@) is None && is_simples_of(record, row@),
        r matches Err(e) ==> simples_fault(row@) == Some(e),
{
    if row.len() < 7 {
        return Err(RowError { field: row.len(), fault: FieldFault::Missing });
    }
    let cnpj_basico = required_text(row.field(0), 0)?;
    let opcao_pelo_simples = required_text(row.field(1), 1)?;
    let data_de_opcao_pelo_simples = optional_date(row.field(2));
    let data_de_exclusao_do_simples = optional_date(row.field(3));
    let opcao_pelo_mei = required_text(row.field(4), 4)?;
    let data_de_opcao_pelo_mei = optional_date(row.field(5));
    let data_de_exclusao_do_mei = optional_date(row.field(6));
    Ok(
        NewSimples {
            cnpj_basico,
            opcao_pelo_simples,
            data_de_opcao_pelo_simples,
            data_de_exclusao_do_simples,
            opcao_pelo_mei,
            data_de_opcao_pelo_mei,
            data_de_exclusao_do_mei,
        },
    )
}

/// The first field of a row of a code table that cannot be read: such a row
/// is a code of at most `max` and a name.
pub open spec fn code_fault(row: Seq<Seq<u8>>, max: nat) -> Option<RowError> {
    if row.len() < 2 {
        Some(fault_at(row.len() as int, FieldFault::Missing))
    } else if number_of(row[0], max) is None {
        Some(fault_at(0, FieldFault::NotANumber))
    } else {
        None
    }
}

/// `id` and `nome` are the code and the name that `row` writes.
pub open spec fn is_code_of(id: nat, nome: Seq<char>, row: Seq<Seq<u8>>, max: nat) -> bool {
    &&& row.len() >= 2
    &&& Some(id) == number_of(row[0], max)
    &&& nome == latin9_text(row[1])
}

/// Maps a row of a code table to its code and its name.
pub fn map_code(row: &RawRow, max: u32) -> (r: Result<(u32, String), RowError>)
    ensures
        r matches Ok(code) ==> code_fault(row@, max as nat) is None && is_code_of(
            code.0 as nat,
            code.1@,
            row@,
            max as nat,
        ),
        r matches Err(e) ==> code_fault(row@, max as nat) == Some(e),
{
    if row.len() < 2 {
        return Err(RowError { field: row.len(), fault: FieldFault::Missing });
    }
    let id = required_number(row.field(0), 0, max)?;
    let nome = legacy_text(row.field(1), 1)?;
    Ok((id, nome))
}

/// The largest code of the code table of a kind; 0 for the kinds that are no
/// code tables.
pub open spec fn largest_code(kind: TipoDeArquivo) -> nat {
    match kind {
        TipoDeArquivo::CNAES => 4294967295,
        TipoDeArquivo::NaturezasJuridicas => 65535,
        TipoDeArquivo::Paises => 65535,
        TipoDeArquivo::Municipios => 65535,
        TipoDeArquivo::QualificacoesDeSocios => 255,
        TipoDeArquivo::MotivosDeSituacoesCadastrais => 255,
        _ => 0,
    }
}

/// The first field of a row of a file of the given kind that cannot be read,
/// or `None` where the row maps to a record.
pub open spec fn row_fault(kind: TipoDeArquivo, row: Seq<Seq<u8>>) -> Option<RowError> {
    match kind {
        TipoDeArquivo::Empresas => empresa_fault(row),
        TipoDeArquivo::Estabelecimentos => estabelecimento_fault(row),
        TipoDeArquivo::Socios => socio_fault(row),
        TipoDeArquivo::Simples => simples_fault(row),
        _ => code_fault(row, largest_code(kind)),
    }
}

/// `record` is the record of the given kind that `row` writes.
pub open spec fn is_record_of(record: TypedRecord, kind: TipoDeArquivo, row: Seq<Seq<u8>>) -> bool {
    &&& record.kind() == kind
    &&& match record {
        TypedRecord::Empresa(r) => is_empresa_of(r, row),
        TypedRecord::Estabelecimento(r) => is_estabelecimento_of(r, row),
        TypedRecord::Socio(r) => is_socio_of(r, row),
        TypedRecord::Simples(r) => is_simples_of(r, row),
        TypedRecord::Cnae(r) => is_code_of(r.id as nat, r.nome@, row, largest_code(kind)),
        TypedRecord::NaturezaJuridica(r) => is_code_of(
            r.id as nat,
            r.nome@,
            row,
            largest_code(kind),
        ),
        TypedRecord::QualificacaoDeSocio(r) => is_code_of(
            r.id as nat,
            r.nome@,
            row,
            largest_code(kind),
        ),
        TypedRecord::Pais(r) => is_code_of(r.id as nat, r.nome@, row, largest_code(kind)),
        TypedRecord::Municipio(r) => is_code_of(r.id as nat, r.nome@, row, largest_code(kind)),
        TypedRecord::MotivoDeSituacaoCadastral(r) => is_code_of(
            r.id as nat,
            r.nome@,
            row,
            largest_code(kind),
        ),
    }
}

/// Maps a row of a file of the given kind.
pub fn map_row(kind: &TipoDeArquivo, row: &RawRow) -> (r: Result<TypedRecord, RowError>)
    ensures
        r matches Ok(record) ==> row_fault(*kind, row@) is None && is_record_of(
            record,
            *kind,
            row@,
        ),
        r matches Err(e) ==> row_fault(*kind, row@) == Some(e),
{
    match kind {
        TipoDeArquivo::Empresas => Ok(TypedRecord::Empresa(map_empresa(row)?)),
        TipoDeArquivo::Estabelecimentos => Ok(
            TypedRecord::Estabelecimento(map_estabelecimento(row)?),
        ),
        TipoDeArquivo::Socios => Ok(TypedRecord::Socio(map_socio(row)?)),
        TipoDeArquivo::Simples => Ok(TypedRecord::Simples(map_simples(row)?)),
        TipoDeArquivo::CNAES => {
            let (id, nome) = map_code(row, 4294967295)?;
            Ok(TypedRecord::Cnae(NewCNAE { id, nome }))
        },
        TipoDeArquivo::NaturezasJuridicas => {
            let (id, nome) = map_code(row, 65535)?;
            Ok(TypedRecord::NaturezaJuridica(NewNaturezaJuridica { id: id as u16, nome }))
        },
        TipoDeArquivo::Paises => {
            let (id, nome) = map_code(row, 65535)?;
            Ok(TypedRecord::Pais(NewPais { id: id as u16, nome }))
        },
        TipoDeArquivo::Municipios => {
            let (id, nome) = map_code(row, 65535)?;
            Ok(TypedRecord::Municipio(NewMunicipio { id: id as u16, nome }))
        },
        TipoDeArquivo::QualificacoesDeSocios => {
            let (id, nome) = map_code(row, 255)?;
            Ok(TypedRecord::QualificacaoDeSocio(NewQualificacaoDeSocio { id: id as u8, nome }))
        },
        TipoDeArquivo::MotivosDeSituacoesCadastrais => {
            let (id, nome) = map_code(row, 255)?;
            Ok(
                TypedRecord::MotivoDeSituacaoCadastral(
                    NewMotivoDeSituacaoCadastral { id: id as u8, nome },
                ),
            )
        },
    }
}

/// A blank size code of a company is null in its record.
pub proof fn lemma_blank_is_null_empresa(record: NewEmpresa, row: Seq<Seq<u8>>)
    requires
        is_empresa_of(record, row),
    ensures
        is_blank(row[5]) ==> record.porte is None,
{
}

/// A blank optional number or date of an establishment is null in its
/// record.
pub proof fn lemma_blank_is_null_estabelecimento(record: NewEstabelecimento, row: Seq<Seq<u8>>)
    requires
        is_estabelecimento_of(record, row),
    ensures
        is_blank(row[6]) ==> record.data_situacao_cadastral is None,
        is_blank(row[7]) ==> record.motivo_situacao_cadastral is None,
        is_blank(row[9]) ==> record.pais is None,
        is_blank(row[10]) ==> record.data_de_inicio_da_atividade is None,
        is_blank(row[11]) ==> record.cnae_fiscal_principal is None,
        is_blank(row[20]) ==> record.municipio is None,
        is_blank(row[29]) ==> record.data_situacao_especial is None,
{
}

/// A blank country of a partner is null in its record.
pub proof fn lemma_blank_is_null_socio(record: NewSocio, row: Seq<Seq<u8>>)
    requires
        is_socio_of(record, row),
    ensures
        is_blank(row[6]) ==> record.pais_do_socio is None,
{
}

/// A blank date of a tax-regime choice is null in its record.
pub proof fn lemma_blank_is_null_simples(record: NewSimples, row: Seq<Seq<u8>>)
    requires
        is_simples_of(record, row),
    ensures
        is_blank(row[2]) ==> record.data_de_opcao_pelo_simples is None,
        is_blank(row[3]) ==> record.data_de_exclusao_do_simples is None,
        is_blank(row[5]) ==> record.data_de_opcao_pelo_mei is None,
        is_blank(row[6]) ==> record.data_de_exclusao_do_mei is None,
{
}

/// A date of a record that is not null writes back as the field it was read
/// from.
pub proof fn lemma_mapped_date_round_trip(field: Seq<u8>, date: crate::date::Date)
    requires
        ymd_of(field) == Some(date.ymd()),
    ensures
        crate::date::digits_of(date.ymd()) == field,
{
    crate::date::lemma_date_round_trip(field);
}

} // verus!
