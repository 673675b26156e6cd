//! The records that go into the tables, one type per table.

use crate::date::Date;
use crate::decimal::Decimal;
use crate::tipo_de_arquivo::TipoDeArquivo;
use vstd::prelude::*;

verus! {

/// A company.
#[derive(Clone, Debug, PartialEq, Eq)]
pub struct NewEmpresa {
    pub cnpj_basico: String,
    pub razao_social: String,
    pub natureza_juridica: Option<u16>,
    pub qualificacao_do_responsavel: Option<u8>,
    pub capital_social: Option<Decimal>,
    pub porte: Option<String>,
    pub ente_federativo_responsavel: Option<String>,
}

/// A legal nature.
#[derive(Clone, Debug, PartialEq, Eq)]
pub struct NewNaturezaJuridica {
    pub id: u16,
    pub nome: String,
}

/// A qualification of a partner.
#[derive(Clone, Debug, PartialEq, Eq)]
pub struct NewQualificacaoDeSocio {
    pub id: u8,
    pub nome: String,
}

/// An economic activity.
#[derive(Clone, Debug, PartialEq, Eq)]
pub struct NewCNAE {
    pub id: u32,
    pub nome: String,
}

/// A country.
#[derive(Clone, Debug, PartialEq, Eq)]
pub struct NewPais {
    pub id: u16,
    pub nome: String,
}

/// A reason of a registration status.
#[derive(Clone, Debug, PartialEq, Eq)]
pub struct NewMotivoDeSituacaoCadastral {
    pub id: u8,
    pub nome: String,
}

/// A municipality.
#[derive(Clone, Debug, PartialEq, Eq)]
pub struct NewMunicipio {
    pub id: u16,
    pub nome: String,
}

/// An establishment of a company. Its key is `cnpj_basico`, `cnpj_ordem` and
/// `cnpj_dv` together.
#[derive(Clone, Debug, PartialEq, Eq)]
pub struct NewEstabelecimento {
    pub cnpj_basico: String,
    pub cnpj_ordem: String,
    pub cnpj_dv: String,
    pub identificador_matriz_filial: String,
    pub nome_fantasia: Option<String>,
    pub situacao_cadastral: u8,
    pub data_situacao_cadastral: Option<Date>,
    pub motivo_situacao_cadastral: Option<u8>,
    pub nome_da_cidade_no_exterior: Option<String>,
    pub pais: Option<u16>,
    pub data_de_inicio_da_atividade: Option<Date>,
    pub cnae_fiscal_principal: Option<u32>,
    pub cnae_fiscal_secundaria: Option<String>,
    pub tipo_logradouro: Option<String>,
    pub logradouro: Option<String>,
    pub numero: Option<String>,
    pub complemento: Option<String>,
    pub bairro: Option<String>,
    pub cep: Option<String>,
    pub uf: Option<String>,
    pub municipio: Option<u16>,
    pub ddd1: Option<String>,
    pub telefone1: Option<String>,
    pub ddd2: Option<String>,
    pub telefone2: Option<String>,
    pub ddd_fax: Option<String>,
    pub telefone_fax: Option<String>,
    pub correio_eletronico: Option<String>,
    pub situacao_especial: Option<String>,
    pub data_situacao_especial: Option<Date>,
}

/// The entry that records a finished import of one file.
#[derive(Clone, Debug, PartialEq, Eq)]
pub struct NewArquivoImportado {
    pub nome_do_arquivo: String,
    pub tabela: String,
    pub registros_processados: u32,
    pub tempo_decorrido_em_segundos: Option<u64>,
}

/// A partner of a company.
#[derive(Clone, Debug, PartialEq, Eq)]
pub struct NewSocio {
    pub cnpj_basico: String,
    pub identificador_de_socio: u8,
    pub nome_ou_razao_social_do_socio: String,
    pub cnpj_ou_cpf_do_socio: Option<String>,
    pub qualificacao_do_socio: u8,
    pub data_de_entrada_na_sociedade: Date,
    pub pais_do_socio: Option<u16>,
    pub cpf_do_representante_legal: String,
    pub nome_do_representante_legal: String,
    pub qualificacao_do_representante_legal: u8,
    pub faixa_etaria_do_socio: u8,
}

/// The choices of a company for the simplified tax regimes.
#[derive(Clone, Debug, PartialEq, Eq)]
pub struct NewSimples {
    pub cnpj_basico: String,
    pub opcao_pelo_simples: String,
    pub data_de_opcao_pelo_simples: Option<Date>,
    pub data_de_exclusao_do_simples: Option<Date>,
    pub opcao_pelo_mei: String,
    pub data_de_opcao_pelo_mei: Option<Date>,
    pub data_de_exclusao_do_mei: Option<Date>,
}

/// A record of any of the ten kinds.
#[derive(Clone, Debug, PartialEq, Eq)]
pub enum TypedRecord {
    Empresa(NewEmpresa),
    Estabelecimento(NewEstabelecimento),
    Socio(NewSocio),
    Simples(NewSimples),
    Cnae(NewCNAE),
    NaturezaJuridica(NewNaturezaJuridica),
    QualificacaoDeSocio(NewQualificacaoDeSocio),
    Pais(NewPais),
    Municipio(NewMunicipio),
    MotivoDeSituacaoCadastral(NewMotivoDeSituacaoCadastral),
}

impl TypedRecord {
    /// The kind of file that this record comes from.
    pub open spec fn kind(&self) -> TipoDeArquivo {
        match self {
            TypedRecord::Empresa(_) => TipoDeArquivo::Empresas,
            TypedRecord::Estabelecimento(_) => TipoDeArquivo::Estabelecimentos,
            TypedRecord::Socio(_) => TipoDeArquivo::Socios,
            TypedRecord::Simples(_) => TipoDeArquivo::Simples,
            TypedRecord::Cnae(_) => TipoDeArquivo::CNAES,
            TypedRecord::NaturezaJuridica(_) => TipoDeArquivo::NaturezasJuridicas,
            TypedRecord::QualificacaoDeSocio(_) => TipoDeArquivo::QualificacoesDeSocios,
            TypedRecord::Pais(_) => TipoDeArquivo::Paises,
            TypedRecord::Municipio(_) => TipoDeArquivo::Municipios,
            TypedRecord::MotivoDeSituacaoCadastral(_) => TipoDeArquivo::MotivosDeSituacoesCadastrais,
        }
    }

    /// The kind of file that this record comes from.
    pub fn tipo_de_arquivo(&self) -> (kind: TipoDeArquivo)
        ensures
            kind == self.kind(),
    {
        match self {
            TypedRecord::Empresa(_) => TipoDeArquivo::Empresas,
            TypedRecord::Estabelecimento(_) => TipoDeArquivo::Estabelecimentos,
            TypedRecord::Socio(_) => TipoDeArquivo::Socios,
            TypedRecord::Simples(_) => TipoDeArquivo::Simples,
            TypedRecord::Cnae(_) => TipoDeArquivo::CNAES,
            TypedRecord::NaturezaJuridica(_) => TipoDeArquivo::NaturezasJuridicas,
            TypedRecord::QualificacaoDeSocio(_) => TipoDeArquivo::QualificacoesDeSocios,
            TypedRecord::Pais(_) => TipoDeArquivo::Paises,
            TypedRecord::Municipio(_) => TipoDeArquivo::Municipios,
            TypedRecord::MotivoDeSituacaoCadastral(_) => TipoDeArquivo::MotivosDeSituacoesCadastrais,
        }
    }
}

} // verus!
