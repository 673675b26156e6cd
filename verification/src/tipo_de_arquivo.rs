//! The ten kinds of file in an archive, told apart by a marker in the name.

use crate::text::{chars_of, contains, has_substring};
use vstd::prelude::*;

verus! {

/// The kind of records that a file of the feed holds.
#[derive(Clone, Copy, Debug, PartialEq, Eq, Structural)]
pub enum TipoDeArquivo {
    Empresas,
    Estabelecimentos,
    CNAES,
    NaturezasJuridicas,
    QualificacoesDeSocios,
    Paises,
    Municipios,
    MotivosDeSituacoesCadastrais,
    Simples,
    Socios,
}

impl TipoDeArquivo {
    /// The token in a file's name that marks this kind.
    pub open spec fn marker(self) -> Seq<char> {
        match self {
            TipoDeArquivo::Simples => ".SIMPLES.CSV"@,
            TipoDeArquivo::CNAES => ".CNAECSV"@,
            TipoDeArquivo::MotivosDeSituacoesCadastrais => ".MOTICSV"@,
            TipoDeArquivo::Municipios => ".MUNICCSV"@,
            TipoDeArquivo::NaturezasJuridicas => ".NATJUCSV"@,
            TipoDeArquivo::Paises => ".PAISCSV"@,
            TipoDeArquivo::QualificacoesDeSocios => ".QUALSCSV"@,
            TipoDeArquivo::Empresas => ".EMPRECSV"@,
            TipoDeArquivo::Estabelecimentos => ".ESTABELE"@,
            TipoDeArquivo::Socios => ".SOCIOCSV"@,
        }
    }

    /// The kind of the file called `name`: that of the first marker, in the
    /// order below, that the name contains. The markers are meant to exclude
    /// one another, so the order decides nothing for a name of the feed.
    pub open spec fn of_filename(name: Seq<char>) -> Option<TipoDeArquivo> {
        if contains(name, TipoDeArquivo::Simples.marker()) {
            Some(TipoDeArquivo::Simples)
        } else if contains(name, TipoDeArquivo::CNAES.marker()) {
            Some(TipoDeArquivo::CNAES)
        } else if contains(name, TipoDeArquivo::MotivosDeSituacoesCadastrais.marker()) {
            Some(TipoDeArquivo::MotivosDeSituacoesCadastrais)
        } else if contains(name, TipoDeArquivo::Municipios.marker()) {
            Some(TipoDeArquivo::Municipios)
        } else if contains(name, TipoDeArquivo::NaturezasJuridicas.marker()) {
            Some(TipoDeArquivo::NaturezasJuridicas)
        } else if contains(name, TipoDeArquivo::Paises.marker()) {
            Some(TipoDeArquivo::Paises)
        } else if contains(name, TipoDeArquivo::QualificacoesDeSocios.marker()) {
            Some(TipoDeArquivo::QualificacoesDeSocios)
        } else if contains(name, TipoDeArquivo::Empresas.marker()) {
            Some(TipoDeArquivo::Empresas)
        } else if contains(name, TipoDeArquivo::Estabelecimentos.marker()) {
            Some(TipoDeArquivo::Estabelecimentos)
        } else if contains(name, TipoDeArquivo::Socios.marker()) {
            Some(TipoDeArquivo::Socios)
        } else {
            None
        }
    }

    /// Classifies a file by its name; `Err` where the name holds no marker.
    pub fn from_str(filename: &str) -> (r: Result<TipoDeArquivo, ()>)
        ensures
            r matches Ok(kind) ==> TipoDeArquivo::of_filename(filename@) == Some(kind),
            r is Err ==> TipoDeArquivo::of_filename(filename@) is None,
    {
        let name = chars_of(filename);
        if has_substring(&name, ".SIMPLES.CSV") {
            Ok(TipoDeArquivo::Simples)
        } else if has_substring(&name, ".CNAECSV") {
            Ok(TipoDeArquivo::CNAES)
        } else if has_substring(&name, ".MOTICSV") {
            Ok(TipoDeArquivo::MotivosDeSituacoesCadastrais)
        } else if has_substring(&name, ".MUNICCSV") {
            Ok(TipoDeArquivo::Municipios)
        } else if has_substring(&name, ".NATJUCSV") {
            Ok(TipoDeArquivo::NaturezasJuridicas)
        } else if has_substring(&name, ".PAISCSV") {
            Ok(TipoDeArquivo::Paises)
        } else if has_substring(&name, ".QUALSCSV") {
            Ok(TipoDeArquivo::QualificacoesDeSocios)
        } else if has_substring(&name, ".EMPRECSV") {
            Ok(TipoDeArquivo::Empresas)
        } else if has_substring(&name, ".ESTABELE") {
            Ok(TipoDeArquivo::Estabelecimentos)
        } else if has_substring(&name, ".SOCIOCSV") {
            Ok(TipoDeArquivo::Socios)
        } else {
            Err(())
        }
    }

    /// The name of the table that holds this kind.
    pub open spec fn table(self) -> Seq<char> {
        match self {
            TipoDeArquivo::CNAES => "cnaes"@,
            TipoDeArquivo::Empresas => "empresas"@,
            TipoDeArquivo::Estabelecimentos => "estabelecimentos"@,
            TipoDeArquivo::MotivosDeSituacoesCadastrais => "motivos_de_situacoes_cadastrais"@,
            TipoDeArquivo::Municipios => "municipios"@,
            TipoDeArquivo::NaturezasJuridicas => "naturezas_juridicas"@,
            TipoDeArquivo::Paises => "paises"@,
            TipoDeArquivo::QualificacoesDeSocios => "qualificacoes_de_socios"@,
            TipoDeArquivo::Simples => "simples"@,
            TipoDeArquivo::Socios => "socios"@,
        }
    }

    /// The name of the table that holds this kind.
    pub fn table_name(&self) -> (name: &'static str)
        ensures
            name@ == self.table(),
    {
        match self {
            TipoDeArquivo::CNAES => "cnaes",
            TipoDeArquivo::Empresas => "empresas",
            TipoDeArquivo::Estabelecimentos => "estabelecimentos",
            TipoDeArquivo::MotivosDeSituacoesCadastrais => "motivos_de_situacoes_cadastrais",
            TipoDeArquivo::Municipios => "municipios",
            TipoDeArquivo::NaturezasJuridicas => "naturezas_juridicas",
            TipoDeArquivo::Paises => "paises",
            TipoDeArquivo::QualificacoesDeSocios => "qualificacoes_de_socios",
            TipoDeArquivo::Simples => "simples",
            TipoDeArquivo::Socios => "socios",
        }
    }

    /// The part number of the last file of this kind: the three large tables
    /// come in ten parts, every other kind in one.
    pub open spec fn last_part(self) -> nat {
        match self {
            TipoDeArquivo::Empresas => 9,
            TipoDeArquivo::Estabelecimentos => 9,
            TipoDeArquivo::Socios => 9,
            _ => 0,
        }
    }

    /// The part number of the last file of this kind.
    pub fn last_part_number(&self) -> (part: u8)
        ensures
            part == self.last_part(),
    {
        match self {
            TipoDeArquivo::Empresas => 9,
            TipoDeArquivo::Estabelecimentos => 9,
            TipoDeArquivo::Socios => 9,
            _ => 0,
        }
    }
}

/// Classification is total on the names of the feed: a name that holds the
/// marker of a kind is classified.
pub proof fn lemma_marked_name_is_classified(name: Seq<char>, kind: TipoDeArquivo)
    requires
        contains(name, kind.marker()),
    ensures
        TipoDeArquivo::of_filename(name) is Some,
{
}

/// A name that holds the marker of one kind and of no other is classified as
/// that kind.
pub proof fn lemma_only_marker_decides(name: Seq<char>, kind: TipoDeArquivo)
    requires
        contains(name, kind.marker()),
        forall|other: TipoDeArquivo| other != kind ==> !contains(name, #[trigger] other.marker()),
    ensures
        TipoDeArquivo::of_filename(name) == Some(kind),
{
}

} // verus!
