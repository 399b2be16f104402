//! Emission of the document.

use vstd::prelude::*;
use crate::arvore::{ver_elementos, Elemento, ElementoV};
use crate::base::{Error, ErrorV};
use crate::campo::{
    data_hora_valida, folha_codigo, folha_data_hora, ler_codigo, ler_data_hora, ler_texto,
    por_codigo, por_data_hora, por_texto, spec_codigo, spec_data_hora, spec_texto, texto_valido,
};
use crate::codigo::Codigo;
use crate::data_hora::DataHora;
use crate::texto::{aparado, lemma_aparado_idempotente};

verus! {

/// The emission of the document. On the wire these fields stand among those
/// of the identification.
#[derive(Debug, PartialEq, Eq, Clone)]
pub struct Emissao {
    /// When the document was issued. Tag `dhEmi`.
    pub horario: DataHora,
    /// Kind of emission. Tag `tpEmis`.
    pub tipo: TipoEmissao,
    /// Purpose of the emission. Tag `finNFe`.
    pub finalidade: FinalidadeEmissao,
    /// Process of emission. Tag `procEmi`.
    pub processo: TipoProcessoEmissao,
    /// Version of the process of emission. Tag `verProc`.
    pub versao_processo: String,
}

/// The mathematical value of an [`Emissao`].
pub ghost struct EmissaoV {
    pub horario: DataHora,
    pub tipo: TipoEmissao,
    pub finalidade: FinalidadeEmissao,
    pub processo: TipoProcessoEmissao,
    pub versao_processo: Seq<char>,
}

impl View for Emissao {
    type V = EmissaoV;

    open spec fn view(&self) -> EmissaoV {
        EmissaoV {
            horario: self.horario,
            tipo: self.tipo,
            finalidade: self.finalidade,
            processo: self.processo,
            versao_processo: self.versao_processo@,
        }
    }
}

/// The kind of emission: normal, or one of the contingencies.
#[derive(Debug, Eq, PartialEq, Copy, Clone, Structural)]
pub enum TipoEmissao {
    /// Normal emission. Code 1.
    Normal,
    /// Contingency FS-IA, printed on a security form. Code 2.
    ContigenciaFsIa,
    /// Contingency SCAN. Code 3.
    ContingenciaScan,
    /// Contingency EPEC. Code 4.
    ContigenciaEpec,
    /// Contingency FS-DA, printed on a security form. Code 5.
    ContigenciaFsDa,
    /// Contingency SVC-AN. Code 6.
    ContigenciaSvcAn,
    /// Contingency SVC-RS. Code 7.
    ContigenciaSvcRs,
    /// Off-line contingency of the NFC-e. Code 9.
    ContigenciaOfflineNfce,
}

impl Codigo for TipoEmissao {
    open spec fn codigo_spec(self) -> u8 {
        match self {
            TipoEmissao::Normal => 1,
            TipoEmissao::ContigenciaFsIa => 2,
            TipoEmissao::ContingenciaScan => 3,
            TipoEmissao::ContigenciaEpec => 4,
            TipoEmissao::ContigenciaFsDa => 5,
            TipoEmissao::ContigenciaSvcAn => 6,
            TipoEmissao::ContigenciaSvcRs => 7,
            TipoEmissao::ContigenciaOfflineNfce => 9,
        }
    }

    open spec fn de_codigo_spec(codigo: u8) -> Option<Self> {
        match codigo {
            1 => Some(TipoEmissao::Normal),
            2 => Some(TipoEmissao::ContigenciaFsIa),
            3 => Some(TipoEmissao::ContingenciaScan),
            4 => Some(TipoEmissao::ContigenciaEpec),
            5 => Some(TipoEmissao::ContigenciaFsDa),
            6 => Some(TipoEmissao::ContigenciaSvcAn),
            7 => Some(TipoEmissao::ContigenciaSvcRs),
            9 => Some(TipoEmissao::ContigenciaOfflineNfce),
            _ => None,
        }
    }

    fn codigo(&self) -> (c: u8) {
        match self {
            TipoEmissao::Normal => 1,
            TipoEmissao::ContigenciaFsIa => 2,
            TipoEmissao::ContingenciaScan => 3,
            TipoEmissao::ContigenciaEpec => 4,
            TipoEmissao::ContigenciaFsDa => 5,
            TipoEmissao::ContigenciaSvcAn => 6,
            TipoEmissao::ContigenciaSvcRs => 7,
            TipoEmissao::ContigenciaOfflineNfce => 9,
        }
    }

    fn de_codigo(codigo: u8) -> (v: Option<Self>) {
        match codigo {
            1 => Some(TipoEmissao::Normal),
            2 => Some(TipoEmissao::ContigenciaFsIa),
            3 => Some(TipoEmissao::ContingenciaScan),
            4 => Some(TipoEmissao::ContigenciaEpec),
            5 => Some(TipoEmissao::ContigenciaFsDa),
            6 => Some(TipoEmissao::ContigenciaSvcAn),
            7 => Some(TipoEmissao::ContigenciaSvcRs),
            9 => Some(TipoEmissao::ContigenciaOfflineNfce),
            _ => None,
        }
    }

    proof fn lemma_codigo_ida_e_volta(v: Self) {
    }

    proof fn lemma_codigo_unico(codigo: u8) {
    }
}

/// The purpose of the emission.
#[derive(Debug, Eq, PartialEq, Copy, Clone, Structural)]
pub enum FinalidadeEmissao {
    /// Normal. Code 1.
    Normal,
    /// Complement of another document. Code 2.
    Complementar,
    /// Adjustment. Code 3.
    Ajuste,
    /// Return of goods. Code 4.
    Devolucao,
}

impl Codigo for FinalidadeEmissao {
    open spec fn codigo_spec(self) -> u8 {
        match self {
            FinalidadeEmissao::Normal => 1,
            FinalidadeEmissao::Complementar => 2,
            FinalidadeEmissao::Ajuste => 3,
            FinalidadeEmissao::Devolucao => 4,
        }
    }

    open spec fn de_codigo_spec(codigo: u8) -> Option<Self> {
        match codigo {
            1 => Some(FinalidadeEmissao::Normal),
            2 => Some(FinalidadeEmissao::Complementar),
            3 => Some(FinalidadeEmissao::Ajuste),
            4 => Some(FinalidadeEmissao::Devolucao),
            _ => None,
        }
    }

    fn codigo(&self) -> (c: u8) {
        match self {
            FinalidadeEmissao::Normal => 1,
            FinalidadeEmissao::Complementar => 2,
            FinalidadeEmissao::Ajuste => 3,
            FinalidadeEmissao::Devolucao => 4,
        }
    }

    fn de_codigo(codigo: u8) -> (v: Option<Self>) {
        match codigo {
            1 => Some(FinalidadeEmissao::Normal),
            2 => Some(FinalidadeEmissao::Complementar),
            3 => Some(FinalidadeEmissao::Ajuste),
            4 => Some(FinalidadeEmissao::Devolucao),
            _ => None,
        }
    }

    proof fn lemma_codigo_ida_e_volta(v: Self) {
    }

    proof fn lemma_codigo_unico(codigo: u8) {
    }
}

/// The process by which the document was issued.
#[derive(Debug, Eq, PartialEq, Copy, Clone, Structural)]
pub enum TipoProcessoEmissao {
    /// With an application of the taxpayer. Code 0.
    ViaAplicativoDoContribuinte,
    /// Singly, by the tax authority. Code 1.
    AvulsaPeloFisco,
    /// Singly, by the taxpayer, on the site of the tax authority. Code 2.
    AvulsaPeloContribuinte,
    /// With the application of the tax authority. Code 3.
    ViaAplicativoDoFisco,
}

impl Codigo for TipoProcessoEmissao {
    open spec fn codigo_spec(self) -> u8 {
        match self {
            TipoProcessoEmissao::ViaAplicativoDoContribuinte => 0,
            TipoProcessoEmissao::AvulsaPeloFisco => 1,
            TipoProcessoEmissao::AvulsaPeloContribuinte => 2,
            TipoProcessoEmissao::ViaAplicativoDoFisco => 3,
        }
    }

    open spec fn de_codigo_spec(codigo: u8) -> Option<Self> {
        match codigo {
            0 => Some(TipoProcessoEmissao::ViaAplicativoDoContribuinte),
            1 => Some(TipoProcessoEmissao::AvulsaPeloFisco),
            2 => Some(TipoProcessoEmissao::AvulsaPeloContribuinte),
            3 => Some(TipoProcessoEmissao::ViaAplicativoDoFisco),
            _ => None,
        }
    }

    fn codigo(&self) -> (c: u8) {
        match self {
            TipoProcessoEmissao::ViaAplicativoDoContribuinte => 0,
            TipoProcessoEmissao::AvulsaPeloFisco => 1,
            TipoProcessoEmissao::AvulsaPeloContribuinte => 2,
            TipoProcessoEmissao::ViaAplicativoDoFisco => 3,
        }
    }

    fn de_codigo(codigo: u8) -> (v: Option<Self>) {
        match codigo {
            0 => Some(TipoProcessoEmissao::ViaAplicativoDoContribuinte),
            1 => Some(TipoProcessoEmissao::AvulsaPeloFisco),
            2 => Some(TipoProcessoEmissao::AvulsaPeloContribuinte),
            3 => Some(TipoProcessoEmissao::ViaAplicativoDoFisco),
            _ => None,
        }
    }

    proof fn lemma_codigo_ida_e_volta(v: Self) {
    }

    proof fn lemma_codigo_unico(codigo: u8) {
    }
}

impl EmissaoV {
    /// Whether the value is one that a document can hold: its texts are
    /// trimmed and its instants can be written and read back.
    pub open spec fn valido(self) -> bool {
        &&& self.horario.estavel()
        &&& aparado(self.versao_processo) == self.versao_processo
    }

    /// `antes` followed by the fields of the value, in the order of the wire.
    #[verifier::opaque]
    pub open spec fn spec_campos(self, antes: Seq<ElementoV>) -> Seq<ElementoV> {
        let f = antes;
        let f = f.push(folha_data_hora("dhEmi"@, self.horario));
        let f = f.push(folha_codigo("tpEmis"@, self.tipo));
        let f = f.push(folha_codigo("finNFe"@, self.finalidade));
        let f = f.push(folha_codigo("procEmi"@, self.processo));
        let f = f.push(ElementoV::folha("verProc"@, self.versao_processo));
        f
    }
}

impl Emissao {
    /// What decoding the fields among the children of `no` gives: the value,
    /// or the error of the first field, in the order of the wire, that has one.
    #[verifier::opaque]
    pub open spec fn spec_parse(no: ElementoV) -> Result<EmissaoV, ErrorV> {
        let horario = spec_data_hora(no, "dhEmi"@);
        let tipo = spec_codigo::<TipoEmissao>(no, "tpEmis"@);
        let finalidade = spec_codigo::<FinalidadeEmissao>(no, "finNFe"@);
        let processo = spec_codigo::<TipoProcessoEmissao>(no, "procEmi"@);
        let versao_processo = spec_texto(no, "verProc"@);
        if horario is Err {
            Err(horario->Err_0)
        } else if tipo is Err {
            Err(tipo->Err_0)
        } else if finalidade is Err {
            Err(finalidade->Err_0)
        } else if processo is Err {
            Err(processo->Err_0)
        } else if versao_processo is Err {
            Err(versao_processo->Err_0)
        } else {
            Ok(
                EmissaoV {
                    horario: horario->Ok_0,
                    tipo: tipo->Ok_0,
                    finalidade: finalidade->Ok_0,
                    processo: processo->Ok_0,
                    versao_processo: versao_processo->Ok_0,
                },
            )
        }
    }

    /// Decodes the value from the children of `no`.
    pub fn parse(no: &Elemento) -> (r: Result<Emissao, Error>)
        ensures
            r matches Ok(v) ==> Self::spec_parse(no@) == Ok::<EmissaoV, ErrorV>(v@),
            r matches Err(e) ==> Self::spec_parse(no@) == Err::<EmissaoV, ErrorV>(e@),
            r matches Ok(v) ==> v@.valido(),
    {
        proof {
            reveal(Emissao::spec_parse);
            Self::lemma_parse_valido(no@);
        }
        let horario = ler_data_hora(no, "dhEmi")?;
        let tipo = ler_codigo::<TipoEmissao>(no, "tpEmis")?;
        let finalidade = ler_codigo::<FinalidadeEmissao>(no, "finNFe")?;
        let processo = ler_codigo::<TipoProcessoEmissao>(no, "procEmi")?;
        let versao_processo = ler_texto(no, "verProc")?;
        Ok(Emissao { horario, tipo, finalidade, processo, versao_processo })
    }

    /// Appends the fields of the value to `filhos`, in the order of the wire.
    pub fn por_campos(&self, filhos: &mut Vec<Elemento>)
        requires
            self@.valido(),
        ensures
            ver_elementos(final(filhos)@) == self@.spec_campos(ver_elementos(old(filhos)@)),
    {
        proof {
            reveal(EmissaoV::spec_campos);
        }
        por_data_hora(filhos, "dhEmi", self.horario);
        por_codigo(filhos, "tpEmis", &self.tipo);
        por_codigo(filhos, "finNFe", &self.finalidade);
        por_codigo(filhos, "procEmi", &self.processo);
        por_texto(filhos, "verProc", &self.versao_processo);
    }

    /// Whether the value is one that a document can hold.
    pub fn eh_valido(&self) -> (b: bool)
        ensures
            b == self@.valido(),
    {
        data_hora_valida(self.horario)
        && texto_valido(&self.versao_processo)
    }

    /// What is decoded is a value that a document can hold.
    pub proof fn lemma_parse_valido(no: ElementoV)
        ensures
            Self::spec_parse(no) matches Ok(v) ==> v.valido(),
    {
        broadcast use lemma_aparado_idempotente;

        reveal(Emissao::spec_parse);
    }
}

} // verus!
