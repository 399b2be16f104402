//! Operation that the document records.

use vstd::prelude::*;
use crate::arvore::{acrescido, ver_elementos, Elemento, ElementoV};
use crate::base::{Error, ErrorV};
use crate::campo::{
    data_hora_opcional_valida, folha_codigo, folha_codigo_opcional, folha_data_hora_opcional,
    ler_codigo, ler_codigo_opcional, ler_data_hora_opcional, ler_texto, por_codigo,
    por_codigo_opcional, por_data_hora_opcional, por_texto, spec_codigo, spec_codigo_opcional,
    spec_data_hora_opcional, spec_texto, texto_valido,
};
use crate::codigo::Codigo;
use crate::data_hora::DataHora;
use crate::texto::{aparado, lemma_aparado_idempotente};

verus! {

/// The operation that the document records. On the wire these fields stand
/// among those of the identification.
#[derive(Debug, PartialEq, Eq, Clone)]
pub struct Operacao {
    /// When the goods left or came in. Tag `dhSaiEnt`.
    pub horario: Option<DataHora>,
    /// Direction of the operation. Tag `tpNF`.
    pub tipo: TipoOperacao,
    /// Destination of the operation. Tag `idDest`.
    pub destino: DestinoOperacao,
    /// Nature of the operation. Tag `natOp`.
    pub natureza: String,
    /// Whether the buyer is the final consumer. Tag `indFinal`.
    pub consumidor: TipoConsumidor,
    /// Presence of the buyer. Tag `indPres`.
    pub presenca: TipoPresencaComprador,
    /// Intermediary of the operation. Tag `indIntermed`.
    pub intermediador: Option<TipoIntermediador>,
}

/// The mathematical value of an [`Operacao`].
pub ghost struct OperacaoV {
    pub horario: Option<DataHora>,
    pub tipo: TipoOperacao,
    pub destino: DestinoOperacao,
    pub natureza: Seq<char>,
    pub consumidor: TipoConsumidor,
    pub presenca: TipoPresencaComprador,
    pub intermediador: Option<TipoIntermediador>,
}

impl View for Operacao {
    type V = OperacaoV;

    open spec fn view(&self) -> OperacaoV {
        OperacaoV {
            horario: self.horario,
            tipo: self.tipo,
            destino: self.destino,
            natureza: self.natureza@,
            consumidor: self.consumidor,
            presenca: self.presenca,
            intermediador: self.intermediador,
        }
    }
}

/// The direction of the operation.
#[derive(Debug, Eq, PartialEq, Copy, Clone, Structural)]
pub enum TipoOperacao {
    /// Goods come in. Code 0.
    Entrada,
    /// Goods go out. Code 1.
    Saida,
}

impl Codigo for TipoOperacao {
    open spec fn codigo_spec(self) -> u8 {
        match self {
            TipoOperacao::Entrada => 0,
            TipoOperacao::Saida => 1,
        }
    }

    open spec fn de_codigo_spec(codigo: u8) -> Option<Self> {
        match codigo {
            0 => Some(TipoOperacao::Entrada),
            1 => Some(TipoOperacao::Saida),
            _ => None,
        }
    }

    fn codigo(&self) -> (c: u8) {
        match self {
            TipoOperacao::Entrada => 0,
            TipoOperacao::Saida => 1,
        }
    }

    fn de_codigo(codigo: u8) -> (v: Option<Self>) {
        match codigo {
            0 => Some(TipoOperacao::Entrada),
            1 => Some(TipoOperacao::Saida),
            _ => None,
        }
    }

    proof fn lemma_codigo_ida_e_volta(v: Self) {
    }

    proof fn lemma_codigo_unico(codigo: u8) {
    }
}

/// The destination of the operation.
#[derive(Debug, Eq, PartialEq, Copy, Clone, Structural)]
pub enum DestinoOperacao {
    /// Within the state. Code 1.
    Interna,
    /// To another state. Code 2.
    Interestadual,
    /// Abroad. Code 3.
    ComExterior,
}

impl Codigo for DestinoOperacao {
    open spec fn codigo_spec(self) -> u8 {
        match self {
            DestinoOperacao::Interna => 1,
            DestinoOperacao::Interestadual => 2,
            DestinoOperacao::ComExterior => 3,
        }
    }

    open spec fn de_codigo_spec(codigo: u8) -> Option<Self> {
        match codigo {
            1 => Some(DestinoOperacao::Interna),
            2 => Some(DestinoOperacao::Interestadual),
            3 => Some(DestinoOperacao::ComExterior),
            _ => None,
        }
    }

    fn codigo(&self) -> (c: u8) {
        match self {
            DestinoOperacao::Interna => 1,
            DestinoOperacao::Interestadual => 2,
            DestinoOperacao::ComExterior => 3,
        }
    }

    fn de_codigo(codigo: u8) -> (v: Option<Self>) {
        match codigo {
            1 => Some(DestinoOperacao::Interna),
            2 => Some(DestinoOperacao::Interestadual),
            3 => Some(DestinoOperacao::ComExterior),
            _ => None,
        }
    }

    proof fn lemma_codigo_ida_e_volta(v: Self) {
    }

    proof fn lemma_codigo_unico(codigo: u8) {
    }
}

/// Whether the buyer is the final consumer.
#[derive(Debug, Eq, PartialEq, Copy, Clone, Structural)]
pub enum TipoConsumidor {
    /// Not the final consumer. Code 0.
    Normal,
    /// The final consumer. Code 1.
    Final,
}

impl Codigo for TipoConsumidor {
    open spec fn codigo_spec(self) -> u8 {
        match self {
            TipoConsumidor::Normal => 0,
            TipoConsumidor::Final => 1,
        }
    }

    open spec fn de_codigo_spec(codigo: u8) -> Option<Self> {
        match codigo {
            0 => Some(TipoConsumidor::Normal),
            1 => Some(TipoConsumidor::Final),
            _ => None,
        }
    }

    fn codigo(&self) -> (c: u8) {
        match self {
            TipoConsumidor::Normal => 0,
            TipoConsumidor::Final => 1,
        }
    }

    fn de_codigo(codigo: u8) -> (v: Option<Self>) {
        match codigo {
            0 => Some(TipoConsumidor::Normal),
            1 => Some(TipoConsumidor::Final),
            _ => None,
        }
    }

    proof fn lemma_codigo_ida_e_volta(v: Self) {
    }

    proof fn lemma_codigo_unico(codigo: u8) {
    }
}

/// The presence of the buyer at the operation.
#[derive(Debug, Eq, PartialEq, Copy, Clone, Structural)]
pub enum TipoPresencaComprador {
    /// Does not apply, as in a complement or an adjustment. Code 0.
    NaoSeAplica,
    /// In person. Code 1.
    Presencial,
    /// Not in person, by the internet. Code 2.
    ViaInternel,
    /// Not in person, by telephone. Code 3.
    ViaTeleatendimento,
    /// NFC-e with delivery at home. Code 4.
    NfceEmDomicilio,
    /// In person, outside the establishment. Code 5.
    PresencialForaDoEstabelecimento,
    /// Not in person, otherwise. Code 9.
    Outros,
}

impl Codigo for TipoPresencaComprador {
    open spec fn codigo_spec(self) -> u8 {
        match self {
            TipoPresencaComprador::NaoSeAplica => 0,
            TipoPresencaComprador::Presencial => 1,
            TipoPresencaComprador::ViaInternel => 2,
            TipoPresencaComprador::ViaTeleatendimento => 3,
            TipoPresencaComprador::NfceEmDomicilio => 4,
            TipoPresencaComprador::PresencialForaDoEstabelecimento => 5,
            TipoPresencaComprador::Outros => 9,
        }
    }

    open spec fn de_codigo_spec(codigo: u8) -> Option<Self> {
        match codigo {
            0 => Some(TipoPresencaComprador::NaoSeAplica),
            1 => Some(TipoPresencaComprador::Presencial),
            2 => Some(TipoPresencaComprador::ViaInternel),
            3 => Some(TipoPresencaComprador::ViaTeleatendimento),
            4 => Some(TipoPresencaComprador::NfceEmDomicilio),
            5 => Some(TipoPresencaComprador::PresencialForaDoEstabelecimento),
            9 => Some(TipoPresencaComprador::Outros),
            _ => None,
        }
    }

    fn codigo(&self) -> (c: u8) {
        match self {
            TipoPresencaComprador::NaoSeAplica => 0,
            TipoPresencaComprador::Presencial => 1,
            TipoPresencaComprador::ViaInternel => 2,
            TipoPresencaComprador::ViaTeleatendimento => 3,
            TipoPresencaComprador::NfceEmDomicilio => 4,
            TipoPresencaComprador::PresencialForaDoEstabelecimento => 5,
            TipoPresencaComprador::Outros => 9,
        }
    }

    fn de_codigo(codigo: u8) -> (v: Option<Self>) {
        match codigo {
            0 => Some(TipoPresencaComprador::NaoSeAplica),
            1 => Some(TipoPresencaComprador::Presencial),
            2 => Some(TipoPresencaComprador::ViaInternel),
            3 => Some(TipoPresencaComprador::ViaTeleatendimento),
            4 => Some(TipoPresencaComprador::NfceEmDomicilio),
            5 => Some(TipoPresencaComprador::PresencialForaDoEstabelecimento),
            9 => Some(TipoPresencaComprador::Outros),
            _ => None,
        }
    }

    proof fn lemma_codigo_ida_e_volta(v: Self) {
    }

    proof fn lemma_codigo_unico(codigo: u8) {
    }
}

/// The intermediary of the operation.
#[derive(Debug, Eq, PartialEq, Copy, Clone, Structural)]
pub enum TipoIntermediador {
    /// None: on the seller's own site or platform. Code 0.
    SemIntermediador,
    /// On the site or platform of a third party. Code 1.
    EmSiteDeTerceiros,
}

impl Codigo for TipoIntermediador {
    open spec fn codigo_spec(self) -> u8 {
        match self {
            TipoIntermediador::SemIntermediador => 0,
            TipoIntermediador::EmSiteDeTerceiros => 1,
        }
    }

    open spec fn de_codigo_spec(codigo: u8) -> Option<Self> {
        match codigo {
            0 => Some(TipoIntermediador::SemIntermediador),
            1 => Some(TipoIntermediador::EmSiteDeTerceiros),
            _ => None,
        }
    }

    fn codigo(&self) -> (c: u8) {
        match self {
            TipoIntermediador::SemIntermediador => 0,
            TipoIntermediador::EmSiteDeTerceiros => 1,
        }
    }

    fn de_codigo(codigo: u8) -> (v: Option<Self>) {
        match codigo {
            0 => Some(TipoIntermediador::SemIntermediador),
            1 => Some(TipoIntermediador::EmSiteDeTerceiros),
            _ => None,
        }
    }

    proof fn lemma_codigo_ida_e_volta(v: Self) {
    }

    proof fn lemma_codigo_unico(codigo: u8) {
    }
}

impl OperacaoV {
    /// Whether the value is one that a document can hold: its texts are
    /// trimmed and its instants can be written and read back.
    pub open spec fn valido(self) -> bool {
        &&& (self.horario matches Some(d) ==> d.estavel())
        &&& aparado(self.natureza) == self.natureza
    }

    /// `antes` followed by the fields of the value, in the order of the wire.
    #[verifier::opaque]
    pub open spec fn spec_campos(self, antes: Seq<ElementoV>) -> Seq<ElementoV> {
        let f = antes;
        let f = acrescido(f, folha_data_hora_opcional("dhSaiEnt"@, self.horario));
        let f = f.push(folha_codigo("tpNF"@, self.tipo));
        let f = f.push(folha_codigo("idDest"@, self.destino));
        let f = f.push(ElementoV::folha("natOp"@, self.natureza));
        let f = f.push(folha_codigo("indFinal"@, self.consumidor));
        let f = f.push(folha_codigo("indPres"@, self.presenca));
        let f = acrescido(f, folha_codigo_opcional("indIntermed"@, self.intermediador));
        f
    }
}

impl Operacao {
    /// What decoding the fields among the children of `no` gives: the value,
    /// or the error of the first field, in the order of the wire, that has one.
    #[verifier::opaque]
    pub open spec fn spec_parse(no: ElementoV) -> Result<OperacaoV, ErrorV> {
        let horario = spec_data_hora_opcional(no, "dhSaiEnt"@);
        let tipo = spec_codigo::<TipoOperacao>(no, "tpNF"@);
        let destino = spec_codigo::<DestinoOperacao>(no, "idDest"@);
        let natureza = spec_texto(no, "natOp"@);
        let consumidor = spec_codigo::<TipoConsumidor>(no, "indFinal"@);
        let presenca = spec_codigo::<TipoPresencaComprador>(no, "indPres"@);
        let intermediador = spec_codigo_opcional::<TipoIntermediador>(no, "indIntermed"@);
        if horario is Err {
            Err(horario->Err_0)
        } else if tipo is Err {
            Err(tipo->Err_0)
        } else if destino is Err {
            Err(destino->Err_0)
        } else if natureza is Err {
            Err(natureza->Err_0)
        } else if consumidor is Err {
            Err(consumidor->Err_0)
        } else if presenca is Err {
            Err(presenca->Err_0)
        } else if intermediador is Err {
            Err(intermediador->Err_0)
        } else {
            Ok(
                OperacaoV {
                    horario: horario->Ok_0,
                    tipo: tipo->Ok_0,
                    destino: destino->Ok_0,
                    natureza: natureza->Ok_0,
                    consumidor: consumidor->Ok_0,
                    presenca: presenca->Ok_0,
                    intermediador: intermediador->Ok_0,
                },
            )
        }
    }

    /// Decodes the value from the children of `no`.
    pub fn parse(no: &Elemento) -> (r: Result<Operacao, Error>)
        ensures
            r matches Ok(v) ==> Self::spec_parse(no@) == Ok::<OperacaoV, ErrorV>(v@),
            r matches Err(e) ==> Self::spec_parse(no@) == Err::<OperacaoV, ErrorV>(e@),
            r matches Ok(v) ==> v@.valido(),
    {
        proof {
            reveal(Operacao::spec_parse);
            Self::lemma_parse_valido(no@);
        }
        let horario = ler_data_hora_opcional(no, "dhSaiEnt")?;
        let tipo = ler_codigo::<TipoOperacao>(no, "tpNF")?;
        let destino = ler_codigo::<DestinoOperacao>(no, "idDest")?;
        let natureza = ler_texto(no, "natOp")?;
        let consumidor = ler_codigo::<TipoConsumidor>(no, "indFinal")?;
        let presenca = ler_codigo::<TipoPresencaComprador>(no, "indPres")?;
        let intermediador = ler_codigo_opcional::<TipoIntermediador>(no, "indIntermed")?;
        Ok(Operacao { horario, tipo, destino, natureza, consumidor, presenca, intermediador })
    }

    /// Appends the fields of the value to `filhos`, in the order of the wire.
    pub fn por_campos(&self, filhos: &mut Vec<Elemento>)
        requires
            self@.valido(),
        ensures
            ver_elementos(final(filhos)@) == self@.spec_campos(ver_elementos(old(filhos)@)),
    {
        proof {
            reveal(OperacaoV::spec_campos);
        }
        por_data_hora_opcional(filhos, "dhSaiEnt", self.horario);
        por_codigo(filhos, "tpNF", &self.tipo);
        por_codigo(filhos, "idDest", &self.destino);
        por_texto(filhos, "natOp", &self.natureza);
        por_codigo(filhos, "indFinal", &self.consumidor);
        por_codigo(filhos, "indPres", &self.presenca);
        por_codigo_opcional(filhos, "indIntermed", &self.intermediador);
    }

    /// Whether the value is one that a document can hold.
    pub fn eh_valido(&self) -> (b: bool)
        ensures
            b == self@.valido(),
    {
        data_hora_opcional_valida(self.horario)
        && texto_valido(&self.natureza)
    }

    /// What is decoded is a value that a document can hold.
    pub proof fn lemma_parse_valido(no: ElementoV)
        ensures
            Self::spec_parse(no) matches Ok(v) ==> v.valido(),
    {
        broadcast use lemma_aparado_idempotente;

        reveal(Operacao::spec_parse);
    }
}

} // verus!
