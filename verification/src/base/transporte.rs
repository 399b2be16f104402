//! Transport of the goods.

use vstd::prelude::*;
use crate::arvore::{primeiro, ver_elementos, Elemento, ElementoV};
use crate::base::{Error, ErrorV};
use crate::campo::{
    folha_codigo, grupo_busca, grupo_ida_e_volta, ler_codigo, por_codigo, spec_codigo,
};
use crate::codigo::Codigo;
use crate::xml::{arvore_de, escrever_xml, ler_xml, texto_xml};

verus! {

/// Transport of the goods: the section `transp`.
#[derive(Debug, PartialEq, Eq, Clone, Copy, Structural)]
pub struct Transporte {
    /// Who answers for the freight. Tag `modFrete`.
    pub modalidade: ModalidadeFrete,
}

/// Who answers for the freight.
#[derive(Debug, Eq, PartialEq, Copy, Clone, Structural)]
pub enum ModalidadeFrete {
    /// CIF: freight hired by the sender. Code 0.
    ContratacaoPorContaRemetente,
    /// FOB: freight hired by the recipient. Code 1.
    ContratacaoPorContaDestinatario,
    /// Freight hired by a third party. Code 2.
    ContratacaoPorContaTerceiros,
    /// Own transport, on the sender's account. Code 3.
    TransportePorContaRemetente,
    /// Own transport, on the recipient's account. Code 4.
    TransportePorContaDestinatario,
    /// No transport. Code 9.
    SemTransporte,
}

impl Codigo for ModalidadeFrete {
    open spec fn codigo_spec(self) -> u8 {
        match self {
            ModalidadeFrete::ContratacaoPorContaRemetente => 0,
            ModalidadeFrete::ContratacaoPorContaDestinatario => 1,
            ModalidadeFrete::ContratacaoPorContaTerceiros => 2,
            ModalidadeFrete::TransportePorContaRemetente => 3,
            ModalidadeFrete::TransportePorContaDestinatario => 4,
            ModalidadeFrete::SemTransporte => 9,
        }
    }

    open spec fn de_codigo_spec(codigo: u8) -> Option<Self> {
        match codigo {
            0 => Some(ModalidadeFrete::ContratacaoPorContaRemetente),
            1 => Some(ModalidadeFrete::ContratacaoPorContaDestinatario),
            2 => Some(ModalidadeFrete::ContratacaoPorContaTerceiros),
            3 => Some(ModalidadeFrete::TransportePorContaRemetente),
            4 => Some(ModalidadeFrete::TransportePorContaDestinatario),
            9 => Some(ModalidadeFrete::SemTransporte),
            _ => None,
        }
    }

    fn codigo(&self) -> (c: u8) {
        match self {
            ModalidadeFrete::ContratacaoPorContaRemetente => 0,
            ModalidadeFrete::ContratacaoPorContaDestinatario => 1,
            ModalidadeFrete::ContratacaoPorContaTerceiros => 2,
            ModalidadeFrete::TransportePorContaRemetente => 3,
            ModalidadeFrete::TransportePorContaDestinatario => 4,
            ModalidadeFrete::SemTransporte => 9,
        }
    }

    fn de_codigo(codigo: u8) -> (v: Option<Self>) {
        match codigo {
            0 => Some(ModalidadeFrete::ContratacaoPorContaRemetente),
            1 => Some(ModalidadeFrete::ContratacaoPorContaDestinatario),
            2 => Some(ModalidadeFrete::ContratacaoPorContaTerceiros),
            3 => Some(ModalidadeFrete::TransportePorContaRemetente),
            4 => Some(ModalidadeFrete::TransportePorContaDestinatario),
            9 => Some(ModalidadeFrete::SemTransporte),
            _ => None,
        }
    }

    proof fn lemma_codigo_ida_e_volta(v: Self) {
    }

    proof fn lemma_codigo_unico(codigo: u8) {
    }
}

impl Transporte {
    /// `antes` followed by the fields of the value, in the order of the wire.
    #[verifier::opaque]
    pub open spec fn spec_campos(self, antes: Seq<ElementoV>) -> Seq<ElementoV> {
        let f = antes;
        let f = f.push(folha_codigo("modFrete"@, self.modalidade));
        f
    }

    /// The element that encodes the value.
    pub open spec fn spec_serialize(self) -> ElementoV {
        ElementoV::grupo("transp"@, self.spec_campos(Seq::empty()))
    }

    /// What decoding the fields among the children of `no` gives: the value,
    /// or the error of the first field, in the order of the wire, that has one.
    #[verifier::opaque]
    pub open spec fn spec_parse(no: ElementoV) -> Result<Transporte, ErrorV> {
        let modalidade = spec_codigo::<ModalidadeFrete>(no, "modFrete"@);
        if modalidade is Err {
            Err(modalidade->Err_0)
        } else {
            Ok(
                Transporte {
                    modalidade: modalidade->Ok_0,
                },
            )
        }
    }

    /// What decoding the mandatory child of `no` named `tag` gives.
    pub open spec fn spec_parse_em(no: ElementoV, tag: Seq<char>) -> Result<Transporte, ErrorV> {
        match no.filho(tag) {
            None => Err(ErrorV::CampoAusente(tag)),
            Some(f) => Self::spec_parse(f),
        }
    }

    /// Decodes the value from the children of `no`.
    pub fn parse(no: &Elemento) -> (r: Result<Transporte, Error>)
        ensures
            r matches Ok(v) ==> Self::spec_parse(no@) == Ok::<Transporte, ErrorV>(v),
            r matches Err(e) ==> Self::spec_parse(no@) == Err::<Transporte, ErrorV>(e@),
    {
        proof {
            reveal(Transporte::spec_parse);
        }
        let modalidade = ler_codigo::<ModalidadeFrete>(no, "modFrete")?;
        Ok(Transporte { modalidade })
    }

    /// Decodes the value from the mandatory child of `no` named `tag`.
    pub fn parse_em(no: &Elemento, tag: &str) -> (r: Result<Transporte, Error>)
        ensures
            r matches Ok(v) ==> Self::spec_parse_em(no@, tag@) == Ok::<Transporte, ErrorV>(v),
            r matches Err(e) ==> Self::spec_parse_em(no@, tag@) == Err::<Transporte, ErrorV>(e@),
    {
        match no.filho(tag) {
            None => Err(Error::CampoAusente(tag.to_owned())),
            Some(f) => Self::parse(f),
        }
    }

    /// Appends the fields of the value to `filhos`, in the order of the wire.
    pub fn por_campos(&self, filhos: &mut Vec<Elemento>)
        ensures
            ver_elementos(final(filhos)@) == self.spec_campos(ver_elementos(old(filhos)@)),
    {
        proof {
            reveal(Transporte::spec_campos);
        }
        por_codigo(filhos, "modFrete", &self.modalidade);
    }

    /// Encodes the value as an element.
    pub fn serialize(&self) -> (r: Elemento)
        ensures
            r@ == self.spec_serialize(),
    {
        let mut filhos: Vec<Elemento> = Vec::new();
        self.por_campos(&mut filhos);
        Elemento::grupo("transp", filhos)
    }

    /// What reading the text `s` gives: what decoding its root element gives,
    /// where the text is a tree of elements.
    pub open spec fn spec_from_str(s: Seq<char>) -> Result<Transporte, ErrorV> {
        match arvore_de(s) {
            None => Err(ErrorV::Xml),
            Some(no) => Self::spec_parse(no),
        }
    }

    /// Reads the value from a text, whose root element is the section.
    pub fn from_str(s: &str) -> (r: Result<Transporte, Error>)
        ensures
            r matches Ok(v) ==> Self::spec_from_str(s@) == Ok::<Transporte, ErrorV>(v),
            r matches Err(e) ==> Self::spec_from_str(s@) == Err::<Transporte, ErrorV>(e@),
    {
        let no = ler_xml(s)?;
        Self::parse(&no)
    }

    /// Writes the value as text.
    pub fn to_string(&self) -> (r: String)
        ensures
            r@ == texto_xml(self.spec_serialize()),
    {
        escrever_xml(&self.serialize())
    }

    /// What is found under each tag among the children of what was encoded: the
    /// leaf of the field of that tag.
    proof fn lemma_filhos(v: Transporte)
        ensures
            ({
                let no = v.spec_serialize();
                &&& no.filho("modFrete"@) == Some(folha_codigo("modFrete"@, v.modalidade))
            }),
    {
        broadcast use grupo_busca;

        reveal(Transporte::spec_campos);
        reveal_strlit("modFrete");
        assert("modFrete"@.len() == 8 && "modFrete"@[0] == 'm' && "modFrete"@[1] == 'o'
            && "modFrete"@[2] == 'd' && "modFrete"@[3] == 'F' && "modFrete"@[4] == 'r'
            && "modFrete"@[5] == 'e' && "modFrete"@[6] == 't');
        let f1 = {
            let f = Seq::<ElementoV>::empty();
            let f = f.push(folha_codigo("modFrete"@, v.modalidade));
            f
        };
        assert(v.spec_serialize().filhos == f1);
        assert(primeiro(f1, "modFrete"@) == Some(folha_codigo("modFrete"@, v.modalidade)));
    }

    /// Decoding what was encoded gives the value back.
    pub proof fn lemma_ida_e_volta(v: Transporte)
        ensures
            Self::spec_parse(v.spec_serialize()) == Ok::<Transporte, ErrorV>(v),
    {
        broadcast use grupo_ida_e_volta;

        reveal(Transporte::spec_parse);
        Self::lemma_filhos(v);
        let no = v.spec_serialize();
        assert(spec_codigo::<ModalidadeFrete>(no, "modFrete"@)
            == Ok::<ModalidadeFrete, ErrorV>(v.modalidade));
    }
}

} // verus!
