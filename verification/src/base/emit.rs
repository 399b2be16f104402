//! Issuer of the document.

use vstd::prelude::*;
use crate::arvore::{acrescido, anexar, primeiro, ver_elementos, Elemento, ElementoV};
use crate::base::{Error, ErrorV};
use crate::base::endereco::{Endereco, EnderecoV};
use crate::campo::{
    folha_opcional, folha_u32_opcional, grupo_busca, grupo_ida_e_volta, ler_texto,
    ler_texto_opcional, ler_u32_opcional, por_texto, por_texto_opcional, por_u32_opcional,
    spec_texto, spec_texto_opcional, spec_u32_opcional, texto_opcional_valido, texto_valido,
};
use crate::texto::{aparado, lemma_aparado_idempotente};
use crate::xml::{arvore_de, escrever_xml, ler_xml, texto_xml};

verus! {

/// The issuer of the document: the section `emit`.
#[derive(Debug, PartialEq, Eq, Clone)]
pub struct Emitente {
    /// Identifier of the legal entity. Tag `CNPJ`.
    pub cnpj: String,
    /// Name. Tag `xNome`.
    pub razao_social: String,
    /// Trade name. Tag `xFant`.
    pub nome_fantasia: Option<String>,
    /// State registration. Tag `IE`.
    pub ie: String,
    /// State registration of the tax substitute. Tag `IEST`.
    pub iest: Option<u32>,
    /// Address. Element `enderEmit`.
    pub endereco: Endereco,
}

/// The mathematical value of an [`Emitente`].
pub ghost struct EmitenteV {
    pub cnpj: Seq<char>,
    pub razao_social: Seq<char>,
    pub nome_fantasia: Option<Seq<char>>,
    pub ie: Seq<char>,
    pub iest: Option<u32>,
    pub endereco: EnderecoV,
}

impl View for Emitente {
    type V = EmitenteV;

    open spec fn view(&self) -> EmitenteV {
        EmitenteV {
            cnpj: self.cnpj@,
            razao_social: self.razao_social@,
            nome_fantasia: self.nome_fantasia.deep_view(),
            ie: self.ie@,
            iest: self.iest,
            endereco: self.endereco@,
        }
    }
}

impl EmitenteV {
    /// Whether the value is one that a document can hold: its texts are
    /// trimmed.
    pub open spec fn valido(self) -> bool {
        &&& aparado(self.cnpj) == self.cnpj
        &&& aparado(self.razao_social) == self.razao_social
        &&& (self.nome_fantasia matches Some(t) ==> aparado(t) == t)
        &&& aparado(self.ie) == self.ie
        &&& self.endereco.valido()
    }

    /// `antes` followed by the fields of the value, in the order of the wire.
    #[verifier::opaque]
    pub open spec fn spec_campos(self, antes: Seq<ElementoV>) -> Seq<ElementoV> {
        let f = antes;
        let f = f.push(ElementoV::folha("CNPJ"@, self.cnpj));
        let f = f.push(ElementoV::folha("xNome"@, self.razao_social));
        let f = acrescido(f, folha_opcional("xFant"@, self.nome_fantasia));
        let f = f.push(ElementoV::folha("IE"@, self.ie));
        let f = acrescido(f, folha_u32_opcional("IEST"@, self.iest));
        let f = f.push(self.endereco.spec_serialize("enderEmit"@));
        f
    }

    /// The element that encodes the value.
    pub open spec fn spec_serialize(self) -> ElementoV {
        ElementoV::grupo("emit"@, self.spec_campos(Seq::empty()))
    }
}

impl Emitente {
    /// What decoding the fields among the children of `no` gives: the value,
    /// or the error of the first field, in the order of the wire, that has one.
    #[verifier::opaque]
    pub open spec fn spec_parse(no: ElementoV) -> Result<EmitenteV, ErrorV> {
        let cnpj = spec_texto(no, "CNPJ"@);
        let razao_social = spec_texto(no, "xNome"@);
        let nome_fantasia = spec_texto_opcional(no, "xFant"@);
        let ie = spec_texto(no, "IE"@);
        let iest = spec_u32_opcional(no, "IEST"@);
        let endereco = Endereco::spec_parse_em(no, "enderEmit"@);
        if cnpj is Err {
            Err(cnpj->Err_0)
        } else if razao_social is Err {
            Err(razao_social->Err_0)
        } else if ie is Err {
            Err(ie->Err_0)
        } else if iest is Err {
            Err(iest->Err_0)
        } else if endereco is Err {
            Err(endereco->Err_0)
        } else {
            Ok(
                EmitenteV {
                    cnpj: cnpj->Ok_0,
                    razao_social: razao_social->Ok_0,
                    nome_fantasia,
                    ie: ie->Ok_0,
                    iest: iest->Ok_0,
                    endereco: endereco->Ok_0,
                },
            )
        }
    }

    /// What decoding the mandatory child of `no` named `tag` gives.
    pub open spec fn spec_parse_em(no: ElementoV, tag: Seq<char>) -> Result<EmitenteV, ErrorV> {
        match no.filho(tag) {
            None => Err(ErrorV::CampoAusente(tag)),
            Some(f) => Self::spec_parse(f),
        }
    }

    /// Decodes the value from the children of `no`.
    pub fn parse(no: &Elemento) -> (r: Result<Emitente, Error>)
        ensures
            r matches Ok(v) ==> Self::spec_parse(no@) == Ok::<EmitenteV, ErrorV>(v@),
            r matches Err(e) ==> Self::spec_parse(no@) == Err::<EmitenteV, ErrorV>(e@),
            r matches Ok(v) ==> v@.valido(),
    {
        proof {
            reveal(Emitente::spec_parse);
            Self::lemma_parse_valido(no@);
        }
        let cnpj = ler_texto(no, "CNPJ")?;
        let razao_social = ler_texto(no, "xNome")?;
        let nome_fantasia = ler_texto_opcional(no, "xFant");
        let ie = ler_texto(no, "IE")?;
        let iest = ler_u32_opcional(no, "IEST")?;
        let endereco = Endereco::parse_em(no, "enderEmit")?;
        Ok(Emitente { cnpj, razao_social, nome_fantasia, ie, iest, endereco })
    }

    /// Decodes the value from the mandatory child of `no` named `tag`.
    pub fn parse_em(no: &Elemento, tag: &str) -> (r: Result<Emitente, Error>)
        ensures
            r matches Ok(v) ==> Self::spec_parse_em(no@, tag@) == Ok::<EmitenteV, ErrorV>(v@),
            r matches Err(e) ==> Self::spec_parse_em(no@, tag@) == Err::<EmitenteV, ErrorV>(e@),
            r matches Ok(v) ==> v@.valido(),
    {
        match no.filho(tag) {
            None => Err(Error::CampoAusente(tag.to_owned())),
            Some(f) => Self::parse(f),
        }
    }

    /// Appends the fields of the value to `filhos`, in the order of the wire.
    pub fn por_campos(&self, filhos: &mut Vec<Elemento>)
        ensures
            ver_elementos(final(filhos)@) == self@.spec_campos(ver_elementos(old(filhos)@)),
    {
        proof {
            reveal(EmitenteV::spec_campos);
        }
        por_texto(filhos, "CNPJ", &self.cnpj);
        por_texto(filhos, "xNome", &self.razao_social);
        por_texto_opcional(filhos, "xFant", &self.nome_fantasia);
        por_texto(filhos, "IE", &self.ie);
        por_u32_opcional(filhos, "IEST", self.iest);
        anexar(filhos, self.endereco.serialize("enderEmit"));
    }

    /// Encodes the value as an element.
    pub fn serialize(&self) -> (r: Elemento)
        ensures
            r@ == self@.spec_serialize(),
    {
        let mut filhos: Vec<Elemento> = Vec::new();
        self.por_campos(&mut filhos);
        Elemento::grupo("emit", filhos)
    }

    /// Whether the value is one that a document can hold.
    pub fn eh_valido(&self) -> (b: bool)
        ensures
            b == self@.valido(),
    {
        texto_valido(&self.cnpj)
        && texto_valido(&self.razao_social)
        && texto_opcional_valido(&self.nome_fantasia)
        && texto_valido(&self.ie)
        && self.endereco.eh_valido()
    }

    /// What is decoded is a value that a document can hold.
    pub proof fn lemma_parse_valido(no: ElementoV)
        ensures
            Self::spec_parse(no) matches Ok(v) ==> v.valido(),
    {
        broadcast use lemma_aparado_idempotente;

        reveal(Emitente::spec_parse);

        if no.filho("enderEmit"@) is Some {
            Endereco::lemma_parse_valido(no.filho("enderEmit"@)->Some_0);
        }
    }

    /// What reading the text `s` gives: what decoding its root element gives,
    /// where the text is a tree of elements.
    pub open spec fn spec_from_str(s: Seq<char>) -> Result<EmitenteV, ErrorV> {
        match arvore_de(s) {
            None => Err(ErrorV::Xml),
            Some(no) => Self::spec_parse(no),
        }
    }

    /// Reads the value from a text, whose root element is the section.
    pub fn from_str(s: &str) -> (r: Result<Emitente, Error>)
        ensures
            r matches Ok(v) ==> Self::spec_from_str(s@) == Ok::<EmitenteV, ErrorV>(v@),
            r matches Err(e) ==> Self::spec_from_str(s@) == Err::<EmitenteV, ErrorV>(e@),
            r matches Ok(v) ==> v@.valido(),
    {
        let no = ler_xml(s)?;
        Self::parse(&no)
    }

    /// Writes the value as text.
    pub fn to_string(&self) -> (r: String)
        ensures
            r@ == texto_xml(self@.spec_serialize()),
    {
        escrever_xml(&self.serialize())
    }

    /// What is found under each tag among the children of what was encoded: the
    /// leaf of the field of that tag.
    proof fn lemma_filhos(v: EmitenteV)
        ensures
            ({
                let no = v.spec_serialize();
                &&& no.filho("CNPJ"@) == Some(ElementoV::folha("CNPJ"@, v.cnpj))
                &&& no.filho("xNome"@) == Some(ElementoV::folha("xNome"@, v.razao_social))
                &&& no.filho("xFant"@) == folha_opcional("xFant"@, v.nome_fantasia)
                &&& no.filho("IE"@) == Some(ElementoV::folha("IE"@, v.ie))
                &&& no.filho("IEST"@) == folha_u32_opcional("IEST"@, v.iest)
                &&& no.filho("enderEmit"@) == Some(v.endereco.spec_serialize("enderEmit"@))
            }),
    {
        broadcast use grupo_busca;

        reveal(EmitenteV::spec_campos);
        reveal_strlit("CNPJ");
        reveal_strlit("xNome");
        reveal_strlit("xFant");
        reveal_strlit("IE");
        reveal_strlit("IEST");
        reveal_strlit("enderEmit");
        assert("CNPJ"@.len() == 4 && "CNPJ"@[0] == 'C' && "CNPJ"@[1] == 'N' && "CNPJ"@[2] == 'P'
            && "CNPJ"@[3] == 'J');
        assert("xNome"@.len() == 5 && "xNome"@[0] == 'x' && "xNome"@[1] == 'N'
            && "xNome"@[2] == 'o' && "xNome"@[3] == 'm' && "xNome"@[4] == 'e');
        assert("xFant"@.len() == 5 && "xFant"@[0] == 'x' && "xFant"@[1] == 'F'
            && "xFant"@[2] == 'a' && "xFant"@[3] == 'n' && "xFant"@[4] == 't');
        assert("IE"@.len() == 2 && "IE"@[0] == 'I' && "IE"@[1] == 'E');
        assert("IEST"@.len() == 4 && "IEST"@[0] == 'I' && "IEST"@[1] == 'E' && "IEST"@[2] == 'S'
            && "IEST"@[3] == 'T');
        assert("enderEmit"@.len() == 9 && "enderEmit"@[0] == 'e' && "enderEmit"@[1] == 'n'
            && "enderEmit"@[2] == 'd' && "enderEmit"@[3] == 'e' && "enderEmit"@[4] == 'r'
            && "enderEmit"@[5] == 'E' && "enderEmit"@[6] == 'm');
        let f1 = {
            let f = Seq::<ElementoV>::empty();
            let f = f.push(ElementoV::folha("CNPJ"@, v.cnpj));
            let f = f.push(ElementoV::folha("xNome"@, v.razao_social));
            let f = acrescido(f, folha_opcional("xFant"@, v.nome_fantasia));
            let f = f.push(ElementoV::folha("IE"@, v.ie));
            let f = acrescido(f, folha_u32_opcional("IEST"@, v.iest));
            f
        };
        let f2 = {
            let f = f1;
            let f = f.push(v.endereco.spec_serialize("enderEmit"@));
            f
        };
        assert(v.spec_serialize().filhos == f2);
        assert(primeiro(f1, "CNPJ"@) == Some(ElementoV::folha("CNPJ"@, v.cnpj)));
        assert(primeiro(f2, "CNPJ"@) == Some(ElementoV::folha("CNPJ"@, v.cnpj)));
        assert(primeiro(f1, "xNome"@) == Some(ElementoV::folha("xNome"@, v.razao_social)));
        assert(primeiro(f2, "xNome"@) == Some(ElementoV::folha("xNome"@, v.razao_social)));
        assert(primeiro(f1, "xFant"@) == folha_opcional("xFant"@, v.nome_fantasia));
        assert(primeiro(f2, "xFant"@) == folha_opcional("xFant"@, v.nome_fantasia));
        assert(primeiro(f1, "IE"@) == Some(ElementoV::folha("IE"@, v.ie)));
        assert(primeiro(f2, "IE"@) == Some(ElementoV::folha("IE"@, v.ie)));
        assert(primeiro(f1, "IEST"@) == folha_u32_opcional("IEST"@, v.iest));
        assert(primeiro(f2, "IEST"@) == folha_u32_opcional("IEST"@, v.iest));
        assert(primeiro(f1, "enderEmit"@) is None);
        assert(primeiro(f2, "enderEmit"@) == Some(v.endereco.spec_serialize("enderEmit"@)));
    }

    /// Decoding what was encoded gives the value back.
    pub proof fn lemma_ida_e_volta(v: EmitenteV)
        requires
            v.valido(),
        ensures
            Self::spec_parse(v.spec_serialize()) == Ok::<EmitenteV, ErrorV>(v),
    {
        broadcast use grupo_ida_e_volta;

        reveal(Emitente::spec_parse);
        Self::lemma_filhos(v);
        Endereco::lemma_ida_e_volta(v.endereco, "enderEmit"@);
        let no = v.spec_serialize();
        assert(spec_texto(no, "CNPJ"@) == Ok::<Seq<char>, ErrorV>(v.cnpj));
        assert(spec_texto(no, "xNome"@) == Ok::<Seq<char>, ErrorV>(v.razao_social));
        assert(spec_texto_opcional(no, "xFant"@) == v.nome_fantasia);
        assert(spec_texto(no, "IE"@) == Ok::<Seq<char>, ErrorV>(v.ie));
        assert(spec_u32_opcional(no, "IEST"@) == Ok::<Option<u32>, ErrorV>(v.iest));
        assert(Endereco::spec_parse_em(no, "enderEmit"@) == Ok::<EnderecoV, ErrorV>(v.endereco));
    }
}

} // verus!
