//! Address of the issuer or of the recipient.

use vstd::prelude::*;
use crate::arvore::{acrescido, primeiro, ver_elementos, ver_opcional, Elemento, ElementoV};
use crate::base::{Error, ErrorV};
use crate::campo::{
    folha_inteiro, folha_opcional, grupo_busca, grupo_ida_e_volta, ler_texto, ler_texto_opcional,
    ler_u32, por_inteiro, por_texto, por_texto_opcional, spec_texto, spec_texto_opcional, spec_u32,
    texto_opcional_valido, texto_valido,
};
use crate::texto::{aparado, lemma_aparado_idempotente};
use crate::xml::{arvore_de, escrever_xml, ler_xml, texto_xml};

verus! {

/// An address, of the issuer or of the recipient.
#[derive(Debug, PartialEq, Eq, Clone)]
pub struct Endereco {
    /// Street. Tag `xLgr`.
    pub logradouro: String,
    /// Number. Tag `nro`.
    pub numero: String,
    /// Complement. Tag `xCpl`.
    pub complemento: Option<String>,
    /// District. Tag `xBairro`.
    pub bairro: String,
    /// Code of the municipality. Tag `cMun`.
    pub codigo_municipio: u32,
    /// Name of the municipality. Tag `xMun`.
    pub nome_municipio: String,
    /// Abbreviation of the state. Tag `UF`.
    pub sigla_uf: String,
    /// Postal code. Tag `CEP`.
    pub cep: String,
    /// Code of the country. Tag `cPais`.
    pub codigo_pais: u32,
    /// Name of the country. Tag `xPais`.
    pub nome_pais: String,
    /// Telephone. Tag `fone`.
    pub telefone: Option<String>,
}

/// The mathematical value of an [`Endereco`].
pub ghost struct EnderecoV {
    pub logradouro: Seq<char>,
    pub numero: Seq<char>,
    pub complemento: Option<Seq<char>>,
    pub bairro: Seq<char>,
    pub codigo_municipio: u32,
    pub nome_municipio: Seq<char>,
    pub sigla_uf: Seq<char>,
    pub cep: Seq<char>,
    pub codigo_pais: u32,
    pub nome_pais: Seq<char>,
    pub telefone: Option<Seq<char>>,
}

impl View for Endereco {
    type V = EnderecoV;

    open spec fn view(&self) -> EnderecoV {
        EnderecoV {
            logradouro: self.logradouro@,
            numero: self.numero@,
            complemento: self.complemento.deep_view(),
            bairro: self.bairro@,
            codigo_municipio: self.codigo_municipio,
            nome_municipio: self.nome_municipio@,
            sigla_uf: self.sigla_uf@,
            cep: self.cep@,
            codigo_pais: self.codigo_pais,
            nome_pais: self.nome_pais@,
            telefone: self.telefone.deep_view(),
        }
    }
}

impl EnderecoV {
    /// Whether the value is one that a document can hold: its texts are
    /// trimmed.
    pub open spec fn valido(self) -> bool {
        &&& aparado(self.logradouro) == self.logradouro
        &&& aparado(self.numero) == self.numero
        &&& (self.complemento matches Some(t) ==> aparado(t) == t)
        &&& aparado(self.bairro) == self.bairro
        &&& aparado(self.nome_municipio) == self.nome_municipio
        &&& aparado(self.sigla_uf) == self.sigla_uf
        &&& aparado(self.cep) == self.cep
        &&& aparado(self.nome_pais) == self.nome_pais
        &&& (self.telefone matches Some(t) ==> aparado(t) == t)
    }

    /// `antes` followed by the fields of the value, in the order of the wire.
    #[verifier::opaque]
    pub open spec fn spec_campos(self, antes: Seq<ElementoV>) -> Seq<ElementoV> {
        let f = antes;
        let f = f.push(ElementoV::folha("xLgr"@, self.logradouro));
        let f = f.push(ElementoV::folha("nro"@, self.numero));
        let f = acrescido(f, folha_opcional("xCpl"@, self.complemento));
        let f = f.push(ElementoV::folha("xBairro"@, self.bairro));
        let f = f.push(folha_inteiro("cMun"@, self.codigo_municipio as nat));
        let f = f.push(ElementoV::folha("xMun"@, self.nome_municipio));
        let f = f.push(ElementoV::folha("UF"@, self.sigla_uf));
        let f = f.push(ElementoV::folha("CEP"@, self.cep));
        let f = f.push(folha_inteiro("cPais"@, self.codigo_pais as nat));
        let f = f.push(ElementoV::folha("xPais"@, self.nome_pais));
        let f = acrescido(f, folha_opcional("fone"@, self.telefone));
        f
    }

    /// The element that encodes the value.
    pub open spec fn spec_serialize(self, tag: Seq<char>) -> ElementoV {
        ElementoV::grupo(tag, self.spec_campos(Seq::empty()))
    }
}

impl Endereco {
    /// What decoding the fields among the children of `no` gives: the value,
    /// or the error of the first field, in the order of the wire, that has one.
    #[verifier::opaque]
    pub open spec fn spec_parse(no: ElementoV) -> Result<EnderecoV, ErrorV> {
        let logradouro = spec_texto(no, "xLgr"@);
        let numero = spec_texto(no, "nro"@);
        let complemento = spec_texto_opcional(no, "xCpl"@);
        let bairro = spec_texto(no, "xBairro"@);
        let codigo_municipio = spec_u32(no, "cMun"@);
        let nome_municipio = spec_texto(no, "xMun"@);
        let sigla_uf = spec_texto(no, "UF"@);
        let cep = spec_texto(no, "CEP"@);
        let codigo_pais = spec_u32(no, "cPais"@);
        let nome_pais = spec_texto(no, "xPais"@);
        let telefone = spec_texto_opcional(no, "fone"@);
        if logradouro is Err {
            Err(logradouro->Err_0)
        } else if numero is Err {
            Err(numero->Err_0)
        } else if bairro is Err {
            Err(bairro->Err_0)
        } else if codigo_municipio is Err {
            Err(codigo_municipio->Err_0)
        } else if nome_municipio is Err {
            Err(nome_municipio->Err_0)
        } else if sigla_uf is Err {
            Err(sigla_uf->Err_0)
        } else if cep is Err {
            Err(cep->Err_0)
        } else if codigo_pais is Err {
            Err(codigo_pais->Err_0)
        } else if nome_pais is Err {
            Err(nome_pais->Err_0)
        } else {
            Ok(
                EnderecoV {
                    logradouro: logradouro->Ok_0,
                    numero: numero->Ok_0,
                    complemento,
                    bairro: bairro->Ok_0,
                    codigo_municipio: codigo_municipio->Ok_0,
                    nome_municipio: nome_municipio->Ok_0,
                    sigla_uf: sigla_uf->Ok_0,
                    cep: cep->Ok_0,
                    codigo_pais: codigo_pais->Ok_0,
                    nome_pais: nome_pais->Ok_0,
                    telefone,
                },
            )
        }
    }

    /// What decoding the mandatory child of `no` named `tag` gives.
    pub open spec fn spec_parse_em(no: ElementoV, tag: Seq<char>) -> Result<EnderecoV, ErrorV> {
        match no.filho(tag) {
            None => Err(ErrorV::CampoAusente(tag)),
            Some(f) => Self::spec_parse(f),
        }
    }

    /// Decodes the value from the children of `no`.
    pub fn parse(no: &Elemento) -> (r: Result<Endereco, Error>)
        ensures
            r matches Ok(v) ==> Self::spec_parse(no@) == Ok::<EnderecoV, ErrorV>(v@),
            r matches Err(e) ==> Self::spec_parse(no@) == Err::<EnderecoV, ErrorV>(e@),
            r matches Ok(v) ==> v@.valido(),
    {
        proof {
            reveal(Endereco::spec_parse);
            Self::lemma_parse_valido(no@);
        }
        let logradouro = ler_texto(no, "xLgr")?;
        let numero = ler_texto(no, "nro")?;
        let complemento = ler_texto_opcional(no, "xCpl");
        let bairro = ler_texto(no, "xBairro")?;
        let codigo_municipio = ler_u32(no, "cMun")?;
        let nome_municipio = ler_texto(no, "xMun")?;
        let sigla_uf = ler_texto(no, "UF")?;
        let cep = ler_texto(no, "CEP")?;
        let codigo_pais = ler_u32(no, "cPais")?;
        let nome_pais = ler_texto(no, "xPais")?;
        let telefone = ler_texto_opcional(no, "fone");
        Ok(
            Endereco {
                logradouro,
                numero,
                complemento,
                bairro,
                codigo_municipio,
                nome_municipio,
                sigla_uf,
                cep,
                codigo_pais,
                nome_pais,
                telefone,
            },
        )
    }

    /// Decodes the value from the mandatory child of `no` named `tag`.
    pub fn parse_em(no: &Elemento, tag: &str) -> (r: Result<Endereco, Error>)
        ensures
            r matches Ok(v) ==> Self::spec_parse_em(no@, tag@) == Ok::<EnderecoV, ErrorV>(v@),
            r matches Err(e) ==> Self::spec_parse_em(no@, tag@) == Err::<EnderecoV, ErrorV>(e@),
            r matches Ok(v) ==> v@.valido(),
    {
        match no.filho(tag) {
            None => Err(Error::CampoAusente(tag.to_owned())),
            Some(f) => Self::parse(f),
        }
    }

    /// Appends the fields of the value to `filhos`, in the order of the wire.
    pub fn por_campos(&self, filhos: &mut Vec<Elemento>)
        ensures
            ver_elementos(final(filhos)@) == self@.spec_campos(ver_elementos(old(filhos)@)),
    {
        proof {
            reveal(EnderecoV::spec_campos);
        }
        por_texto(filhos, "xLgr", &self.logradouro);
        por_texto(filhos, "nro", &self.numero);
        por_texto_opcional(filhos, "xCpl", &self.complemento);
        por_texto(filhos, "xBairro", &self.bairro);
        por_inteiro(filhos, "cMun", self.codigo_municipio as u64);
        por_texto(filhos, "xMun", &self.nome_municipio);
        por_texto(filhos, "UF", &self.sigla_uf);
        por_texto(filhos, "CEP", &self.cep);
        por_inteiro(filhos, "cPais", self.codigo_pais as u64);
        por_texto(filhos, "xPais", &self.nome_pais);
        por_texto_opcional(filhos, "fone", &self.telefone);
    }

    /// Encodes the value as an element.
    pub fn serialize(&self, tag: &str) -> (r: Elemento)
        ensures
            r@ == self@.spec_serialize(tag@),
    {
        let mut filhos: Vec<Elemento> = Vec::new();
        self.por_campos(&mut filhos);
        Elemento::grupo(tag, filhos)
    }

    /// Whether the value is one that a document can hold.
    pub fn eh_valido(&self) -> (b: bool)
        ensures
            b == self@.valido(),
    {
        texto_valido(&self.logradouro)
        && texto_valido(&self.numero)
        && texto_opcional_valido(&self.complemento)
        && texto_valido(&self.bairro)
        && texto_valido(&self.nome_municipio)
        && texto_valido(&self.sigla_uf)
        && texto_valido(&self.cep)
        && texto_valido(&self.nome_pais)
        && texto_opcional_valido(&self.telefone)
    }

    /// What is decoded is a value that a document can hold.
    pub proof fn lemma_parse_valido(no: ElementoV)
        ensures
            Self::spec_parse(no) matches Ok(v) ==> v.valido(),
    {
        broadcast use lemma_aparado_idempotente;

        reveal(Endereco::spec_parse);
    }

    /// What reading the text `s` gives: what decoding its root element gives,
    /// where the text is a tree of elements.
    pub open spec fn spec_from_str(s: Seq<char>) -> Result<EnderecoV, ErrorV> {
        match arvore_de(s) {
            None => Err(ErrorV::Xml),
            Some(no) => Self::spec_parse(no),
        }
    }

    /// Reads the value from a text, whose root element is the section.
    pub fn from_str(s: &str) -> (r: Result<Endereco, Error>)
        ensures
            r matches Ok(v) ==> Self::spec_from_str(s@) == Ok::<EnderecoV, ErrorV>(v@),
            r matches Err(e) ==> Self::spec_from_str(s@) == Err::<EnderecoV, ErrorV>(e@),
            r matches Ok(v) ==> v@.valido(),
    {
        let no = ler_xml(s)?;
        Self::parse(&no)
    }

    /// Writes the value as text, as an element named `Endereco`.
    pub fn to_string(&self) -> (r: String)
        ensures
            r@ == texto_xml(self@.spec_serialize("Endereco"@)),
    {
        escrever_xml(&self.serialize("Endereco"))
    }
}

impl EnderecoV {
    /// The element that encodes the value, where there is one.
    pub open spec fn spec_serialize_opcional(
        v: Option<EnderecoV>,
        tag: Seq<char>,
    ) -> Option<ElementoV> {
        match v {
            Some(v) => Some(v.spec_serialize(tag)),
            None => None,
        }
    }
}

impl Endereco {
    /// What decoding the optional child of `no` named `tag` gives.
    pub open spec fn spec_parse_opcional_em(no: ElementoV, tag: Seq<char>) -> Result<
        Option<EnderecoV>,
        ErrorV,
    > {
        match no.filho(tag) {
            None => Ok(None),
            Some(f) => match Self::spec_parse(f) {
                Err(e) => Err(e),
                Ok(v) => Ok(Some(v)),
            },
        }
    }

    /// Decodes the value from the optional child of `no` named `tag`.
    pub fn parse_opcional_em(no: &Elemento, tag: &str) -> (r: Result<Option<Endereco>, Error>)
        ensures
            r matches Ok(Some(v)) ==> Self::spec_parse_opcional_em(no@, tag@) == Ok::<
                Option<EnderecoV>,
                ErrorV,
            >(Some(v@)),
            r matches Ok(None) ==> Self::spec_parse_opcional_em(no@, tag@) == Ok::<
                Option<EnderecoV>,
                ErrorV,
            >(None),
            r matches Err(e) ==> Self::spec_parse_opcional_em(no@, tag@) == Err::<
                Option<EnderecoV>,
                ErrorV,
            >(e@),
            r matches Ok(Some(v)) ==> v@.valido(),
    {
        match no.filho(tag) {
            None => Ok(None),
            Some(f) => {
                let v = Self::parse(f)?;
                Ok(Some(v))
            },
        }
    }

    /// Whether the value, where there is one, is one that a document can
    /// hold.
    pub fn eh_valido_opcional(v: &Option<Endereco>) -> (b: bool)
        ensures
            b == (v matches Some(v) ==> v@.valido()),
    {
        match v {
            Some(v) => v.eh_valido(),
            None => true,
        }
    }

    /// Encodes the value as an element, where there is one.
    pub fn serialize_opcional(v: &Option<Endereco>, tag: &str) -> (r: Option<Elemento>)
        ensures
            ver_opcional(r) == EnderecoV::spec_serialize_opcional(
                match v {
                    Some(v) => Some(v@),
                    None => None,
                },
                tag@,
            ),
    {
        match v {
            Some(v) => Some(v.serialize(tag)),
            None => None,
        }
    }

    /// What is found under each tag among the children of what was encoded: the
    /// leaf of the field of that tag.
    proof fn lemma_filhos(v: EnderecoV, tag: Seq<char>)
        ensures
            ({
                let no = v.spec_serialize(tag);
                &&& no.filho("xLgr"@) == Some(ElementoV::folha("xLgr"@, v.logradouro))
                &&& no.filho("nro"@) == Some(ElementoV::folha("nro"@, v.numero))
                &&& no.filho("xCpl"@) == folha_opcional("xCpl"@, v.complemento)
                &&& no.filho("xBairro"@) == Some(ElementoV::folha("xBairro"@, v.bairro))
                &&& no.filho("cMun"@) == Some(folha_inteiro("cMun"@, v.codigo_municipio as nat))
                &&& no.filho("xMun"@) == Some(ElementoV::folha("xMun"@, v.nome_municipio))
                &&& no.filho("UF"@) == Some(ElementoV::folha("UF"@, v.sigla_uf))
                &&& no.filho("CEP"@) == Some(ElementoV::folha("CEP"@, v.cep))
                &&& no.filho("cPais"@) == Some(folha_inteiro("cPais"@, v.codigo_pais as nat))
                &&& no.filho("xPais"@) == Some(ElementoV::folha("xPais"@, v.nome_pais))
                &&& no.filho("fone"@) == folha_opcional("fone"@, v.telefone)
            }),
    {
        broadcast use grupo_busca;

        reveal(EnderecoV::spec_campos);
        reveal_strlit("xLgr");
        reveal_strlit("nro");
        reveal_strlit("xCpl");
        reveal_strlit("xBairro");
        reveal_strlit("cMun");
        reveal_strlit("xMun");
        reveal_strlit("UF");
        reveal_strlit("CEP");
        reveal_strlit("cPais");
        reveal_strlit("xPais");
        reveal_strlit("fone");
        assert("xLgr"@.len() == 4 && "xLgr"@[0] == 'x' && "xLgr"@[1] == 'L' && "xLgr"@[2] == 'g'
            && "xLgr"@[3] == 'r');
        assert("nro"@.len() == 3 && "nro"@[0] == 'n' && "nro"@[1] == 'r' && "nro"@[2] == 'o');
        assert("xCpl"@.len() == 4 && "xCpl"@[0] == 'x' && "xCpl"@[1] == 'C' && "xCpl"@[2] == 'p'
            && "xCpl"@[3] == 'l');
        assert("xBairro"@.len() == 7 && "xBairro"@[0] == 'x' && "xBairro"@[1] == 'B'
            && "xBairro"@[2] == 'a' && "xBairro"@[3] == 'i' && "xBairro"@[4] == 'r'
            && "xBairro"@[5] == 'r' && "xBairro"@[6] == 'o');
        assert("cMun"@.len() == 4 && "cMun"@[0] == 'c' && "cMun"@[1] == 'M' && "cMun"@[2] == 'u'
            && "cMun"@[3] == 'n');
        assert("xMun"@.len() == 4 && "xMun"@[0] == 'x' && "xMun"@[1] == 'M' && "xMun"@[2] == 'u'
            && "xMun"@[3] == 'n');
        assert("UF"@.len() == 2 && "UF"@[0] == 'U' && "UF"@[1] == 'F');
        assert("CEP"@.len() == 3 && "CEP"@[0] == 'C' && "CEP"@[1] == 'E' && "CEP"@[2] == 'P');
        assert("cPais"@.len() == 5 && "cPais"@[0] == 'c' && "cPais"@[1] == 'P'
            && "cPais"@[2] == 'a' && "cPais"@[3] == 'i' && "cPais"@[4] == 's');
        assert("xPais"@.len() == 5 && "xPais"@[0] == 'x' && "xPais"@[1] == 'P'
            && "xPais"@[2] == 'a' && "xPais"@[3] == 'i' && "xPais"@[4] == 's');
        assert("fone"@.len() == 4 && "fone"@[0] == 'f' && "fone"@[1] == 'o' && "fone"@[2] == 'n'
            && "fone"@[3] == 'e');
        let f1 = {
            let f = Seq::<ElementoV>::empty();
            let f = f.push(ElementoV::folha("xLgr"@, v.logradouro));
            let f = f.push(ElementoV::folha("nro"@, v.numero));
            let f = acrescido(f, folha_opcional("xCpl"@, v.complemento));
            let f = f.push(ElementoV::folha("xBairro"@, v.bairro));
            let f = f.push(folha_inteiro("cMun"@, v.codigo_municipio as nat));
            f
        };
        let f2 = {
            let f = f1;
            let f = f.push(ElementoV::folha("xMun"@, v.nome_municipio));
            let f = f.push(ElementoV::folha("UF"@, v.sigla_uf));
            let f = f.push(ElementoV::folha("CEP"@, v.cep));
            let f = f.push(folha_inteiro("cPais"@, v.codigo_pais as nat));
            let f = f.push(ElementoV::folha("xPais"@, v.nome_pais));
            f
        };
        let f3 = {
            let f = f2;
            let f = acrescido(f, folha_opcional("fone"@, v.telefone));
            f
        };
        assert(v.spec_serialize(tag).filhos == f3);
        assert(primeiro(f1, "xLgr"@) == Some(ElementoV::folha("xLgr"@, v.logradouro)));
        assert(primeiro(f2, "xLgr"@) == Some(ElementoV::folha("xLgr"@, v.logradouro)));
        assert(primeiro(f3, "xLgr"@) == Some(ElementoV::folha("xLgr"@, v.logradouro)));
        assert(primeiro(f1, "nro"@) == Some(ElementoV::folha("nro"@, v.numero)));
        assert(primeiro(f2, "nro"@) == Some(ElementoV::folha("nro"@, v.numero)));
        assert(primeiro(f3, "nro"@) == Some(ElementoV::folha("nro"@, v.numero)));
        assert(primeiro(f1, "xCpl"@) == folha_opcional("xCpl"@, v.complemento));
        assert(primeiro(f2, "xCpl"@) == folha_opcional("xCpl"@, v.complemento));
        assert(primeiro(f3, "xCpl"@) == folha_opcional("xCpl"@, v.complemento));
        assert(primeiro(f1, "xBairro"@) == Some(ElementoV::folha("xBairro"@, v.bairro)));
        assert(primeiro(f2, "xBairro"@) == Some(ElementoV::folha("xBairro"@, v.bairro)));
        assert(primeiro(f3, "xBairro"@) == Some(ElementoV::folha("xBairro"@, v.bairro)));
        assert(primeiro(f1, "cMun"@) == Some(folha_inteiro("cMun"@, v.codigo_municipio as nat)));
        assert(primeiro(f2, "cMun"@) == Some(folha_inteiro("cMun"@, v.codigo_municipio as nat)));
        assert(primeiro(f3, "cMun"@) == Some(folha_inteiro("cMun"@, v.codigo_municipio as nat)));
        assert(primeiro(f1, "xMun"@) is None);
        assert(primeiro(f2, "xMun"@) == Some(ElementoV::folha("xMun"@, v.nome_municipio)));
        assert(primeiro(f3, "xMun"@) == Some(ElementoV::folha("xMun"@, v.nome_municipio)));
        assert(primeiro(f1, "UF"@) is None);
        assert(primeiro(f2, "UF"@) == Some(ElementoV::folha("UF"@, v.sigla_uf)));
        assert(primeiro(f3, "UF"@) == Some(ElementoV::folha("UF"@, v.sigla_uf)));
        assert(primeiro(f1, "CEP"@) is None);
        assert(primeiro(f2, "CEP"@) == Some(ElementoV::folha("CEP"@, v.cep)));
        assert(primeiro(f3, "CEP"@) == Some(ElementoV::folha("CEP"@, v.cep)));
        assert(primeiro(f1, "cPais"@) is None);
        assert(primeiro(f2, "cPais"@) == Some(folha_inteiro("cPais"@, v.codigo_pais as nat)));
        assert(primeiro(f3, "cPais"@) == Some(folha_inteiro("cPais"@, v.codigo_pais as nat)));
        assert(primeiro(f1, "xPais"@) is None);
        assert(primeiro(f2, "xPais"@) == Some(ElementoV::folha("xPais"@, v.nome_pais)));
        assert(primeiro(f3, "xPais"@) == Some(ElementoV::folha("xPais"@, v.nome_pais)));
        assert(primeiro(f1, "fone"@) is None);
        assert(primeiro(f2, "fone"@) is None);
        assert(primeiro(f3, "fone"@) == folha_opcional("fone"@, v.telefone));
    }

    /// Decoding what was encoded gives the value back.
    pub proof fn lemma_ida_e_volta(v: EnderecoV, tag: Seq<char>)
        requires
            v.valido(),
        ensures
            Self::spec_parse(v.spec_serialize(tag)) == Ok::<EnderecoV, ErrorV>(v),
    {
        broadcast use grupo_ida_e_volta;

        reveal(Endereco::spec_parse);
        Self::lemma_filhos(v, tag);
        let no = v.spec_serialize(tag);
        assert(spec_texto(no, "xLgr"@) == Ok::<Seq<char>, ErrorV>(v.logradouro));
        assert(spec_texto(no, "nro"@) == Ok::<Seq<char>, ErrorV>(v.numero));
        assert(spec_texto_opcional(no, "xCpl"@) == v.complemento);
        assert(spec_texto(no, "xBairro"@) == Ok::<Seq<char>, ErrorV>(v.bairro));
        assert(spec_u32(no, "cMun"@) == Ok::<u32, ErrorV>(v.codigo_municipio));
        assert(spec_texto(no, "xMun"@) == Ok::<Seq<char>, ErrorV>(v.nome_municipio));
        assert(spec_texto(no, "UF"@) == Ok::<Seq<char>, ErrorV>(v.sigla_uf));
        assert(spec_texto(no, "CEP"@) == Ok::<Seq<char>, ErrorV>(v.cep));
        assert(spec_u32(no, "cPais"@) == Ok::<u32, ErrorV>(v.codigo_pais));
        assert(spec_texto(no, "xPais"@) == Ok::<Seq<char>, ErrorV>(v.nome_pais));
        assert(spec_texto_opcional(no, "fone"@) == v.telefone);
    }
}

} // verus!
