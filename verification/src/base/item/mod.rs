//! Line items: products and their taxes.

use vstd::prelude::*;
use crate::arvore::{
    anexar, anexar_atributo, ver_atributos, Atributo, AtributoV, Elemento, ElementoV,
};
use crate::base::{Error, ErrorV};
use crate::campo::{grupo_busca, grupo_ida_e_volta, ler_atributo_u8, spec_atributo_u8};
use crate::escalar::{codificar_inteiro, texto_inteiro};
use crate::xml::{arvore_de, escrever_xml, ler_xml, texto_xml};

mod imposto;
mod produto;

pub use imposto::{
    GrupoCofins, GrupoCofinsAliq, GrupoCofinsAliqV, GrupoCofinsNt, GrupoCofinsNtV,
    GrupoCofinsOutr, GrupoCofinsOutrV, GrupoCofinsV, GrupoIcms, GrupoIcms60, GrupoIcmsSn202,
    GrupoIcmsSn202V, GrupoIcmsV, GrupoPis, GrupoPisAliq, GrupoPisAliqV, GrupoPisNt, GrupoPisNtV,
    GrupoPisOutr, GrupoPisOutrV, GrupoPisV, Imposto, ImpostoV, ModalidadeBaseCalculoIcmsSt,
    OrigemMercadoria,
};
pub use produto::{EscalaRelevante, Produto, ProdutoTributacao, ProdutoTributacaoV, ProdutoV};

verus! {

/// A line item of the document: an element `det`.
#[derive(Debug, PartialEq, Eq, Clone)]
pub struct Item {
    /// Number of the item in the document, from 1 on. Attribute `nItem`.
    pub numero: u8,
    /// The product. Element `prod`.
    pub produto: Produto,
    /// The taxes. Element `imposto`.
    pub imposto: Imposto,
}

/// The mathematical value of an [`Item`].
pub ghost struct ItemV {
    pub numero: u8,
    pub produto: ProdutoV,
    pub imposto: ImpostoV,
}

impl View for Item {
    type V = ItemV;

    open spec fn view(&self) -> ItemV {
        ItemV { numero: self.numero, produto: self.produto@, imposto: self.imposto@ }
    }
}

impl ItemV {
    /// Whether the value is one that a document can hold: its texts are
    /// trimmed and a barcode is not the phrase for a missing one.
    pub open spec fn valido(self) -> bool {
        &&& self.produto.valido()
        &&& self.imposto.valido()
    }

    /// The attributes of the element that encodes the value.
    pub open spec fn spec_atributos(self) -> Seq<AtributoV> {
        let a = Seq::<AtributoV>::empty();
        let a = a.push(AtributoV { nome: "nItem"@, valor: texto_inteiro(self.numero as nat) });
        a
    }

    /// `antes` followed by the sections of the value, in the order of the
    /// wire.
    pub open spec fn spec_campos(self, antes: Seq<ElementoV>) -> Seq<ElementoV> {
        let f = antes;
        let f = f.push(self.produto.spec_serialize());
        let f = f.push(self.imposto.spec_serialize());
        f
    }

    /// The element that encodes the value.
    pub open spec fn spec_serialize(self) -> ElementoV {
        ElementoV::novo("det"@, self.spec_atributos(), self.spec_campos(Seq::empty()))
    }
}

impl Item {
    /// What decoding the element `no` gives: the value, or the error of the
    /// first of the number, the product and the taxes that has one.
    #[verifier::opaque]
    pub open spec fn spec_parse(no: ElementoV) -> Result<ItemV, ErrorV> {
        let numero = spec_atributo_u8(no, "nItem"@);
        let produto = Produto::spec_parse_em(no, "prod"@);
        let imposto = Imposto::spec_parse_em(no, "imposto"@);
        if numero is Err {
            Err(numero->Err_0)
        } else if produto is Err {
            Err(produto->Err_0)
        } else if imposto is Err {
            Err(imposto->Err_0)
        } else {
            Ok(ItemV { numero: numero->Ok_0, produto: produto->Ok_0, imposto: imposto->Ok_0 })
        }
    }

    /// Decodes the value from the element `no`.
    pub fn parse(no: &Elemento) -> (r: Result<Item, Error>)
        ensures
            r matches Ok(v) ==> Self::spec_parse(no@) == Ok::<ItemV, ErrorV>(v@),
            r matches Err(e) ==> Self::spec_parse(no@) == Err::<ItemV, ErrorV>(e@),
            r matches Ok(v) ==> v@.valido(),
    {
        proof {
            reveal(Item::spec_parse);
            Self::lemma_parse_valido(no@);
        }
        let numero = ler_atributo_u8(no, "nItem")?;
        let produto = Produto::parse_em(no, "prod")?;
        let imposto = Imposto::parse_em(no, "imposto")?;
        Ok(Item { numero, produto, imposto })
    }

    /// Whether the value is one that a document can hold.
    pub fn eh_valido(&self) -> (b: bool)
        ensures
            b == self@.valido(),
    {
        self.produto.eh_valido() && self.imposto.eh_valido()
    }

    /// Encodes the value as an element.
    pub fn serialize(&self) -> (r: Elemento)
        ensures
            r@ == self@.spec_serialize(),
    {
        let mut atributos: Vec<Atributo> = Vec::new();
        assert(ver_atributos(atributos@) =~= Seq::<AtributoV>::empty());
        anexar_atributo(&mut atributos, "nItem", codificar_inteiro(self.numero as u64));
        let mut filhos: Vec<Elemento> = Vec::new();
        anexar(&mut filhos, self.produto.serialize());
        anexar(&mut filhos, self.imposto.serialize());
        Elemento::novo("det", atributos, filhos)
    }

    /// What reading the text `s` gives: what decoding its root element gives,
    /// where the text is a tree of elements.
    pub open spec fn spec_from_str(s: Seq<char>) -> Result<ItemV, ErrorV> {
        match arvore_de(s) {
            None => Err(ErrorV::Xml),
            Some(no) => Self::spec_parse(no),
        }
    }

    /// Reads the value from a text, whose root element is the item.
    pub fn from_str(s: &str) -> (r: Result<Item, Error>)
        ensures
            r matches Ok(v) ==> Self::spec_from_str(s@) == Ok::<ItemV, ErrorV>(v@),
            r matches Err(e) ==> Self::spec_from_str(s@) == Err::<ItemV, ErrorV>(e@),
            r matches Ok(v) ==> v@.valido(),
    {
        let no = ler_xml(s)?;
        Self::parse(&no)
    }

    /// Writes the value as text.
    pub fn to_string(&self) -> (r: String)
        ensures
            r@ == texto_xml(self@.spec_serialize()),
    {
        escrever_xml(&self.serialize())
    }

    /// What is decoded is a value that a document can hold.
    pub proof fn lemma_parse_valido(no: ElementoV)
        ensures
            Self::spec_parse(no) matches Ok(v) ==> v.valido(),
    {
        reveal(Item::spec_parse);
        if no.filho("prod"@) is Some {
            Produto::lemma_parse_valido(no.filho("prod"@)->Some_0);
        }
        if no.filho("imposto"@) is Some {
            Imposto::lemma_parse_valido(no.filho("imposto"@)->Some_0);
        }
    }

    /// Decoding what was encoded gives the value back.
    pub proof fn lemma_ida_e_volta(v: ItemV)
        requires
            v.valido(),
        ensures
            Self::spec_parse(v.spec_serialize()) == Ok::<ItemV, ErrorV>(v),
    {
        broadcast use {grupo_busca, grupo_ida_e_volta};

        reveal(Item::spec_parse);
        reveal_strlit("nItem");
        reveal_strlit("prod");
        reveal_strlit("imposto");
        assert("prod"@.len() == 4 && "prod"@[0] == 'p');
        assert("imposto"@.len() == 7 && "imposto"@[0] == 'i');
        Produto::lemma_ida_e_volta(v.produto);
        Imposto::lemma_ida_e_volta(v.imposto);
        let no = v.spec_serialize();
        assert(no.atributo("nItem"@) == Some(texto_inteiro(v.numero as nat)));
        assert(no.filho("prod"@) == Some(v.produto.spec_serialize()));
        assert(no.filho("imposto"@) == Some(v.imposto.spec_serialize()));
    }
}

} // verus!
