//! The model shared by every kind of document, without distinction of the
//! fiscal model (NF-e or NFC-e), and the composer that reads a whole document
//! and writes it.

use vstd::prelude::*;
use vstd::string::StringExecFns;
use crate::arvore::{
    acrescido, anexar, anexar_atributo, anexar_opcional, lemma_primeiro_push,
    lemma_ver_elementos, primeiro, ver_atributos, ver_elementos, Atributo, AtributoV, Elemento,
    ElementoV,
};
use crate::campo::{
    grupo_busca, lemma_primeiro_acrescido, ler_atributo, ler_secao, ler_texto_opcional,
    spec_atributo, spec_secao, spec_texto_opcional, texto_opcional_valido,
};
use crate::texto::{caracteres, iguais, texto_do_trecho};
use crate::xml::{arvore_de, escrever_xml, ler_xml, texto_xml};

pub mod dest;
pub mod emit;
pub mod endereco;
mod error;
pub mod ide;
pub mod item;
pub mod totais;
pub mod transporte;
mod versao;

use dest::{Destinatario, DestinatarioV};
use emit::{Emitente, EmitenteV};
pub use error::{Error, ErrorV, TipoEscalar};
use ide::{Identificacao, IdentificacaoV};
use item::{Item, ItemV};
use totais::Totalizacao;
use transporte::Transporte;
pub use versao::VersaoLayout;

verus! {

/// A document, whatever its fiscal model: the element `infNFe` and what it
/// holds.
#[derive(Debug, PartialEq, Eq)]
pub struct Nfe {
    /// Version of the layout. Attribute `versao`.
    pub versao: VersaoLayout,
    /// Access key: the attribute `Id` without its prefix `NFe`.
    pub chave_acesso: String,
    /// Identification. Element `ide`.
    pub ide: Identificacao,
    /// Issuer. Element `emit`.
    pub emit: Emitente,
    /// Recipient. Element `dest`.
    pub dest: Option<Destinatario>,
    /// Line items, in the order of the document, at least one. Elements
    /// `det`.
    pub itens: Vec<Item>,
    /// Totals. Element `total`.
    pub totais: Totalizacao,
    /// Transport. Element `transp`.
    pub transporte: Transporte,
    /// Remarks of interest to the taxpayer. Tag `infCpl`, inside `infAdic`.
    pub informacao_complementar: Option<String>,
}

/// The mathematical value of a [`Nfe`].
pub ghost struct NfeV {
    pub versao: VersaoLayout,
    pub chave_acesso: Seq<char>,
    pub ide: IdentificacaoV,
    pub emit: EmitenteV,
    pub dest: Option<DestinatarioV>,
    pub itens: Seq<ItemV>,
    pub totais: Totalizacao,
    pub transporte: Transporte,
    pub informacao_complementar: Option<Seq<char>>,
}

/// The values of a sequence of line items, in the same order.
pub open spec fn ver_itens(itens: Seq<Item>) -> Seq<ItemV> {
    Seq::new(itens.len(), |i: int| itens[i]@)
}

impl View for Nfe {
    type V = NfeV;

    open spec fn view(&self) -> NfeV {
        NfeV {
            versao: self.versao,
            chave_acesso: self.chave_acesso@,
            ide: self.ide@,
            emit: self.emit@,
            dest: match self.dest {
                Some(d) => Some(d@),
                None => None,
            },
            itens: ver_itens(self.itens@),
            totais: self.totais,
            transporte: self.transporte,
            informacao_complementar: self.informacao_complementar.deep_view(),
        }
    }
}

/// The prefix of the access key in the attribute `Id`.
pub open spec fn prefixo_chave() -> Seq<char> {
    seq!['N', 'F', 'e']
}

/// The access key that the attribute `Id` holds: what follows the prefix
/// `NFe`, or all of it where it does not start with the prefix.
pub open spec fn chave_de(id: Seq<char>) -> Seq<char> {
    if id.len() >= 3 && id.take(3) == prefixo_chave() {
        id.skip(3)
    } else {
        id
    }
}

/// The line items that the elements named `det` among `es` hold, in the same
/// order, or the error of the first that has one.
pub open spec fn itens_de(es: Seq<ElementoV>) -> Result<Seq<ItemV>, ErrorV>
    decreases es.len(),
{
    if es.len() == 0 {
        Ok(Seq::empty())
    } else {
        let antes = itens_de(es.drop_last());
        if antes is Err || es.last().nome != "det"@ {
            antes
        } else {
            match Item::spec_parse(es.last()) {
                Err(e) => Err(e),
                Ok(item) => Ok(antes->Ok_0.push(item)),
            }
        }
    }
}

/// Whether one of `itens` has the number `numero`.
pub open spec fn tem_numero(itens: Seq<ItemV>, numero: u8) -> bool {
    exists|i: int| 0 <= i < itens.len() && (#[trigger] itens[i]).numero == numero
}

/// The number of the first line item, in the order of the document, that has
/// the number of an earlier one, if there is such an item.
pub open spec fn numero_repetido(itens: Seq<ItemV>) -> Option<u8>
    decreases itens.len(),
{
    if itens.len() == 0 {
        None
    } else if numero_repetido(itens.drop_last()) is Some {
        numero_repetido(itens.drop_last())
    } else if tem_numero(itens.drop_last(), itens.last().numero) {
        Some(itens.last().numero)
    } else {
        None
    }
}

/// The elements that encode a sequence of line items, in the same order.
pub open spec fn elementos_de(itens: Seq<ItemV>) -> Seq<ElementoV>
    decreases itens.len(),
{
    if itens.len() == 0 {
        Seq::empty()
    } else {
        elementos_de(itens.drop_last()).push(itens.last().spec_serialize())
    }
}

/// The remarks that the optional element `infAdic` of `no` holds.
pub open spec fn informacao_de(no: ElementoV) -> Option<Seq<char>> {
    match no.filho("infAdic"@) {
        None => None,
        Some(adicional) => spec_texto_opcional(adicional, "infCpl"@),
    }
}

/// The element `infAdic` that holds the remarks, where there are any.
pub open spec fn elemento_informacao(informacao: Option<Seq<char>>) -> Option<ElementoV> {
    match informacao {
        None => None,
        Some(texto) => {
            let f = Seq::<ElementoV>::empty();
            let f = f.push(ElementoV::folha("infCpl"@, texto));
            Some(ElementoV::grupo("infAdic"@, f))
        },
    }
}

/// The element `infNFe` of a document: the root itself where it has that
/// name, else its child of that name, which is mandatory.
pub open spec fn raiz_informacao(raiz: ElementoV) -> Result<ElementoV, ErrorV> {
    if raiz.nome == "infNFe"@ {
        Ok(raiz)
    } else {
        spec_secao(raiz, "infNFe"@)
    }
}

impl NfeV {
    /// Whether the value is one that a document can hold: its texts are
    /// trimmed, a barcode is not the phrase for a missing one, its instants
    /// can be written and read back, it has a line item, and no two of its
    /// line items have the same number.
    pub open spec fn valido(self) -> bool {
        &&& self.ide.valido()
        &&& self.emit.valido()
        &&& (self.dest matches Some(d) ==> d.valido())
        &&& self.itens.len() > 0
        &&& forall|i: int| 0 <= i < self.itens.len() ==> (#[trigger] self.itens[i]).valido()
        &&& numero_repetido(self.itens) is None
        &&& (self.informacao_complementar matches Some(t) ==> crate::texto::aparado(t) == t)
    }

    /// The attributes of the element `infNFe`: the version, then the access
    /// key after its prefix.
    pub open spec fn spec_atributos(self) -> Seq<AtributoV> {
        let a = Seq::<AtributoV>::empty();
        let a = a.push(AtributoV { nome: "versao"@, valor: self.versao.spec_texto() });
        let a = a.push(AtributoV { nome: "Id"@, valor: prefixo_chave() + self.chave_acesso });
        a
    }

    /// `antes` followed by the sections of the document, in the order of the
    /// wire: identification, issuer, recipient, line items, totals,
    /// transport, remarks.
    pub open spec fn spec_campos(self, antes: Seq<ElementoV>) -> Seq<ElementoV> {
        let f = antes;
        let f = f.push(self.ide.spec_serialize());
        let f = f.push(self.emit.spec_serialize());
        let f = acrescido(f, DestinatarioV::spec_serialize_opcional(self.dest));
        let f = f + elementos_de(self.itens);
        let f = f.push(self.totais.spec_serialize());
        let f = f.push(self.transporte.spec_serialize());
        let f = acrescido(f, elemento_informacao(self.informacao_complementar));
        f
    }

    /// The element `infNFe` that encodes the document.
    pub open spec fn spec_serialize_informacao(self) -> ElementoV {
        ElementoV::novo("infNFe"@, self.spec_atributos(), self.spec_campos(Seq::empty()))
    }

    /// The element `NFe` that encodes the document: it holds `infNFe` and
    /// nothing else.
    pub open spec fn spec_serialize(self) -> ElementoV {
        let f = Seq::<ElementoV>::empty();
        let f = f.push(self.spec_serialize_informacao());
        ElementoV::grupo("NFe"@, f)
    }
}

/// The access key without its prefix.
fn tirar_prefixo(id: &str) -> (r: String)
    ensures
        r@ == chave_de(id@),
{
    let cs = caracteres(id);
    if cs.len() >= 3 && cs[0] == 'N' && cs[1] == 'F' && cs[2] == 'e' {
        assert(cs@.take(3) =~= prefixo_chave());
        assert(cs@.subrange(3, cs.len() as int) =~= cs@.skip(3));
        texto_do_trecho(&cs, 3, cs.len())
    } else {
        assert(cs.len() >= 3 ==> cs@.take(3) != prefixo_chave()) by {
            if cs.len() >= 3 && cs@.take(3) == prefixo_chave() {
                assert(cs@.take(3)[0] == 'N');
                assert(cs@.take(3)[1] == 'F');
                assert(cs@.take(3)[2] == 'e');
            }
        }
        id.to_owned()
    }
}

/// What is decoded of a prefix of the elements is the start of what is
/// decoded of all of them, and an error in the prefix is the error of all.
proof fn lemma_itens_prefixo(es: Seq<ElementoV>, n: int)
    requires
        0 <= n <= es.len(),
        itens_de(es.take(n)) is Err,
    ensures
        itens_de(es) == itens_de(es.take(n)),
    decreases es.len() - n,
{
    if n < es.len() {
        assert(es.take(n + 1).drop_last() =~= es.take(n));
        lemma_itens_prefixo(es, n + 1);
    } else {
        assert(es.take(n) =~= es);
    }
}

/// The names of the document, by their length and their first characters.
proof fn lemma_nomes_do_documento()
    ensures
        "NFe"@.len() == 3 && "NFe"@[0] == 'N',
        "infNFe"@.len() == 6 && "infNFe"@[0] == 'i' && "infNFe"@[3] == 'N',
        "versao"@.len() == 6 && "versao"@[0] == 'v',
        "Id"@.len() == 2 && "Id"@[0] == 'I',
        "ide"@.len() == 3 && "ide"@[0] == 'i' && "ide"@[1] == 'd',
        "emit"@.len() == 4 && "emit"@[0] == 'e',
        "dest"@.len() == 4 && "dest"@[0] == 'd' && "dest"@[1] == 'e' && "dest"@[2] == 's',
        "det"@.len() == 3 && "det"@[0] == 'd' && "det"@[1] == 'e' && "det"@[2] == 't',
        "total"@.len() == 5 && "total"@[0] == 't' && "total"@[1] == 'o',
        "transp"@.len() == 6 && "transp"@[0] == 't' && "transp"@[1] == 'r',
        "infAdic"@.len() == 7 && "infAdic"@[0] == 'i' && "infAdic"@[3] == 'A',
        "infCpl"@.len() == 6 && "infCpl"@[0] == 'i' && "infCpl"@[3] == 'C',
{
    reveal_strlit("NFe");
    reveal_strlit("infNFe");
    reveal_strlit("versao");
    reveal_strlit("Id");
    reveal_strlit("ide");
    reveal_strlit("emit");
    reveal_strlit("dest");
    reveal_strlit("det");
    reveal_strlit("total");
    reveal_strlit("transp");
    reveal_strlit("infAdic");
    reveal_strlit("infCpl");
}

/// What is found after the elements of line items were appended is what was
/// found before, unless a line item is looked for.
proof fn lemma_primeiro_itens(f: Seq<ElementoV>, itens: Seq<ItemV>, nome: Seq<char>)
    requires
        nome != "det"@,
    ensures
        primeiro(f + elementos_de(itens), nome) == primeiro(f, nome),
    decreases itens.len(),
{
    if itens.len() == 0 {
        assert(f + elementos_de(itens) =~= f);
    } else {
        let antes = f + elementos_de(itens.drop_last());
        lemma_primeiro_itens(f, itens.drop_last(), nome);
        assert(f + elementos_de(itens) =~= antes.push(itens.last().spec_serialize()));
        lemma_primeiro_push(antes, itens.last().spec_serialize(), nome);
    }
}

/// An element that is no line item, appended or not, leaves the line items
/// that are decoded as they were.
proof fn lemma_itens_outro(es: Seq<ElementoV>, e: Option<ElementoV>)
    requires
        e matches Some(e) ==> e.nome != "det"@,
    ensures
        itens_de(acrescido(es, e)) == itens_de(es),
{
    if e is Some {
        assert(es.push(e->Some_0).drop_last() =~= es);
    }
}

/// The line items decoded of the elements that encode line items are those
/// line items, after what was decoded before them.
proof fn lemma_itens_elementos(f: Seq<ElementoV>, itens: Seq<ItemV>)
    requires
        itens_de(f) is Ok,
        forall|i: int| 0 <= i < itens.len() ==> (#[trigger] itens[i]).valido(),
    ensures
        itens_de(f + elementos_de(itens)) == Ok::<Seq<ItemV>, ErrorV>(itens_de(f)->Ok_0 + itens),
    decreases itens.len(),
{
    let antes = itens_de(f)->Ok_0;
    if itens.len() == 0 {
        assert(f + elementos_de(itens) =~= f);
        assert(antes + itens =~= antes);
    } else {
        let resto = itens.drop_last();
        let ultimo = itens.last();
        lemma_itens_elementos(f, resto);
        Item::lemma_ida_e_volta(ultimo);
        assert(f + elementos_de(itens) =~= (f + elementos_de(resto)).push(
            ultimo.spec_serialize(),
        ));
        assert((f + elementos_de(itens)).drop_last() =~= f + elementos_de(resto));
        assert(antes + itens =~= (antes + resto).push(ultimo));
    }
}

/// The line items that are decoded are values that a document can hold.
pub proof fn lemma_itens_validos(es: Seq<ElementoV>)
    ensures
        itens_de(es) matches Ok(itens) ==> forall|i: int|
            0 <= i < itens.len() ==> (#[trigger] itens[i]).valido(),
    decreases es.len(),
{
    if es.len() > 0 {
        lemma_itens_validos(es.drop_last());
        Item::lemma_parse_valido(es.last());
    }
}

/// Decodes the line items among the children of `no`.
fn ler_itens(no: &Elemento) -> (r: Result<Vec<Item>, Error>)
    ensures
        r matches Ok(v) ==> itens_de(no@.filhos) == Ok::<Seq<ItemV>, ErrorV>(ver_itens(v@)),
        r matches Err(e) ==> itens_de(no@.filhos) == Err::<Seq<ItemV>, ErrorV>(e@),
{
    let ghost es = no@.filhos;
    let mut itens: Vec<Item> = Vec::new();
    let mut i: usize = 0;
    proof {
        lemma_ver_elementos(no.filhos@);
        assert(es.take(0) =~= Seq::<ElementoV>::empty());
        assert(ver_itens(itens@) =~= Seq::<ItemV>::empty());
    }
    while i < no.filhos.len()
        invariant
            i <= no.filhos.len(),
            es == no@.filhos,
            es.len() == no.filhos.len(),
            forall|j: int| 0 <= j < es.len() ==> #[trigger] es[j] == no.filhos@[j]@,
            itens_de(es.take(i as int)) == Ok::<Seq<ItemV>, ErrorV>(ver_itens(itens@)),
        decreases no.filhos.len() - i,
    {
        let e = &no.filhos[i];
        proof {
            assert(es.take(i + 1).drop_last() =~= es.take(i as int));
        }
        if iguais(e.nome.as_str(), "det") {
            match Item::parse(e) {
                Err(erro) => {
                    proof {
                        lemma_itens_prefixo(es, i + 1);
                    }
                    return Err(erro);
                },
                Ok(item) => {
                    let ghost antes = itens@;
                    itens.push(item);
                    assert(ver_itens(itens@) =~= ver_itens(antes).push(item@));
                },
            }
        }
        i += 1;
    }
    assert(es.take(i as int) =~= es);
    Ok(itens)
}

/// A repeated number in a prefix of the line items is the repeated number of
/// all of them.
proof fn lemma_repetido_prefixo(itens: Seq<ItemV>, n: int)
    requires
        0 <= n <= itens.len(),
        numero_repetido(itens.take(n)) is Some,
    ensures
        numero_repetido(itens) == numero_repetido(itens.take(n)),
    decreases itens.len() - n,
{
    if n < itens.len() {
        assert(itens.take(n + 1).drop_last() =~= itens.take(n));
        lemma_repetido_prefixo(itens, n + 1);
    } else {
        assert(itens.take(n) =~= itens);
    }
}

/// The number of the first line item that has the number of an earlier one.
pub fn item_repetido(itens: &Vec<Item>) -> (r: Option<u8>)
    ensures
        r == numero_repetido(ver_itens(itens@)),
{
    let ghost vs = ver_itens(itens@);
    let mut vistos: Vec<bool> = Vec::new();
    let mut n: usize = 0;
    while n < 256
        invariant
            n <= 256,
            vistos.len() == n,
            forall|k: int| 0 <= k < n ==> !vistos@[k],
        decreases 256 - n,
    {
        vistos.push(false);
        n += 1;
    }
    let mut i: usize = 0;
    assert(vs.take(0) =~= Seq::<ItemV>::empty());
    while i < itens.len()
        invariant
            i <= itens.len(),
            vs == ver_itens(itens@),
            vistos.len() == 256,
            forall|k: int| 0 <= k < 256 ==> vistos@[k] == tem_numero(vs.take(i as int), k as u8),
            numero_repetido(vs.take(i as int)) is None,
        decreases itens.len() - i,
    {
        let numero = itens[i].numero;
        let ghost antes = vs.take(i as int);
        let ghost depois = vs.take(i + 1);
        proof {
            assert(depois.drop_last() =~= antes);
            assert(depois.last().numero == numero);
        }
        if vistos[numero as usize] {
            proof {
                lemma_repetido_prefixo(vs, i + 1);
            }
            return Some(numero);
        }
        vistos.set(numero as usize, true);
        proof {
            assert forall|k: int| 0 <= k < 256 implies vistos@[k] == tem_numero(
                depois,
                k as u8,
            ) by {
                if tem_numero(antes, k as u8) {
                    let j = choose|j: int|
                        0 <= j < antes.len() && (#[trigger] antes[j]).numero == k as u8;
                    assert(depois[j].numero == k as u8);
                }
                if k == numero {
                    assert(depois[i as int].numero == k as u8);
                }
                if tem_numero(depois, k as u8) && k != numero {
                    let j = choose|j: int|
                        0 <= j < depois.len() && (#[trigger] depois[j]).numero == k as u8;
                    assert(antes[j].numero == k as u8);
                }
            }
        }
        i += 1;
    }
    assert(vs.take(i as int) =~= vs);
    None
}

/// Appends the elements of the line items to `filhos`.
pub fn por_itens(filhos: &mut Vec<Elemento>, itens: &Vec<Item>)
    ensures
        ver_elementos(final(filhos)@) == ver_elementos(old(filhos)@) + elementos_de(
            ver_itens(itens@),
        ),
{
    let ghost inicio = ver_elementos(filhos@);
    let ghost vs = ver_itens(itens@);
    let mut i: usize = 0;
    assert(vs.take(0) =~= Seq::<ItemV>::empty());
    assert(inicio + elementos_de(vs.take(0)) =~= inicio);
    while i < itens.len()
        invariant
            i <= itens.len(),
            vs == ver_itens(itens@),
            ver_elementos(filhos@) == inicio + elementos_de(vs.take(i as int)),
        decreases itens.len() - i,
    {
        let ghost antes = ver_elementos(filhos@);
        anexar(filhos, itens[i].serialize());
        proof {
            assert(vs.take(i + 1).drop_last() =~= vs.take(i as int));
            assert(vs.take(i + 1).last() == itens@[i as int]@);
            assert(inicio + elementos_de(vs.take(i + 1)) =~= antes.push(
                itens@[i as int]@.spec_serialize(),
            ));
        }
        i += 1;
    }
    assert(vs.take(i as int) =~= vs);
}

/// The attributes of the element `infNFe`.
pub fn atributos_do_documento(versao: VersaoLayout, chave_acesso: &String) -> (r: Vec<Atributo>)
    ensures
        ver_atributos(r@) == Seq::<AtributoV>::empty().push(
            AtributoV { nome: "versao"@, valor: versao.spec_texto() },
        ).push(AtributoV { nome: "Id"@, valor: prefixo_chave() + chave_acesso@ }),
{
    let mut atributos: Vec<Atributo> = Vec::new();
    assert(ver_atributos(atributos@) =~= Seq::<AtributoV>::empty());
    anexar_atributo(&mut atributos, "versao", versao.to_string());
    let mut id = "NFe".to_owned();
    id.append(chave_acesso.as_str());
    proof {
        reveal_strlit("NFe");
        assert("NFe"@ =~= prefixo_chave());
    }
    anexar_atributo(&mut atributos, "Id", id);
    atributos
}

/// Appends the element `infAdic` that holds the remarks, where there are
/// any.
pub fn por_informacao(filhos: &mut Vec<Elemento>, informacao: &Option<String>)
    ensures
        ver_elementos(final(filhos)@) == acrescido(
            ver_elementos(old(filhos)@),
            elemento_informacao(informacao.deep_view()),
        ),
{
    match informacao {
        None => {},
        Some(texto) => {
            let mut f: Vec<Elemento> = Vec::new();
            anexar(&mut f, Elemento::folha("infCpl", texto.clone()));
            anexar(filhos, Elemento::grupo("infAdic", f));
        },
    }
}

impl Nfe {
    /// What decoding the element `infNFe` gives: the document, or the first
    /// error met. The version is decoded first and must be the supported
    /// one, then the access key, then each section once, in the order of the
    /// wire. There must be a line item, and the numbers of the line items
    /// must differ from one another.
    pub open spec fn spec_parse_informacao(no: ElementoV) -> Result<NfeV, ErrorV> {
        let versao_texto = spec_atributo(no, "versao"@);
        let versao = if versao_texto is Ok {
            VersaoLayout::spec_from_str(versao_texto->Ok_0)
        } else {
            Err(versao_texto->Err_0)
        };
        let id = spec_atributo(no, "Id"@);
        let ide = Identificacao::spec_parse_em(no, "ide"@);
        let emit = Emitente::spec_parse_em(no, "emit"@);
        let dest = Destinatario::spec_parse_opcional_em(no, "dest"@);
        let itens = itens_de(no.filhos);
        let totais = Totalizacao::spec_parse_em(no, "total"@);
        let transporte = Transporte::spec_parse_em(no, "transp"@);
        if versao is Err {
            Err(versao->Err_0)
        } else if id is Err {
            Err(id->Err_0)
        } else if ide is Err {
            Err(ide->Err_0)
        } else if emit is Err {
            Err(emit->Err_0)
        } else if dest is Err {
            Err(dest->Err_0)
        } else if itens is Err {
            Err(itens->Err_0)
        } else if itens->Ok_0.len() == 0 {
            Err(ErrorV::CampoAusente("det"@))
        } else if numero_repetido(itens->Ok_0) is Some {
            Err(ErrorV::ItemRepetido(numero_repetido(itens->Ok_0)->Some_0))
        } else if totais is Err {
            Err(totais->Err_0)
        } else if transporte is Err {
            Err(transporte->Err_0)
        } else {
            Ok(
                NfeV {
                    versao: versao->Ok_0,
                    chave_acesso: chave_de(id->Ok_0),
                    ide: ide->Ok_0,
                    emit: emit->Ok_0,
                    dest: dest->Ok_0,
                    itens: itens->Ok_0,
                    totais: totais->Ok_0,
                    transporte: transporte->Ok_0,
                    informacao_complementar: informacao_de(no),
                },
            )
        }
    }

    /// What decoding a document from its root gives.
    pub open spec fn spec_parse(raiz: ElementoV) -> Result<NfeV, ErrorV> {
        match raiz_informacao(raiz) {
            Err(e) => Err(e),
            Ok(no) => Self::spec_parse_informacao(no),
        }
    }

    /// Decodes a document from its root: the element `infNFe`, or the element
    /// that holds it.
    pub fn parse(raiz: &Elemento) -> (r: Result<Nfe, Error>)
        ensures
            r matches Ok(v) ==> Self::spec_parse(raiz@) == Ok::<NfeV, ErrorV>(v@),
            r matches Err(e) ==> Self::spec_parse(raiz@) == Err::<NfeV, ErrorV>(e@),
            r matches Ok(v) ==> v@.valido(),
    {
        proof {
            Self::lemma_parse_valido(raiz@);
        }
        let no = if iguais(raiz.nome.as_str(), "infNFe") {
            raiz
        } else {
            ler_secao(raiz, "infNFe")?
        };
        let versao = VersaoLayout::from_str(ler_atributo(no, "versao")?.as_str())?;
        let id = ler_atributo(no, "Id")?;
        let ide = Identificacao::parse_em(no, "ide")?;
        let emit = Emitente::parse_em(no, "emit")?;
        let dest = Destinatario::parse_opcional_em(no, "dest")?;
        let itens = ler_itens(no)?;
        if itens.len() == 0 {
            return Err(Error::CampoAusente("det".to_owned()));
        }
        match item_repetido(&itens) {
            Some(numero) => {
                return Err(Error::ItemRepetido(numero));
            },
            None => {},
        }
        let totais = Totalizacao::parse_em(no, "total")?;
        let transporte = Transporte::parse_em(no, "transp")?;
        let informacao_complementar = match no.filho("infAdic") {
            None => None,
            Some(adicional) => ler_texto_opcional(adicional, "infCpl"),
        };
        Ok(
            Nfe {
                versao,
                chave_acesso: tirar_prefixo(id.as_str()),
                ide,
                emit,
                dest,
                itens,
                totais,
                transporte,
                informacao_complementar,
            },
        )
    }

    /// Encodes a document as the element `NFe`.
    pub fn serialize(&self) -> (r: Elemento)
        requires
            self@.valido(),
        ensures
            r@ == self@.spec_serialize(),
    {
        let atributos = atributos_do_documento(self.versao, &self.chave_acesso);
        let mut filhos: Vec<Elemento> = Vec::new();
        anexar(&mut filhos, self.ide.serialize());
        anexar(&mut filhos, self.emit.serialize());
        anexar_opcional(&mut filhos, Destinatario::serialize_opcional(&self.dest));
        por_itens(&mut filhos, &self.itens);
        anexar(&mut filhos, self.totais.serialize());
        anexar(&mut filhos, self.transporte.serialize());
        por_informacao(&mut filhos, &self.informacao_complementar);
        let mut raiz: Vec<Elemento> = Vec::new();
        anexar(&mut raiz, Elemento::novo("infNFe", atributos, filhos));
        Elemento::grupo("NFe", raiz)
    }

    /// What reading the text `s` gives: what decoding its root element gives,
    /// where the text is a tree of elements.
    pub open spec fn spec_from_str(s: Seq<char>) -> Result<NfeV, ErrorV> {
        match arvore_de(s) {
            None => Err(ErrorV::Xml),
            Some(no) => Self::spec_parse(no),
        }
    }

    /// Reads a document from a text.
    pub fn from_str(s: &str) -> (r: Result<Nfe, Error>)
        ensures
            r matches Ok(v) ==> Self::spec_from_str(s@) == Ok::<NfeV, ErrorV>(v@),
            r matches Err(e) ==> Self::spec_from_str(s@) == Err::<NfeV, ErrorV>(e@),
            r matches Ok(v) ==> v@.valido(),
    {
        let no = ler_xml(s)?;
        Self::parse(&no)
    }

    /// Writes a document as text.
    pub fn to_string(&self) -> (r: String)
        requires
            self@.valido(),
        ensures
            r@ == texto_xml(self@.spec_serialize()),
    {
        escrever_xml(&self.serialize())
    }

    /// Whether the document is one that can be encoded.
    pub fn eh_valido(&self) -> (b: bool)
        ensures
            b == self@.valido(),
    {
        if !(self.ide.eh_valido() && self.emit.eh_valido() && Destinatario::eh_valido_opcional(
            &self.dest,
        ) && self.itens.len() > 0 && texto_opcional_valido(&self.informacao_complementar)) {
            return false;
        }
        let mut i: usize = 0;
        while i < self.itens.len()
            invariant
                i <= self.itens.len(),
                forall|j: int| 0 <= j < i ==> (#[trigger] self@.itens[j]).valido(),
            decreases self.itens.len() - i,
        {
            if !self.itens[i].eh_valido() {
                assert(!self@.itens[i as int].valido());
                return false;
            }
            i += 1;
        }
        item_repetido(&self.itens).is_none()
    }

    /// Writes a document as text, where it is one that can be encoded.
    pub fn try_to_string(&self) -> (r: Option<String>)
        ensures
            r matches Some(t) ==> self@.valido() && t@ == texto_xml(self@.spec_serialize()),
            r is None ==> !self@.valido(),
    {
        if self.eh_valido() {
            Some(self.to_string())
        } else {
            None
        }
    }

    /// What writing again the document that the text `s` holds gives.
    pub open spec fn spec_normalizar(s: Seq<char>) -> Result<Seq<char>, ErrorV> {
        match Self::spec_from_str(s) {
            Err(e) => Err(e),
            Ok(doc) => Ok(texto_xml(doc.spec_serialize())),
        }
    }

    /// Reads a document from a text and writes it again: the text of the same
    /// document with its tags in the order of the layout, its optional
    /// fields that are absent left out and its scalars as this crate writes
    /// them.
    pub fn normalizar(s: &str) -> (r: Result<String, Error>)
        ensures
            r matches Ok(t) ==> Self::spec_normalizar(s@) == Ok::<Seq<char>, ErrorV>(t@),
            r matches Err(e) ==> Self::spec_normalizar(s@) == Err::<Seq<char>, ErrorV>(e@),
    {
        let doc = Self::from_str(s)?;
        Ok(doc.to_string())
    }

    /// Decoding what was encoded gives the document back.
    pub proof fn lemma_ida_e_volta(v: NfeV)
        requires
            v.valido(),
        ensures
            Self::spec_parse(v.spec_serialize()) == Ok::<NfeV, ErrorV>(v),
    {
        broadcast use {grupo_busca, lemma_primeiro_acrescido};

        lemma_nomes_do_documento();
        let raiz = v.spec_serialize();
        let no = v.spec_serialize_informacao();
        assert(raiz.filho("infNFe"@) == Some(no));
        assert(raiz_informacao(raiz) == Ok::<ElementoV, ErrorV>(no));
        assert(no.atributo("versao"@) == Some(v.versao.spec_texto()));
        assert(no.atributo("Id"@) == Some(prefixo_chave() + v.chave_acesso));
        assert(chave_de(prefixo_chave() + v.chave_acesso) == v.chave_acesso) by {
            let id = prefixo_chave() + v.chave_acesso;
            assert(id.take(3) =~= prefixo_chave());
            assert(id.skip(3) =~= v.chave_acesso);
        }
        let vazio = Seq::<ElementoV>::empty();
        let f1 = vazio.push(v.ide.spec_serialize());
        let f2 = f1.push(v.emit.spec_serialize());
        let f3 = acrescido(f2, DestinatarioV::spec_serialize_opcional(v.dest));
        let f4 = f3 + elementos_de(v.itens);
        let f5 = f4.push(v.totais.spec_serialize());
        let f6 = f5.push(v.transporte.spec_serialize());
        let f7 = acrescido(f6, elemento_informacao(v.informacao_complementar));
        assert(no.filhos == f7);

        assert(primeiro(f3, "ide"@) == Some(v.ide.spec_serialize()));
        assert(primeiro(f3, "emit"@) == Some(v.emit.spec_serialize()));
        assert(primeiro(f3, "dest"@) == DestinatarioV::spec_serialize_opcional(v.dest));
        assert(primeiro(f3, "total"@) is None);
        assert(primeiro(f3, "transp"@) is None);
        assert(primeiro(f3, "infAdic"@) is None);
        lemma_primeiro_itens(f3, v.itens, "ide"@);
        lemma_primeiro_itens(f3, v.itens, "emit"@);
        lemma_primeiro_itens(f3, v.itens, "dest"@);
        lemma_primeiro_itens(f3, v.itens, "total"@);
        lemma_primeiro_itens(f3, v.itens, "transp"@);
        lemma_primeiro_itens(f3, v.itens, "infAdic"@);
        assert(primeiro(f7, "ide"@) == Some(v.ide.spec_serialize()));
        assert(primeiro(f7, "emit"@) == Some(v.emit.spec_serialize()));
        assert(primeiro(f7, "dest"@) == DestinatarioV::spec_serialize_opcional(v.dest));
        assert(primeiro(f7, "total"@) == Some(v.totais.spec_serialize()));
        assert(primeiro(f7, "transp"@) == Some(v.transporte.spec_serialize()));
        assert(primeiro(f7, "infAdic"@) == elemento_informacao(v.informacao_complementar));

        lemma_itens_outro(vazio, Some(v.ide.spec_serialize()));
        lemma_itens_outro(f1, Some(v.emit.spec_serialize()));
        lemma_itens_outro(f2, DestinatarioV::spec_serialize_opcional(v.dest));
        lemma_itens_elementos(f3, v.itens);
        assert(Seq::<ItemV>::empty() + v.itens =~= v.itens);
        lemma_itens_outro(f4, Some(v.totais.spec_serialize()));
        lemma_itens_outro(f5, Some(v.transporte.spec_serialize()));
        lemma_itens_outro(f6, elemento_informacao(v.informacao_complementar));
        assert(itens_de(f7) == Ok::<Seq<ItemV>, ErrorV>(v.itens));

        Identificacao::lemma_ida_e_volta(v.ide);
        Emitente::lemma_ida_e_volta(v.emit);
        if v.dest is Some {
            Destinatario::lemma_ida_e_volta(v.dest->Some_0);
        }
        Totalizacao::lemma_ida_e_volta(v.totais);
        Transporte::lemma_ida_e_volta(v.transporte);
        assert(informacao_de(no) == v.informacao_complementar);
    }

    /// Encoding what was decoded of an encoded document gives the same
    /// element: what this crate writes, it reads and writes again unchanged.
    pub proof fn lemma_forma_canonica(v: NfeV)
        requires
            v.valido(),
        ensures
            Self::spec_parse(v.spec_serialize()) matches Ok(lido) && lido.spec_serialize()
                == v.spec_serialize(),
    {
        Self::lemma_ida_e_volta(v);
    }

    /// What is decoded is a document that can be encoded.
    pub proof fn lemma_parse_valido(raiz: ElementoV)
        ensures
            Self::spec_parse(raiz) matches Ok(v) ==> v.valido(),
    {
        broadcast use crate::texto::lemma_aparado_idempotente;

        if raiz_informacao(raiz) is Ok {
            let no = raiz_informacao(raiz)->Ok_0;
            lemma_itens_validos(no.filhos);
            if no.filho("ide"@) is Some {
                Identificacao::lemma_parse_valido(no.filho("ide"@)->Some_0);
            }
            if no.filho("emit"@) is Some {
                Emitente::lemma_parse_valido(no.filho("emit"@)->Some_0);
            }
            if no.filho("dest"@) is Some {
                Destinatario::lemma_parse_valido(no.filho("dest"@)->Some_0);
            }
        }
    }
}

} // verus!
