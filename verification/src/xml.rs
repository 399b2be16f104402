//! Text to tree and back: the tokenizer of `quick_xml` feeds a builder of
//! trees, and a tree is written out tag by tag.

use vstd::prelude::*;
use vstd::string::StringExecFns;
use vstd::utf8::encode_utf8;
use quick_xml::events::Event::{CData, Comment, Decl, DocType, Empty, End, Eof, Start, Text, PI};
use crate::arvore::{
    lemma_ver_elementos_push, ver_atributos, ver_elementos, ver_opcional, Atributo, AtributoV,
    Elemento, ElementoV,
};
use crate::base::{Error, ErrorV};
use crate::xml::Evento::{
    Abertura, Comentario, Dados, Declaracao, Erro, Fechamento, Fim, Instrucao, Texto,
    TipoDocumento, Vazia,
};

verus! {

/// What the tokenizer reports, one at a time. Texts are as they were written:
/// their escapes are still in them.
#[derive(Debug, PartialEq, Eq)]
pub enum Evento {
    /// A start tag: its name and what follows the name in the tag.
    Abertura(String, String),
    /// A tag that is its own end: its name and what follows the name in the
    /// tag.
    Vazia(String, String),
    /// An end tag. The tokenizer has checked that it ends the open element.
    Fechamento,
    /// Character data, trimmed and never empty.
    Texto(String),
    /// Character data that was marked as such, with the characters that
    /// markup is made of escaped.
    Dados(String),
    /// A comment.
    Comentario,
    /// The declaration that opens a document.
    Declaracao,
    /// A processing instruction.
    Instrucao,
    /// A document type.
    TipoDocumento,
    /// The end of the text.
    Fim,
    /// The text is malformed at this point.
    Erro,
}

/// The mathematical value of an [`Evento`].
pub ghost enum EventoV {
    Abertura(Seq<char>, Seq<char>),
    Vazia(Seq<char>, Seq<char>),
    Fechamento,
    Texto(Seq<char>),
    Dados(Seq<char>),
    Comentario,
    Declaracao,
    Instrucao,
    TipoDocumento,
    Fim,
    Erro,
}

impl View for Evento {
    type V = EventoV;

    open spec fn view(&self) -> EventoV {
        match self {
            Evento::Abertura(nome, atributos) => EventoV::Abertura(nome@, atributos@),
            Evento::Vazia(nome, atributos) => EventoV::Vazia(nome@, atributos@),
            Evento::Fechamento => EventoV::Fechamento,
            Evento::Texto(texto) => EventoV::Texto(texto@),
            Evento::Dados(texto) => EventoV::Dados(texto@),
            Evento::Comentario => EventoV::Comentario,
            Evento::Declaracao => EventoV::Declaracao,
            Evento::Instrucao => EventoV::Instrucao,
            Evento::TipoDocumento => EventoV::TipoDocumento,
            Evento::Fim => EventoV::Fim,
            Evento::Erro => EventoV::Erro,
        }
    }
}

/// The tokenizer of `quick_xml` on a text, opaque to the verifier.
#[verifier::external_body]
pub struct Leitor<'a> {
    leitor: quick_xml::Reader<&'a [u8]>,
}

/// The text that a tokenizer was opened on.
pub uninterp spec fn leitor_texto(leitor: Leitor) -> Seq<char>;

/// How many events a tokenizer has reported.
pub uninterp spec fn leitor_lidos(leitor: Leitor) -> nat;

/// The event that a tokenizer opened on `texto` reports after it has
/// reported `k` others.
pub uninterp spec fn evento_lido(texto: Seq<char>, k: nat) -> EventoV;

/// The attributes that `quick_xml` reads in what follows the name in a start
/// tag, their values as they were written, or nothing where the tag is
/// malformed.
pub uninterp spec fn atributos_escritos(bruto: Seq<char>) -> Option<Seq<AtributoV>>;

/// What `quick_xml` reads in a text with its escapes replaced by the
/// characters they stand for, or nothing where an escape is malformed.
pub uninterp spec fn desescapado(texto: Seq<char>) -> Option<Seq<char>>;

/// Calls `quick_xml::Reader::from_str` and `Reader::trim_text(true)`: a
/// tokenizer on `texto` that has reported nothing yet and will trim the
/// character data it reports.
#[verifier::external_body]
fn abrir_leitor<'a>(texto: &'a str) -> (leitor: Leitor<'a>)
    ensures
        leitor_texto(leitor) == texto@,
        leitor_lidos(leitor) == 0,
{
    let mut leitor = quick_xml::Reader::from_str(texto);
    leitor.trim_text(true);
    Leitor { leitor }
}

/// Calls `quick_xml::Reader::read_event` and, on what it returns,
/// `BytesStart::name`, `BytesStart::attributes_raw` and `BytesText::escaped`:
/// one event of the library for each kind of event of `quick_xml`, and one
/// for an error. What the tokenizer reports depends on the text it was
/// opened on and on how many events it has reported, and on nothing else;
/// after the end of the text or an error it reports the end.
#[verifier::external_body]
fn ler_evento(leitor: &mut Leitor) -> (e: Evento)
    ensures
        e@ == evento_lido(leitor_texto(*old(leitor)), leitor_lidos(*old(leitor))),
        leitor_texto(*final(leitor)) == leitor_texto(*old(leitor)),
        leitor_lidos(*final(leitor)) == leitor_lidos(*old(leitor)) + 1,
{
    let texto = |b: &[u8]| String::from_utf8_lossy(b).into_owned();
    match leitor.leitor.read_event(&mut Vec::new()) {
        Ok(Start(b)) => Abertura(texto(b.name()), texto(b.attributes_raw())),
        Ok(Empty(b)) => Vazia(texto(b.name()), texto(b.attributes_raw())),
        Ok(End(_)) => Fechamento,
        Ok(Text(t)) => Texto(texto(t.escaped())),
        Ok(CData(t)) => Dados(texto(t.escaped())),
        Ok(Comment(_)) => Comentario,
        Ok(Decl(_)) => Declaracao,
        Ok(PI(_)) => Instrucao,
        Ok(DocType(_)) => TipoDocumento,
        Ok(Eof) => Fim,
        Err(_) => Erro
    }
}

/// Calls `quick_xml::events::attributes::Attributes::new` on what follows the
/// name in a start tag and takes what the iterator yields: each attribute
/// with its name and its value as written, or nothing where the iterator
/// reports an error. The result is a function of the text alone.
#[verifier::external_body]
fn ler_atributos(bruto: &str) -> (r: Option<Vec<Atributo>>)
    ensures
        r matches Some(v) ==> atributos_escritos(bruto@) == Some(ver_atributos(v@)),
        r is None ==> atributos_escritos(bruto@) is None,
{
    quick_xml::events::attributes::Attributes::new(bruto.as_bytes(), 0).map(
        |a| a.ok().map(
            |a| Atributo {
                nome: String::from_utf8_lossy(a.key).into_owned(),
                valor: String::from_utf8_lossy(&a.value).into_owned(),
            },
        ),
    ).collect()
}

/// Calls `quick_xml::escape::unescape`, which replaces each escape with the
/// character it stands for and fails where one is malformed. The result is a
/// function of the text alone.
#[verifier::external_body]
fn desescapar(texto: &str) -> (r: Option<String>)
    ensures
        r.deep_view() == desescapado(texto@),
{
    quick_xml::escape::unescape(texto.as_bytes()).ok().map(
        |b| String::from_utf8_lossy(&b).into_owned(),
    )
}

/// The attributes with the escapes of their values replaced, or nothing
/// where an escape is malformed.
pub open spec fn atributos_desescapados(atributos: Seq<AtributoV>) -> Option<Seq<AtributoV>>
    decreases atributos.len(),
{
    if atributos.len() == 0 {
        Some(Seq::empty())
    } else {
        let antes = atributos_desescapados(atributos.drop_last());
        let valor = desescapado(atributos.last().valor);
        if antes is Some && valor is Some {
            Some(
                antes->Some_0.push(
                    AtributoV { nome: atributos.last().nome, valor: valor->Some_0 },
                ),
            )
        } else {
            None
        }
    }
}

/// The attributes of a start tag, the escapes of their values replaced, or
/// nothing where the tag or an escape is malformed.
pub open spec fn atributos_lidos(bruto: Seq<char>) -> Option<Seq<AtributoV>> {
    match atributos_escritos(bruto) {
        None => None,
        Some(atributos) => atributos_desescapados(atributos),
    }
}

/// Where an escape is malformed in a prefix of the attributes, one is
/// malformed in all of them.
proof fn lemma_atributos_prefixo(atributos: Seq<AtributoV>, n: int)
    requires
        0 <= n <= atributos.len(),
        atributos_desescapados(atributos.take(n)) is None,
    ensures
        atributos_desescapados(atributos) is None,
    decreases atributos.len() - n,
{
    if n < atributos.len() {
        assert(atributos.take(n + 1).drop_last() =~= atributos.take(n));
        lemma_atributos_prefixo(atributos, n + 1);
    } else {
        assert(atributos.take(n) =~= atributos);
    }
}

/// Replaces the escapes in the values of the attributes.
fn desescapar_atributos(atributos: Vec<Atributo>) -> (r: Option<Vec<Atributo>>)
    ensures
        r matches Some(v) ==> atributos_desescapados(ver_atributos(atributos@)) == Some(
            ver_atributos(v@),
        ),
        r is None ==> atributos_desescapados(ver_atributos(atributos@)) is None,
{
    let ghost brutos = ver_atributos(atributos@);
    let mut r: Vec<Atributo> = Vec::new();
    let mut i: usize = 0;
    assert(brutos.take(0) =~= Seq::<AtributoV>::empty());
    assert(ver_atributos(r@) =~= Seq::<AtributoV>::empty());
    while i < atributos.len()
        invariant
            i <= atributos.len(),
            brutos == ver_atributos(atributos@),
            atributos_desescapados(brutos.take(i as int)) == Some(ver_atributos(r@)),
        decreases atributos.len() - i,
    {
        let a = &atributos[i];
        proof {
            assert(brutos.take(i + 1).drop_last() =~= brutos.take(i as int));
            assert(brutos.take(i + 1).last() == a@);
        }
        match desescapar(a.valor.as_str()) {
            None => {
                proof {
                    lemma_atributos_prefixo(brutos, i + 1);
                }
                return None;
            },
            Some(valor) => {
                let ghost antes = r@;
                r.push(Atributo { nome: a.nome.clone(), valor });
                assert(ver_atributos(r@) =~= ver_atributos(antes).push(
                    AtributoV { nome: a.nome@, valor: valor@ },
                ));
            },
        }
        i += 1;
    }
    assert(brutos.take(i as int) =~= brutos);
    Some(r)
}

/// A tree under construction: the elements that are open, the innermost
/// last, and the root once it is complete.
pub ghost struct MontagemV {
    pub pilha: Seq<ElementoV>,
    pub raiz: Option<ElementoV>,
}

/// The construction after the element `e` is complete: `e` is the last child
/// of the innermost open element, or the root where none is open.
pub open spec fn completar(m: MontagemV, e: ElementoV) -> MontagemV {
    if m.pilha.len() == 0 {
        MontagemV { pilha: m.pilha, raiz: Some(e) }
    } else {
        let pai = m.pilha.last();
        MontagemV {
            pilha: m.pilha.drop_last().push(
                ElementoV {
                    nome: pai.nome,
                    atributos: pai.atributos,
                    texto: pai.texto,
                    filhos: pai.filhos.push(e),
                },
            ),
            raiz: m.raiz,
        }
    }
}

/// The construction after the character data `texto` was read: the text of
/// the innermost open element is longer by it; where no element is open the
/// data is dropped.
pub open spec fn com_texto(m: MontagemV, texto: Seq<char>) -> MontagemV {
    if m.pilha.len() == 0 {
        m
    } else {
        let topo = m.pilha.last();
        MontagemV {
            pilha: m.pilha.drop_last().push(
                ElementoV {
                    nome: topo.nome,
                    atributos: topo.atributos,
                    texto: topo.texto + texto,
                    filhos: topo.filhos,
                },
            ),
            raiz: m.raiz,
        }
    }
}

/// The construction after a tag named `nome`, with `bruto` after its name,
/// or nothing where the tag cannot follow or is malformed: it opens an
/// element, which is complete at once where the tag is its own end.
pub open spec fn com_marca(m: MontagemV, nome: Seq<char>, bruto: Seq<char>, vazia: bool) -> Option<
    MontagemV,
> {
    match atributos_lidos(bruto) {
        None => None,
        Some(atributos) => {
            let e = ElementoV { nome, atributos, texto: Seq::empty(), filhos: Seq::empty() };
            if m.raiz is Some {
                None
            } else if vazia {
                Some(completar(m, e))
            } else {
                Some(MontagemV { pilha: m.pilha.push(e), raiz: m.raiz })
            }
        },
    }
}

/// The construction after the character data that was written as `bruto`
/// was read, or nothing where an escape in it is malformed.
pub open spec fn com_dados(m: MontagemV, bruto: Seq<char>) -> Option<MontagemV> {
    match desescapado(bruto) {
        None => None,
        Some(texto) => Some(com_texto(m, texto)),
    }
}

/// The construction after one more event, or nothing where the event cannot
/// follow: a second root, an end tag with no element open, or a malformed
/// escape. Character data, marked as such or not, goes to the innermost open
/// element and is dropped where none is open. Escapes are replaced in the
/// values of attributes and in character data. Comments, declarations,
/// processing instructions and document types change nothing.
pub open spec fn passo(m: MontagemV, evento: EventoV) -> Option<MontagemV> {
    match evento {
        EventoV::Abertura(nome, bruto) => com_marca(m, nome, bruto, false),
        EventoV::Vazia(nome, bruto) => com_marca(m, nome, bruto, true),
        EventoV::Fechamento => if m.pilha.len() == 0 {
            None
        } else {
            Some(completar(MontagemV { pilha: m.pilha.drop_last(), raiz: m.raiz }, m.pilha.last()))
        },
        EventoV::Texto(bruto) => com_dados(m, bruto),
        EventoV::Dados(bruto) => com_dados(m, bruto),
        EventoV::Comentario => Some(m),
        EventoV::Declaracao => Some(m),
        EventoV::Instrucao => Some(m),
        EventoV::TipoDocumento => Some(m),
        EventoV::Fim => None,
        EventoV::Erro => None,
    }
}

/// How many events are read of a text at most: one for each of its bytes,
/// and the end.
pub open spec fn limite(texto: Seq<char>) -> nat {
    encode_utf8(texto).len()
}

/// The tree that the events of `texto` from the `k`-th on build on `m`: at
/// the end of the text, the root, if it is complete and nothing is left
/// open.
pub open spec fn montar_desde(texto: Seq<char>, k: nat, m: MontagemV) -> Option<ElementoV>
    decreases limite(texto) + 1 - k,
{
    if k > limite(texto) {
        None
    } else {
        match evento_lido(texto, k) {
            EventoV::Fim => if m.pilha.len() == 0 {
                m.raiz
            } else {
                None
            },
            evento => match passo(m, evento) {
                None => None,
                Some(m) => montar_desde(texto, k + 1, m),
            },
        }
    }
}

/// The tree that `texto` writes, where it writes one: a single root element,
/// every element closed.
pub open spec fn arvore_de(texto: Seq<char>) -> Option<ElementoV> {
    montar_desde(texto, 0, MontagemV { pilha: Seq::empty(), raiz: None })
}

/// The value of a construction that is held as elements.
pub open spec fn montagem(pilha: Seq<Elemento>, raiz: Option<Elemento>) -> MontagemV {
    MontagemV { pilha: ver_elementos(pilha), raiz: ver_opcional(raiz) }
}

/// Appends the complete element `e` to the innermost open element, or makes
/// it the root where none is open.
fn completar_em(pilha: &mut Vec<Elemento>, raiz: &mut Option<Elemento>, e: Elemento)
    ensures
        montagem(final(pilha)@, *final(raiz)) == completar(montagem(old(pilha)@, *old(raiz)), e@),
{
    let ghost antes = pilha@;
    match pilha.pop() {
        None => {
            *raiz = Some(e);
            assert(ver_elementos(pilha@) =~= ver_elementos(antes));
        },
        Some(pai) => {
            let ghost resto = pilha@;
            let ghost pai_antes = pai@;
            let mut pai = pai;
            proof {
                lemma_ver_elementos_push(pai.filhos@, e);
                assert(antes.drop_last() =~= resto);
                assert(ver_elementos(antes).drop_last() =~= ver_elementos(resto));
            }
            pai.filhos.push(e);
            proof {
                lemma_ver_elementos_push(resto, pai);
            }
            pilha.push(pai);
        },
    }
}

/// Adds the character data `texto` to the innermost open element, if there
/// is one.
fn texto_pilha(pilha: &mut Vec<Elemento>, raiz: &Option<Elemento>, texto: &str)
    ensures
        montagem(final(pilha)@, *raiz) == com_texto(montagem(old(pilha)@, *raiz), texto@),
{
    let ghost antes = pilha@;
    match pilha.pop() {
        None => {
            assert(ver_elementos(pilha@) =~= ver_elementos(antes));
        },
        Some(topo) => {
            let ghost resto = pilha@;
            let ghost topo_antes = topo@;
            let mut topo = topo;
            topo.texto.append(texto);
            proof {
                assert(antes.drop_last() =~= resto);
                assert(ver_elementos(antes).drop_last() =~= ver_elementos(resto));
                assert(ver_elementos(antes).last() == topo_antes);
                assert(topo@.texto == topo_antes.texto + texto@);
                lemma_ver_elementos_push(resto, topo);
            }
            pilha.push(topo);
        },
    }
}

/// Takes a tag into the construction. Says whether the tag could follow what
/// came before and was well-formed.
fn marca_em(
    pilha: &mut Vec<Elemento>,
    raiz: &mut Option<Elemento>,
    nome: String,
    bruto: &str,
    vazia: bool,
) -> (ok: bool)
    ensures
        ok ==> com_marca(montagem(old(pilha)@, *old(raiz)), nome@, bruto@, vazia) == Some(
            montagem(final(pilha)@, *final(raiz)),
        ),
        !ok ==> com_marca(montagem(old(pilha)@, *old(raiz)), nome@, bruto@, vazia) is None,
{
    let atributos = match ler_atributos(bruto) {
        Some(brutos) => match desescapar_atributos(brutos) {
            Some(atributos) => atributos,
            None => {
                return false;
            },
        },
        None => {
            return false;
        },
    };
    if raiz.is_some() {
        return false;
    }
    let e = Elemento { nome, atributos, texto: String::new(), filhos: Vec::new() };
    if vazia {
        completar_em(pilha, raiz, e);
    } else {
        proof {
            lemma_ver_elementos_push(pilha@, e);
        }
        pilha.push(e);
    }
    true
}

/// Takes character data, as it was written, into the construction. Says
/// whether its escapes were well-formed.
fn dados_em(pilha: &mut Vec<Elemento>, raiz: &Option<Elemento>, bruto: &str) -> (ok: bool)
    ensures
        ok ==> com_dados(montagem(old(pilha)@, *raiz), bruto@) == Some(
            montagem(final(pilha)@, *raiz),
        ),
        !ok ==> com_dados(montagem(old(pilha)@, *raiz), bruto@) is None,
{
    match desescapar(bruto) {
        None => false,
        Some(texto) => {
            texto_pilha(pilha, raiz, texto.as_str());
            true
        },
    }
}

/// Takes one event into the construction. Says whether the event could
/// follow what came before.
fn passo_em(pilha: &mut Vec<Elemento>, raiz: &mut Option<Elemento>, evento: Evento) -> (ok: bool)
    ensures
        ok ==> passo(montagem(old(pilha)@, *old(raiz)), evento@) == Some(
            montagem(final(pilha)@, *final(raiz)),
        ),
        !ok ==> passo(montagem(old(pilha)@, *old(raiz)), evento@) is None,
{
    match evento {
        Evento::Abertura(nome, bruto) => marca_em(pilha, raiz, nome, bruto.as_str(), false),
        Evento::Vazia(nome, bruto) => marca_em(pilha, raiz, nome, bruto.as_str(), true),
        Evento::Fechamento => {
            let ghost antes = pilha@;
            match pilha.pop() {
                None => false,
                Some(e) => {
                    proof {
                        assert(antes.drop_last() =~= pilha@);
                        assert(ver_elementos(antes).drop_last() =~= ver_elementos(pilha@));
                    }
                    completar_em(pilha, raiz, e);
                    true
                },
            }
        },
        Evento::Texto(bruto) => dados_em(pilha, raiz, bruto.as_str()),
        Evento::Dados(bruto) => dados_em(pilha, raiz, bruto.as_str()),
        Evento::Comentario => true,
        Evento::Declaracao => true,
        Evento::Instrucao => true,
        Evento::TipoDocumento => true,
        Evento::Fim => false,
        Evento::Erro => false,
    }
}

/// Reads a text as a tree of elements.
pub fn ler_xml(texto: &str) -> (r: Result<Elemento, Error>)
    ensures
        r matches Ok(e) ==> arvore_de(texto@) == Some(e@),
        r matches Err(e) ==> arvore_de(texto@) is None && e@ == ErrorV::Xml,
{
    let mut leitor = abrir_leitor(texto);
    let n: usize = texto.as_bytes().len();
    let mut pilha: Vec<Elemento> = Vec::new();
    let mut raiz: Option<Elemento> = None;
    let mut k: usize = 0;
    loop
        invariant
            k <= n == limite(texto@),
            leitor_texto(leitor) == texto@,
            leitor_lidos(leitor) == k,
            arvore_de(texto@) == montar_desde(texto@, k as nat, montagem(pilha@, raiz)),
        decreases n - k,
    {
        let evento = ler_evento(&mut leitor);
        match evento {
            Evento::Fim => {
                if pilha.len() > 0 {
                    return Err(Error::Xml);
                }
                return match raiz {
                    Some(e) => Ok(e),
                    None => Err(Error::Xml),
                };
            },
            _ => {},
        }
        if !passo_em(&mut pilha, &mut raiz, evento) {
            return Err(Error::Xml);
        }
        if k == n {
            return Err(Error::Xml);
        }
        k += 1;
    }
}

/// What is written for the character `c`: the five characters that markup
/// is made of are written as their entities.
pub open spec fn escape_de(c: char) -> Seq<char> {
    if c == '<' {
        seq!['&', 'l', 't', ';']
    } else if c == '>' {
        seq!['&', 'g', 't', ';']
    } else if c == '\'' {
        seq!['&', 'a', 'p', 'o', 's', ';']
    } else if c == '&' {
        seq!['&', 'a', 'm', 'p', ';']
    } else if c == '"' {
        seq!['&', 'q', 'u', 'o', 't', ';']
    } else {
        seq![c]
    }
}

/// `s` with each of its characters escaped.
pub open spec fn escapado(s: Seq<char>) -> Seq<char>
    decreases s.len(),
{
    if s.len() == 0 {
        Seq::empty()
    } else {
        escapado(s.drop_last()) + escape_de(s.last())
    }
}

/// Calls `quick_xml::escape::escape`, which replaces each of `<`, `>`, `'`,
/// `&` and `"` with its entity and leaves every other byte as it is.
#[verifier::external_body]
fn escapar(s: &str) -> (r: String)
    ensures
        r@ == escapado(s@),
{
    String::from_utf8_lossy(&quick_xml::escape::escape(s.as_bytes())).into_owned()
}

/// The text of the attributes of a start tag: for each, a space, its name,
/// and its value, escaped, between double quotes.
pub open spec fn texto_atributos(atributos: Seq<AtributoV>) -> Seq<char>
    decreases atributos.len(),
{
    if atributos.len() == 0 {
        Seq::empty()
    } else {
        texto_atributos(atributos.drop_last()) + seq![' '] + atributos.last().nome + seq![
            '=',
            '"',
        ] + escapado(atributos.last().valor) + seq!['"']
    }
}

/// The text of an element: its start tag, its text, escaped, its children
/// and its end tag, with nothing between them.
pub open spec fn texto_xml(e: ElementoV) -> Seq<char>
    decreases e, 1nat,
{
    seq!['<'] + e.nome + texto_atributos(e.atributos) + seq!['>'] + escapado(e.texto)
        + textos_xml(e.filhos) + seq!['<', '/'] + e.nome + seq!['>']
}

/// The texts of a sequence of elements, one after the other.
pub open spec fn textos_xml(es: Seq<ElementoV>) -> Seq<char>
    decreases es, 0nat,
{
    if es.len() == 0 {
        Seq::empty()
    } else {
        textos_xml(es.drop_last()) + texto_xml(es.last())
    }
}

/// Appends the text of `e` to `saida`.
fn escrever_em(e: &Elemento, saida: &mut String)
    ensures
        final(saida)@ == old(saida)@ + texto_xml(e@),
    decreases e,
{
    let ghost inicio = saida@;
    saida.push('<');
    saida.append(e.nome.as_str());
    let mut i: usize = 0;
    while i < e.atributos.len()
        invariant
            i <= e.atributos.len(),
            saida@ == inicio + seq!['<'] + e.nome@ + texto_atributos(
                ver_atributos(e.atributos@).take(i as int),
            ),
        decreases e.atributos.len() - i,
    {
        let a = &e.atributos[i];
        let ghost antes = saida@;
        saida.push(' ');
        saida.append(a.nome.as_str());
        saida.push('=');
        saida.push('"');
        let valor = escapar(a.valor.as_str());
        saida.append(valor.as_str());
        saida.push('"');
        proof {
            let atributos = ver_atributos(e.atributos@);
            assert(atributos.take(i + 1).drop_last() =~= atributos.take(i as int));
            assert(atributos.take(i + 1).last() == a@);
            assert(saida@ =~= antes + seq![' '] + a.nome@ + seq!['=', '"'] + escapado(a.valor@)
                + seq!['"']);
            assert(saida@ =~= inicio + seq!['<'] + e.nome@ + texto_atributos(
                atributos.take(i + 1),
            ));
        }
        i += 1;
    }
    assert(ver_atributos(e.atributos@).take(i as int) =~= ver_atributos(e.atributos@));
    saida.push('>');
    let texto = escapar(e.texto.as_str());
    saida.append(texto.as_str());
    let ghost cabeca = saida@;
    let mut j: usize = 0;
    proof {
        crate::arvore::lemma_ver_elementos(e.filhos@);
        assert(e@.filhos.take(0) =~= Seq::<ElementoV>::empty());
    }
    while j < e.filhos.len()
        invariant
            j <= e.filhos.len(),
            e@.filhos.len() == e.filhos.len(),
            forall|i: int| 0 <= i < e.filhos.len() ==> #[trigger] e@.filhos[i] == e.filhos@[i]@,
            saida@ == cabeca + textos_xml(e@.filhos.take(j as int)),
        decreases e.filhos.len() - j,
    {
        assert(e@.filhos.take(j + 1).drop_last() =~= e@.filhos.take(j as int));
        escrever_em(&e.filhos[j], saida);
        assert(saida@ =~= cabeca + textos_xml(e@.filhos.take(j + 1)));
        j += 1;
    }
    assert(e@.filhos.take(j as int) =~= e@.filhos);
    saida.push('<');
    saida.push('/');
    saida.append(e.nome.as_str());
    saida.push('>');
    assert(saida@ =~= inicio + texto_xml(e@));
}

/// Writes a tree of elements as text.
pub fn escrever_xml(e: &Elemento) -> (r: String)
    ensures
        r@ == texto_xml(e@),
{
    let mut r = String::new();
    escrever_em(e, &mut r);
    assert(Seq::<char>::empty() + texto_xml(e@) =~= texto_xml(e@));
    r
}

} // verus!
