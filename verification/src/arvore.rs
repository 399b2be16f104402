//! The tree of labelled elements that a document is read from and written to.

use vstd::prelude::*;
use crate::texto::{iguais, mesmo_texto};

verus! {

/// An attribute of an element: a name and its value.
#[derive(Debug, Clone, PartialEq, Eq)]
pub struct Atributo {
    pub nome: String,
    pub valor: String,
}

/// An element: its name, its attributes, the text directly inside it and
/// its child elements, in document order.
#[derive(Debug, PartialEq, Eq)]
pub struct Elemento {
    pub nome: String,
    pub atributos: Vec<Atributo>,
    pub texto: String,
    pub filhos: Vec<Elemento>,
}

/// The mathematical value of an [`Atributo`].
pub ghost struct AtributoV {
    pub nome: Seq<char>,
    pub valor: Seq<char>,
}

/// The mathematical value of an [`Elemento`].
pub ghost struct ElementoV {
    pub nome: Seq<char>,
    pub atributos: Seq<AtributoV>,
    pub texto: Seq<char>,
    pub filhos: Seq<ElementoV>,
}

impl View for Atributo {
    type V = AtributoV;

    open spec fn view(&self) -> AtributoV {
        AtributoV { nome: self.nome@, valor: self.valor@ }
    }
}

/// The value of one element.
pub open spec fn ver_elemento(e: Elemento) -> ElementoV
    decreases e, 1nat,
{
    ElementoV {
        nome: e.nome@,
        atributos: ver_atributos(e.atributos@),
        texto: e.texto@,
        filhos: ver_elementos(e.filhos@),
    }
}

/// The values of a sequence of elements, in the same order.
pub open spec fn ver_elementos(es: Seq<Elemento>) -> Seq<ElementoV>
    decreases es, 0nat,
{
    if es.len() == 0 {
        Seq::empty()
    } else {
        ver_elementos(es.drop_last()).push(ver_elemento(es.last()))
    }
}

/// The values of a sequence of attributes, in the same order.
pub open spec fn ver_atributos(atributos: Seq<Atributo>) -> Seq<AtributoV> {
    Seq::new(atributos.len(), |i: int| atributos[i]@)
}

impl View for Elemento {
    type V = ElementoV;

    open spec fn view(&self) -> ElementoV {
        ver_elemento(*self)
    }
}

/// The first element of `es` named `nome`, if there is one.
#[verifier::opaque]
pub open spec fn primeiro(es: Seq<ElementoV>, nome: Seq<char>) -> Option<ElementoV>
    decreases es.len(),
{
    if es.len() == 0 {
        None
    } else if primeiro(es.drop_last(), nome) is Some {
        primeiro(es.drop_last(), nome)
    } else if es.last().nome == nome {
        Some(es.last())
    } else {
        None
    }
}

/// The value of the first attribute of `atributos` named `nome`, if there is
/// one.
#[verifier::opaque]
pub open spec fn primeiro_atributo(atributos: Seq<AtributoV>, nome: Seq<char>) -> Option<Seq<char>>
    decreases atributos.len(),
{
    if atributos.len() == 0 {
        None
    } else if primeiro_atributo(atributos.drop_last(), nome) is Some {
        primeiro_atributo(atributos.drop_last(), nome)
    } else if atributos.last().nome == nome {
        Some(atributos.last().valor)
    } else {
        None
    }
}

/// The value of an element, where there is one.
pub open spec fn ver_opcional(e: Option<Elemento>) -> Option<ElementoV> {
    match e {
        Some(e) => Some(e@),
        None => None,
    }
}

/// `es` followed by `e`, where there is one.
pub open spec fn acrescido(es: Seq<ElementoV>, e: Option<ElementoV>) -> Seq<ElementoV> {
    match e {
        Some(e) => es.push(e),
        None => es,
    }
}

impl ElementoV {
    /// An element without attributes or children that holds `texto`.
    #[verifier::inline]
    pub open spec fn folha(nome: Seq<char>, texto: Seq<char>) -> ElementoV {
        ElementoV { nome, atributos: Seq::empty(), texto, filhos: Seq::empty() }
    }

    /// An element without attributes or text that holds `filhos`.
    #[verifier::inline]
    pub open spec fn grupo(nome: Seq<char>, filhos: Seq<ElementoV>) -> ElementoV {
        ElementoV { nome, atributos: Seq::empty(), texto: Seq::empty(), filhos }
    }

    /// An element without text that holds `atributos` and `filhos`.
    #[verifier::inline]
    pub open spec fn novo(
        nome: Seq<char>,
        atributos: Seq<AtributoV>,
        filhos: Seq<ElementoV>,
    ) -> ElementoV {
        ElementoV { nome, atributos, texto: Seq::empty(), filhos }
    }

    /// The first child named `nome`, if there is one.
    #[verifier::inline]
    pub open spec fn filho(self, nome: Seq<char>) -> Option<ElementoV> {
        primeiro(self.filhos, nome)
    }

    /// The value of the attribute named `nome`, if there is one.
    #[verifier::inline]
    pub open spec fn atributo(self, nome: Seq<char>) -> Option<Seq<char>> {
        primeiro_atributo(self.atributos, nome)
    }
}

/// `ver_elementos` keeps the length and maps each element to its value.
pub proof fn lemma_ver_elementos(es: Seq<Elemento>)
    ensures
        ver_elementos(es).len() == es.len(),
        forall|i: int| 0 <= i < es.len() ==> #[trigger] ver_elementos(es)[i] == es[i]@,
    decreases es.len(),
{
    if es.len() > 0 {
        lemma_ver_elementos(es.drop_last());
    }
}

/// The value of a sequence with one more element.
pub proof fn lemma_ver_elementos_push(es: Seq<Elemento>, e: Elemento)
    ensures
        ver_elementos(es.push(e)) == ver_elementos(es).push(e@),
{
    assert(es.push(e).drop_last() =~= es);
}

/// What `primeiro` finds in a sequence with one more element.
pub broadcast proof fn lemma_primeiro_push(es: Seq<ElementoV>, e: ElementoV, nome: Seq<char>)
    ensures
        #[trigger] primeiro(es.push(e), nome) == if primeiro(es, nome) is Some {
            primeiro(es, nome)
        } else if mesmo_texto(e.nome, nome) {
            Some(e)
        } else {
            None
        },
{
    reveal_with_fuel(primeiro, 2);
    assert(es.push(e).drop_last() =~= es);
}

/// Nothing is found among no elements.
pub broadcast proof fn lemma_primeiro_vazio(nome: Seq<char>)
    ensures
        #[trigger] primeiro(Seq::empty(), nome) is None,
{
    reveal_with_fuel(primeiro, 2);
}

/// What `primeiro_atributo` finds among attributes with one more.
pub broadcast proof fn lemma_primeiro_atributo_push(
    atributos: Seq<AtributoV>,
    a: AtributoV,
    nome: Seq<char>,
)
    ensures
        #[trigger] primeiro_atributo(atributos.push(a), nome) == if primeiro_atributo(
            atributos,
            nome,
        ) is Some {
            primeiro_atributo(atributos, nome)
        } else if mesmo_texto(a.nome, nome) {
            Some(a.valor)
        } else {
            None
        },
{
    reveal_with_fuel(primeiro_atributo, 2);
    assert(atributos.push(a).drop_last() =~= atributos);
}

/// No attribute is found among none.
pub broadcast proof fn lemma_primeiro_atributo_vazio(nome: Seq<char>)
    ensures
        #[trigger] primeiro_atributo(Seq::empty(), nome) is None,
{
    reveal_with_fuel(primeiro_atributo, 2);
}

/// What is found in a prefix is found in the whole.
pub proof fn lemma_primeiro_prefixo(es: Seq<ElementoV>, nome: Seq<char>, n: int)
    requires
        0 <= n <= es.len(),
        primeiro(es.take(n), nome) is Some,
    ensures
        primeiro(es, nome) == primeiro(es.take(n), nome),
    decreases es.len() - n,
{
    reveal_with_fuel(primeiro, 2);
    if n < es.len() {
        assert(es.take(n + 1).drop_last() =~= es.take(n));
        lemma_primeiro_prefixo(es, nome, n + 1);
    } else {
        assert(es.take(n) =~= es);
    }
}

/// What `primeiro_atributo` finds in a prefix, it finds in the whole.
pub proof fn lemma_primeiro_atributo_prefixo(atributos: Seq<AtributoV>, nome: Seq<char>, n: int)
    requires
        0 <= n <= atributos.len(),
        primeiro_atributo(atributos.take(n), nome) is Some,
    ensures
        primeiro_atributo(atributos, nome) == primeiro_atributo(atributos.take(n), nome),
    decreases atributos.len() - n,
{
    reveal_with_fuel(primeiro_atributo, 2);
    if n < atributos.len() {
        assert(atributos.take(n + 1).drop_last() =~= atributos.take(n));
        lemma_primeiro_atributo_prefixo(atributos, nome, n + 1);
    } else {
        assert(atributos.take(n) =~= atributos);
    }
}

impl Elemento {
    /// An element without attributes or children that holds `texto`.
    pub fn folha(nome: &str, texto: String) -> (r: Elemento)
        ensures
            r@ == ElementoV::folha(nome@, texto@),
    {
        let r = Elemento {
            nome: nome.to_owned(),
            atributos: Vec::new(),
            texto,
            filhos: Vec::new(),
        };
        assert(ver_atributos(r.atributos@) =~= Seq::empty());
        r
    }

    /// An element without attributes or text that holds `filhos`.
    pub fn grupo(nome: &str, filhos: Vec<Elemento>) -> (r: Elemento)
        ensures
            r@ == ElementoV::grupo(nome@, ver_elementos(filhos@)),
    {
        let r = Elemento {
            nome: nome.to_owned(),
            atributos: Vec::new(),
            texto: String::new(),
            filhos,
        };
        assert(ver_atributos(r.atributos@) =~= Seq::empty());
        r
    }

    /// An element without text that holds `atributos` and `filhos`.
    pub fn novo(nome: &str, atributos: Vec<Atributo>, filhos: Vec<Elemento>) -> (r: Elemento)
        ensures
            r@ == ElementoV::novo(nome@, ver_atributos(atributos@), ver_elementos(filhos@)),
    {
        Elemento { nome: nome.to_owned(), atributos, texto: String::new(), filhos }
    }

    /// The first child named `nome`, if there is one.
    pub fn filho(&self, nome: &str) -> (r: Option<&Elemento>)
        ensures
            match r {
                Some(e) => self@.filho(nome@) == Some(e@),
                None => self@.filho(nome@) is None,
            },
    {
        let ghost es = self@.filhos;
        proof {
            reveal_with_fuel(primeiro, 2);
            lemma_ver_elementos(self.filhos@);
        }
        let mut i: usize = 0;
        while i < self.filhos.len()
            invariant
                i <= self.filhos.len(),
                es == self@.filhos,
                es.len() == self.filhos.len(),
                forall|j: int| 0 <= j < es.len() ==> #[trigger] es[j] == self.filhos@[j]@,
                primeiro(es.take(i as int), nome@) is None,
            decreases self.filhos.len() - i,
        {
            let e = &self.filhos[i];
            proof {
                reveal_with_fuel(primeiro, 2);
                assert(es.take(i + 1).drop_last() =~= es.take(i as int));
            }
            if iguais(e.nome.as_str(), nome) {
                proof {
                    lemma_primeiro_prefixo(es, nome@, i + 1);
                }
                return Some(e);
            }
            i += 1;
        }
        assert(es.take(i as int) =~= es);
        None
    }

    /// The value of the attribute named `nome`, if there is one.
    pub fn atributo(&self, nome: &str) -> (r: Option<&String>)
        ensures
            match r {
                Some(v) => self@.atributo(nome@) == Some(v@),
                None => self@.atributo(nome@) is None,
            },
    {
        let ghost atributos = self@.atributos;
        proof {
            reveal_with_fuel(primeiro_atributo, 2);
        }
        let mut i: usize = 0;
        while i < self.atributos.len()
            invariant
                i <= self.atributos.len(),
                atributos == ver_atributos(self.atributos@),
                primeiro_atributo(atributos.take(i as int), nome@) is None,
            decreases self.atributos.len() - i,
        {
            let a = &self.atributos[i];
            proof {
                reveal_with_fuel(primeiro_atributo, 2);
                assert(atributos.take(i + 1).drop_last() =~= atributos.take(i as int));
            }
            if iguais(a.nome.as_str(), nome) {
                proof {
                    lemma_primeiro_atributo_prefixo(atributos, nome@, i + 1);
                }
                return Some(&a.valor);
            }
            i += 1;
        }
        assert(atributos.take(i as int) =~= atributos);
        None
    }
}

/// Appends the attribute `nome`, with the value `valor`, to `atributos`.
pub fn anexar_atributo(atributos: &mut Vec<Atributo>, nome: &str, valor: String)
    ensures
        ver_atributos(final(atributos)@) == ver_atributos(old(atributos)@).push(
            AtributoV { nome: nome@, valor: valor@ },
        ),
{
    atributos.push(Atributo { nome: nome.to_owned(), valor });
    assert(ver_atributos(atributos@) =~= ver_atributos(old(atributos)@).push(
        AtributoV { nome: nome@, valor: valor@ },
    ));
}

/// Appends `e` to `es`.
pub fn anexar(es: &mut Vec<Elemento>, e: Elemento)
    ensures
        ver_elementos(final(es)@) == ver_elementos(old(es)@).push(e@),
{
    proof {
        lemma_ver_elementos_push(es@, e);
    }
    es.push(e);
}

/// Appends `e` to `es`, where there is one.
pub fn anexar_opcional(es: &mut Vec<Elemento>, e: Option<Elemento>)
    ensures
        ver_elementos(final(es)@) == acrescido(ver_elementos(old(es)@), ver_opcional(e)),
{
    match e {
        Some(e) => anexar(es, e),
        None => {},
    }
}

} // verus!
