//! Text to tree and back.

use nfe::arvore::{Atributo, Elemento};
use nfe::base::Error;
use nfe::xml::{escrever_xml, ler_xml};

fn folha(nome: &str, texto: &str) -> Elemento {
    Elemento::folha(nome, texto.to_string())
}

#[test]
fn arvore_lida() {
    let raiz = ler_xml("<a x=\"1\" y='2'><b>um</b><c/><b> dois </b>texto</a>").unwrap();

    assert_eq!("a", raiz.nome);
    assert_eq!(
        vec![
            Atributo { nome: "x".to_string(), valor: "1".to_string() },
            Atributo { nome: "y".to_string(), valor: "2".to_string() },
        ],
        raiz.atributos
    );
    assert_eq!("texto", raiz.texto);
    assert_eq!(vec![folha("b", "um"), folha("c", ""), folha("b", "dois")], raiz.filhos);
    assert_eq!(Some(&folha("b", "um")), raiz.filho("b"));
    assert_eq!(Some(&folha("c", "")), raiz.filho("c"));
    assert_eq!(None, raiz.filho("d"));
    assert_eq!(Some(&"2".to_string()), raiz.atributo("y"));
    assert_eq!(None, raiz.atributo("z"));
}

#[test]
fn arvore_com_o_que_se_ignora() {
    let texto =
        "<?xml version=\"1.0\" encoding=\"UTF-8\"?>\n<!-- nota -->\n<a>\n  <b>1</b>\n</a>\n";

    let raiz = ler_xml(texto).unwrap();

    assert_eq!(Elemento::grupo("a", vec![folha("b", "1")]), raiz);
}

#[test]
fn cada_especie_de_evento() {
    let texto = "<?xml version=\"1.0\"?><!DOCTYPE a><?alvo dado?><a><!-- nota --><b/>\
        <?outro?><c>1<![CDATA[ 2 ]]>3</c></a>";

    let raiz = ler_xml(texto).unwrap();

    assert_eq!(Elemento::grupo("a", vec![folha("b", ""), folha("c", "1 2 3")]), raiz);
}

#[test]
fn texto_desescapado() {
    let raiz = ler_xml("<a t=\"x &amp; y\">1 &lt; 2 &#65;<![CDATA[<&>]]></a>").unwrap();

    assert_eq!("x & y", raiz.atributos[0].valor);
    assert_eq!("1 < 2 A<&>", raiz.texto);
}

#[test]
fn texto_malformado() {
    assert_eq!(Err(Error::Xml), ler_xml(""));
    assert_eq!(Err(Error::Xml), ler_xml("sem marcas"));
    assert_eq!(Err(Error::Xml), ler_xml("<a>"));
    assert_eq!(Err(Error::Xml), ler_xml("<a></b>"));
    assert_eq!(Err(Error::Xml), ler_xml("</a>"));
    assert_eq!(Err(Error::Xml), ler_xml("<a><b></a></b>"));
    assert_eq!(Err(Error::Xml), ler_xml("<a/><b/>"));
    assert_eq!(Err(Error::Xml), ler_xml("<a></a><b></b>"));
    assert_eq!(Err(Error::Xml), ler_xml("<a>&nada;</a>"));
    assert_eq!(Err(Error::Xml), ler_xml("<a x=1></a>"));
    assert_eq!(Err(Error::Xml), ler_xml("<a"));
}

#[test]
fn arvore_escrita() {
    let mut raiz = Elemento::novo(
        "a",
        vec![Atributo { nome: "x".to_string(), valor: "\"1\" & 2".to_string() }],
        vec![folha("b", "1 < 2"), folha("c", "")],
    );
    raiz.texto = "'t'".to_string();

    let texto = escrever_xml(&raiz);

    assert_eq!(
        "<a x=\"&quot;1&quot; &amp; 2\">&apos;t&apos;<b>1 &lt; 2</b><c></c></a>",
        texto
    );
    assert_eq!(Ok(raiz), ler_xml(&texto));
}

#[test]
fn primeiro_filho_de_cada_nome() {
    let raiz = ler_xml("<a><b>1</b><b>2</b></a>").unwrap();

    assert_eq!(Some(&folha("b", "1")), raiz.filho("b"));
}
