//! Whole documents.

use nfe::base::{Error as ErrorBase, Nfe as NfeBase, TipoEscalar};
use nfe::arvore::Elemento;
use nfe::escalar::Decimal;
use nfe::{
    Destinatario, Endereco, Error, IndicadorContribuicaoIe, ModalidadeFrete,
    ModeloDocumentoFiscal, Nfe, Produto, VersaoLayout,
};

const CABECALHO: &str = "<?xml version=\"1.0\" encoding=\"UTF-8\"?>
<NFe xmlns=\"http://www.portalfiscal.inf.br/nfe\">
<infNFe versao=\"4.00\" Id=\"NFe43180906929383000163550010000000261000010301\">";

const IDE: &str = "<ide><cUF>43</cUF><cNF>00001030</cNF><natOp>Venda</natOp><mod>55</mod>
    <serie>1</serie><nNF>26</nNF><dhEmi>2018-09-25T00:00:00-03:00</dhEmi>
    <dhSaiEnt>2018-09-25T15:14:00-03:00</dhSaiEnt><tpNF>1</tpNF><idDest>2</idDest>
    <cMunFG>4307609</cMunFG><tpImp>1</tpImp><tpEmis>1</tpEmis><cDV>1</cDV><tpAmb>2</tpAmb>
    <finNFe>1</finNFe><indFinal>0</indFinal><indPres>1</indPres><procEmi>0</procEmi>
    <verProc>fernando</verProc></ide>";

const EMIT: &str = "<emit><CNPJ>06929383000163</CNPJ><xNome>UMA RAZAO SOCIAL</xNome>
    <enderEmit><xLgr>Rua dos Testes</xLgr><nro>1020</nro><xCpl>0</xCpl><xBairro>Centro</xBairro>
    <cMun>4319901</cMun><xMun>SAPIRANGA</xMun><UF>RS</UF><CEP>93800000</CEP><cPais>1058</cPais>
    <xPais>BRASIL</xPais><fone>5190909090</fone></enderEmit><IE>0018000762</IE><CRT>1</CRT></emit>";

const DEST: &str = "<dest><CNPJ>58716523000119</CNPJ><xNome>NF-E EMITIDA EM HOMOLOGACAO</xNome>
    <enderDest><xLgr>Av. Teste</xLgr><nro>2040</nro><xBairro>Centro</xBairro><cMun>3550308</cMun>
    <xMun>SAO PAULO</xMun><UF>SP</UF><CEP>04207040</CEP><cPais>1058</cPais><xPais>BRASIL</xPais>
    </enderDest><indIEDest>1</indIEDest><IE>112006603110</IE></dest>";

fn det(numero: u8, codigo: &str, gtin: &str) -> String {
    format!(
        "<det nItem=\"{}\"><prod><cProd>{}</cProd><cEAN>{}</cEAN><xProd>UM PRODUTO</xProd>
        <NCM>64011000</NCM><CFOP>6101</CFOP><uCom>UN</uCom><qCom>10.0000</qCom>
        <vUnCom>50</vUnCom><vProd>500.00</vProd><cEANTrib>SEM GTIN</cEANTrib><uTrib>UN</uTrib>
        <qTrib>10.0000</qTrib><vUnTrib>50.0000</vUnTrib><indTot>1</indTot></prod>
        <imposto><vTotTrib>0.00</vTotTrib><PIS><PISNT><CST>04</CST></PISNT></PIS></imposto></det>",
        numero, codigo, gtin
    )
}

const TOTAL: &str = "<total><ICMSTot><vBC>0.00</vBC><vICMS>0.00</vICMS><vProd>500.00</vProd>
    <vFrete>0.00</vFrete><vSeg>0.00</vSeg><vDesc>0.00</vDesc><vII>0.00</vII><vPIS>0.00</vPIS>
    <vCOFINS>0.00</vCOFINS><vOutro>0.00</vOutro><vNF>500.00</vNF><vTotTrib>0.00</vTotTrib>
    </ICMSTot></total>";

const TRANSP: &str = "<transp><modFrete>9</modFrete></transp>";

fn documento(partes: &[&str]) -> String {
    format!("{}{}</infNFe></NFe>", CABECALHO, partes.concat())
}

fn item() -> String {
    det(1, "11007", "SEM GTIN")
}

fn completo() -> String {
    let itens = det(1, "11007", "SEM GTIN") + &det(2, "11008", "7893049207584");
    documento(&[IDE, EMIT, DEST, &itens, TOTAL, TRANSP, "<infAdic><infCpl>NADA</infCpl></infAdic>"])
}

#[test]
fn documento_lido() -> Result<(), Error> {
    let nfe = Nfe::from_str(&completo())?;

    assert_eq!("43180906929383000163550010000000261000010301", nfe.chave_acesso);
    assert_eq!(VersaoLayout::V4_00, nfe.versao);
    assert_eq!(Some("NADA".to_string()), nfe.informacao_complementar);
    assert_eq!(ModeloDocumentoFiscal::Nfe, nfe.ide.modelo);
    assert_eq!(26, nfe.ide.numero);
    assert_eq!("06929383000163", nfe.emit.cnpj);
    assert_eq!("58716523000119", nfe.dest.cnpj);
    assert_eq!(2, nfe.itens.len());
    assert_eq!(1, nfe.itens[0].numero);
    assert_eq!(None, nfe.itens[0].produto.gtin);
    assert_eq!(2, nfe.itens[1].numero);
    assert_eq!(Some("7893049207584".to_string()), nfe.itens[1].produto.gtin);
    assert_eq!(Decimal { mantissa: 50000, escala: 2 }, nfe.totais.valor_total);
    assert_eq!(ModalidadeFrete::SemTransporte, nfe.transporte.modalidade);

    Ok(())
}

#[test]
fn documento_escrito() -> Result<(), Error> {
    let xml = Nfe::from_str(&completo())?.to_string();

    assert!(xml.starts_with(
        "<NFe><infNFe versao=\"4.00\" Id=\"NFe43180906929383000163550010000000261000010301\"><ide>"
    ));
    assert!(xml.contains("</emit><dest>"));
    assert!(xml.contains("</dest><det nItem=\"1\">"));
    assert!(xml.contains("</det><det nItem=\"2\">"));
    assert!(xml.contains("</det><total><ICMSTot>"));
    assert!(xml.ends_with(
        "</total><transp><modFrete>9</modFrete></transp>\
         <infAdic><infCpl>NADA</infCpl></infAdic></infNFe></NFe>"
    ));

    Ok(())
}

#[test]
fn documento_sem_opcionais() -> Result<(), ErrorBase> {
    let nfe = NfeBase::from_str(&documento(&[IDE, EMIT, &item(), TOTAL, TRANSP]))?;

    assert_eq!(None, nfe.dest);
    assert_eq!(1, nfe.itens.len());
    assert_eq!(None, nfe.informacao_complementar);
    let xml = nfe.to_string();
    assert!(!xml.contains("<dest>"));
    assert!(xml.contains("</emit><det nItem=\"1\">"));
    assert!(!xml.contains("<infAdic>"));

    Ok(())
}

#[test]
fn ler_escrever_ler_escrever() -> Result<(), ErrorBase> {
    let nfe1 = NfeBase::from_str(&completo())?;
    let xml1 = nfe1.to_string();

    let nfe2 = NfeBase::from_str(&xml1)?;
    let xml2 = nfe2.to_string();

    assert_eq!(nfe1, nfe2);
    assert_eq!(xml1, xml2);
    assert_eq!(Ok(xml1), NfeBase::normalizar(&completo()));

    Ok(())
}

#[test]
fn raiz_que_e_a_propria_informacao() -> Result<(), ErrorBase> {
    let xml = documento(&[IDE, EMIT, &item(), TOTAL, TRANSP]);
    let inicio = xml.find("<infNFe").unwrap();
    let fim = xml.find("</NFe>").unwrap();

    let nfe = NfeBase::from_str(&xml[inicio..fim])?;

    assert_eq!(Ok(nfe), NfeBase::from_str(&xml));

    Ok(())
}

#[test]
fn versao_nao_suportada() {
    let xml = completo().replace("versao=\"4.00\"", "versao=\"3.10\"");

    assert_eq!(Err(ErrorBase::VersaoNaoSuportada("3.10".to_string())), NfeBase::from_str(&xml));
    assert_eq!(
        Err(Error::Base(ErrorBase::VersaoNaoSuportada("3.10".to_string()))),
        Nfe::from_str(&xml)
    );
}

#[test]
fn primeiro_erro_do_documento() {
    let campo = |nome: &str| Err(ErrorBase::CampoAusente(nome.to_string()));

    assert_eq!(Err(ErrorBase::Xml), NfeBase::from_str("<NFe>"));
    assert_eq!(campo("infNFe"), NfeBase::from_str("<NFe></NFe>"));
    assert_eq!(campo("versao"), NfeBase::from_str("<infNFe Id=\"NFe1\"></infNFe>"));
    assert_eq!(campo("Id"), NfeBase::from_str("<infNFe versao=\"4.00\"></infNFe>"));
    assert_eq!(campo("ide"), NfeBase::from_str(&documento(&[EMIT, TOTAL])));
    assert_eq!(campo("emit"), NfeBase::from_str(&documento(&[IDE, TOTAL, TRANSP])));
    assert_eq!(campo("det"), NfeBase::from_str(&documento(&[IDE, EMIT, DEST, TOTAL, TRANSP])));
    assert_eq!(campo("det"), NfeBase::from_str(&documento(&[IDE, EMIT])));
    assert_eq!(campo("total"), NfeBase::from_str(&documento(&[IDE, EMIT, &item(), TRANSP])));
    assert_eq!(campo("transp"), NfeBase::from_str(&documento(&[IDE, EMIT, &item(), TOTAL])));
    assert_eq!(
        campo("ICMSTot"),
        NfeBase::from_str(&documento(&[IDE, EMIT, &item(), "<total></total>", TRANSP]))
    );
    assert_eq!(
        campo("nItem"),
        NfeBase::from_str(&documento(&[IDE, EMIT, "<det></det>", TOTAL, TRANSP]))
    );
    assert_eq!(
        Err(ErrorBase::TipoInvalido("dhEmi".to_string(), TipoEscalar::DataHora)),
        NfeBase::from_str(&documento(&[&IDE.replace("2018-09-25T00:00:00-03:00", "hoje"), EMIT]))
    );
    assert_eq!(
        Err(ErrorBase::TipoInvalido("vNF".to_string(), TipoEscalar::Decimal)),
        NfeBase::from_str(&documento(&[
            IDE,
            EMIT,
            &item(),
            &TOTAL.replace("500.00</vNF>", "5e2</vNF>"),
        ]))
    );
    assert_eq!(
        Err(ErrorBase::TipoInvalido("indTot".to_string(), TipoEscalar::Booleano)),
        NfeBase::from_str(&documento(&[
            IDE,
            EMIT,
            &det(1, "1", "SEM GTIN").replace("<indTot>1", "<indTot>2"),
        ]))
    );
    assert_eq!(
        Err(ErrorBase::TipoInvalido("cUF".to_string(), TipoEscalar::Inteiro)),
        NfeBase::from_str(&documento(&[&IDE.replace("<cUF>43", "<cUF>430")]))
    );
    assert_eq!(
        Err(ErrorBase::CodigoDesconhecido("tpAmb".to_string(), "7".to_string())),
        NfeBase::from_str(&documento(&[&IDE.replace("<tpAmb>2", "<tpAmb>7"), EMIT]))
    );
}

#[test]
fn documento_sem_itens() {
    let xml = documento(&[IDE, EMIT, DEST, TOTAL, TRANSP]);

    assert_eq!(Err(ErrorBase::CampoAusente("det".to_string())), NfeBase::from_str(&xml));
    assert_eq!(
        Err(Error::Base(ErrorBase::CampoAusente("det".to_string()))),
        Nfe::from_str(&xml)
    );
}

#[test]
fn numero_de_item_repetido() {
    let itens = det(1, "a", "SEM GTIN") + &det(2, "b", "SEM GTIN") + &det(2, "c", "SEM GTIN")
        + &det(1, "d", "SEM GTIN");
    let xml = documento(&[IDE, EMIT, DEST, &itens, TOTAL, TRANSP]);

    assert_eq!(Err(ErrorBase::ItemRepetido(2)), NfeBase::from_str(&xml));
    assert_eq!(Err(Error::Base(ErrorBase::ItemRepetido(2))), Nfe::from_str(&xml));
    assert_eq!("Número de item repetido: 2", ErrorBase::ItemRepetido(2).to_string());
}

#[test]
fn nfce_nao_e_nfe() -> Result<(), ErrorBase> {
    let xml = completo().replace("<mod>55</mod>", "<mod>65</mod>");

    let base = NfeBase::from_str(&xml)?;

    assert_eq!(ModeloDocumentoFiscal::Nfce, base.ide.modelo);
    assert_eq!(Err(Error::ModeloInvalido(ModeloDocumentoFiscal::Nfce)), Nfe::try_from(base));
    assert_eq!(Err(Error::ModeloInvalido(ModeloDocumentoFiscal::Nfce)), Nfe::from_str(&xml));

    Ok(())
}

#[test]
fn nfe_pede_destinatario() {
    let sem = documento(&[IDE, EMIT, &item(), TOTAL, TRANSP]);
    let sem_nome = completo().replace("<xNome>NF-E EMITIDA EM HOMOLOGACAO</xNome>", "");
    let inicio = completo().find("<enderDest>").unwrap();
    let fim = completo().find("</enderDest>").unwrap() + "</enderDest>".len();
    let sem_endereco = completo().replace(&completo()[inicio..fim], "");

    let erro = |motivo: &str| Err(Error::DestinatarioInvalido(motivo.to_string()));
    assert_eq!(erro("Não informado no documento"), Nfe::from_str(&sem));
    assert_eq!(erro("Razão social/Nome não informado"), Nfe::from_str(&sem_nome));
    assert_eq!(erro("Endereço não informado"), Nfe::from_str(&sem_endereco));
    assert!(NfeBase::from_str(&sem).is_ok());
    assert!(NfeBase::from_str(&sem_nome).is_ok());
    assert!(NfeBase::from_str(&sem_endereco).is_ok());
}

#[test]
fn nfe_e_base() -> Result<(), Error> {
    let nfe = Nfe::from_str(&completo())?;
    let base = NfeBase::from_str(&completo()).map_err(Error::Base)?;

    assert_eq!(Ok(Nfe::from_str(&completo())?), Nfe::try_from(base));
    assert_eq!(NfeBase::from_str(&completo()).map_err(Error::Base)?, nfe.into_base());

    Ok(())
}

#[test]
fn mensagens_de_erro() {
    assert_eq!(
        "Tag <xLgr> não encontrada",
        ErrorBase::CampoAusente("xLgr".to_string()).to_string()
    );
    assert_eq!(
        "Valor inválido na tag <vNF>",
        ErrorBase::TipoInvalido("vNF".to_string(), TipoEscalar::Decimal).to_string()
    );
    assert_eq!(
        "Código '7' desconhecido na tag <tpAmb>",
        ErrorBase::CodigoDesconhecido("tpAmb".to_string(), "7".to_string()).to_string()
    );
    assert_eq!("Falha no parse: documento malformado", ErrorBase::Xml.to_string());
    assert_eq!(
        "Destinatário inválido. Endereço não informado",
        Error::DestinatarioInvalido("Endereço não informado".to_string()).to_string()
    );
    assert_eq!(
        "Modelo do documento não suportado: Nfce",
        Error::ModeloInvalido(ModeloDocumentoFiscal::Nfce).to_string()
    );
    assert_eq!(
        "Versão do layout não suportada: 3.10",
        Error::Base(ErrorBase::VersaoNaoSuportada("3.10".to_string())).to_string()
    );
}

#[test]
fn destinatario_contribuinte() -> Result<(), Error> {
    let dest = Destinatario::from_str(DEST)?;

    assert_eq!(IndicadorContribuicaoIe::Contribuinte, dest.indicador_ie);
    assert_eq!("04207040", dest.endereco.cep);
    assert_eq!("Av. Teste", dest.endereco.logradouro);

    Ok(())
}

#[test]
fn produto_com_valores_exatos() -> Result<(), ErrorBase> {
    let xml = "<prod><cProd>1</cProd><cEAN>SEM GTIN</cEAN><xProd>P</xProd><NCM>1</NCM>
        <CFOP>6101</CFOP><uCom>UN</uCom><qCom>10.0000</qCom><vUnCom>50</vUnCom>
        <vProd>500.00</vProd><vFrete>1.10</vFrete><vSeg>2.20</vSeg><vDesc>3.30</vDesc>
        <vOutro>4.40</vOutro><cEANTrib>SEM GTIN</cEANTrib><uTrib>UN</uTrib><qTrib>10</qTrib>
        <vUnTrib>50</vUnTrib><indTot>1</indTot></prod>";

    let produto = Produto::from_str(xml)?;

    assert_eq!(Decimal { mantissa: 50, escala: 0 }, produto.valor_unitario);
    assert_eq!(Decimal { mantissa: 100000, escala: 4 }, produto.quantidade);
    assert_eq!(Decimal { mantissa: 50000, escala: 2 }, produto.valor_bruto);
    assert_eq!(true, produto.valor_compoe_total_nota);
    assert_eq!(Some(Decimal { mantissa: 110, escala: 2 }), produto.valor_frete);
    assert_eq!(Some(Decimal { mantissa: 220, escala: 2 }), produto.valor_seguro);
    assert_eq!(Some(Decimal { mantissa: 330, escala: 2 }), produto.valor_desconto);
    assert_eq!(Some(Decimal { mantissa: 440, escala: 2 }), produto.valor_outros);
    assert_eq!(Ok(produto.clone()), Produto::from_str(&produto.to_string()));

    Ok(())
}

#[test]
fn desconto_e_seguro_nas_suas_tags() -> Result<(), ErrorBase> {
    let xml = "<prod><cProd>1</cProd><cEAN>SEM GTIN</cEAN><xProd>P</xProd><NCM>1</NCM>\
        <uCom>UN</uCom><qCom>1</qCom><vUnCom>50</vUnCom><vProd>50</vProd>\
        <vFrete>2.00</vFrete><vDesc>5.00</vDesc><indTot>1</indTot><CFOP>6101</CFOP>\
        <cEANTrib>SEM GTIN</cEANTrib><uTrib>UN</uTrib><qTrib>1</qTrib><vUnTrib>50</vUnTrib></prod>";

    let produto = Produto::from_str(xml)?;

    assert_eq!(Some(Decimal { mantissa: 500, escala: 2 }), produto.valor_desconto);
    assert_eq!(Some(Decimal { mantissa: 200, escala: 2 }), produto.valor_frete);
    assert_eq!(None, produto.valor_seguro);
    assert_eq!(None, produto.valor_outros);
    assert_eq!(xml, produto.to_string());
    let com_seguro = Produto::from_str(&xml.replace("vDesc>", "vSeg>"))?;
    assert_eq!(Some(Decimal { mantissa: 500, escala: 2 }), com_seguro.valor_seguro);
    assert_eq!(None, com_seguro.valor_desconto);

    Ok(())
}

#[test]
fn texto_aparado_ao_decodificar() {
    let mut no = Elemento::grupo(
        "enderEmit",
        vec![
            Elemento::folha("xLgr", "  Rua dos Testes \n".to_string()),
            Elemento::folha("nro", "1020".to_string()),
            Elemento::folha("xBairro", "\tCentro".to_string()),
            Elemento::folha("cMun", "4319901".to_string()),
            Elemento::folha("xMun", "SAPIRANGA".to_string()),
            Elemento::folha("UF", "RS".to_string()),
            Elemento::folha("CEP", "93800000".to_string()),
            Elemento::folha("cPais", "1058".to_string()),
            Elemento::folha("xPais", "BRASIL".to_string()),
        ],
    );

    let endereco = Endereco::parse(&no).unwrap();

    assert_eq!("Rua dos Testes", endereco.logradouro);
    assert_eq!("Centro", endereco.bairro);
    assert_eq!(Ok(endereco.clone()), Endereco::parse(&endereco.serialize("enderEmit")));
    no.filhos[3].texto = " 4319901".to_string();
    assert_eq!(
        Err(ErrorBase::TipoInvalido("cMun".to_string(), TipoEscalar::Inteiro)),
        Endereco::parse(&no)
    );
}
