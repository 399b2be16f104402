//! The section `ide`.

use nfe::base::Error;
use nfe::data_hora::DataHora;
use nfe::{
    DestinoOperacao, FinalidadeEmissao, FormatoImpressaoDanfe, Identificacao,
    ModeloDocumentoFiscal, TipoAmbiente, TipoConsumidor, TipoEmissao, TipoOperacao,
    TipoPresencaComprador, TipoProcessoEmissao,
};

#[test]
fn ide_manual() -> Result<(), Error> {
    let ide = Identificacao::from_str(XML_MANUAL)?;

    assert_eq!(43, ide.codigo_uf);
    assert_eq!(4307609, ide.codigo_municipio);
    assert_eq!(1, ide.serie);
    assert_eq!(26, ide.numero);
    assert_eq!(ModeloDocumentoFiscal::Nfe, ide.modelo);
    assert_eq!(FormatoImpressaoDanfe::NormalRetrato, ide.formato_danfe);
    assert_eq!(TipoAmbiente::Homologacao, ide.ambiente);
    assert_eq!("00001030", ide.chave.codigo);
    assert_eq!(1, ide.chave.digito_verificador);

    Ok(())
}

#[test]
fn ide_to_string() -> Result<(), Error> {
    let mut xml_original = XML_MANUAL.to_string();
    xml_original.retain(|c| c != '\n' && c != ' ');

    let ide = Identificacao::from_str(&xml_original)?;
    let xml_novo = ide.to_string();

    assert_eq!(xml_original, xml_novo);

    Ok(())
}

#[test]
fn emissao_manual() -> Result<(), Error> {
    let emissao = Identificacao::from_str(XML_MANUAL)?.emissao;

    let horario = chrono::DateTime::parse_from_rfc3339("2018-09-25T03:00:00Z").unwrap();
    assert_eq!(horario.timestamp(), emissao.horario.segundos);
    assert_eq!(0, emissao.horario.nanos);
    assert_eq!(TipoEmissao::Normal, emissao.tipo);
    assert_eq!(FinalidadeEmissao::Normal, emissao.finalidade);
    assert_eq!(TipoProcessoEmissao::ViaAplicativoDoContribuinte, emissao.processo);
    assert_eq!("fernando", emissao.versao_processo);

    Ok(())
}

#[test]
fn operacao_manual() -> Result<(), Error> {
    let operacao = Identificacao::from_str(XML_MANUAL)?.operacao;

    let horario = chrono::DateTime::parse_from_rfc3339("2018-09-25T18:14:00Z").unwrap();
    assert_eq!("Venda de producao do estabelecimento", operacao.natureza);
    assert_eq!(DataHora::new(horario.timestamp(), 0), operacao.horario);
    assert_eq!(TipoOperacao::Saida, operacao.tipo);
    assert_eq!(DestinoOperacao::Interestadual, operacao.destino);
    assert_eq!(TipoConsumidor::Normal, operacao.consumidor);
    assert_eq!(TipoPresencaComprador::Presencial, operacao.presenca);
    assert_eq!(None, operacao.intermediador);

    Ok(())
}

#[test]
fn horario_com_outro_fuso_vai_para_utc() -> Result<(), Error> {
    let xml = XML_MANUAL.replace("2018-09-25T03:00:00+00:00", "2018-09-25T00:00:00-03:00");

    let ide = Identificacao::from_str(&xml)?;

    assert_eq!(Identificacao::from_str(XML_MANUAL)?.emissao.horario, ide.emissao.horario);
    assert!(ide.to_string().contains("<dhEmi>2018-09-25T03:00:00+00:00</dhEmi>"));

    Ok(())
}

const XML_MANUAL: &str = "
    <ide>
        <cUF>43</cUF>
        <nNF>26</nNF>
        <serie>1</serie>
        <mod>55</mod>
        <cMunFG>4307609</cMunFG>
        <tpImp>1</tpImp>
        <tpAmb>2</tpAmb>
        <cNF>00001030</cNF>
        <cDV>1</cDV>
        <dhEmi>2018-09-25T03:00:00+00:00</dhEmi>
        <tpEmis>1</tpEmis>
        <finNFe>1</finNFe>
        <procEmi>0</procEmi>
        <verProc>fernando</verProc>
        <dhSaiEnt>2018-09-25T18:14:00+00:00</dhSaiEnt>
        <tpNF>1</tpNF>
        <idDest>2</idDest>
        <natOp>Venda de producao do estabelecimento</natOp>
        <indFinal>0</indFinal>
        <indPres>1</indPres>
    </ide>
";
