//! The variant resolver and the tax groups.

use nfe::base::Error;
use nfe::variante::resolver;
use nfe::xml::ler_xml;
use nfe::{GrupoCofins, GrupoIcms, GrupoPis, Imposto};

#[test]
fn candidato_unico() {
    let no = ler_xml("<PIS><PISNT><CST>04</CST></PISNT></PIS>").unwrap();

    let achado = resolver(&no, &["PISOutr", "PISNT", "PISAliq"]);

    assert_eq!(Some((1, &no.filhos[0])), achado);
}

#[test]
fn nenhum_candidato() {
    let no = ler_xml("<PIS><PISQtde><CST>03</CST></PISQtde></PIS>").unwrap();

    assert_eq!(None, resolver(&no, &["PISOutr", "PISNT", "PISAliq"]));
    assert_eq!(None, resolver(&no, &[]));
    assert_eq!(Ok(None), GrupoPis::parse(&no));
}

#[test]
fn primeiro_candidato_vence() {
    let no = ler_xml("<PIS><PISAliq/><PISNT/><PISOutr/></PIS>").unwrap();

    assert_eq!(Some((0, &no.filhos[2])), resolver(&no, &["PISOutr", "PISNT", "PISAliq"]));
    assert_eq!(Some((1, &no.filhos[1])), resolver(&no, &["PISQtde", "PISNT", "PISAliq"]));
}

#[test]
fn grupos_de_cada_imposto() {
    let xml = "<imposto>
        <ICMS><ICMS60><orig>0</orig><vBCSTRet>0.00</vBCSTRet><pST>0.00</pST>
            <vICMSSTRet>0.00</vICMSSTRet></ICMS60></ICMS>
        <PIS><PISAliq><CST>01</CST><vBC>53.78</vBC><pPIS>1.65</pPIS><vPIS>0.89</vPIS></PISAliq>
        </PIS>
        <COFINS><COFINSNT><CST>04</CST></COFINSNT></COFINS>
    </imposto>";

    let imposto = Imposto::from_str(xml).unwrap();

    assert_eq!(None, imposto.valor_aproximado);
    assert!(matches!(imposto.icms, Some(GrupoIcms::Icms60(_))));
    match &imposto.pis {
        Some(GrupoPis::PisAliq(g)) => {
            assert_eq!("01", g.codigo_situacao);
            assert_eq!(5378, g.valor_base_calculo.mantissa);
            assert_eq!(165, g.aliquota.mantissa);
            assert_eq!(89, g.valor.mantissa);
        }
        outro => panic!("{:?}", outro),
    }
    match &imposto.cofins {
        Some(GrupoCofins::CofinsNt(g)) => assert_eq!("04", g.codigo_situacao),
        outro => panic!("{:?}", outro),
    }
    assert_eq!(Ok(imposto.clone()), Imposto::from_str(&imposto.to_string()));
}

#[test]
fn grupo_so_do_primeiro_candidato() {
    let xml = "<ICMS>
        <ICMS60><orig>0</orig><vBCSTRet>1</vBCSTRet><pST>2</pST><vICMSSTRet>3</vICMSSTRet></ICMS60>
        <ICMSSN202><orig>1</orig><CSOSN>202</CSOSN><modBCST>4</modBCST><vBCST>0</vBCST>
            <pICMSST>0</pICMSST><vICMSST>0</vICMSST></ICMSSN202>
    </ICMS>";

    let grupo = GrupoIcms::parse(&ler_xml(xml).unwrap()).unwrap().unwrap();

    assert!(matches!(grupo, GrupoIcms::IcmsSn202(_)));
    assert_eq!(
        "<ICMS><ICMSSN202><orig>1</orig><CSOSN>202</CSOSN><modBCST>4</modBCST><vBCST>0</vBCST>\
         <pICMSST>0</pICMSST><vICMSST>0</vICMSST></ICMSSN202></ICMS>",
        nfe::xml::escrever_xml(&grupo.serialize())
    );
}

#[test]
fn erro_dentro_do_grupo() {
    let no = ler_xml("<COFINS><COFINSAliq><CST>01</CST></COFINSAliq></COFINS>").unwrap();

    assert_eq!(Err(Error::CampoAusente("vBC".to_string())), GrupoCofins::parse(&no));
}

#[test]
fn imposto_sem_grupos() {
    let imposto = Imposto::from_str("<imposto></imposto>").unwrap();

    assert_eq!(
        Imposto { valor_aproximado: None, icms: None, pis: None, cofins: None },
        imposto
    );
    assert_eq!("<imposto></imposto>", imposto.to_string());
}
