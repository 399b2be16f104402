//! Line items: products and taxes.

use nfe::escalar::Decimal;
use nfe::{
    Error, GrupoCofins, GrupoIcms, GrupoPis, Imposto, Item, ModalidadeBaseCalculoIcmsSt,
    OrigemMercadoria, Produto,
};

fn valor(d: Decimal) -> f64 {
    d.mantissa as f64 / 10f64.powi(d.escala as i32)
}

#[test]
fn itens_manual() -> Result<(), Error> {
    let xml = "
        <det nItem=\"1\">
            <prod>
                <cProd>11007</cProd>
                <cEAN>SEM GTIN</cEAN>
                <xProd>UM PRODUTO TESTE QUALQUER</xProd>
                <NCM>64011000</NCM>
                <CEST>1234567</CEST>
                <CFOP>6101</CFOP>
                <uCom>UN</uCom>
                <qCom>10.0000</qCom>
                <vUnCom>50</vUnCom>
                <vProd>500.00</vProd>
                <cEANTrib>SEM GTIN</cEANTrib>
                <uTrib>UN</uTrib>
                <qTrib>10.0000</qTrib>
                <vUnTrib>50.0000</vUnTrib>
                <indTot>1</indTot>
            </prod>
            <imposto>
                <vTotTrib>0.00</vTotTrib>
            </imposto>
       </det>
    ";

    let item = Item::from_str(xml).map_err(Error::Base)?;

    assert_eq!(1, item.numero);

    Ok(())
}

#[test]
fn produto_manual() -> Result<(), Error> {
    let xml = "
        <prod>
            <cProd>11007</cProd>
            <cEAN>SEM GTIN</cEAN>
            <xProd>UM PRODUTO TESTE QUALQUER</xProd>
            <NCM>64011000</NCM>
            <CEST>1234567</CEST>
            <CFOP>6101</CFOP>
            <uCom>UN</uCom>
            <qCom>10.0000</qCom>
            <vUnCom>50</vUnCom>
            <vProd>500.00</vProd>
            <cEANTrib>SEM GTIN</cEANTrib>
            <uTrib>UN</uTrib>
            <qTrib>10.0000</qTrib>
            <vUnTrib>50.0000</vUnTrib>
            <indTot>1</indTot>
        </prod>
    ";

    let produto = Produto::from_str(xml).map_err(Error::Base)?;

    assert_eq!("11007", produto.codigo);
    assert_eq!(None, produto.gtin);
    assert_eq!("UM PRODUTO TESTE QUALQUER", produto.descricao);
    assert_eq!("64011000", produto.ncm);
    assert_eq!(Some("1234567".to_string()), produto.tributacao.cest);
    assert_eq!(None, produto.tributacao.escala_relevante);
    assert_eq!(None, produto.fabricante_cnpj);
    assert_eq!(None, produto.tributacao.codigo_beneficio_fiscal);
    assert_eq!(None, produto.tributacao.codigo_excecao_ipi);
    assert_eq!("6101", produto.tributacao.cfop);
    assert_eq!("UN", produto.unidade);
    assert_eq!(10.00, valor(produto.quantidade));
    assert_eq!(50.00, valor(produto.valor_unitario));
    assert_eq!(None, produto.tributacao.gtin);
    assert_eq!("UN", produto.tributacao.unidade);
    assert_eq!(10.00, valor(produto.tributacao.quantidade));
    assert_eq!(50.00, valor(produto.tributacao.valor_unitario));
    assert_eq!(500.00, valor(produto.valor_bruto));
    assert_eq!(None, produto.valor_frete);
    assert_eq!(None, produto.valor_seguro);
    assert_eq!(None, produto.valor_desconto);
    assert_eq!(None, produto.valor_outros);
    assert_eq!(true, produto.valor_compoe_total_nota);

    Ok(())
}

#[test]
fn imposto_manual() -> Result<(), Error> {
    let xml = "
        <imposto>
            <vTotTrib>0.00</vTotTrib>
            <ICMS>
                <ICMSSN202>
                    <orig>0</orig>
                    <CSOSN>202</CSOSN>
                    <modBCST>4</modBCST>
                    <vBCST>0.00</vBCST>
                    <pICMSST>0.0000</pICMSST>
                    <vICMSST>0.00</vICMSST>
                </ICMSSN202>
            </ICMS>
            <PIS>
                <PISOutr>
                    <CST>49</CST>
                    <vBC>0.00</vBC>
                    <pPIS>0.0000</pPIS>
                    <vPIS>0.00</vPIS>
                </PISOutr>
            </PIS>
            <COFINS>
                <COFINSOutr>
                    <CST>49</CST>
                    <vBC>0.00</vBC>
                    <pCOFINS>0.0000</pCOFINS>
                    <vCOFINS>0.00</vCOFINS>
                </COFINSOutr>
            </COFINS>
        </imposto>
    ";

    let imposto = Imposto::from_str(xml).map_err(Error::Base)?;

    assert_eq!(Some(0.0), imposto.valor_aproximado.map(valor));
    match imposto.icms {
        Some(GrupoIcms::IcmsSn202(g)) => {
            assert_eq!(OrigemMercadoria::Nacional, g.origem);
            assert_eq!(0.0, valor(g.aliquota));
            assert_eq!(0.0, valor(g.valor));
            assert_eq!(0.0, valor(g.valor_base_calculo));
            assert_eq!(ModalidadeBaseCalculoIcmsSt::MargemValorAgregado, g.base_calculo);
            assert_eq!("202", g.codigo_situacao);
        }
        outro => panic!("{:?}", outro),
    }
    match imposto.pis {
        Some(GrupoPis::PisOutr(g)) => {
            assert_eq!(0.0, valor(g.aliquota));
            assert_eq!(0.0, valor(g.valor_base_calculo));
            assert_eq!("49", g.codigo_situacao);
        }
        outro => panic!("{:?}", outro),
    }
    match imposto.cofins {
        Some(GrupoCofins::CofinsOutr(g)) => {
            assert_eq!(0.0, valor(g.aliquota));
            assert_eq!(0.0, valor(g.valor_base_calculo));
            assert_eq!("49", g.codigo_situacao);
        }
        outro => panic!("{:?}", outro),
    }

    Ok(())
}

#[test]
fn produto_to_string() -> Result<(), Error> {
    let mut xml_original = "<prod>
        <cProd>11007</cProd>
        <cEAN>SEM GTIN</cEAN>
        <xProd>UM PRODUTO TESTE QUALQUER</xProd>
        <NCM>64011000</NCM>
        <uCom>UN</uCom>
        <qCom>10</qCom>
        <vUnCom>50</vUnCom>
        <vProd>500</vProd>
        <indTot>1</indTot>
        <CEST>1234567</CEST>
        <CFOP>6101</CFOP>
        <cEANTrib>SEM GTIN</cEANTrib>
        <uTrib>UN</uTrib>
        <qTrib>10</qTrib>
        <vUnTrib>50</vUnTrib>
    </prod>"
        .to_string();
    xml_original.retain(|c| c != '\n' && c != ' ');

    let produto = Produto::from_str(&xml_original).map_err(Error::Base)?;
    let xml_novo = produto.to_string();

    assert_eq!(xml_original, xml_novo);

    Ok(())
}

#[test]
fn imposto_to_string() -> Result<(), Error> {
    let mut xml_original = "<imposto>
            <vTotTrib>0</vTotTrib>
            <ICMS>
                <ICMSSN202>
                    <orig>0</orig>
                    <CSOSN>202</CSOSN>
                    <modBCST>4</modBCST>
                    <vBCST>0</vBCST>
                    <pICMSST>0</pICMSST>
                    <vICMSST>0</vICMSST>
                </ICMSSN202>
            </ICMS>
            <PIS>
                <PISOutr>
                    <CST>49</CST>
                    <vBC>0</vBC>
                    <pPIS>0</pPIS>
                </PISOutr>
            </PIS>
            <COFINS>
                <COFINSOutr>
                    <CST>49</CST>
                    <vBC>0</vBC>
                    <pCOFINS>0</pCOFINS>
                </COFINSOutr>
            </COFINS>
        </imposto>"
        .to_string();
    xml_original.retain(|c| c != '\n' && c != ' ');

    let imposto = Imposto::from_str(&xml_original).map_err(Error::Base)?;
    let xml_novo = imposto.to_string();

    assert_eq!(xml_original, xml_novo);

    Ok(())
}

#[test]
fn itens_to_string() -> Result<(), Error> {
    let mut xml_original = "
        <det nItem=\"1\">
            <prod>
                <cProd>11007</cProd>
                <cEAN>SEM GTIN</cEAN>
                <xProd>UM PRODUTO TESTE QUALQUER</xProd>
                <NCM>64011000</NCM>
                <uCom>UN</uCom>
                <qCom>10</qCom>
                <vUnCom>50</vUnCom>
                <vProd>500</vProd>
                <indTot>1</indTot>
                <CEST>1234567</CEST>
                <CFOP>6101</CFOP>
                <cEANTrib>SEM GTIN</cEANTrib>
                <uTrib>UN</uTrib>
                <qTrib>10</qTrib>
                <vUnTrib>50</vUnTrib>
            </prod>
            <imposto>
                <vTotTrib>0</vTotTrib>
            </imposto>
       </det>"
        .to_string();
    xml_original.retain(|c| c != '\n' && c != ' ');
    xml_original = xml_original.replace("detnItem", "det nItem");

    let item = Item::from_str(&xml_original).map_err(Error::Base)?;
    let xml_novo = item.to_string();

    assert_eq!(xml_original, xml_novo);

    Ok(())
}
