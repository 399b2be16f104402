//! The section `total`.

use nfe::escalar::Decimal;
use nfe::Totalizacao;

fn valor(d: Decimal) -> f64 {
    d.mantissa as f64 / 10f64.powi(d.escala as i32)
}

#[test]
fn manual_produtos_com_pis_cofins() -> Result<(), String> {
    let xml = "<total>
            <ICMSTot>
                <vBC>0.00</vBC>
                <vICMS>0.00</vICMS>
                <vICMSDeson>0.00</vICMSDeson>
                <vFCP>0.00</vFCP>
                <vBCST>0.00</vBCST>
                <vST>0.00</vST>
                <vFCPST>0.00</vFCPST>
                <vFCPSTRet>0.00</vFCPSTRet>
                <vProd>150.00</vProd>
                <vFrete>0.00</vFrete>
                <vSeg>0.00</vSeg>
                <vDesc>0.00</vDesc>
                <vII>0.00</vII>
                <vIPI>0.00</vIPI>
                <vIPIDevol>0.00</vIPIDevol>
                <vPIS>0.89</vPIS>
                <vCOFINS>4.09</vCOFINS>
                <vOutro>0.00</vOutro>
                <vNF>150.00</vNF>
                <vTotTrib>35.75</vTotTrib>
            </ICMSTot>
        </total>";

    let totais = Totalizacao::from_str(xml).map_err(|e| e.to_string())?;

    assert_eq!(0.0, valor(totais.valor_base_calculo));
    assert_eq!(0.0, valor(totais.valor_icms));
    assert_eq!(150.0, valor(totais.valor_produtos));
    assert_eq!(0.0, valor(totais.valor_frete));
    assert_eq!(0.0, valor(totais.valor_seguro));
    assert_eq!(0.0, valor(totais.valor_desconto));
    assert_eq!(0.89, valor(totais.valor_pis));
    assert_eq!(0.0, valor(totais.valor_outros));
    assert_eq!(4.09, valor(totais.valor_cofins));
    assert_eq!(150.0, valor(totais.valor_total));
    assert_eq!(35.75, valor(totais.valor_aproximado_tributos));

    Ok(())
}

#[test]
fn totais_sem_arredondamento() -> Result<(), String> {
    let xml = "<total><ICMSTot><vBC>0.00</vBC><vICMS>0.00</vICMS><vProd>150.00</vProd>\
        <vFrete>0.00</vFrete><vSeg>0.00</vSeg><vDesc>0.00</vDesc><vOutro>0.00</vOutro>\
        <vPIS>0.89</vPIS><vCOFINS>4.09</vCOFINS><vNF>150.00</vNF><vTotTrib>35.75</vTotTrib>\
        </ICMSTot></total>";

    let totais = Totalizacao::from_str(xml).map_err(|e| e.to_string())?;

    assert_eq!(Decimal { mantissa: 15000, escala: 2 }, totais.valor_produtos);
    assert_eq!(Decimal { mantissa: 89, escala: 2 }, totais.valor_pis);
    assert_eq!(Decimal { mantissa: 409, escala: 2 }, totais.valor_cofins);
    assert_eq!(Decimal { mantissa: 15000, escala: 2 }, totais.valor_total);
    assert_eq!(Decimal { mantissa: 3575, escala: 2 }, totais.valor_aproximado_tributos);
    assert_eq!(xml, totais.to_string());

    Ok(())
}
