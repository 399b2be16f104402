//! The section `emit`.

use nfe::{Emitente, Endereco};

#[test]
fn emit_manual() -> Result<(), String> {
    let xml = "
        <emit>
            <CNPJ>06929383000163</CNPJ>
            <xNome>UMA RAZAO SOCIAL DE TESTE QUALQUER</xNome>
            <enderEmit>
                <xLgr>Rua dos Testes</xLgr>
                <nro>1020</nro>
                <xCpl>0</xCpl>
                <xBairro>Centro</xBairro>
                <cMun>4319901</cMun>
                <xMun>SAPIRANGA</xMun>
                <UF>RS</UF>
                <CEP>93800000</CEP>
                <cPais>1058</cPais>
                <xPais>BRASIL</xPais>
                <fone>5190909090</fone>
            </enderEmit>
            <IE>0018000762</IE>
            <CRT>1</CRT>
        </emit>
    ";

    let emit = Emitente::from_str(xml).map_err(|e| e.to_string())?;

    assert_eq!("06929383000163", emit.cnpj);
    assert_eq!("UMA RAZAO SOCIAL DE TESTE QUALQUER", emit.razao_social);
    assert_eq!(None, emit.nome_fantasia);
    assert_eq!("0018000762", emit.ie);
    assert_eq!(None, emit.iest);
    assert_eq!("Rua dos Testes", emit.endereco.logradouro);
    assert_eq!("1020", emit.endereco.numero);
    assert_eq!(Some("0".to_string()), emit.endereco.complemento);
    assert_eq!("Centro", emit.endereco.bairro);
    assert_eq!(4319901, emit.endereco.codigo_municipio);
    assert_eq!("SAPIRANGA", emit.endereco.nome_municipio);
    assert_eq!("RS", emit.endereco.sigla_uf);
    assert_eq!(Ok(93800000), emit.endereco.cep.parse::<u32>());
    assert_eq!(Some("5190909090".to_string()), emit.endereco.telefone);

    Ok(())
}

#[test]
fn endereco_manual() -> Result<(), String> {
    let xml = "<enderEmit>
        <xLgr>Rua dos Testes</xLgr>
        <nro>1020</nro>
        <xCpl>0</xCpl>
        <xBairro>Centro</xBairro>
        <cMun>4319901</cMun>
        <xMun>SAPIRANGA</xMun>
        <UF>RS</UF>
        <CEP>93800000</CEP>
        <cPais>1058</cPais>
        <xPais>BRASIL</xPais>
        <fone>5190909090</fone>
    </enderEmit>";

    let endereco = Endereco::from_str(xml).map_err(|e| e.to_string())?;
    assert_eq!("Rua dos Testes", endereco.logradouro);
    assert_eq!("1020", endereco.numero);
    assert_eq!(Some("0".to_string()), endereco.complemento);
    assert_eq!("Centro", endereco.bairro);
    assert_eq!(4319901, endereco.codigo_municipio);
    assert_eq!("SAPIRANGA", endereco.nome_municipio);
    assert_eq!("RS", endereco.sigla_uf);
    assert_eq!(Ok(93800000), endereco.cep.parse::<u32>());
    assert_eq!(Some("5190909090".to_string()), endereco.telefone);

    Ok(())
}

#[test]
fn emit_to_string_na_ordem_do_layout() -> Result<(), String> {
    let xml = "<emit><CNPJ>06929383000163</CNPJ><xNome>RAZAO</xNome><xFant>FANTASIA</xFant>\
        <IE>0018000762</IE><IEST>123</IEST><enderEmit><xLgr>Rua</xLgr><nro>1</nro>\
        <xBairro>Centro</xBairro><cMun>4319901</cMun><xMun>SAPIRANGA</xMun><UF>RS</UF>\
        <CEP>93800000</CEP><cPais>1058</cPais><xPais>BRASIL</xPais></enderEmit></emit>";

    let emit = Emitente::from_str(xml).map_err(|e| e.to_string())?;

    assert_eq!(Some("FANTASIA".to_string()), emit.nome_fantasia);
    assert_eq!(Some(123), emit.iest);
    assert_eq!(xml, emit.to_string());

    Ok(())
}
