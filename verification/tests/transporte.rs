//! The section `transp`.

use nfe::base::transporte::{ModalidadeFrete, Transporte};
use nfe::base::Error;

#[test]
fn transporte_manual() -> Result<(), Error> {
    let xml = "<transp><modFrete>9</modFrete></transp>";

    let transporte = Transporte::from_str(xml)?;

    assert_eq!(ModalidadeFrete::SemTransporte, transporte.modalidade);

    Ok(())
}

#[test]
fn transporte_to_string() -> Result<(), Error> {
    let mut xml_original = "<transp><modFrete>9</modFrete></transp>".to_string();
    xml_original.retain(|c| c != '\n' && c != ' ');

    let transporte = Transporte::from_str(&xml_original)?;
    let xml_novo = transporte.to_string();

    assert_eq!(xml_original, xml_novo);

    Ok(())
}
