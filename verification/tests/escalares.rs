//! The scalar codec.

use nfe::data_hora::{codificar_data_hora, decodificar_data_hora, DataHora};
use nfe::escalar::{
    codificar_booleano, codificar_decimal, codificar_gtin, codificar_inteiro,
    decodificar_booleano, decodificar_decimal, decodificar_gtin, decodificar_inteiro, Decimal,
};

#[test]
fn inteiro_decodificado() {
    assert_eq!(Some(12), decodificar_inteiro("12", 255));
    assert_eq!(Some(7), decodificar_inteiro("+7", 255));
    assert_eq!(Some(7), decodificar_inteiro("007", 255));
    assert_eq!(Some(255), decodificar_inteiro("255", 255));
    assert_eq!(Some(4307609), decodificar_inteiro("4307609", u32::MAX as u64));
    assert_eq!(Some(u64::MAX), decodificar_inteiro("18446744073709551615", u64::MAX));
}

#[test]
fn inteiro_recusado() {
    assert_eq!(None, decodificar_inteiro("", 255));
    assert_eq!(None, decodificar_inteiro("+", 255));
    assert_eq!(None, decodificar_inteiro("-1", 255));
    assert_eq!(None, decodificar_inteiro("256", 255));
    assert_eq!(None, decodificar_inteiro("1a", 255));
    assert_eq!(None, decodificar_inteiro(" 1", 255));
    assert_eq!(None, decodificar_inteiro("1.0", 255));
    assert_eq!(None, decodificar_inteiro("18446744073709551616", u64::MAX));
}

#[test]
fn inteiro_codificado() {
    assert_eq!("0", codificar_inteiro(0));
    assert_eq!("9", codificar_inteiro(9));
    assert_eq!("10", codificar_inteiro(10));
    assert_eq!("1030", codificar_inteiro(1030));
    assert_eq!("18446744073709551615", codificar_inteiro(u64::MAX));
}

#[test]
fn inteiro_ida_e_volta() {
    for n in [0u64, 1, 9, 10, 99, 100, 255, 65535, 4294967295] {
        assert_eq!(Some(n), decodificar_inteiro(&codificar_inteiro(n), u32::MAX as u64));
    }
}

#[test]
fn decimal_decodificado() {
    assert_eq!(Some(Decimal { mantissa: 15000, escala: 2 }), decodificar_decimal("150.00"));
    assert_eq!(Some(Decimal { mantissa: 89, escala: 2 }), decodificar_decimal("0.89"));
    assert_eq!(Some(Decimal { mantissa: 50, escala: 0 }), decodificar_decimal("50"));
    assert_eq!(Some(Decimal { mantissa: 100000, escala: 4 }), decodificar_decimal("10.0000"));
    assert_eq!(Some(Decimal { mantissa: 0, escala: 4 }), decodificar_decimal("0.0000"));
    assert_eq!(Some(Decimal { mantissa: 15, escala: 1 }), decodificar_decimal("001.5"));
}

#[test]
fn decimal_recusado() {
    assert_eq!(None, decodificar_decimal(""));
    assert_eq!(None, decodificar_decimal("."));
    assert_eq!(None, decodificar_decimal(".5"));
    assert_eq!(None, decodificar_decimal("5."));
    assert_eq!(None, decodificar_decimal("1.2.3"));
    assert_eq!(None, decodificar_decimal("-1.0"));
    assert_eq!(None, decodificar_decimal("+1.0"));
    assert_eq!(None, decodificar_decimal("1e3"));
    assert_eq!(None, decodificar_decimal("1,5"));
    assert_eq!(None, decodificar_decimal(" 1.5"));
    assert_eq!(None, decodificar_decimal("184467440737095516.16"));
}

#[test]
fn decimal_codificado() {
    assert_eq!("150.00", codificar_decimal(Decimal { mantissa: 15000, escala: 2 }));
    assert_eq!("0.89", codificar_decimal(Decimal { mantissa: 89, escala: 2 }));
    assert_eq!("0.005", codificar_decimal(Decimal { mantissa: 5, escala: 3 }));
    assert_eq!("0", codificar_decimal(Decimal { mantissa: 0, escala: 0 }));
    assert_eq!("0.0", codificar_decimal(Decimal { mantissa: 0, escala: 1 }));
    assert_eq!("500", codificar_decimal(Decimal { mantissa: 500, escala: 0 }));
}

#[test]
fn decimal_ida_e_volta() {
    for d in [
        Decimal { mantissa: 0, escala: 0 },
        Decimal { mantissa: 1, escala: 255 },
        Decimal { mantissa: u64::MAX, escala: 0 },
        Decimal { mantissa: u64::MAX, escala: 20 },
        Decimal { mantissa: 3575, escala: 2 },
    ] {
        assert_eq!(Some(d), decodificar_decimal(&codificar_decimal(d)));
    }
}

#[test]
fn booleano_como_digito() {
    assert_eq!(Some(true), decodificar_booleano("1"));
    assert_eq!(Some(false), decodificar_booleano("0"));
    assert_eq!(None, decodificar_booleano("2"));
    assert_eq!(None, decodificar_booleano("01"));
    assert_eq!(None, decodificar_booleano(""));
    assert_eq!(None, decodificar_booleano("true"));
    assert_eq!("1", codificar_booleano(true));
    assert_eq!("0", codificar_booleano(false));
}

#[test]
fn gtin_ausente() {
    assert_eq!(None, decodificar_gtin("SEM GTIN"));
    assert_eq!(None, decodificar_gtin("sem gtin"));
    assert_eq!(None, decodificar_gtin(" Sem Gtin "));
    assert_eq!(None, decodificar_gtin("SEM EAN"));
    assert_eq!(None, decodificar_gtin(""));
    assert_eq!(None, decodificar_gtin("  "));
}

#[test]
fn gtin_presente() {
    assert_eq!(Some("7893049207584".to_string()), decodificar_gtin("7893049207584"));
    assert_eq!(Some(" 789 ".to_string()), decodificar_gtin(" 789 "));
    assert_eq!(Some("SEM".to_string()), decodificar_gtin("SEM"));
    assert_eq!(Some("SEM  GTIN".to_string()), decodificar_gtin("SEM  GTIN"));
}

#[test]
fn gtin_codificado() {
    assert_eq!("SEM GTIN", codificar_gtin(&None));
    assert_eq!("7893049207584", codificar_gtin(&Some("7893049207584".to_string())));
    assert_eq!(None, decodificar_gtin(&codificar_gtin(&None)));
}

#[test]
fn data_hora_decodificada() {
    let utc = decodificar_data_hora("2018-09-25T18:14:00+00:00").unwrap();
    assert_eq!(1537899240, utc.segundos);
    assert_eq!(0, utc.nanos);
    assert_eq!(Some(utc), decodificar_data_hora("2018-09-25T15:14:00-03:00"));
    assert_eq!(Some(utc), decodificar_data_hora("2018-09-25T18:14:00Z"));
    assert_eq!(Some(utc), decodificar_data_hora("2018-09-25 18:14:00+0000"));
    assert_eq!(None, decodificar_data_hora("2018-09-25"));
    assert_eq!(None, decodificar_data_hora("ontem"));
    assert_eq!(None, decodificar_data_hora(""));
}

#[test]
fn data_hora_codificada() {
    let d = DataHora::new(1537899240, 0).unwrap();
    assert_eq!("2018-09-25T18:14:00+00:00", codificar_data_hora(d));
    assert_eq!(Some(d), decodificar_data_hora(&codificar_data_hora(d)));
    let fracao = DataHora::new(1537899240, 500_000_000).unwrap();
    assert_eq!("2018-09-25T18:14:00.500+00:00", codificar_data_hora(fracao));
}

#[test]
fn data_hora_fora_do_alcance() {
    assert_eq!(None, DataHora::new(i64::MAX, 0));
    assert_eq!(None, DataHora::new(0, 2_000_000_000));
}
