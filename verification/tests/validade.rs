//! Values that a document can hold, and values that it cannot.

use nfe::base::dest::Destinatario as DestinatarioBase;
use nfe::base::Nfe as NfeBase;
use nfe::data_hora::DataHora;
use nfe::escalar::Decimal;
use nfe::{
    ComposicaoChaveAcesso, DestinoOperacao, Emissao, Emitente, Endereco, FinalidadeEmissao,
    FormatoImpressaoDanfe, GrupoCofins, GrupoCofinsAliq, GrupoIcms, GrupoIcms60, GrupoPis,
    GrupoPisNt, Identificacao, Imposto, IndicadorContribuicaoIe, Item, ModalidadeFrete,
    ModeloDocumentoFiscal, Nfe, Operacao, OrigemMercadoria, Produto, ProdutoTributacao,
    TipoAmbiente, TipoConsumidor, TipoEmissao, TipoIntermediador, TipoOperacao,
    TipoPresencaComprador, TipoProcessoEmissao, Totalizacao, Transporte, VersaoLayout,
};

fn decimal(mantissa: u64, escala: u8) -> Decimal {
    Decimal { mantissa, escala }
}

fn endereco() -> Endereco {
    Endereco {
        logradouro: "Rua dos Testes".to_string(),
        numero: "1020".to_string(),
        complemento: None,
        bairro: "Centro".to_string(),
        codigo_municipio: 4319901,
        nome_municipio: "SAPIRANGA".to_string(),
        sigla_uf: "RS".to_string(),
        cep: "93800000".to_string(),
        codigo_pais: 1058,
        nome_pais: "BRASIL".to_string(),
        telefone: Some("5190909090".to_string()),
    }
}

fn identificacao() -> Identificacao {
    Identificacao {
        codigo_uf: 43,
        chave: ComposicaoChaveAcesso { codigo: "00001030".to_string(), digito_verificador: 1 },
        numero: 26,
        serie: 1,
        modelo: ModeloDocumentoFiscal::Nfe,
        emissao: Emissao {
            horario: DataHora::new(1537844400, 0).unwrap(),
            tipo: TipoEmissao::Normal,
            finalidade: FinalidadeEmissao::Normal,
            processo: TipoProcessoEmissao::ViaAplicativoDoContribuinte,
            versao_processo: "fernando".to_string(),
        },
        operacao: Operacao {
            horario: None,
            tipo: TipoOperacao::Saida,
            destino: DestinoOperacao::Interestadual,
            natureza: "Venda de producao".to_string(),
            consumidor: TipoConsumidor::Final,
            presenca: TipoPresencaComprador::Outros,
            intermediador: Some(TipoIntermediador::EmSiteDeTerceiros),
        },
        codigo_municipio: 4307609,
        formato_danfe: FormatoImpressaoDanfe::Simplificado,
        ambiente: TipoAmbiente::Producao,
    }
}

fn item(numero: u8) -> Item {
    Item {
        numero,
        produto: Produto {
            codigo: "11007".to_string(),
            gtin: Some("7893049207584".to_string()),
            descricao: "UM PRODUTO".to_string(),
            ncm: "64011000".to_string(),
            fabricante_cnpj: Some("06929383000163".to_string()),
            tributacao: ProdutoTributacao {
                cest: Some("1234567".to_string()),
                escala_relevante: None,
                codigo_beneficio_fiscal: None,
                codigo_excecao_ipi: Some("01".to_string()),
                cfop: "6101".to_string(),
                gtin: None,
                unidade: "UN".to_string(),
                quantidade: decimal(100000, 4),
                valor_unitario: decimal(50, 0),
            },
            unidade: "UN".to_string(),
            quantidade: decimal(100000, 4),
            valor_unitario: decimal(50, 0),
            valor_bruto: decimal(50000, 2),
            valor_frete: Some(decimal(100, 2)),
            valor_seguro: None,
            valor_desconto: Some(decimal(5, 1)),
            valor_outros: None,
            valor_compoe_total_nota: false,
        },
        imposto: Imposto {
            valor_aproximado: Some(decimal(1732, 2)),
            icms: Some(GrupoIcms::Icms60(GrupoIcms60 {
                origem: OrigemMercadoria::NacionalComImportacaoSuperior70,
                valor_base_calculo: decimal(0, 2),
                aliquota: decimal(0, 2),
                valor: decimal(0, 2),
            })),
            pis: Some(GrupoPis::PisNt(GrupoPisNt { codigo_situacao: "04".to_string() })),
            cofins: Some(GrupoCofins::CofinsAliq(GrupoCofinsAliq {
                codigo_situacao: "01".to_string(),
                valor_base_calculo: decimal(5378, 2),
                aliquota: decimal(76, 1),
                valor: decimal(409, 2),
            })),
        },
    }
}

fn documento() -> NfeBase {
    let zero = decimal(0, 2);
    NfeBase {
        versao: VersaoLayout::V4_00,
        chave_acesso: "43180906929383000163550010000000261000010301".to_string(),
        ide: identificacao(),
        emit: Emitente {
            cnpj: "06929383000163".to_string(),
            razao_social: "UMA RAZAO SOCIAL".to_string(),
            nome_fantasia: Some("FANTASIA".to_string()),
            ie: "0018000762".to_string(),
            iest: Some(7),
            endereco: endereco(),
        },
        dest: Some(DestinatarioBase {
            cnpj: "58716523000119".to_string(),
            razao_social: Some("DESTINATARIO & CIA <SP>".to_string()),
            endereco: Some(endereco()),
            ie: None,
            indicador_ie: IndicadorContribuicaoIe::Isento,
        }),
        itens: vec![item(1), item(2), item(3)],
        totais: Totalizacao {
            valor_base_calculo: zero,
            valor_icms: zero,
            valor_produtos: decimal(150000, 2),
            valor_frete: decimal(300, 2),
            valor_seguro: zero,
            valor_desconto: decimal(15, 1),
            valor_outros: zero,
            valor_pis: zero,
            valor_cofins: decimal(1227, 2),
            valor_total: decimal(150000, 2),
            valor_aproximado_tributos: decimal(5196, 2),
        },
        transporte: Transporte { modalidade: ModalidadeFrete::ContratacaoPorContaTerceiros },
        informacao_complementar: Some("\"aspas\" e 'apostrofos'".to_string()),
    }
}

#[test]
fn documento_construido_volta_da_arvore() {
    let doc = documento();

    assert!(doc.eh_valido());
    assert_eq!(Ok(documento()), NfeBase::parse(&doc.serialize()));
}

#[test]
fn documento_construido_volta_do_texto() {
    let doc = documento();

    let xml = doc.try_to_string().unwrap();

    assert_eq!(Ok(documento()), NfeBase::from_str(&xml));
    assert_eq!(Ok(xml.clone()), NfeBase::normalizar(&xml));
    assert!(xml.contains("<xNome>DESTINATARIO &amp; CIA &lt;SP&gt;</xNome>"));
}

#[test]
fn nfe_construida_volta_do_texto() {
    let nfe = Nfe::try_from(documento()).unwrap();

    let xml = nfe.try_to_string().unwrap();

    assert_eq!(Ok(Nfe::try_from(documento()).unwrap()), Nfe::from_str(&xml));
    assert_eq!(documento().try_to_string(), Some(xml));
}

#[test]
fn secoes_construidas_voltam() {
    let doc = documento();

    assert_eq!(Ok(identificacao()), Identificacao::parse(&doc.ide.serialize()));
    assert_eq!(Ok(endereco()), Endereco::parse(&endereco().serialize("enderDest")));
    assert_eq!(Ok(item(9)), Item::parse(&item(9).serialize()));
    assert_eq!(Ok(doc.totais), Totalizacao::parse(&doc.totais.serialize()));
    assert_eq!(Ok(doc.transporte), Transporte::parse(&doc.transporte.serialize()));
}

#[test]
fn texto_por_aparar_nao_e_valido() {
    let mut doc = documento();
    doc.emit.endereco.bairro = " Centro".to_string();

    assert!(!doc.emit.endereco.eh_valido());
    assert!(!doc.emit.eh_valido());
    assert!(!doc.eh_valido());
    assert_eq!(None, doc.try_to_string());
}

#[test]
fn frase_de_gtin_ausente_nao_e_gtin() {
    let mut doc = documento();
    doc.itens[1].produto.gtin = Some("Sem GTIN".to_string());

    assert!(doc.itens[0].eh_valido());
    assert!(!doc.itens[1].eh_valido());
    assert!(!doc.eh_valido());
    assert_eq!(None, doc.try_to_string());
    assert_ne!(
        Ok(doc.itens[1].clone()),
        Item::parse(&doc.itens[1].serialize())
    );
}

#[test]
fn documento_sem_itens_nao_e_valido() {
    let mut doc = documento();
    doc.itens.clear();

    assert!(!doc.eh_valido());
    assert_eq!(None, doc.try_to_string());
    let mut nfe = Nfe::try_from(documento()).unwrap();
    assert!(nfe.eh_valido());
    nfe.itens.clear();
    assert!(!nfe.eh_valido());
    assert_eq!(None, nfe.try_to_string());
}

#[test]
fn itens_de_mesmo_numero_nao_sao_validos() {
    let mut doc = documento();
    doc.itens.push(item(2));

    assert_eq!(Some(2), nfe::base::item_repetido(&doc.itens));
    assert!(!doc.eh_valido());
    assert_eq!(None, doc.try_to_string());
    assert_eq!(None, nfe::base::item_repetido(&documento().itens));
    assert_eq!(None, nfe::base::item_repetido(&[].to_vec()));
}

#[test]
fn instante_fora_do_alcance_nao_e_valido() {
    let mut ide = identificacao();
    ide.operacao.horario = Some(DataHora { segundos: i64::MAX, nanos: 0 });

    assert!(identificacao().eh_valido());
    assert!(!ide.eh_valido());
    assert_eq!(None, ide.try_to_string());
    assert!(identificacao().try_to_string().is_some());
}

#[test]
fn destinatario_incompleto_e_valido_na_base() {
    let mut doc = documento();
    doc.dest = Some(DestinatarioBase {
        cnpj: "58716523000119".to_string(),
        razao_social: None,
        endereco: None,
        ie: None,
        indicador_ie: IndicadorContribuicaoIe::NaoContribuinte,
    });

    let xml = doc.try_to_string().unwrap();

    assert!(xml.contains("<dest><CNPJ>58716523000119</CNPJ><indIEDest>9</indIEDest></dest>"));
    assert_eq!(Ok(doc), NfeBase::from_str(&xml));
}
