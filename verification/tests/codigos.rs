//! The code tables.

use nfe::base::{Error, TipoEscalar};
use nfe::campo::{codificar_codigo, decodificar_codigo};
use nfe::codigo::Codigo;
use nfe::{
    DestinoOperacao, EscalaRelevante, FinalidadeEmissao, FormatoImpressaoDanfe,
    IndicadorContribuicaoIe, ModalidadeBaseCalculoIcmsSt, ModalidadeFrete, ModeloDocumentoFiscal,
    OrigemMercadoria, TipoAmbiente, TipoConsumidor, TipoEmissao, TipoIntermediador, TipoOperacao,
    TipoPresencaComprador, TipoProcessoEmissao, VersaoLayout,
};

/// The variants that the codes from 0 to 255 stand for, with their codes.
fn tabela<T: Codigo>() -> Vec<(u8, T)> {
    (0..=255u8).filter_map(|c| T::de_codigo(c).map(|v| (c, v))).collect()
}

#[test]
fn codigos_documentados() {
    assert_eq!(
        vec![
            (1, IndicadorContribuicaoIe::Contribuinte),
            (2, IndicadorContribuicaoIe::Isento),
            (9, IndicadorContribuicaoIe::NaoContribuinte),
        ],
        tabela()
    );
    assert_eq!(
        vec![(55, ModeloDocumentoFiscal::Nfe), (65, ModeloDocumentoFiscal::Nfce)],
        tabela()
    );
    assert_eq!(
        vec![
            (0, FormatoImpressaoDanfe::SemGeracao),
            (1, FormatoImpressaoDanfe::NormalRetrato),
            (2, FormatoImpressaoDanfe::NormalPaisagem),
            (3, FormatoImpressaoDanfe::Simplificado),
            (4, FormatoImpressaoDanfe::Nfce),
            (5, FormatoImpressaoDanfe::NfceMensagemEletronica),
        ],
        tabela()
    );
    assert_eq!(vec![(1, TipoAmbiente::Producao), (2, TipoAmbiente::Homologacao)], tabela());
    assert_eq!(
        vec![
            (1, TipoEmissao::Normal),
            (2, TipoEmissao::ContigenciaFsIa),
            (3, TipoEmissao::ContingenciaScan),
            (4, TipoEmissao::ContigenciaEpec),
            (5, TipoEmissao::ContigenciaFsDa),
            (6, TipoEmissao::ContigenciaSvcAn),
            (7, TipoEmissao::ContigenciaSvcRs),
            (9, TipoEmissao::ContigenciaOfflineNfce),
        ],
        tabela()
    );
    assert_eq!(
        vec![
            (1, FinalidadeEmissao::Normal),
            (2, FinalidadeEmissao::Complementar),
            (3, FinalidadeEmissao::Ajuste),
            (4, FinalidadeEmissao::Devolucao),
        ],
        tabela()
    );
    assert_eq!(
        vec![
            (0, TipoProcessoEmissao::ViaAplicativoDoContribuinte),
            (1, TipoProcessoEmissao::AvulsaPeloFisco),
            (2, TipoProcessoEmissao::AvulsaPeloContribuinte),
            (3, TipoProcessoEmissao::ViaAplicativoDoFisco),
        ],
        tabela()
    );
    assert_eq!(vec![(0, TipoOperacao::Entrada), (1, TipoOperacao::Saida)], tabela());
    assert_eq!(
        vec![
            (1, DestinoOperacao::Interna),
            (2, DestinoOperacao::Interestadual),
            (3, DestinoOperacao::ComExterior),
        ],
        tabela()
    );
    assert_eq!(vec![(0, TipoConsumidor::Normal), (1, TipoConsumidor::Final)], tabela());
    assert_eq!(
        vec![
            (0, TipoPresencaComprador::NaoSeAplica),
            (1, TipoPresencaComprador::Presencial),
            (2, TipoPresencaComprador::ViaInternel),
            (3, TipoPresencaComprador::ViaTeleatendimento),
            (4, TipoPresencaComprador::NfceEmDomicilio),
            (5, TipoPresencaComprador::PresencialForaDoEstabelecimento),
            (9, TipoPresencaComprador::Outros),
        ],
        tabela()
    );
    assert_eq!(
        vec![(0, TipoIntermediador::SemIntermediador), (1, TipoIntermediador::EmSiteDeTerceiros)],
        tabela()
    );
    assert_eq!(vec![(1, EscalaRelevante::Sim), (2, EscalaRelevante::Nao)], tabela());
    assert_eq!(
        vec![
            (0, OrigemMercadoria::Nacional),
            (1, OrigemMercadoria::Estrangeira),
            (2, OrigemMercadoria::EstrangeiraAdquiridaMercadoInterno),
            (3, OrigemMercadoria::NacionalComImportacao40a70),
            (4, OrigemMercadoria::NacionalProducaoEmConformidade),
            (5, OrigemMercadoria::NacionalComImportacaoInferior40),
            (6, OrigemMercadoria::EstrangeiraImportacaoDiretaSemSimilarNacional),
            (7, OrigemMercadoria::EstrangeiraAdquiridaMercadoInternoSemSimilarNacional),
            (8, OrigemMercadoria::NacionalComImportacaoSuperior70),
        ],
        tabela()
    );
    assert_eq!(
        vec![
            (0, ModalidadeBaseCalculoIcmsSt::PrecoTabelado),
            (1, ModalidadeBaseCalculoIcmsSt::ListaNegativa),
            (2, ModalidadeBaseCalculoIcmsSt::ListaPositiva),
            (3, ModalidadeBaseCalculoIcmsSt::ListaNeutra),
            (4, ModalidadeBaseCalculoIcmsSt::MargemValorAgregado),
            (5, ModalidadeBaseCalculoIcmsSt::Pauta),
        ],
        tabela()
    );
    assert_eq!(
        vec![
            (0, ModalidadeFrete::ContratacaoPorContaRemetente),
            (1, ModalidadeFrete::ContratacaoPorContaDestinatario),
            (2, ModalidadeFrete::ContratacaoPorContaTerceiros),
            (3, ModalidadeFrete::TransportePorContaRemetente),
            (4, ModalidadeFrete::TransportePorContaDestinatario),
            (9, ModalidadeFrete::SemTransporte),
        ],
        tabela()
    );
}

#[test]
fn codigo_de_cada_variante() {
    for (c, v) in tabela::<TipoEmissao>() {
        assert_eq!(c, v.codigo());
    }
    for (c, v) in tabela::<ModalidadeFrete>() {
        assert_eq!(c, v.codigo());
        assert_eq!(c.to_string(), codificar_codigo(&v));
    }
    for (c, v) in tabela::<ModeloDocumentoFiscal>() {
        assert_eq!(c, v.codigo());
    }
}

#[test]
fn codigo_nao_documentado_e_erro() {
    let erro = Err(Error::CodigoDesconhecido("tpAmb".to_string(), "3".to_string()));
    assert_eq!(erro, decodificar_codigo::<TipoAmbiente>("3", "tpAmb"));
    assert_eq!(erro, decodificar_codigo::<TipoAmbiente>("3", "tpAmb"));
    assert_eq!(
        Err(Error::CodigoDesconhecido("tpAmb".to_string(), "0".to_string())),
        decodificar_codigo::<TipoAmbiente>("0", "tpAmb")
    );
    assert_eq!(
        Err(Error::CodigoDesconhecido("modFrete".to_string(), "5".to_string())),
        decodificar_codigo::<ModalidadeFrete>("5", "modFrete")
    );
    assert_eq!(
        Err(Error::CodigoDesconhecido("indEscala".to_string(), "0".to_string())),
        decodificar_codigo::<EscalaRelevante>("0", "indEscala")
    );
}

#[test]
fn codigo_que_nao_e_numero() {
    let erro = Err(Error::TipoInvalido("tpAmb".to_string(), TipoEscalar::Inteiro));
    assert_eq!(erro, decodificar_codigo::<TipoAmbiente>("S", "tpAmb"));
    assert_eq!(erro, decodificar_codigo::<TipoAmbiente>("", "tpAmb"));
    assert_eq!(erro, decodificar_codigo::<TipoAmbiente>("256", "tpAmb"));
}

#[test]
fn codigo_decodificado() {
    assert_eq!(Ok(TipoAmbiente::Homologacao), decodificar_codigo("2", "tpAmb"));
    assert_eq!(Ok(TipoAmbiente::Homologacao), decodificar_codigo("02", "tpAmb"));
    assert_eq!(Ok(ModeloDocumentoFiscal::Nfce), decodificar_codigo("65", "mod"));
    assert_eq!(Ok(IndicadorContribuicaoIe::NaoContribuinte), decodificar_codigo("9", "x"));
}

#[test]
fn versao_do_layout() {
    assert_eq!(Ok(VersaoLayout::V4_00), VersaoLayout::from_str("4.00"));
    assert_eq!("4.00", VersaoLayout::V4_00.to_string());
    assert_eq!(
        Err(Error::VersaoNaoSuportada("3.10".to_string())),
        VersaoLayout::from_str("3.10")
    );
    assert_eq!(Err(Error::VersaoNaoSuportada("4".to_string())), VersaoLayout::from_str("4"));
    assert_eq!(Err(Error::VersaoNaoSuportada("".to_string())), VersaoLayout::from_str(""));
}
