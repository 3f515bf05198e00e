use korea_investment_api::types::request::{
    BelongClassCode, DailyPriceParameter, PeriodicPriceParameter, ShareClassCode, TargetClassCode,
    TargetExclusionCode, VolumeRankParameter,
};
use korea_investment_api::types::{MarketCode, PeriodCode};

fn entry(key: &str, value: &str) -> (String, String) {
    (key.to_string(), value.to_string())
}

fn keys(pairs: &[(String, String)]) -> Vec<String> {
    pairs.iter().map(|p| p.0.clone()).collect()
}

fn once(pairs: &[(String, String)], key: &str) -> bool {
    pairs.iter().filter(|p| p.0 == key).count() == 1
}

fn no_targets() -> TargetClassCode {
    TargetClassCode {
        margin_30: false,
        margin_40: false,
        margin_50: false,
        margin_60: false,
        margin_100: false,
        credit_30: false,
        credit_40: false,
        credit_50: false,
        credit_60: false,
    }
}

fn no_exclusions() -> TargetExclusionCode {
    TargetExclusionCode {
        investment_alert: false,
        administrative: false,
        liquidation: false,
        unfaithful_disclosure: false,
        preferred: false,
        suspended: false,
    }
}

#[test]
fn daily_price_pairs_in_order() {
    let param =
        DailyPriceParameter::new(MarketCode::Stock, "005930".to_string(), PeriodCode::Day, true);
    assert_eq!(
        param.query_pairs(),
        vec![
            entry("FID_COND_MRKT_DIV_CODE", "J"),
            entry("FID_INPUT_ISCD", "005930"),
            entry("FID_PERIOD_DIV_CODE", "D"),
            entry("FID_ORG_ADJ_PRC", "0"),
        ]
    );
}

#[test]
fn daily_price_holds_each_key_once() {
    for market in [MarketCode::Stock, MarketCode::Etf, MarketCode::Etn] {
        for period in [PeriodCode::Day, PeriodCode::Week, PeriodCode::Month, PeriodCode::Year] {
            for adjusted in [true, false] {
                let pairs =
                    DailyPriceParameter::new(market, "FID_INPUT_ISCD".to_string(), period, adjusted)
                        .query_pairs();
                assert_eq!(pairs.len(), 4);
                for key in
                    ["FID_COND_MRKT_DIV_CODE", "FID_INPUT_ISCD", "FID_PERIOD_DIV_CODE", "FID_ORG_ADJ_PRC"]
                {
                    assert!(once(&pairs, key));
                }
                assert_eq!(pairs[0].1, market.as_str());
                assert_eq!(pairs[1].1, "FID_INPUT_ISCD");
                assert_eq!(pairs[2].1, period.as_str());
                assert_eq!(pairs[3].1, if adjusted { "0" } else { "1" });
            }
        }
    }
}

#[test]
fn daily_price_keeps_its_fields() {
    let param =
        DailyPriceParameter::new(MarketCode::Etn, "Q500001".to_string(), PeriodCode::Month, false);
    assert_eq!(param.market_code, MarketCode::Etn);
    assert_eq!(param.shortcode, "Q500001");
    assert_eq!(param.period_code, PeriodCode::Month);
    assert!(!param.is_adjust_price);
}

#[test]
fn periodic_price_pairs_in_order() {
    let param = PeriodicPriceParameter::new(
        MarketCode::Stock,
        "005930".to_string(),
        "20240101".to_string(),
        "20240131".to_string(),
        PeriodCode::Year,
        true,
    );
    assert_eq!(
        param.query_pairs(),
        vec![
            entry("FID_COND_MRKT_DIV_CODE", "J"),
            entry("FID_INPUT_ISCD", "005930"),
            entry("FID_INPUT_DATE_1", "20240101"),
            entry("FID_INPUT_DATE_2", "20240131"),
            entry("FID_PERIOD_DIV_CODE", "Y"),
            entry("FID_ORG_ADJ_PRC", "0"),
        ]
    );
}

#[test]
fn periodic_price_does_not_swap_its_days() {
    let param = PeriodicPriceParameter::new(
        MarketCode::Stock,
        "005930".to_string(),
        "20241231".to_string(),
        "20240101".to_string(),
        PeriodCode::Day,
        false,
    );
    let pairs = param.query_pairs();
    assert_eq!(pairs[2], entry("FID_INPUT_DATE_1", "20241231"));
    assert_eq!(pairs[3], entry("FID_INPUT_DATE_2", "20240101"));
    assert_eq!(pairs[5], entry("FID_ORG_ADJ_PRC", "1"));
}

#[test]
fn periodic_price_holds_each_key_once() {
    let pairs = PeriodicPriceParameter::new(
        MarketCode::Etf,
        "069500".to_string(),
        "".to_string(),
        "".to_string(),
        PeriodCode::Week,
        true,
    )
    .query_pairs();
    assert_eq!(
        keys(&pairs),
        vec![
            "FID_COND_MRKT_DIV_CODE",
            "FID_INPUT_ISCD",
            "FID_INPUT_DATE_1",
            "FID_INPUT_DATE_2",
            "FID_PERIOD_DIV_CODE",
            "FID_ORG_ADJ_PRC",
        ]
    );
    for key in keys(&pairs) {
        assert!(once(&pairs, &key));
    }
}

#[test]
fn volume_rank_pairs_in_order() {
    let param = VolumeRankParameter::new(
        "0001".to_string(),
        ShareClassCode::Common,
        BelongClassCode::TransactionAmount,
        TargetClassCode { margin_30: true, credit_60: true, ..no_targets() },
        TargetExclusionCode { administrative: true, suspended: true, ..no_exclusions() },
        Some(1_000),
        Some(50_000),
        Some(100_000),
    );
    assert_eq!(
        param.query_pairs(),
        vec![
            entry("FID_COND_MRKT_DIV_CODE", "J"),
            entry("FID_COND_SCR_DIV_CODE", "20171"),
            entry("FID_INPUT_ISCD", "0001"),
            entry("FID_DIV_CLS_CODE", "1"),
            entry("FID_BLNG_CLS_CODE", "3"),
            entry("FID_TRGT_CLS_CODE", "100000001"),
            entry("FID_TRGT_EXLS_CLS_CODE", "010001"),
            entry("FID_INPUT_PRICE_1", "1000"),
            entry("FID_INPUT_PRICE_2", "50000"),
            entry("FID_VOL_CNT", "100000"),
            entry("FID_INPUT_DATE_1", ""),
        ]
    );
}

#[test]
fn volume_rank_without_bounds_sends_blanks() {
    let param = VolumeRankParameter::new(
        "0000".to_string(),
        ShareClassCode::Whole,
        BelongClassCode::AverageVolume,
        no_targets(),
        no_exclusions(),
        None,
        None,
        None,
    );
    let pairs = param.query_pairs();
    assert_eq!(pairs[7], entry("FID_INPUT_PRICE_1", ""));
    assert_eq!(pairs[8], entry("FID_INPUT_PRICE_2", ""));
    assert_eq!(pairs[9], entry("FID_VOL_CNT", ""));
}

#[test]
fn volume_rank_tells_no_bound_from_a_bound_of_zero() {
    let param = VolumeRankParameter::new(
        "0000".to_string(),
        ShareClassCode::Whole,
        BelongClassCode::AverageVolume,
        no_targets(),
        no_exclusions(),
        Some(0),
        None,
        Some(u32::MAX),
    );
    let pairs = param.query_pairs();
    assert_eq!(pairs[7].1, "0");
    assert_eq!(pairs[8].1, "");
    assert_eq!(pairs[9].1, "4294967295");
}

#[test]
fn volume_rank_holds_each_key_once() {
    let pairs = VolumeRankParameter::new(
        "0000".to_string(),
        ShareClassCode::Preferred,
        BelongClassCode::AverageAmountTurnover,
        no_targets(),
        no_exclusions(),
        None,
        Some(1),
        None,
    )
    .query_pairs();
    assert_eq!(
        keys(&pairs),
        vec![
            "FID_COND_MRKT_DIV_CODE",
            "FID_COND_SCR_DIV_CODE",
            "FID_INPUT_ISCD",
            "FID_DIV_CLS_CODE",
            "FID_BLNG_CLS_CODE",
            "FID_TRGT_CLS_CODE",
            "FID_TRGT_EXLS_CLS_CODE",
            "FID_INPUT_PRICE_1",
            "FID_INPUT_PRICE_2",
            "FID_VOL_CNT",
            "FID_INPUT_DATE_1",
        ]
    );
    for key in keys(&pairs) {
        assert!(once(&pairs, &key));
    }
}

#[test]
fn share_class_codes() {
    assert_eq!(ShareClassCode::Whole.as_str(), "0");
    assert_eq!(ShareClassCode::Common.as_str(), "1");
    assert_eq!(ShareClassCode::Preferred.as_str(), "2");
}

#[test]
fn belong_class_codes() {
    assert_eq!(BelongClassCode::AverageVolume.as_str(), "0");
    assert_eq!(BelongClassCode::VolumeIncreaseRate.as_str(), "1");
    assert_eq!(BelongClassCode::AverageVolumeTurnover.as_str(), "2");
    assert_eq!(BelongClassCode::TransactionAmount.as_str(), "3");
    assert_eq!(BelongClassCode::AverageAmountTurnover.as_str(), "4");
}

#[test]
fn target_class_flags_keep_their_places() {
    assert_eq!(no_targets().to_code(), "000000000");
    assert_eq!(TargetClassCode { margin_30: true, ..no_targets() }.to_code(), "100000000");
    assert_eq!(TargetClassCode { margin_40: true, ..no_targets() }.to_code(), "010000000");
    assert_eq!(TargetClassCode { margin_50: true, ..no_targets() }.to_code(), "001000000");
    assert_eq!(TargetClassCode { margin_60: true, ..no_targets() }.to_code(), "000100000");
    assert_eq!(TargetClassCode { margin_100: true, ..no_targets() }.to_code(), "000010000");
    assert_eq!(TargetClassCode { credit_30: true, ..no_targets() }.to_code(), "000001000");
    assert_eq!(TargetClassCode { credit_40: true, ..no_targets() }.to_code(), "000000100");
    assert_eq!(TargetClassCode { credit_50: true, ..no_targets() }.to_code(), "000000010");
    assert_eq!(TargetClassCode { credit_60: true, ..no_targets() }.to_code(), "000000001");
}

#[test]
fn target_exclusion_flags_keep_their_places() {
    assert_eq!(no_exclusions().to_code(), "000000");
    assert_eq!(
        TargetExclusionCode { investment_alert: true, ..no_exclusions() }.to_code(),
        "100000"
    );
    assert_eq!(TargetExclusionCode { administrative: true, ..no_exclusions() }.to_code(), "010000");
    assert_eq!(TargetExclusionCode { liquidation: true, ..no_exclusions() }.to_code(), "001000");
    assert_eq!(
        TargetExclusionCode { unfaithful_disclosure: true, ..no_exclusions() }.to_code(),
        "000100"
    );
    assert_eq!(TargetExclusionCode { preferred: true, ..no_exclusions() }.to_code(), "000010");
    assert_eq!(TargetExclusionCode { suspended: true, ..no_exclusions() }.to_code(), "000001");
}

#[test]
fn different_parameter_sets_encode_differently() {
    let a = DailyPriceParameter::new(MarketCode::Stock, "005930".to_string(), PeriodCode::Day, true);
    let b = DailyPriceParameter::new(MarketCode::Stock, "005930".to_string(), PeriodCode::Day, false);
    let c = DailyPriceParameter::new(MarketCode::Stock, "005931".to_string(), PeriodCode::Day, true);
    let d = DailyPriceParameter::new(MarketCode::Etf, "005930".to_string(), PeriodCode::Day, true);
    let e = DailyPriceParameter::new(MarketCode::Stock, "005930".to_string(), PeriodCode::Week, true);
    let all = [a.query_pairs(), b.query_pairs(), c.query_pairs(), d.query_pairs(), e.query_pairs()];
    for i in 0..all.len() {
        for j in 0..all.len() {
            assert_eq!(all[i] == all[j], i == j);
        }
    }
}
