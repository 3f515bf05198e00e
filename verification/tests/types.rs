use korea_investment_api::auth::Auth;
use korea_investment_api::types::{Account, Environment, MarketCode, PeriodCode, TrId};

#[test]
fn environments_have_their_documented_hosts_and_ports() {
    assert_eq!(Environment::Real.endpoint_url(), "https://openapi.koreainvestment.com:9443");
    assert_eq!(Environment::Virtual.endpoint_url(), "https://openapivts.koreainvestment.com:29443");
    let real = url::Url::parse(Environment::Real.endpoint_url()).unwrap();
    assert_eq!(real.scheme(), "https");
    assert_eq!(real.port(), Some(9443));
    let simulated = url::Url::parse(Environment::Virtual.endpoint_url()).unwrap();
    assert_eq!(simulated.scheme(), "https");
    assert_eq!(simulated.port(), Some(29443));
    assert_ne!(real.host_str(), simulated.host_str());
}

#[test]
fn market_codes() {
    assert_eq!(MarketCode::Stock.as_str(), "J");
    assert_eq!(MarketCode::Etf.as_str(), "ETF");
    assert_eq!(MarketCode::Etn.as_str(), "ETN");
}

#[test]
fn period_codes() {
    assert_eq!(PeriodCode::Day.as_str(), "D");
    assert_eq!(PeriodCode::Week.as_str(), "W");
    assert_eq!(PeriodCode::Month.as_str(), "M");
    assert_eq!(PeriodCode::Year.as_str(), "Y");
}

#[test]
fn transaction_identifiers_are_one_per_operation() {
    assert_eq!(TrId::DailyPrice.as_str(), "FHKST01010400");
    assert_eq!(TrId::PeriodicPrice.as_str(), "FHKST03010100");
    assert_eq!(TrId::VolumeRank.as_str(), "FHPST01710000");
    assert_ne!(TrId::DailyPrice.as_str(), TrId::PeriodicPrice.as_str());
    assert_ne!(TrId::DailyPrice.as_str(), TrId::VolumeRank.as_str());
    assert_ne!(TrId::PeriodicPrice.as_str(), TrId::VolumeRank.as_str());
}

#[test]
fn paths_are_one_per_operation() {
    assert_eq!(TrId::DailyPrice.path_str(), "/uapi/domestic-stock/v1/quotations/inquire-daily-price");
    assert_eq!(
        TrId::PeriodicPrice.path_str(),
        "/uapi/domestic-stock/v1/quotations/inquire-daily-itemchartprice"
    );
    assert_eq!(TrId::VolumeRank.path_str(), "/uapi/domestic-stock/v1/quotations/volume-rank");
}

#[test]
fn account_keeps_its_parts() {
    let account = Account::new("12345678".to_string(), "01".to_string());
    assert_eq!(account.cano, "12345678");
    assert_eq!(account.acnt_prdt_cd, "01");
    let copy = account.clone();
    assert_eq!(copy.cano, "12345678");
    assert_eq!(copy.acnt_prdt_cd, "01");
}

#[test]
fn auth_hands_out_what_it_was_given() {
    let auth = Auth::new("K".to_string(), "S".to_string(), Some("T".to_string()));
    assert_eq!(auth.get_appkey(), "K");
    assert_eq!(auth.get_appsecret(), "S");
    assert_eq!(auth.get_token(), Some("T".to_string()));
    let copy = auth.clone();
    assert_eq!(copy.get_appkey(), "K");
    assert_eq!(copy.get_appsecret(), "S");
    assert_eq!(copy.get_token(), Some("T".to_string()));
}

#[test]
fn auth_without_a_token_reports_none() {
    let auth = Auth::new("K".to_string(), "S".to_string(), None);
    assert_eq!(auth.get_token(), None);
    assert_eq!(auth.clone().get_token(), None);
}
