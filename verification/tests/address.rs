use korea_investment_api::address::{build_url, fits, BASE_GROWTH, MAX_BASE, MAX_URL};
use korea_investment_api::{Error, UrlError};

fn pair(key: &str, value: &str) -> (String, String) {
    (key.to_string(), value.to_string())
}

#[test]
fn build_url_appends_the_pairs_as_a_query() {
    let pairs = vec![pair("lang", "rust"), pair("browser", "servo")];
    let url = build_url("https://example.net", &pairs).unwrap();
    assert_eq!(url, "https://example.net/?lang=rust&browser=servo");
}

#[test]
fn build_url_keeps_an_existing_query() {
    let pairs = vec![pair("lang", "rust")];
    let url = build_url("https://example.net?dont=clobberme", &pairs).unwrap();
    assert_eq!(url, "https://example.net/?dont=clobberme&lang=rust");
}

#[test]
fn build_url_escapes_what_a_query_cannot_hold() {
    let pairs = vec![pair("q", "bar & baz"), pair("saisons", "\u{00C9}t\u{00E9}+hiver")];
    let url = build_url("https://example.net/", &pairs).unwrap();
    assert_eq!(url, "https://example.net/?q=bar+%26+baz&saisons=%C3%89t%C3%A9%2Bhiver");
}

#[test]
fn build_url_result_differs_from_its_input() {
    let base = "https://openapi.koreainvestment.com:9443/uapi";
    let url = build_url(base, &vec![pair("k", "v")]).unwrap();
    assert_ne!(url, base);
    assert_eq!(url, "https://openapi.koreainvestment.com:9443/uapi?k=v");
}

#[test]
fn build_url_round_trips_through_the_parser() {
    let pairs = vec![pair("a b", "c=d&e"), pair("", ""), pair("한글", "/?#")];
    let url = build_url("https://example.net/path", &pairs).unwrap();
    let parsed = url::Url::parse(&url).unwrap();
    let back: Vec<(String, String)> =
        parsed.query_pairs().map(|(k, v)| (k.into_owned(), v.into_owned())).collect();
    assert_eq!(back, pairs);
    assert_eq!(parsed.path(), "/path");
}

#[test]
fn build_url_rejects_a_relative_base() {
    let r = build_url("uapi/domestic-stock", &vec![pair("k", "v")]);
    assert_eq!(r, Err(Error::Url(UrlError::Rejected(url::ParseError::RelativeUrlWithoutBase))));
}

#[test]
fn build_url_rejects_an_empty_host() {
    let r = build_url("https://", &Vec::new());
    assert_eq!(r, Err(Error::Url(UrlError::Rejected(url::ParseError::EmptyHost))));
}

#[test]
fn build_url_rejects_a_bad_port() {
    let r = build_url("https://example.net:99999/", &Vec::new());
    assert_eq!(r, Err(Error::Url(UrlError::Rejected(url::ParseError::InvalidPort))));
}

#[test]
fn build_url_rejects_an_oversize_base() {
    let base = format!("https://example.net/{}", "a".repeat(MAX_BASE as usize));
    assert_eq!(build_url(&base, &Vec::new()), Err(Error::Url(UrlError::Oversize)));
}

#[test]
fn build_url_rejects_pairs_that_tip_a_long_base_over() {
    let base = format!("https://example.net/{}", "a".repeat(MAX_BASE as usize - 20));
    assert!(build_url(&base, &Vec::new()).is_ok());
    let pairs = vec![pair(&"k".repeat(43), &"v".repeat(42))];
    assert_eq!(build_url(&base, &pairs), Err(Error::Url(UrlError::Oversize)));
}

#[test]
fn oversize_comes_before_a_parse_failure() {
    let base = "a".repeat(MAX_BASE as usize + 1);
    assert_eq!(build_url(&base, &Vec::new()), Err(Error::Url(UrlError::Oversize)));
    let small = build_url("not a url", &Vec::new());
    assert_eq!(small, Err(Error::Url(UrlError::Rejected(url::ParseError::RelativeUrlWithoutBase))));
}

#[test]
fn build_url_takes_long_values_and_many_pairs() {
    let long = "v".repeat(1_000_000);
    let mut pairs: Vec<(String, String)> = (0..1_000).map(|_| pair("k", "v")).collect();
    pairs.push(pair("long", &long));
    let url = build_url("https://example.net/", &pairs).unwrap();
    let parsed = url::Url::parse(&url).unwrap();
    let back: Vec<(String, String)> =
        parsed.query_pairs().map(|(k, v)| (k.into_owned(), v.into_owned())).collect();
    assert_eq!(back, pairs);
}

#[test]
fn fits_accepts_the_longest_base() {
    let base = "b".repeat(MAX_BASE as usize);
    assert!(fits(&base, &Vec::new()));
    assert!(fits("", &Vec::new()));
}

#[test]
fn fits_rejects_a_base_one_byte_longer() {
    let base = "b".repeat(MAX_BASE as usize + 1);
    assert!(!fits(&base, &Vec::new()));
}

#[test]
fn fits_counts_three_bytes_for_each_byte_of_a_pair() {
    let base = "b".repeat(MAX_BASE as usize);
    let left = MAX_URL - (BASE_GROWTH * MAX_BASE + BASE_GROWTH);
    assert_eq!(left, 255);
    assert!(fits(&base, &vec![pair(&"k".repeat(42), &"v".repeat(42))]));
    assert!(fits(&base, &vec![pair(&"k".repeat(84), "")]));
    assert!(fits(&base, &vec![pair("", &"v".repeat(84))]));
    assert!(!fits(&base, &vec![pair(&"k".repeat(43), &"v".repeat(42))]));
    assert!(!fits(&base, &vec![pair(&"k".repeat(85), "")]));
    assert!(!fits(&base, &vec![pair("", &"v".repeat(85))]));
}

#[test]
fn fits_counts_two_bytes_for_each_pair() {
    let base = "b".repeat(MAX_BASE as usize);
    let empty: Vec<(String, String)> = (0..127).map(|_| pair("", "")).collect();
    assert!(fits(&base, &empty));
    let more: Vec<(String, String)> = (0..128).map(|_| pair("", "")).collect();
    assert!(!fits(&base, &more));
}

#[test]
fn fits_adds_up_every_pair() {
    let base = "b".repeat(MAX_BASE as usize);
    let ten = pair("kkkkkkkkkk", "vvvvvvvvvv");
    let four = vec![ten.clone(), ten.clone(), ten.clone(), ten.clone()];
    assert!(fits(&base, &four));
    let mut within = four.clone();
    within.push(pair("", "v"));
    assert!(fits(&base, &within));
    let mut beyond = four.clone();
    beyond.push(pair("k", "v"));
    assert!(!fits(&base, &beyond));
    let mut first = vec![pair("k", "v")];
    first.extend(four);
    assert!(!fits(&base, &first));
}

#[test]
fn fits_counts_bytes_not_characters() {
    let within = "\u{D55C}".repeat(5_592_404);
    assert_eq!(within.len(), 16_777_212);
    assert!(fits(&within, &Vec::new()));
    let beyond = "\u{D55C}".repeat(5_592_405);
    assert_eq!(beyond.chars().count(), 5_592_405);
    assert!(!fits(&beyond, &Vec::new()));
    assert!(fits("", &vec![pair("k", "v"), pair("", &beyond)]));
}

#[test]
fn the_limits_are_what_the_contract_names() {
    assert_eq!(MAX_URL, 4_294_967_295);
    assert_eq!(BASE_GROWTH, 256);
    assert_eq!(MAX_BASE, 16_777_214);
    assert!(BASE_GROWTH * MAX_BASE + BASE_GROWTH <= MAX_URL);
    assert!(BASE_GROWTH * (MAX_BASE + 1) + BASE_GROWTH > MAX_URL);
}

#[test]
fn a_parsed_base_stays_within_its_allowance() {
    let bases = [
        "http:a".to_string(),
        "https://1/".to_string(),
        "https://0x7f.1/".to_string(),
        "https://[::]/".to_string(),
        "https://[1:2:3:4:5:6:7:8]/".to_string(),
        "file:c|/x".to_string(),
        "https://example.net/a b\u{D55C}\"<>`{}".to_string(),
        "https://u s:p w@example.net/?q= \u{D55C}#f \u{D55C}".to_string(),
        "https://\u{FDFA}/".to_string(),
        format!("https://{}/", "\u{FDFA}".repeat(3)),
        format!("https://{}/", "\u{FDFA}.".repeat(40)),
        format!("https://{}/", "\u{00E9}.".repeat(100)),
        format!("https://{}/", "\u{10FFFD}\u{00E9}".repeat(20)),
        format!("x:{}", " \u{10FFFD}".repeat(1_000)),
    ];
    let mut parsed = 0;
    for base in bases.iter() {
        if let Ok(url) = build_url(base, &Vec::new()) {
            parsed += 1;
            assert!(url.len() > base.len());
            assert!(url.len() as u64 <= BASE_GROWTH * base.len() as u64 + BASE_GROWTH);
        }
    }
    assert!(parsed >= 10);
}
