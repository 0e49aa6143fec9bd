use btc_landing::language::{choose_language, is_negotiable, resolve, same_text, Language};

#[test]
fn query_value_wins_over_header() {
    for (code, lang) in [
        ("en", Language::English),
        ("es", Language::Spanish),
        ("pt", Language::Portuguese),
    ] {
        assert_eq!(resolve(Some(code), None), lang);
        assert_eq!(resolve(Some(code), Some("pt;q=1.0,es;q=0.9,en;q=0.8")), lang);
        assert_eq!(resolve(Some(code), Some("fr")), lang);
    }
}

#[test]
fn highest_weight_supported_tag_wins() {
    assert_eq!(resolve(None, Some("es;q=0.8,en;q=0.5")), Language::Spanish);
}

#[test]
fn weight_order_not_header_order() {
    assert_eq!(resolve(None, Some("en;q=0.2, pt;q=0.9")), Language::Portuguese);
}

#[test]
fn equal_weights_keep_header_order() {
    assert_eq!(resolve(None, Some("pt;q=0.5,es;q=0.5")), Language::Portuguese);
    assert_eq!(resolve(None, Some("es,pt")), Language::Spanish);
}

#[test]
fn no_supported_tag_gives_english() {
    assert_eq!(resolve(None, Some("fr;q=0.9,de;q=0.8")), Language::English);
}

#[test]
fn no_header_gives_english() {
    assert_eq!(resolve(None, None), Language::English);
}

#[test]
fn malformed_header_gives_english() {
    assert_eq!(resolve(None, Some("")), Language::English);
    assert_eq!(resolve(None, Some(";;;,,,==")), Language::English);
    assert_eq!(resolve(None, Some("not a header at all")), Language::English);
    assert_eq!(resolve(None, Some("es;q=NaN,pt;q=0.5")), Language::English);
}

#[test]
fn unsupported_query_falls_through_to_header() {
    assert_eq!(resolve(Some("fr"), Some("pt;q=1.0")), Language::Portuguese);
    assert_eq!(resolve(Some("ES"), None), Language::English);
}

#[test]
fn tags_holding_nan_are_negotiated() {
    assert_eq!(resolve(None, Some("nan,pt")), Language::Portuguese);
    assert_eq!(resolve(None, Some("es-x-banana,pt;q=0.4")), Language::Portuguese);
    assert_eq!(resolve(None, Some("nan;q=0.9,es;q=0.5")), Language::Spanish);
    assert_eq!(resolve(None, Some("es,=nan")), Language::Spanish);
    assert_eq!(resolve(None, Some("es;q=0.5;x=nan")), Language::Spanish);
}

#[test]
fn region_tags_do_not_match() {
    assert_eq!(resolve(None, Some("es-ES,pt-BR;q=0.9,*;q=0.1")), Language::English);
}

#[test]
fn codes_round_trip() {
    for lang in [Language::English, Language::Spanish, Language::Portuguese] {
        assert_eq!(Language::from_code(lang.code()), Some(lang));
    }
    assert_eq!(Language::English.code(), "en");
    assert_eq!(Language::Spanish.code(), "es");
    assert_eq!(Language::Portuguese.code(), "pt");
    assert_eq!(Language::from_code("e"), None);
}

#[test]
fn first_language_tag_is_chosen() {
    let tags = vec!["fr".to_string(), "pt".to_string(), "es".to_string()];
    assert_eq!(choose_language(&tags), Language::Portuguese);
    assert_eq!(choose_language(&Vec::new()), Language::English);
}

#[test]
fn nan_weights_are_not_negotiable() {
    assert!(is_negotiable("es;q=0.8,en;q=0.5"));
    assert!(!is_negotiable("es;q=n a N"));
    assert!(!is_negotiable("es;q=-NaN,pt"));
    assert!(!is_negotiable("es;q=+nan;x=1"));
    assert!(is_negotiable("nan,pt"));
    assert!(is_negotiable("es;q=nano"));
    assert!(is_negotiable("es;x=1;q=nan"));
    assert!(is_negotiable("es;q=1=nan"));
    assert!(is_negotiable("es,=nan"));
    assert!(!is_negotiable("pt,es ; q = NAN"));
    assert!(same_text("abc", "abc"));
    assert!(!same_text("abc", "abd"));
}
