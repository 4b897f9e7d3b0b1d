use gtranslate::encoder::{REFERER, REFERER_NAME, USER_AGENT, USER_AGENT_NAME};
use gtranslate::variant::CLASSIC_API_URL;
use gtranslate::{encode, prepare, Header, TranslateOptions, Variant, API_URL};

#[test]
fn endpoints_lie_under_translate_a() {
    assert_eq!(API_URL, "https://translate.google.com/translate_a/t");
    assert_eq!(CLASSIC_API_URL, "https://translate.google.com/translate_a/single");
    assert_eq!(Variant::Compact.endpoint(), API_URL);
    assert_eq!(Variant::Classic.endpoint(), CLASSIC_API_URL);
}

#[test]
fn client_tags_follow_the_variant() {
    assert_eq!(Variant::Compact.client_tag(), "p");
    assert_eq!(Variant::Classic.client_tag(), "gtx");
}

#[test]
fn encode_appends_the_parameters_in_order() {
    let opts = TranslateOptions::new()
        .set_source_lang("nl")
        .set_target_lang("tr")
        .query("hallo");
    let target = encode("https://example.org/x", &opts);
    assert_eq!(target.url, "https://example.org/x?client=p&sl=nl&tl=tr&dt=t&q=hallo");
}

#[test]
fn encode_does_not_escape() {
    let opts = TranslateOptions::new()
        .set_source_lang("nl")
        .set_target_lang("tr")
        .query("hallo ik ga vandaag hardlopen");
    let target = encode(API_URL, &opts);
    assert_eq!(
        target.url,
        "https://translate.google.com/translate_a/t?client=p&sl=nl&tl=tr&dt=t&q=hallo ik ga vandaag hardlopen"
    );
}

#[test]
fn encode_keeps_empty_fields() {
    let target = encode("", &TranslateOptions::new());
    assert_eq!(target.url, "?client=p&sl=&tl=&dt=t&q=");
}

#[test]
fn encode_keeps_text_beyond_ascii() {
    let opts = TranslateOptions::new().set_source_lang("tr").set_target_lang("nl").query("güneş & ay");
    let target = encode("b", &opts);
    assert_eq!(target.url, "b?client=p&sl=tr&tl=nl&dt=t&q=güneş & ay");
}

#[test]
fn encode_attaches_the_two_headers() {
    let target = encode(API_URL, &TranslateOptions::new());
    assert_eq!(
        target.headers,
        vec![
            Header { name: "Referer", value: "https://translate.google.com/" },
            Header {
                name: "User-Agent",
                value: "Mozilla/5.0 (Linux; Android 6.0; Nexus 5 Build/MRA58N) AppleWebKit/537.36 (KHTML, like Gecko) Chrome/129.0.0.0 Mobile Safari/537.36",
            },
        ]
    );
    assert_eq!(REFERER_NAME, "Referer");
    assert_eq!(USER_AGENT_NAME, "User-Agent");
    assert_eq!(target.headers[0].value, REFERER);
    assert_eq!(target.headers[1].value, USER_AGENT);
}

#[test]
fn prepare_classic_scenario() {
    let opts = TranslateOptions::for_variant(Variant::Classic)
        .set_source_lang("nl")
        .set_target_lang("tr")
        .query("hallo ik ga vandaag hardlopen");
    let target = prepare(Variant::Classic, &opts);
    assert_eq!(
        target.url,
        "https://translate.google.com/translate_a/single?client=gtx&sl=nl&tl=tr&dt=t&q=hallo ik ga vandaag hardlopen"
    );
    assert_eq!(target.headers.len(), 2);
}

#[test]
fn prepare_compact_scenario() {
    let opts = TranslateOptions::new().set_client("p").set_source_lang("nl").set_target_lang("tr").query("...");
    let target = prepare(Variant::Compact, &opts);
    assert_eq!(target.url, "https://translate.google.com/translate_a/t?client=p&sl=nl&tl=tr&dt=t&q=...");
    assert_eq!(target, encode(API_URL, &opts));
}

#[test]
fn prepare_twice_gives_the_same_target() {
    let opts = TranslateOptions::new().set_source_lang("nl").set_target_lang("tr").query("hallo");
    assert_eq!(prepare(Variant::Compact, &opts), prepare(Variant::Compact, &opts));
    assert_eq!(prepare(Variant::Classic, &opts), prepare(Variant::Classic, &opts));
}
