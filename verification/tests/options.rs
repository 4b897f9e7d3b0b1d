use gtranslate::options::DST_TARGET;
use gtranslate::variant::{CLASSIC_CLIENT, COMPACT_CLIENT};
use gtranslate::{TranslateOptions, Variant};

#[test]
fn new_request_has_compact_defaults() {
    let opts = TranslateOptions::new();
    assert_eq!(opts.client, "p");
    assert_eq!(opts.source_lang, "");
    assert_eq!(opts.target_lang, "");
    assert_eq!(opts.dst_target, "t");
    assert_eq!(opts.query, "");
}

#[test]
fn default_equals_new() {
    assert_eq!(TranslateOptions::default(), TranslateOptions::new());
}

#[test]
fn constants_have_the_protocol_values() {
    assert_eq!(DST_TARGET, "t");
    assert_eq!(COMPACT_CLIENT, "p");
    assert_eq!(CLASSIC_CLIENT, "gtx");
}

#[test]
fn request_for_each_variant_starts_with_its_client() {
    let classic = TranslateOptions::for_variant(Variant::Classic);
    assert_eq!(classic.client, "gtx");
    assert_eq!(classic.dst_target, "t");
    assert_eq!(classic.source_lang, "");
    assert_eq!(classic.target_lang, "");
    assert_eq!(classic.query, "");
    let compact = TranslateOptions::for_variant(Variant::Compact);
    assert_eq!(compact, TranslateOptions::new());
}

#[test]
fn set_client_changes_only_the_client() {
    let opts = TranslateOptions::new().set_client("gtx");
    assert_eq!(opts.client, "gtx");
    assert_eq!(opts.source_lang, "");
    assert_eq!(opts.target_lang, "");
    assert_eq!(opts.dst_target, "t");
    assert_eq!(opts.query, "");
}

#[test]
fn set_source_lang_changes_only_the_source() {
    let opts = TranslateOptions::new().set_source_lang("nl");
    assert_eq!(opts.source_lang, "nl");
    assert_eq!(opts.client, "p");
    assert_eq!(opts.target_lang, "");
    assert_eq!(opts.dst_target, "t");
    assert_eq!(opts.query, "");
}

#[test]
fn set_target_lang_changes_only_the_target() {
    let opts = TranslateOptions::new().set_target_lang("tr");
    assert_eq!(opts.target_lang, "tr");
    assert_eq!(opts.client, "p");
    assert_eq!(opts.source_lang, "");
    assert_eq!(opts.dst_target, "t");
    assert_eq!(opts.query, "");
}

#[test]
fn set_dst_target_changes_only_the_destination() {
    let opts = TranslateOptions::new().set_dst_target("at");
    assert_eq!(opts.dst_target, "at");
    assert_eq!(opts.client, "p");
    assert_eq!(opts.source_lang, "");
    assert_eq!(opts.target_lang, "");
    assert_eq!(opts.query, "");
}

#[test]
fn query_changes_only_the_query() {
    let opts = TranslateOptions::new().query("hallo");
    assert_eq!(opts.query, "hallo");
    assert_eq!(opts.client, "p");
    assert_eq!(opts.source_lang, "");
    assert_eq!(opts.target_lang, "");
    assert_eq!(opts.dst_target, "t");
}

#[test]
fn setters_chain() {
    let opts = TranslateOptions::new()
        .set_client("p")
        .set_source_lang("nl")
        .set_target_lang("tr")
        .query("hallo ik ga vandaag hardlopen");
    assert_eq!(opts.client, "p");
    assert_eq!(opts.source_lang, "nl");
    assert_eq!(opts.target_lang, "tr");
    assert_eq!(opts.dst_target, "t");
    assert_eq!(opts.query, "hallo ik ga vandaag hardlopen");
}

#[test]
fn a_later_setting_replaces_an_earlier_one() {
    let opts = TranslateOptions::new().set_target_lang("tr").set_target_lang("de");
    assert_eq!(opts.target_lang, "de");
}

#[test]
fn empty_fields_are_accepted_at_construction() {
    let opts = TranslateOptions::new().set_target_lang("").query("");
    assert_eq!(opts.target_lang, "");
    assert_eq!(opts.query, "");
}
