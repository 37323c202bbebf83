use rust_scaper::classify::{classify, classify_key, ClassificationRule};
use rust_scaper::sites::{StrandbergGuitarsCom, ThomannDe};
use rust_scaper::status::StockStatus;
use rust_scaper::text::normalize;

fn rule(phrase: &'static str, status: StockStatus) -> ClassificationRule {
    ClassificationRule { phrase, status }
}

#[test]
fn out_of_stock_phrase_is_out_of_stock() {
    let site = StrandbergGuitarsCom::site();
    assert_eq!(classify(&site.rules, "Out of stock"), StockStatus::OutOfStock);
}

#[test]
fn only_one_in_stock_is_in_stock() {
    let site = StrandbergGuitarsCom::site();
    assert_eq!(classify(&site.rules, "Only 1 in stock"), StockStatus::InStock);
}

#[test]
fn strandberg_table_lists_four_phrases() {
    let site = StrandbergGuitarsCom::site();
    assert_eq!(site.rules.len(), 4);
    assert_eq!(classify(&site.rules, "in stock"), StockStatus::InStock);
    assert_eq!(classify(&site.rules, "only 2 in stock"), StockStatus::InStock);
    assert_eq!(classify(&site.rules, "only 3 in stock"), StockStatus::Unknown);
}

#[test]
fn danish_in_stock_phrase_is_in_stock() {
    let site = ThomannDe::site();
    assert_eq!(classify(&site.rules, "på lager"), StockStatus::InStock);
}

#[test]
fn restock_window_is_out_of_stock() {
    let site = ThomannDe::site();
    assert_eq!(classify(&site.rules, "på lager indenfor 3-4 uger"), StockStatus::OutOfStock);
    assert_eq!(classify(&site.rules, "på lager indenfor 1-2 uger"), StockStatus::OutOfStock);
    assert_eq!(classify(&site.rules, "ikke på lager"), StockStatus::OutOfStock);
}

#[test]
fn unexpected_phrase_is_unknown() {
    let strandberg = StrandbergGuitarsCom::site();
    let thomann = ThomannDe::site();
    assert_eq!(classify(&strandberg.rules, "something unexpected"), StockStatus::Unknown);
    assert_eq!(classify(&thomann.rules, "something unexpected"), StockStatus::Unknown);
    assert_eq!(classify(&strandberg.rules, ""), StockStatus::Unknown);
}

#[test]
fn phrases_of_one_site_mean_nothing_on_the_other() {
    let strandberg = StrandbergGuitarsCom::site();
    let thomann = ThomannDe::site();
    assert_eq!(classify(&strandberg.rules, "på lager"), StockStatus::Unknown);
    assert_eq!(classify(&thomann.rules, "in stock"), StockStatus::Unknown);
}

#[test]
fn classification_is_repeatable() {
    let site = ThomannDe::site();
    for raw in ["på lager", "Ikke på lager", "  på lager indenfor 3-4 uger ", "maybe"] {
        let first = classify(&site.rules, raw);
        let second = classify(&site.rules, raw);
        assert_eq!(first, second);
    }
}

#[test]
fn case_is_folded_before_lookup() {
    let site = StrandbergGuitarsCom::site();
    assert_eq!(classify(&site.rules, "IN STOCK"), StockStatus::InStock);
    assert_eq!(classify(&site.rules, "OUT OF STOCK"), StockStatus::OutOfStock);
    let thomann = ThomannDe::site();
    assert_eq!(classify(&thomann.rules, "PÅ LAGER"), StockStatus::InStock);
}

#[test]
fn surrounding_white_space_is_dropped_before_lookup() {
    let site = StrandbergGuitarsCom::site();
    assert_eq!(classify(&site.rules, "  in stock\n"), StockStatus::InStock);
    assert_eq!(classify(&site.rules, "\t Only 2 In Stock \r\n"), StockStatus::InStock);
}

#[test]
fn inner_white_space_is_kept() {
    let site = StrandbergGuitarsCom::site();
    assert_eq!(classify(&site.rules, "in  stock"), StockStatus::Unknown);
    assert_eq!(classify(&site.rules, "instock"), StockStatus::Unknown);
}

#[test]
fn normalize_lowers_and_trims() {
    assert_eq!(normalize("  Out Of Stock \n"), "out of stock");
    assert_eq!(normalize("PÅ LAGER"), "på lager");
    assert_eq!(normalize("   "), "");
    assert_eq!(normalize(""), "");
}

#[test]
fn key_lookup_is_exact() {
    let site = StrandbergGuitarsCom::site();
    assert_eq!(classify_key(&site.rules, "in stock"), StockStatus::InStock);
    assert_eq!(classify_key(&site.rules, "In stock"), StockStatus::Unknown);
    assert_eq!(classify_key(&site.rules, " in stock"), StockStatus::Unknown);
    assert_eq!(classify_key(&site.rules, "in stoc"), StockStatus::Unknown);
    assert_eq!(classify_key(&site.rules, "in stock!"), StockStatus::Unknown);
}

#[test]
fn empty_table_knows_nothing() {
    let rules: Vec<ClassificationRule> = Vec::new();
    assert_eq!(classify_key(&rules, "in stock"), StockStatus::Unknown);
    assert_eq!(classify(&rules, "in stock"), StockStatus::Unknown);
}

#[test]
fn contradicting_rules_give_unknown() {
    let rules = vec![
        rule("available soon", StockStatus::InStock),
        rule("available soon", StockStatus::OutOfStock),
        rule("available", StockStatus::InStock),
    ];
    assert_eq!(classify_key(&rules, "available soon"), StockStatus::Unknown);
    assert_eq!(classify_key(&rules, "available"), StockStatus::InStock);
    let reversed = vec![
        rule("available soon", StockStatus::OutOfStock),
        rule("available soon", StockStatus::InStock),
    ];
    assert_eq!(classify_key(&reversed, "available soon"), StockStatus::Unknown);
}

#[test]
fn contradiction_is_not_undone_by_a_later_rule() {
    let rules = vec![
        rule("soon", StockStatus::InStock),
        rule("soon", StockStatus::OutOfStock),
        rule("soon", StockStatus::InStock),
    ];
    assert_eq!(classify_key(&rules, "soon"), StockStatus::Unknown);
    let rules = vec![
        rule("soon", StockStatus::Unknown),
        rule("soon", StockStatus::InStock),
    ];
    assert_eq!(classify_key(&rules, "soon"), StockStatus::Unknown);
}

#[test]
fn repeated_rule_is_no_contradiction() {
    let rules = vec![
        rule("sold out", StockStatus::OutOfStock),
        rule("other", StockStatus::InStock),
        rule("sold out", StockStatus::OutOfStock),
    ];
    assert_eq!(classify_key(&rules, "sold out"), StockStatus::OutOfStock);
}

#[test]
fn explicit_unknown_rule_gives_unknown() {
    let rules = vec![rule("ask us", StockStatus::Unknown)];
    assert_eq!(classify_key(&rules, "ask us"), StockStatus::Unknown);
}
