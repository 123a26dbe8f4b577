use prqldoc::mode::{is_prql_fence, prql_block_mode, PrqlBlockMode, MODE_PREFIX, TAG};

#[test]
fn tag_and_prefix() {
    assert_eq!(TAG, "prql");
    assert_eq!(MODE_PREFIX, "prql ");
}

#[test]
fn every_mode_has_its_suffix() {
    assert_eq!(prql_block_mode("prql no-eval"), Some(PrqlBlockMode::NoEval));
    assert_eq!(prql_block_mode("prql no-test"), Some(PrqlBlockMode::NoTest));
    assert_eq!(prql_block_mode("prql error"), Some(PrqlBlockMode::Error));
    assert_eq!(prql_block_mode("prql table"), Some(PrqlBlockMode::Table));
    assert_eq!(prql_block_mode("prql"), Some(PrqlBlockMode::Eval));
}

#[test]
fn empty_suffix_is_eval() {
    assert_eq!(prql_block_mode("prql "), Some(PrqlBlockMode::Eval));
}

#[test]
fn unknown_suffix_falls_back_to_eval() {
    assert_eq!(prql_block_mode("prql tabel"), Some(PrqlBlockMode::Eval));
    assert_eq!(prql_block_mode("prql no_eval"), Some(PrqlBlockMode::Eval));
    assert_eq!(prql_block_mode("prql ERROR"), Some(PrqlBlockMode::Eval));
    assert_eq!(prql_block_mode("prql error "), Some(PrqlBlockMode::Eval));
    assert_eq!(prql_block_mode("prql  table"), Some(PrqlBlockMode::Eval));
    assert_eq!(prql_block_mode("prql table error"), Some(PrqlBlockMode::Eval));
    assert_eq!(prql_block_mode("prql title=\"PRQL\""), Some(PrqlBlockMode::Eval));
}

#[test]
fn suffix_counts_only_after_tag_and_one_space() {
    assert_eq!(prql_block_mode("prqltable"), Some(PrqlBlockMode::Eval));
    assert_eq!(prql_block_mode("prql\ttable"), Some(PrqlBlockMode::Eval));
    assert_eq!(prql_block_mode("table"), Some(PrqlBlockMode::Eval));
    assert_eq!(prql_block_mode("sql error"), Some(PrqlBlockMode::Eval));
    assert_eq!(prql_block_mode(""), Some(PrqlBlockMode::Eval));
}

#[test]
fn classification_is_total() {
    let labels = ["", "prql", "rust", "prql no-eval", "prql 日本語", "\n", "prql error"];
    for label in labels {
        assert!(prql_block_mode(label).is_some(), "{:?}", label);
    }
}

#[test]
fn fences_are_recognized_by_the_tag() {
    assert!(is_prql_fence("prql"));
    assert!(is_prql_fence("prql error"));
    assert!(is_prql_fence("prql anything"));
    assert!(is_prql_fence("prqlx"));
    assert!(!is_prql_fence(""));
    assert!(!is_prql_fence("sql"));
    assert!(!is_prql_fence("rust"));
    assert!(!is_prql_fence(" prql"));
    assert!(!is_prql_fence("PRQL"));
    assert!(!is_prql_fence("prq"));
}
