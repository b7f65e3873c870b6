use beancount_completion::date::Date;
use beancount_completion::items::CompletionItem;
use beancount_completion::knowledge::{DocumentData, KnowledgeBase};
use beancount_completion::resolve::{completion, completion_today};
use beancount_completion::syntax::{NodeContext, SyntaxKind};

fn node(kind: SyntaxKind, text: &str) -> NodeContext {
    NodeContext {
        kind,
        text: text.to_string(),
        parent: None,
        grandparent: None,
        prev_sibling: None,
        prev_named_sibling: None,
    }
}

fn one_doc_kb(accounts: &[&str], strings: &[&str]) -> KnowledgeBase {
    KnowledgeBase {
        docs: vec![DocumentData {
            uri: "file:///ledger.beancount".to_string(),
            accounts: accounts.iter().map(|a| a.to_string()).collect(),
            strings: strings.iter().map(|s| s.to_string()).collect(),
        }],
    }
}

fn a_date() -> Date {
    Date { year: 2023, month: 1, day: 15 }
}

fn labels(items: &[CompletionItem]) -> Vec<String> {
    items.iter().map(|it| it.label.clone()).collect()
}

#[test]
fn no_covering_node_yields_none() {
    let kb = one_doc_kb(&["Assets:Bank"], &["Groceries"]);
    let r = completion(&None, None, 0, a_date(), &kb);
    assert!(r.is_none());
    let r = completion(&None, Some("2"), 1, a_date(), &kb);
    assert!(r.is_none());
}

#[test]
fn date_trigger_scenario() {
    let kb = one_doc_kb(&[], &[]);
    let ctx = Some(node(SyntaxKind::Other, ""));
    let today = Date { year: 2023, month: 1, day: 15 };
    let items = completion(&ctx, Some("2"), 1, today, &kb).unwrap();
    assert_eq!(items.len(), 4);
    assert_eq!(items[0].label, "2023-01-15");
    assert_eq!(items[0].detail, "today");
    assert_eq!(items[1].label, "2023-01-");
    assert_eq!(items[1].detail, "this month");
    assert_eq!(items[2].label, "2022-12-");
    assert_eq!(items[2].detail, "prev month");
    assert_eq!(items[3].label, "2023-02-");
    assert_eq!(items[3].detail, "next month");
}

#[test]
fn date_trigger_wins_regardless_of_node_kind() {
    let kb = one_doc_kb(&["Assets:Bank"], &["Groceries"]);
    for kind in [
        SyntaxKind::Error,
        SyntaxKind::Identifier,
        SyntaxKind::StringLiteral,
        SyntaxKind::Other,
    ] {
        let ctx = Some(node(kind, "\"x"));
        let items = completion(&ctx, Some("2"), 0, a_date(), &kb).unwrap();
        assert_eq!(items.len(), 4);
        assert_eq!(items[0].detail, "today");
    }
}

#[test]
fn date_trigger_at_offset_two_falls_through() {
    let kb = one_doc_kb(&["Assets:Bank"], &[]);
    let ctx = Some(node(SyntaxKind::Identifier, "As"));
    let items = completion(&ctx, Some("2"), 2, a_date(), &kb).unwrap();
    assert_eq!(labels(&items), vec!["Assets:Bank"]);
    assert_eq!(items[0].detail, "Beancount Account");
}

#[test]
fn other_trigger_characters_are_ignored() {
    let kb = one_doc_kb(&["Assets:Bank"], &[]);
    let ctx = Some(node(SyntaxKind::Identifier, "As"));
    let items = completion(&ctx, Some("3"), 0, a_date(), &kb).unwrap();
    assert_eq!(labels(&items), vec!["Assets:Bank"]);
    let items = completion(&ctx, Some("22"), 0, a_date(), &kb).unwrap();
    assert_eq!(labels(&items), vec!["Assets:Bank"]);
}

#[test]
fn account_scenario() {
    let kb = one_doc_kb(&["Assets:Bank", "Expenses:Food"], &[]);
    let ctx = Some(node(SyntaxKind::Identifier, "A"));
    let items = completion(&ctx, None, 4, a_date(), &kb).unwrap();
    assert_eq!(labels(&items), vec!["Assets:Bank", "Expenses:Food"]);
    assert!(items.iter().all(|it| it.detail == "Beancount Account"));
}

#[test]
fn accounts_come_from_all_documents() {
    let kb = KnowledgeBase {
        docs: vec![
            DocumentData {
                uri: "file:///a.beancount".to_string(),
                accounts: vec!["Assets:Bank".to_string()],
                strings: vec![],
            },
            DocumentData {
                uri: "file:///b.beancount".to_string(),
                accounts: vec!["Expenses:Food".to_string(), "Assets:Bank".to_string()],
                strings: vec![],
            },
        ],
    };
    let ctx = Some(node(SyntaxKind::Identifier, "A"));
    let items = completion(&ctx, None, 4, a_date(), &kb).unwrap();
    // No deduplication and no sorting: snapshot order, duplicates kept.
    assert_eq!(labels(&items), vec!["Assets:Bank", "Expenses:Food", "Assets:Bank"]);
}

#[test]
fn empty_knowledge_base_still_answers_accounts() {
    let kb = KnowledgeBase { docs: vec![] };
    let ctx = Some(node(SyntaxKind::Identifier, "A"));
    let items = completion(&ctx, None, 4, a_date(), &kb).unwrap();
    assert!(items.is_empty());
}

#[test]
fn error_node_with_quote_suggests_strings() {
    let kb = one_doc_kb(&[], &["Groceries"]);
    let ctx = Some(node(SyntaxKind::Error, "\"Gro"));
    let items = completion(&ctx, None, 20, a_date(), &kb).unwrap();
    assert_eq!(labels(&items), vec!["Groceries"]);
    assert_eq!(items[0].detail, "");
}

#[test]
fn error_node_without_quote_yields_none() {
    let kb = one_doc_kb(&[], &["Groceries"]);
    let ctx = Some(node(SyntaxKind::Error, "xyz"));
    assert!(completion(&ctx, None, 20, a_date(), &kb).is_none());
}

#[test]
fn error_node_with_empty_text_yields_none() {
    let kb = one_doc_kb(&[], &["Groceries"]);
    let ctx = Some(node(SyntaxKind::Error, ""));
    assert!(completion(&ctx, None, 20, a_date(), &kb).is_none());
}

#[test]
fn string_node_with_wrong_parent_yields_none() {
    let kb = one_doc_kb(&[], &["Groceries"]);
    let mut ctx = node(SyntaxKind::StringLiteral, "\"Gro");
    ctx.parent = Some(SyntaxKind::Other);
    assert!(completion(&Some(ctx), None, 20, a_date(), &kb).is_none());
    let ctx = node(SyntaxKind::StringLiteral, "\"Gro");
    assert!(completion(&Some(ctx), None, 20, a_date(), &kb).is_none());
}

#[test]
fn string_node_under_txn_strings_suggests_strings() {
    let kb = one_doc_kb(&[], &["Groceries", "Rent"]);
    let mut ctx = node(SyntaxKind::StringLiteral, "\"Gro");
    ctx.parent = Some(SyntaxKind::TxnStrings);
    let items = completion(&Some(ctx), None, 20, a_date(), &kb).unwrap();
    assert_eq!(labels(&items), vec!["Groceries", "Rent"]);
}

#[test]
fn posting_column_selects_accounts_before_node_kind() {
    let kb = one_doc_kb(&["Assets:Bank"], &["Groceries"]);
    let mut ctx = node(SyntaxKind::Other, "");
    ctx.grandparent = Some(SyntaxKind::PostingOrKvList);
    let items = completion(&Some(ctx), None, 9, a_date(), &kb).unwrap();
    assert_eq!(labels(&items), vec!["Assets:Bank"]);
}

#[test]
fn posting_column_bound_is_strict() {
    let kb = one_doc_kb(&["Assets:Bank"], &[]);
    let mut ctx = node(SyntaxKind::Other, "");
    ctx.grandparent = Some(SyntaxKind::PostingOrKvList);
    // At column 10 the posting rule no longer applies and an `Other` node
    // falls through to "no completion".
    assert!(completion(&Some(ctx), None, 10, a_date(), &kb).is_none());
}

#[test]
fn unknown_node_kind_yields_none() {
    let kb = one_doc_kb(&["Assets:Bank"], &["Groceries"]);
    let ctx = Some(node(SyntaxKind::Other, "text"));
    assert!(completion(&ctx, None, 3, a_date(), &kb).is_none());
}

#[test]
fn clock_backed_resolution_matches_injected_date() {
    let kb = one_doc_kb(&["Assets:Bank"], &["Groceries"]);
    // Strategies that never consult the date behave exactly as with an
    // injected one.
    let ctx = Some(node(SyntaxKind::Identifier, "A"));
    let items = completion_today(&ctx, None, 4, &kb).unwrap();
    assert_eq!(labels(&items), vec!["Assets:Bank"]);
    // The date strategy reflects the clock's reading: four items whose
    // first label has the digits-and-hyphens shape of a full date.
    let ctx = Some(node(SyntaxKind::Other, ""));
    let items = completion_today(&ctx, Some("2"), 1, &kb).unwrap();
    assert_eq!(items.len(), 4);
    let label = items[0].label.as_bytes();
    assert_eq!(label.len(), 10);
    assert_eq!(label[4], b'-');
    assert_eq!(label[7], b'-');
    assert!(label.iter().enumerate().all(|(i, b)| {
        if i == 4 || i == 7 { *b == b'-' } else { b.is_ascii_digit() }
    }));
}

#[test]
fn clock_backed_resolution_of_strings_and_nothing() {
    let kb = one_doc_kb(&["Assets:Bank"], &["Groceries"]);
    // The string rule never consults the clock either.
    let mut ctx = node(SyntaxKind::StringLiteral, "\"Gro");
    ctx.parent = Some(SyntaxKind::TxnStrings);
    let items = completion_today(&Some(ctx), None, 20, &kb).unwrap();
    assert_eq!(labels(&items), vec!["Groceries"]);
    // Nor do the "nothing" outcomes.
    assert!(completion_today(&None, None, 0, &kb).is_none());
    let ctx = node(SyntaxKind::Other, "; hello");
    assert!(completion_today(&Some(ctx), None, 3, &kb).is_none());
}

#[test]
fn repeated_invocation_is_identical() {
    let kb = one_doc_kb(&["Assets:Bank", "Expenses:Food"], &["Groceries"]);
    let ctx = Some(node(SyntaxKind::Identifier, "A"));
    let first = completion(&ctx, None, 4, a_date(), &kb);
    let second = completion(&ctx, None, 4, a_date(), &kb);
    assert_eq!(first, second);
    let trigger_first = completion(&ctx, Some("2"), 1, a_date(), &kb);
    let trigger_second = completion(&ctx, Some("2"), 1, a_date(), &kb);
    assert_eq!(trigger_first, trigger_second);
}
