//! The knowledge-base snapshot and the two suggesters that read it.
//!
//! The knowledge base indexes the accounts and quoted strings already seen
//! across the open documents of a workspace. It is mutated elsewhere, by
//! the indexing subsystem, so the classifier receives an immutable snapshot
//! per request and never reaches into a live structure. Both suggesters
//! walk the whole snapshot in its own order: no deduplication, no sorting.

use vstd::prelude::*;
use crate::items::CompletionItem;

verus! {

/// The indexed values of one open document.
pub struct DocumentData {
    /// The document's URI.
    pub uri: String,
    /// Account names seen in the document.
    pub accounts: Vec<String>,
    /// Narration/payee strings seen in the document.
    pub strings: Vec<String>,
}

/// An immutable per-request snapshot of the whole workspace index.
pub struct KnowledgeBase {
    /// One entry per open document.
    pub docs: Vec<DocumentData>,
}

/// The account names of one document, as character sequences.
pub open spec fn doc_accounts(d: DocumentData) -> Seq<Seq<char>> {
    d.accounts@.map_values(|a: String| a@)
}

/// The narration/payee strings of one document, as character sequences.
pub open spec fn doc_strings(d: DocumentData) -> Seq<Seq<char>> {
    d.strings@.map_values(|a: String| a@)
}

/// All account names across the snapshot, document by document.
pub open spec fn all_accounts(docs: Seq<DocumentData>) -> Seq<Seq<char>>
    decreases docs.len(),
{
    if docs.len() == 0 {
        Seq::empty()
    } else {
        all_accounts(docs.drop_last()) + doc_accounts(docs.last())
    }
}

/// All narration/payee strings across the snapshot, document by document.
pub open spec fn all_strings(docs: Seq<DocumentData>) -> Seq<Seq<char>>
    decreases docs.len(),
{
    if docs.len() == 0 {
        Seq::empty()
    } else {
        all_strings(docs.drop_last()) + doc_strings(docs.last())
    }
}

/// The account suggestions for a snapshot: one item per known account, in
/// snapshot order, each with the fixed account detail text.
pub open spec fn account_items(kb: KnowledgeBase) -> Seq<(Seq<char>, Seq<char>)> {
    all_accounts(kb.docs@).map_values(|l: Seq<char>| (l, "Beancount Account"@))
}

/// The string suggestions for a snapshot: one item per known string, in
/// snapshot order, each with an empty detail text.
pub open spec fn string_items(kb: KnowledgeBase) -> Seq<(Seq<char>, Seq<char>)> {
    all_strings(kb.docs@).map_values(|l: Seq<char>| (l, Seq::<char>::empty()))
}

/// The union of the account sets across all documents of a snapshot.
pub open spec fn accounts_union(docs: Seq<DocumentData>) -> Set<Seq<char>>
    decreases docs.len(),
{
    if docs.len() == 0 {
        Set::empty()
    } else {
        accounts_union(docs.drop_last()).union(doc_accounts(docs.last()).to_set())
    }
}

/// The labels of a suggestion list, in order.
pub open spec fn item_labels(items: Seq<(Seq<char>, Seq<char>)>) -> Seq<Seq<char>> {
    items.map_values(|p: (Seq<char>, Seq<char>)| p.0)
}

proof fn lemma_all_accounts_to_set(docs: Seq<DocumentData>)
    ensures
        all_accounts(docs).to_set() == accounts_union(docs),
    decreases docs.len(),
{
    if docs.len() == 0 {
        assert(all_accounts(docs).to_set() =~= Set::empty());
    } else {
        lemma_all_accounts_to_set(docs.drop_last());
        vstd::seq_lib::seq_to_set_distributes_over_add(
            all_accounts(docs.drop_last()),
            doc_accounts(docs.last()),
        );
    }
}

/// Law: taken as a set, the labels of the account suggestions are exactly
/// the union of the account sets across all documents of the snapshot.
pub proof fn lemma_account_labels_union(kb: KnowledgeBase)
    ensures
        item_labels(account_items(kb)).to_set() == accounts_union(kb.docs@),
{
    assert(item_labels(account_items(kb)) =~= all_accounts(kb.docs@));
    lemma_all_accounts_to_set(kb.docs@);
}

/// Emits one suggestion per account known to the snapshot, in snapshot
/// order, each labelled with the account name and carrying the fixed
/// account detail text.
pub fn complete_account(kb: &KnowledgeBase) -> (items: Vec<CompletionItem>)
    ensures
        crate::items::items_view(items@) == account_items(*kb),
{
    let mut items: Vec<CompletionItem> = Vec::new();
    let mut i: usize = 0;
    while i < kb.docs.len()
        invariant
            i <= kb.docs@.len(),
            crate::items::items_view(items@) =~~= all_accounts(kb.docs@.take(i as int))
                .map_values(|l: Seq<char>| (l, "Beancount Account"@)),
        decreases kb.docs@.len() - i,
    {
        let doc = &kb.docs[i];
        let ghost prefix = all_accounts(kb.docs@.take(i as int));
        let mut j: usize = 0;
        while j < doc.accounts.len()
            invariant
                j <= doc.accounts@.len(),
                i < kb.docs@.len(),
                *doc == kb.docs@[i as int],
                crate::items::items_view(items@) =~~= (prefix + doc_accounts(*doc).take(
                    j as int,
                )).map_values(|l: Seq<char>| (l, "Beancount Account"@)),
            decreases doc.accounts@.len() - j,
        {
            let item = CompletionItem {
                label: doc.accounts[j].clone(),
                detail: "Beancount Account".to_owned(),
            };
            let ghost prev_items = items@;
            let ghost iv = crate::items::item_view(item);
            items.push(item);
            proof {
                assert(crate::items::items_view(items@) =~~= crate::items::items_view(
                    prev_items,
                ).push(iv));
                assert(doc_accounts(*doc).take(j + 1) =~= doc_accounts(*doc).take(j as int).push(
                    doc.accounts@[j as int]@,
                ));
                assert((prefix + doc_accounts(*doc).take(j + 1)).map_values(
                    |l: Seq<char>| (l, "Beancount Account"@),
                ) =~~= (prefix + doc_accounts(*doc).take(j as int)).map_values(
                    |l: Seq<char>| (l, "Beancount Account"@),
                ).push(iv));
            }
            j = j + 1;
        }
        proof {
            assert(doc_accounts(*doc).take(doc.accounts@.len() as int) =~= doc_accounts(*doc));
            assert(kb.docs@.take(i + 1).drop_last() =~= kb.docs@.take(i as int));
            assert(kb.docs@.take(i + 1).last() == kb.docs@[i as int]);
        }
        i = i + 1;
    }
    proof {
        assert(kb.docs@.take(kb.docs@.len() as int) =~= kb.docs@);
    }
    items
}

/// Emits one suggestion per narration/payee string known to the snapshot,
/// in snapshot order, each labelled with the string and carrying an empty
/// detail text.
pub fn complete_txn_string(kb: &KnowledgeBase) -> (items: Vec<CompletionItem>)
    ensures
        crate::items::items_view(items@) == string_items(*kb),
{
    let mut items: Vec<CompletionItem> = Vec::new();
    let mut i: usize = 0;
    while i < kb.docs.len()
        invariant
            i <= kb.docs@.len(),
            crate::items::items_view(items@) =~~= all_strings(kb.docs@.take(i as int))
                .map_values(|l: Seq<char>| (l, Seq::<char>::empty())),
        decreases kb.docs@.len() - i,
    {
        let doc = &kb.docs[i];
        let ghost prefix = all_strings(kb.docs@.take(i as int));
        let mut j: usize = 0;
        while j < doc.strings.len()
            invariant
                j <= doc.strings@.len(),
                i < kb.docs@.len(),
                *doc == kb.docs@[i as int],
                crate::items::items_view(items@) =~~= (prefix + doc_strings(*doc).take(
                    j as int,
                )).map_values(|l: Seq<char>| (l, Seq::<char>::empty())),
            decreases doc.strings@.len() - j,
        {
            let item = CompletionItem { label: doc.strings[j].clone(), detail: String::new() };
            let ghost prev_items = items@;
            let ghost iv = crate::items::item_view(item);
            items.push(item);
            proof {
                assert(crate::items::items_view(items@) =~~= crate::items::items_view(
                    prev_items,
                ).push(iv));
                assert(doc_strings(*doc).take(j + 1) =~= doc_strings(*doc).take(j as int).push(
                    doc.strings@[j as int]@,
                ));
                assert((prefix + doc_strings(*doc).take(j + 1)).map_values(
                    |l: Seq<char>| (l, Seq::<char>::empty()),
                ) =~~= (prefix + doc_strings(*doc).take(j as int)).map_values(
                    |l: Seq<char>| (l, Seq::<char>::empty()),
                ).push(iv));
            }
            j = j + 1;
        }
        proof {
            assert(doc_strings(*doc).take(doc.strings@.len() as int) =~= doc_strings(*doc));
            assert(kb.docs@.take(i + 1).drop_last() =~= kb.docs@.take(i as int));
            assert(kb.docs@.take(i + 1).last() == kb.docs@[i as int]);
        }
        i = i + 1;
    }
    proof {
        assert(kb.docs@.take(kb.docs@.len() as int) =~= kb.docs@);
    }
    items
}

} // verus!
