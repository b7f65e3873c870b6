//! Completion items: the values a selected strategy hands back to the editor.

use vstd::prelude::*;

verus! {

/// A single completion suggestion: a label to insert and a detail text.
#[derive(Debug, PartialEq, Eq)]
pub struct CompletionItem {
    pub label: String,
    pub detail: String,
}

/// The mathematical content of an item: label and detail as character
/// sequences.
pub open spec fn item_view(it: CompletionItem) -> (Seq<char>, Seq<char>) {
    (it.label@, it.detail@)
}

/// The mathematical content of a whole suggestion list.
pub open spec fn items_view(items: Seq<CompletionItem>) -> Seq<(Seq<char>, Seq<char>)> {
    items.map_values(|it: CompletionItem| item_view(it))
}

} // verus!
