//! The syntactic surroundings of the cursor, as the classifier reads them.
//!
//! The parser itself is an external collaborator: it owns the syntax tree
//! and answers the "innermost named node covering a point range" query.
//! What the classifier reads of its answer — the node's kind tag, the text
//! it covers, and the kind tags of its structural neighbours — is held here
//! as plain values, rebuilt for every request.

use vstd::prelude::*;

verus! {

/// The node kinds the classifier distinguishes. Every other kind of the
/// grammar maps to `Other`, so unknown kinds fail safe to "no completion".
#[derive(Clone, Copy, PartialEq, Eq, Structural, Debug)]
pub enum SyntaxKind {
    /// The parser's malformed-input marker.
    Error,
    /// A bare identifier.
    Identifier,
    /// A quoted string literal.
    StringLiteral,
    /// The grammar construct for narration/payee strings on an entry header.
    TxnStrings,
    /// The grammar construct grouping postings and metadata under an entry.
    PostingOrKvList,
    /// Any other kind.
    Other,
}

/// The kind a grammar name tag denotes.
pub open spec fn kind_of_name(name: Seq<char>) -> SyntaxKind {
    if name == "ERROR"@ {
        SyntaxKind::Error
    } else if name == "identifier"@ {
        SyntaxKind::Identifier
    } else if name == "string"@ {
        SyntaxKind::StringLiteral
    } else if name == "txn_strings"@ {
        SyntaxKind::TxnStrings
    } else if name == "posting_or_kv_list"@ {
        SyntaxKind::PostingOrKvList
    } else {
        SyntaxKind::Other
    }
}

/// Character-by-character string comparison with an exact contract.
fn str_eq(a: &str, b: &str) -> (r: bool)
    ensures
        r == (a@ == b@),
{
    let alen: usize = a.unicode_len();
    let blen: usize = b.unicode_len();
    if alen != blen {
        return false;
    }
    let mut i: usize = 0;
    while i < alen
        invariant
            alen == a@.len(),
            alen == b@.len(),
            i <= alen,
            forall|k: int| 0 <= k < i ==> a@[k] == b@[k],
        decreases alen - i,
    {
        if a.get_char(i) != b.get_char(i) {
            return false;
        }
        i = i + 1;
    }
    proof {
        assert(a@ =~= b@);
    }
    true
}

impl SyntaxKind {
    /// Maps a grammar name tag to the kind it denotes.
    pub fn from_name(name: &str) -> (k: SyntaxKind)
        ensures
            k == kind_of_name(name@),
    {
        if str_eq(name, "ERROR") {
            SyntaxKind::Error
        } else if str_eq(name, "identifier") {
            SyntaxKind::Identifier
        } else if str_eq(name, "string") {
            SyntaxKind::StringLiteral
        } else if str_eq(name, "txn_strings") {
            SyntaxKind::TxnStrings
        } else if str_eq(name, "posting_or_kv_list") {
            SyntaxKind::PostingOrKvList
        } else {
            SyntaxKind::Other
        }
    }
}

/// What the classifier reads of the node covering the cursor: its kind, the
/// text it covers, and the kinds of its structural neighbours. Rebuilt per
/// request, never cached.
pub struct NodeContext {
    /// Kind of the innermost named node covering the probe range.
    pub kind: SyntaxKind,
    /// The document text the node covers.
    pub text: String,
    /// Kind of the node's parent, if any.
    pub parent: Option<SyntaxKind>,
    /// Kind of the node's grandparent, if any.
    pub grandparent: Option<SyntaxKind>,
    /// Kind of the node's previous sibling, if any.
    pub prev_sibling: Option<SyntaxKind>,
    /// Kind of the node's previous named sibling, if any.
    pub prev_named_sibling: Option<SyntaxKind>,
}

/// A point in the document, in the row/column convention of the syntax tree.
#[derive(Clone, Copy, PartialEq, Eq, Structural, Debug)]
pub struct ProbePoint {
    pub row: u32,
    pub column: u32,
}

/// The zero- or one-column-wide range just before the cursor, used to query
/// the tree for the innermost covering node. At column 0 the range is
/// zero-width.
pub fn probe_range(line: u32, character: u32) -> (r: (ProbePoint, ProbePoint))
    ensures
        r.0.row == line,
        r.1.row == line,
        r.0.column == if character == 0 { 0u32 } else { (character - 1) as u32 },
        r.1.column == character,
{
    let start_column: u32 = if character == 0 {
        character
    } else {
        character - 1
    };
    (
        ProbePoint { row: line, column: start_column },
        ProbePoint { row: line, column: character },
    )
}

} // verus!
