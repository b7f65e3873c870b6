//! The decision core: selecting a completion strategy and producing its
//! suggestions.
//!
//! Exactly one strategy (or none) is selected per request, by a total,
//! deterministic function of the node kind, the neighbour kinds, the
//! trigger outcome and the cursor column. Precedence, first match wins:
//! an active date trigger; then the posting-column rule; then the switch
//! on the node's own kind, whose default arm is "no completion".

use vstd::prelude::*;
use crate::date::{Date, MAX_SUGGESTED_YEAR, complete_date, date_items};
use crate::items::{CompletionItem, items_view};
use crate::knowledge::{
    KnowledgeBase, account_items, complete_account, complete_txn_string, string_items,
};
use crate::syntax::{NodeContext, SyntaxKind};
use crate::trigger::{date_trigger_active, opt_trigger_view, spec_date_trigger_active};

verus! {

/// Cursor columns below this bound still count as the account column of a
/// posting line. A layout heuristic, not a grammar fact.
pub const ACCOUNT_COLUMN_BOUND: u32 = 10;

/// The completion strategies a request can select.
#[derive(Clone, Copy, PartialEq, Eq, Structural, Debug)]
pub enum Strategy {
    /// Suggest dates around the injected current date.
    Date,
    /// Suggest every known account name.
    Account,
    /// Suggest every known narration/payee string.
    TxnString,
    /// Suggest nothing.
    NoCompletion,
}

/// The structural part of the decision table: the rules consulted once the
/// trigger has been ruled out.
pub open spec fn classify_structural(ctx: NodeContext, character: u32) -> Strategy {
    if ctx.grandparent == Option::Some(SyntaxKind::PostingOrKvList)
        && character < ACCOUNT_COLUMN_BOUND {
        Strategy::Account
    } else {
        match ctx.kind {
            SyntaxKind::Error => if ctx.text@.len() > 0 && ctx.text@[0] == '"' {
                Strategy::TxnString
            } else {
                Strategy::NoCompletion
            },
            SyntaxKind::Identifier => Strategy::Account,
            SyntaxKind::StringLiteral => if ctx.parent == Option::Some(SyntaxKind::TxnStrings) {
                Strategy::TxnString
            } else {
                Strategy::NoCompletion
            },
            _ => Strategy::NoCompletion,
        }
    }
}

/// The whole decision table: an active date trigger takes precedence over
/// every structural rule.
pub open spec fn classify(ctx: NodeContext, trigger: Option<Seq<char>>, character: u32) -> Strategy {
    if spec_date_trigger_active(trigger, character) {
        Strategy::Date
    } else {
        classify_structural(ctx, character)
    }
}

/// Selects the strategy for a covered node, a trigger signal and a cursor
/// column.
pub fn classify_context(ctx: &NodeContext, trigger: Option<&str>, character: u32) -> (s: Strategy)
    ensures
        s == classify(*ctx, opt_trigger_view(trigger), character),
{
    if date_trigger_active(trigger, character) {
        return Strategy::Date;
    }
    let in_posting_column = match ctx.grandparent {
        Option::Some(k) => k == SyntaxKind::PostingOrKvList && character < ACCOUNT_COLUMN_BOUND,
        Option::None => false,
    };
    if in_posting_column {
        return Strategy::Account;
    }
    match ctx.kind {
        SyntaxKind::Error => {
            if ctx.text.as_str().unicode_len() > 0 && ctx.text.as_str().get_char(0) == '"' {
                Strategy::TxnString
            } else {
                Strategy::NoCompletion
            }
        },
        SyntaxKind::Identifier => Strategy::Account,
        SyntaxKind::StringLiteral => {
            let parent_is_txn_strings = match ctx.parent {
                Option::Some(k) => k == SyntaxKind::TxnStrings,
                Option::None => false,
            };
            if parent_is_txn_strings {
                Strategy::TxnString
            } else {
                Strategy::NoCompletion
            }
        },
        _ => Strategy::NoCompletion,
    }
}

/// What a whole request returns: the suggestions of the selected strategy,
/// or nothing — in particular, nothing whenever no node covers the probe
/// range.
pub open spec fn completion_spec(
    ctx: Option<NodeContext>,
    trigger: Option<Seq<char>>,
    character: u32,
    today: Date,
    kb: KnowledgeBase,
) -> Option<Seq<(Seq<char>, Seq<char>)>> {
    match ctx {
        Option::None => Option::None,
        Option::Some(c) => match classify(c, trigger, character) {
            Strategy::Date => Option::Some(date_items(today)),
            Strategy::Account => Option::Some(account_items(kb)),
            Strategy::TxnString => Option::Some(string_items(kb)),
            Strategy::NoCompletion => Option::None,
        },
    }
}

/// The mathematical content of a request's result.
pub open spec fn completion_view(r: Option<Vec<CompletionItem>>) -> Option<
    Seq<(Seq<char>, Seq<char>)>,
> {
    match r {
        Option::None => Option::None,
        Option::Some(v) => Option::Some(items_view(v@)),
    }
}

/// Resolves one completion request: selects a strategy for the covered
/// node (if any) and produces its suggestion list, or nothing.
pub fn completion(
    ctx: &Option<NodeContext>,
    trigger: Option<&str>,
    character: u32,
    today: Date,
    kb: &KnowledgeBase,
) -> (r: Option<Vec<CompletionItem>>)
    requires
        today.wf(),
        1 <= today.year <= MAX_SUGGESTED_YEAR,
    ensures
        completion_view(r) == completion_spec(
            *ctx,
            opt_trigger_view(trigger),
            character,
            today,
            *kb,
        ),
{
    match ctx {
        Option::None => Option::None,
        Option::Some(c) => match classify_context(c, trigger, character) {
            Strategy::Date => Option::Some(complete_date(today)),
            Strategy::Account => Option::Some(complete_account(kb)),
            Strategy::TxnString => Option::Some(complete_txn_string(kb)),
            Strategy::NoCompletion => Option::None,
        },
    }
}

/// Resolves one completion request against the wall clock's current date.
///
/// The strategy is selected first; the clock decides nothing but the date
/// items. Account and string suggestions are owed whenever their rules
/// fire, the library's "nothing" outcomes are owed likewise, and only the
/// date strategy consults the clock — through
/// [`crate::date::current_date`] — yielding nothing in the one case where
/// the reading does not fit the label format, and the suggestions of
/// [`completion`] for the date it read otherwise.
pub fn completion_today(
    ctx: &Option<NodeContext>,
    trigger: Option<&str>,
    character: u32,
    kb: &KnowledgeBase,
) -> (r: Option<Vec<CompletionItem>>)
    ensures
        *ctx is None ==> r is None,
        *ctx matches Option::Some(c) && classify(c, opt_trigger_view(trigger), character)
            == Strategy::Account ==> completion_view(r) == Option::Some(account_items(*kb)),
        *ctx matches Option::Some(c) && classify(c, opt_trigger_view(trigger), character)
            == Strategy::TxnString ==> completion_view(r) == Option::Some(string_items(*kb)),
        *ctx matches Option::Some(c) && classify(c, opt_trigger_view(trigger), character)
            == Strategy::NoCompletion ==> r is None,
        r is Some ==> exists|today: Date|
            today.wf() && 1 <= today.year <= MAX_SUGGESTED_YEAR && (#[trigger] completion_spec(
                *ctx,
                opt_trigger_view(trigger),
                character,
                today,
                *kb,
            )) == completion_view(r),
{
    let ghost witness = Date { year: 1, month: 1, day: 1 };
    match ctx {
        Option::None => Option::None,
        Option::Some(c) => match classify_context(c, trigger, character) {
            Strategy::Date => match crate::date::current_date() {
                Option::None => Option::None,
                Option::Some(today) => {
                    let r = completion(ctx, trigger, character, today, kb);
                    proof {
                        assert(completion_spec(
                            *ctx,
                            opt_trigger_view(trigger),
                            character,
                            today,
                            *kb,
                        ) == completion_view(r));
                    }
                    r
                },
            },
            Strategy::Account => {
                let r = Option::Some(complete_account(kb));
                proof {
                    assert(completion_spec(
                        *ctx,
                        opt_trigger_view(trigger),
                        character,
                        witness,
                        *kb,
                    ) == completion_view(r));
                }
                r
            },
            Strategy::TxnString => {
                let r = Option::Some(complete_txn_string(kb));
                proof {
                    assert(completion_spec(
                        *ctx,
                        opt_trigger_view(trigger),
                        character,
                        witness,
                        *kb,
                    ) == completion_view(r));
                }
                r
            },
            Strategy::NoCompletion => Option::None,
        },
    }
}

/// Law: with no covering node the result is always "no completion",
/// whatever the trigger, the column, the date and the knowledge base.
pub proof fn lemma_no_node_no_completion(
    trigger: Option<Seq<char>>,
    character: u32,
    today: Date,
    kb: KnowledgeBase,
)
    ensures
        completion_spec(Option::None, trigger, character, today, kb) matches Option::None,
{
}

/// Law: an active date trigger selects date completion whatever the node
/// looks like; an inactive one changes nothing against no trigger at all —
/// the request falls through to the structural rules — and no structural
/// rule ever selects date completion.
pub proof fn lemma_date_trigger_gating(
    ctx: NodeContext,
    trigger: Option<Seq<char>>,
    character: u32,
)
    ensures
        spec_date_trigger_active(trigger, character) ==> classify(ctx, trigger, character)
            == Strategy::Date,
        !spec_date_trigger_active(trigger, character) ==> classify(ctx, trigger, character)
            == classify(ctx, Option::None, character),
        classify(ctx, trigger, character) == Strategy::Date ==> spec_date_trigger_active(
            trigger,
            character,
        ),
{
}

/// Law: a string-literal node whose parent is not the transaction-strings
/// construct yields "no completion", whatever the knowledge base holds —
/// provided no earlier rule of the decision table fired (no active date
/// trigger, and not the posting-column rule).
pub proof fn lemma_string_node_needs_txn_parent(
    ctx: NodeContext,
    trigger: Option<Seq<char>>,
    character: u32,
    today: Date,
    kb: KnowledgeBase,
)
    requires
        ctx.kind == SyntaxKind::StringLiteral,
        ctx.parent != Option::Some(SyntaxKind::TxnStrings),
        !spec_date_trigger_active(trigger, character),
        !(ctx.grandparent == Option::Some(SyntaxKind::PostingOrKvList) && character
            < ACCOUNT_COLUMN_BOUND),
    ensures
        completion_spec(Option::Some(ctx), trigger, character, today, kb) matches Option::None,
{
}

/// Law: resolution is deterministic — two results of the same request have
/// the same content, so repeated invocation on an identical snapshot and
/// input reproduces the output exactly.
pub proof fn lemma_idempotent(
    r1: Option<Vec<CompletionItem>>,
    r2: Option<Vec<CompletionItem>>,
    ctx: Option<NodeContext>,
    trigger: Option<Seq<char>>,
    character: u32,
    today: Date,
    kb: KnowledgeBase,
)
    requires
        completion_view(r1) == completion_spec(ctx, trigger, character, today, kb),
        completion_view(r2) == completion_spec(ctx, trigger, character, today, kb),
    ensures
        completion_view(r1) == completion_view(r2),
{
}

} // verus!
