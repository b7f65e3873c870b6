//! Interpretation of the optional trigger character.
//!
//! Only one reserved symbol is ever honoured as a date trigger, and only
//! within the first two columns of a line: there it opens a new entry,
//! elsewhere it is ordinary punctuation. Any other character, or the
//! reserved one further into the line, is normalised to "no trigger".

use vstd::prelude::*;

verus! {

/// Last column at which the reserved date-trigger symbol is still honoured.
pub const MAX_DATE_TRIGGER_COLUMN: u32 = 1;

/// The reserved date-trigger symbol, as a character sequence.
pub open spec fn date_trigger_seq() -> Seq<char> {
    seq!['2']
}

/// The view of an optional trigger string.
pub open spec fn opt_trigger_view(trigger: Option<&str>) -> Option<Seq<char>> {
    match trigger {
        Option::None => Option::None,
        Option::Some(s) => Option::Some(s@),
    }
}

/// Whether the trigger signal selects date completion: the trigger is
/// exactly the reserved symbol and the cursor sits in the first two columns.
pub open spec fn spec_date_trigger_active(trigger: Option<Seq<char>>, character: u32) -> bool {
    trigger == Option::Some(date_trigger_seq()) && character <= MAX_DATE_TRIGGER_COLUMN
}

/// Decides whether the trigger signal selects date completion.
pub fn date_trigger_active(trigger: Option<&str>, character: u32) -> (b: bool)
    ensures
        b == spec_date_trigger_active(opt_trigger_view(trigger), character),
{
    match trigger {
        Option::None => false,
        Option::Some(s) => {
            if character <= MAX_DATE_TRIGGER_COLUMN && s.unicode_len() == 1 {
                let c = s.get_char(0);
                proof {
                    if c == '2' {
                        assert(s@ =~= date_trigger_seq());
                    } else {
                        assert(s@[0] != date_trigger_seq()[0]);
                    }
                }
                c == '2'
            } else {
                proof {
                    if s@.len() != 1 {
                        assert(s@ != date_trigger_seq());
                    }
                }
                false
            }
        },
    }
}

} // verus!
