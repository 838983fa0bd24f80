//! Keyword table and action dispatch.
//!
//! The table is an ordered sequence of (trigger phrase, action) pairs, and
//! the order is part of the contract: a non-empty transcript is scanned
//! against the table in declaration order and the first entry whose phrase
//! occurs in the transcript wins, wherever in the text that phrase stands.
//! An empty transcript dispatches nothing.

use vstd::prelude::*;
use crate::action::LedAction;
use crate::text::contains_phrase;
use crate::text::occurs_in;

verus! {

/// One table row: a trigger phrase (UTF-8 bytes) and the action it fires.
pub struct KeywordEntry {
    pub phrase: Vec<u8>,
    pub action: LedAction,
}

/// The ordered keyword table, fixed at configuration time.
pub struct KeywordTable {
    pub entries: Vec<KeywordEntry>,
}

/// The action of the first entry whose phrase occurs in `text`, scanning in
/// declaration order; nothing when no phrase occurs.
pub open spec fn first_match(entries: Seq<KeywordEntry>, text: Seq<u8>) -> Option<LedAction>
    decreases entries.len(),
{
    if entries.len() == 0 {
        None
    } else if occurs_in(entries[0].phrase@, text) {
        Some(entries[0].action)
    } else {
        first_match(entries.drop_first(), text)
    }
}

/// What `dispatch` returns: nothing for an empty transcript, the first
/// declared match otherwise.
pub open spec fn dispatch_result(entries: Seq<KeywordEntry>, text: Seq<u8>) -> Option<LedAction> {
    if text.len() == 0 {
        None
    } else {
        first_match(entries, text)
    }
}

/// Scanning a table whose first `k` phrases do not occur in `text` gives the
/// same result as scanning the rest of the table.
proof fn lemma_first_match_skip(entries: Seq<KeywordEntry>, text: Seq<u8>, k: int)
    requires
        0 <= k <= entries.len(),
        forall|j: int| 0 <= j < k ==> !occurs_in(#[trigger] entries[j].phrase@, text),
    ensures
        first_match(entries, text) == first_match(entries.skip(k), text),
    decreases k,
{
    if k == 0 {
        assert(entries.skip(0) =~= entries);
    } else {
        assert(!occurs_in(entries[0].phrase@, text));
        assert forall|j: int| 0 <= j < k - 1 implies !occurs_in(
            #[trigger] entries.drop_first()[j].phrase@,
            text,
        ) by {
            assert(entries.drop_first()[j] == entries[j + 1]);
            assert(!occurs_in(entries[j + 1].phrase@, text));
        }
        lemma_first_match_skip(entries.drop_first(), text, k - 1);
        assert(entries.drop_first().skip(k - 1) =~= entries.skip(k));
    }
}

impl KeywordTable {
    /// Build a table from its rows; the given order is kept and is the
    /// scan order.
    pub fn new(entries: Vec<KeywordEntry>) -> (r: KeywordTable)
        ensures
            r.entries@ == entries@,
    {
        KeywordTable { entries }
    }

    /// Match a transcript against the table: no dispatch for an empty
    /// transcript, else the action of the first declared entry whose phrase
    /// occurs in the transcript, and nothing when none occurs.
    pub fn dispatch(&self, text: &Vec<u8>) -> (r: Option<LedAction>)
        ensures
            r == dispatch_result(self.entries@, text@),
    {
        if text.len() == 0 {
            return None;
        }
        let mut k: usize = 0;
        while k < self.entries.len()
            invariant
                text@.len() > 0,
                k <= self.entries@.len(),
                forall|j: int| 0 <= j < k ==> !occurs_in(
                    #[trigger] self.entries@[j].phrase@,
                    text@,
                ),
            decreases self.entries@.len() - k,
        {
            if contains_phrase(text, &self.entries[k].phrase) {
                proof {
                    lemma_first_match_skip(self.entries@, text@, k as int);
                    assert(self.entries@.skip(k as int)[0] == self.entries@[k as int]);
                    assert(first_match(self.entries@.skip(k as int), text@)
                        == Some(self.entries@[k as int].action));
                }
                return Some(self.entries[k].action);
            }
            k += 1;
        }
        proof {
            lemma_first_match_skip(self.entries@, text@, self.entries@.len() as int);
        }
        None
    }
}

/// When no phrase of the table occurs in the transcript, nothing is
/// dispatched.
pub proof fn lemma_no_phrase_no_dispatch(entries: Seq<KeywordEntry>, text: Seq<u8>)
    requires
        forall|j: int| 0 <= j < entries.len() ==> !occurs_in(#[trigger] entries[j].phrase@, text),
    ensures
        dispatch_result(entries, text).is_none(),
{
    lemma_first_match_skip(entries, text, entries.len() as int);
}

/// The earliest declared entry whose phrase occurs in the transcript wins,
/// regardless of where in the text its phrase stands: if entry `m` matches
/// and no entry declared before it does, `m`'s action is dispatched.
pub proof fn lemma_earliest_declared_wins(entries: Seq<KeywordEntry>, text: Seq<u8>, m: int)
    requires
        text.len() > 0,
        0 <= m < entries.len(),
        occurs_in(entries[m].phrase@, text),
        forall|j: int| 0 <= j < m ==> !occurs_in(#[trigger] entries[j].phrase@, text),
    ensures
        dispatch_result(entries, text) == Some(entries[m].action),
{
    lemma_first_match_skip(entries, text, m);
    assert(entries.skip(m)[0] == entries[m]);
}

/// A transcript in which exactly one phrase of the table occurs dispatches
/// that phrase's action.
pub proof fn lemma_unique_phrase_dispatched(entries: Seq<KeywordEntry>, text: Seq<u8>, m: int)
    requires
        text.len() > 0,
        0 <= m < entries.len(),
        occurs_in(entries[m].phrase@, text),
        forall|j: int| 0 <= j < entries.len() && j != m ==> !occurs_in(
            #[trigger] entries[j].phrase@,
            text,
        ),
    ensures
        dispatch_result(entries, text) == Some(entries[m].action),
{
    lemma_earliest_declared_wins(entries, text, m);
}

} // verus!
