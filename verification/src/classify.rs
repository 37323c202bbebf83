//! Mapping availability phrases to a [`StockStatus`] through a site's table.

use crate::status::StockStatus;
use crate::text::{normalize, normalized, str_equal};
use vstd::prelude::*;

verus! {

/// One line of a site's phrase table: a normalized phrase and the status
/// that it stands for.
#[derive(Clone, Copy, Debug, PartialEq, Eq)]
pub struct ClassificationRule {
    /// The phrase, in lower case and without surrounding white space.
    pub phrase: &'static str,
    /// The status that the phrase reports.
    pub status: StockStatus,
}

/// Some rule of the table lists the key.
pub open spec fn lists(rules: Seq<ClassificationRule>, key: Seq<char>) -> bool {
    exists|i: int| 0 <= i < rules.len() && (#[trigger] rules[i]).phrase@ == key
}

/// Every rule of the table that lists the key gives it this status.
pub open spec fn agrees(
    rules: Seq<ClassificationRule>,
    key: Seq<char>,
    status: StockStatus,
) -> bool {
    forall|i: int|
        0 <= i < rules.len() && (#[trigger] rules[i]).phrase@ == key ==> rules[i].status == status
}

/// The status of a normalized phrase under a table: the status on which
/// all rules that list the phrase agree, and `Unknown` where no rule lists
/// it or the rules contradict each other.
pub open spec fn status_of_key(rules: Seq<ClassificationRule>, key: Seq<char>) -> StockStatus {
    if lists(rules, key) && agrees(rules, key, StockStatus::InStock) {
        StockStatus::InStock
    } else if lists(rules, key) && agrees(rules, key, StockStatus::OutOfStock) {
        StockStatus::OutOfStock
    } else {
        StockStatus::Unknown
    }
}

/// The status of a raw availability text under a table.
pub open spec fn classification(rules: Seq<ClassificationRule>, raw: Seq<char>) -> StockStatus {
    status_of_key(rules, normalized(raw))
}

/// Classification is a function of the normalized text, and it never
/// guesses: texts with the same key get the same status; a text whose key
/// no rule lists is `Unknown`; and a status other than `Unknown` is the
/// status of a rule that lists the key.
pub proof fn lemma_classification(
    rules: Seq<ClassificationRule>,
    first: Seq<char>,
    second: Seq<char>,
)
    ensures
        normalized(first) == normalized(second) ==> classification(rules, first)
            == classification(rules, second),
        !lists(rules, normalized(first)) ==> classification(rules, first) == StockStatus::Unknown,
        classification(rules, first) != StockStatus::Unknown ==> exists|i: int|
            0 <= i < rules.len() && (#[trigger] rules[i]).phrase@ == normalized(first)
                && rules[i].status == classification(rules, first),
{
    let key = normalized(first);
    if lists(rules, key) {
        let i = choose|i: int| 0 <= i < rules.len() && (#[trigger] rules[i]).phrase@ == key;
    }
}

/// What one more rule adds to a table: the key is listed if it was, or if
/// the new rule lists it; the rules agree on a status if they did, and the
/// new rule does not say otherwise.
proof fn lemma_next_rule(rules: Seq<ClassificationRule>, i: int, key: Seq<char>)
    requires
        0 <= i < rules.len(),
    ensures
        lists(rules.take(i + 1), key) == (lists(rules.take(i), key) || rules[i].phrase@ == key),
        forall|status: StockStatus| #[trigger]
            agrees(rules.take(i + 1), key, status) == (agrees(rules.take(i), key, status) && (
            rules[i].phrase@ == key ==> rules[i].status == status)),
{
    // The longer table holds the shorter one, and the new rule after it.
    let before = rules.take(i);
    let after = rules.take(i + 1);
    assert(after[i] == rules[i]);
    assert forall|j: int| 0 <= j < i implies before[j] == after[j] by {}
}

/// Looks a normalized phrase up in a table.
pub fn classify_key(rules: &Vec<ClassificationRule>, key: &str) -> (status: StockStatus)
    ensures
        status == status_of_key(rules@, key@),
{
    // Whether a rule seen so far lists the key, and the status on which
    // those rules agree; `Unknown` once they disagree.
    let mut listed = false;
    let mut status = StockStatus::Unknown;
    let mut i: usize = 0;
    while i < rules.len()
        invariant
            i <= rules@.len(),
            listed == lists(rules@.take(i as int), key@),
            status == status_of_key(rules@.take(i as int), key@),
        decreases rules@.len() - i,
    {
        let rule = rules[i];
        proof {
            lemma_next_rule(rules@, i as int, key@);
        }
        if str_equal(rule.phrase, key) {
            if !listed {
                listed = true;
                status = rule.status;
            } else if status != rule.status {
                status = StockStatus::Unknown;
            }
        }
        i += 1;
    }
    assert(rules@.take(i as int) == rules@);
    status
}

/// Classifies a raw availability text: normalizes it, and looks the key up
/// in the table.
pub fn classify(rules: &Vec<ClassificationRule>, raw: &str) -> (status: StockStatus)
    ensures
        status == classification(rules@, raw@),
{
    let key = normalize(raw);
    classify_key(rules, key.as_str())
}

} // verus!
