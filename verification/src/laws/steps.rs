//! Commands: in which order their steps stand.
use vstd::prelude::*;

use crate::commands::flow::StepRule;

verus! {

/// A number, where a condition holds.
pub open spec fn count_if(condition: bool, count: int) -> int {
    if condition {
        count
    } else {
        0
    }
}

/// Whether a step stands before another among the steps of a command.
pub open spec fn stands_before(rules: Seq<StepRule>, first: StepRule, second: StepRule) -> bool {
    exists|i: int, j: int|
        0 <= i < j < rules.len() && #[trigger] rules[i] == first && #[trigger] rules[j] == second
}

} // verus!
