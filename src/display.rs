//! Choosing the display unit of a quantity, and the text it is shown as.

use vstd::prelude::*;
use vstd::string::StringExecFns;

verus! {

/// Whether `i` is the position of the largest-scale unit whose scaled
/// magnitude exceeds one, given for each unit of a table ordered from the
/// smallest scale to the largest whether it does.
pub open spec fn is_largest_exceeding(exceeds: Seq<bool>, i: int) -> bool {
    &&& 0 <= i < exceeds.len()
    &&& exceeds[i]
    &&& forall|j: int| i < j < exceeds.len() ==> !exceeds[j]
}

/// The unit a magnitude is shown in: the largest-scale unit whose scaled
/// magnitude exceeds one, or the smallest-scale unit where none does.
pub open spec fn appropriate_unit(exceeds: Seq<bool>) -> int {
    if exists|i: int| 0 <= i < exceeds.len() && exceeds[i] {
        choose|i: int| is_largest_exceeding(exceeds, i)
    } else {
        0
    }
}

/// Picks the display unit from a table of units ordered from the smallest
/// scale to the largest. `exceeds[i]` tells whether the magnitude, divided by
/// the scale of unit `i`, is above one in absolute value. The table is
/// scanned from its largest scale down, and the first unit that qualifies is
/// taken; where none does (a magnitude of zero, or one below the smallest
/// scale) the smallest-scale unit is taken.
pub fn pick_appropriate_unit(exceeds: &[bool]) -> (r: usize)
    requires
        exceeds@.len() > 0,
    ensures
        r < exceeds@.len(),
        (exists|i: int| 0 <= i < exceeds@.len() && exceeds@[i]) ==> is_largest_exceeding(exceeds@, r as int),
        (forall|i: int| 0 <= i < exceeds@.len() ==> !exceeds@[i]) ==> r == 0,
        r == appropriate_unit(exceeds@),
{
    let mut k: usize = exceeds.len();
    while k > 0
        invariant
            k <= exceeds@.len(),
            forall|j: int| k <= j < exceeds@.len() ==> !exceeds@[j],
        decreases k,
    {
        k = k - 1;
        if exceeds[k] {
            assert(is_largest_exceeding(exceeds@, k as int));
            return k;
        }
    }
    0
}

/// The text a quantity is shown as: its magnitude, already written out in
/// the chosen unit, then a non-breaking space, then the unit's symbol.
pub fn display_text(number: &str, unit: &str) -> (r: String)
    ensures
        r@ == number@ + seq!['\u{a0}'] + unit@,
{
    let mut text = String::from_str(number);
    proof {
        reveal_strlit("\u{a0}");
    }
    text.append("\u{a0}");
    text.append(unit);
    text
}

} // verus!
