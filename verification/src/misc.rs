//! Small helpers for page builders.

use vstd::prelude::*;

verus! {

/// Reading a list by position without failing on a position that the list
/// does not have yet.
pub trait GetOrCreate {
    fn get_or_create(&mut self, index: usize) -> String;
}

impl GetOrCreate for Vec<String> {
    /// The text at `index`, or an empty text where the list is not yet that
    /// long. The list itself is never changed.
    fn get_or_create(&mut self, index: usize) -> (text: String)
        ensures
            *final(self) == *old(self),
            text@ == (if index < old(self)@.len() {
                old(self)@[index as int]@
            } else {
                Seq::<char>::empty()
            }),
    {
        if index >= self.len() {
            return String::new();
        }
        self[index].clone()
    }
}

/// The largest of the numbers from `from` on, or 0 if there is none.
pub open spec fn largest_from(values: Seq<u64>, from: int) -> int
    decreases values.len() - from,
{
    if from < 0 || from >= values.len() {
        0
    } else if values[from] >= largest_from(values, from + 1) {
        values[from] as int
    } else {
        largest_from(values, from + 1)
    }
}

/// The refresh rate to run at with several displays: the highest of theirs;
/// none without a display.
pub fn highest_refresh_rate(rates: &Vec<u64>) -> (highest: Option<u64>)
    ensures
        match highest {
            Some(rate) => rates@.len() > 0 && rate == largest_from(rates@, 0),
            None => rates@.len() == 0,
        },
{
    if rates.len() == 0 {
        return None;
    }
    let mut highest: u64 = 0;
    let mut i: usize = rates.len();
    while i > 0
        invariant
            i <= rates.len(),
            highest == largest_from(rates@, i as int),
        decreases i,
    {
        i -= 1;
        if rates[i] >= highest {
            highest = rates[i];
        }
    }
    Some(highest)
}

} // verus!
