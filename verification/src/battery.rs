//! Battery probe: picks the first power-supply entry whose capacity
//! node could be read.
//!
//! The caller enumerates the power-supply directory in a fixed
//! (lexicographic) order and hands over each entry's capacity text,
//! or `None` where the entry had no readable capacity node. Unlike
//! the GPU probe, the battery probe may legitimately report the
//! unavailable sentinel: a device without a battery has nothing to
//! degrade to.

use crate::text::{spec_trim, trim_str};
use vstd::prelude::*;

verus! {

/// What the battery probe yields for an ordered list of per-entry
/// capacity texts: the first readable capacity, trimmed and suffixed
/// with `%`; the unavailable sentinel when no entry has one.
pub open spec fn spec_battery_summary(entries: Seq<Option<String>>) -> Seq<char>
    decreases entries.len(),
{
    if entries.len() == 0 {
        "N/A"@
    } else {
        match entries[0] {
            Some(c) => spec_trim(c@) + "%"@,
            None => spec_battery_summary(entries.drop_first()),
        }
    }
}

/// Battery probe: returns the first entry's readable capacity,
/// trimmed and suffixed with `%`, or the unavailable sentinel, exactly
/// as `spec_battery_summary` describes. An entry is `None` where its
/// capacity node could not be read; an unlistable directory is the
/// empty list.
pub fn read_battery_percentage(entries: &Vec<Option<String>>) -> (r: String)
    ensures
        r@ == spec_battery_summary(entries@),
{
    let n = entries.len();
    proof {
        assert(entries@.subrange(0, n as int) =~= entries@);
    }
    let mut i: usize = 0;
    while i < n
        invariant
            0 <= i <= n,
            n == entries@.len(),
            spec_battery_summary(entries@) == spec_battery_summary(
                entries@.subrange(i as int, n as int),
            ),
        decreases n - i,
    {
        let entry = &entries[i];
        proof {
            let rest = entries@.subrange(i as int, n as int);
            assert(rest[0] == entries@[i as int]);
            assert(rest.drop_first() =~= entries@.subrange(i + 1, n as int));
        }
        match entry {
            Some(c) => {
                let mut s = String::from_str(trim_str(c.as_str()));
                s.append("%");
                return s;
            },
            None => {
            },
        }
        i = i + 1;
    }
    proof {
        assert(entries@.subrange(n as int, n as int) =~= Seq::<Option<String>>::empty());
    }
    String::from_str("N/A")
}

} // verus!
