use vstd::prelude::*;

use crate::model::types::TickCounts;

verus! {

pub open spec fn sum_keys(events: Seq<TickCounts>) -> nat
    decreases events.len(),
{
    if events.len() == 0 {
        0
    } else {
        sum_keys(events.drop_last()) + events.last().keys as nat
    }
}

pub open spec fn sum_switches(events: Seq<TickCounts>) -> nat
    decreases events.len(),
{
    if events.len() == 0 {
        0
    } else {
        sum_switches(events.drop_last()) + events.last().switches as nat
    }
}

pub open spec fn sum_backspaces(events: Seq<TickCounts>) -> nat
    decreases events.len(),
{
    if events.len() == 0 {
        0
    } else {
        sum_backspaces(events.drop_last()) + events.last().backspaces as nat
    }
}

/// The totals add up every event of the window: nothing for an empty window, and
/// one more event adds exactly its own counts, however long the window already is.
pub proof fn law_sums_add_every_event(events: Seq<TickCounts>, e: TickCounts)
    ensures
        sum_keys(Seq::<TickCounts>::empty()) == 0,
        sum_switches(Seq::<TickCounts>::empty()) == 0,
        sum_backspaces(Seq::<TickCounts>::empty()) == 0,
        sum_keys(events.push(e)) == sum_keys(events) + e.keys,
        sum_switches(events.push(e)) == sum_switches(events) + e.switches,
        sum_backspaces(events.push(e)) == sum_backspaces(events) + e.backspaces,
{
    assert(events.push(e).drop_last() =~= events);
}

/// Totals of (keys, switches, backspaces) over the events of the window, or
/// `None` when one of the totals does not fit in a `u32`.
pub fn window_sums(events: &Vec<TickCounts>) -> (r: Option<(u32, u32, u32)>)
    ensures
        r is Some <==> (sum_keys(events@) <= u32::MAX && sum_switches(events@) <= u32::MAX
            && sum_backspaces(events@) <= u32::MAX),
        r matches Some(t) ==> t.0 == sum_keys(events@) && t.1 == sum_switches(events@) && t.2
            == sum_backspaces(events@),
{
    let mut keys: u32 = 0;
    let mut switches: u32 = 0;
    let mut backspaces: u32 = 0;
    let mut overflow = false;
    let n = events.len();
    let mut i: usize = 0;
    while i < n
        invariant
            n == events@.len(),
            i <= n,
            !overflow ==> keys == sum_keys(events@.take(i as int)) && switches == sum_switches(
                events@.take(i as int),
            ) && backspaces == sum_backspaces(events@.take(i as int)),
            overflow ==> (sum_keys(events@.take(i as int)) > u32::MAX || sum_switches(
                events@.take(i as int),
            ) > u32::MAX || sum_backspaces(events@.take(i as int)) > u32::MAX),
        decreases n - i,
    {
        let e = events[i];
        proof {
            assert(events@.take(i + 1).drop_last() =~= events@.take(i as int));
        }
        if !overflow {
            match (keys.checked_add(e.keys), switches.checked_add(e.switches), backspaces.checked_add(e.backspaces)) {
                (Some(k), Some(s), Some(b)) => {
                    keys = k;
                    switches = s;
                    backspaces = b;
                },
                _ => {
                    overflow = true;
                },
            }
        }
        i = i + 1;
    }
    proof {
        assert(events@.take(n as int) =~= events@);
    }
    if overflow {
        None
    } else {
        Some((keys, switches, backspaces))
    }
}

} // verus!
