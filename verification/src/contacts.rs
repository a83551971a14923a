//! The contact adapter.
//!
//! Once per tick the engine's raw contact-event queue is drained into a list
//! of events keyed by opaque collider handles. The adapter resolves both
//! handles of every event through the side-table and republishes the event in
//! terms of entity identifiers. An event with a handle that has no owner yet
//! — the attachment race on the tick the collider was created — is dropped,
//! not buffered; every resolvable event is republished exactly once, in order.

use vstd::prelude::*;

use crate::table::spec_lookup;
use crate::table::HandleTable;

verus! {

/// A contact event as the physics engine reports it, keyed by collider
/// handles.
#[derive(Clone, Copy, Debug, PartialEq, Eq, Structural)]
pub enum RawContact {
    /// Two colliders began touching.
    Started(u64, u64),
    /// Two colliders stopped touching.
    Stopped(u64, u64),
}

/// A contact event in engine-agnostic terms, keyed by entity identifiers.
#[derive(Clone, Copy, Debug, PartialEq, Eq, Structural)]
pub enum Contact {
    /// Two entities began touching.
    Started(u64, u64),
    /// Two entities stopped touching.
    Stopped(u64, u64),
}

/// Resolution of one raw event: both handles must have owners, otherwise the
/// event is dropped.
pub open spec fn spec_resolve(entries: Seq<(u64, u64)>, raw: RawContact) -> Option<Contact> {
    match raw {
        RawContact::Started(a, b) => match (spec_lookup(entries, a), spec_lookup(entries, b)) {
            (Some(x), Some(y)) => Some(Contact::Started(x, y)),
            _ => None,
        },
        RawContact::Stopped(a, b) => match (spec_lookup(entries, a), spec_lookup(entries, b)) {
            (Some(x), Some(y)) => Some(Contact::Stopped(x, y)),
            _ => None,
        },
    }
}

/// The republished stream: resolvable events in arrival order,
/// unresolvable ones silently dropped.
pub open spec fn spec_adapt(entries: Seq<(u64, u64)>, raw: Seq<RawContact>) -> Seq<Contact>
    decreases raw.len(),
{
    if raw.len() == 0 {
        Seq::empty()
    } else {
        spec_adapt(entries, raw.drop_last()) + match spec_resolve(entries, raw.last()) {
            Some(c) => seq![c],
            None => Seq::empty(),
        }
    }
}

/// Resolves one raw event through the side-table.
pub fn resolve_contact(table: &HandleTable, raw: &RawContact) -> (r: Option<Contact>)
    ensures
        r == spec_resolve(table.entries@, *raw),
{
    match raw {
        RawContact::Started(a, b) => match (table.lookup(*a), table.lookup(*b)) {
            (Some(x), Some(y)) => Some(Contact::Started(x, y)),
            _ => None,
        },
        RawContact::Stopped(a, b) => match (table.lookup(*a), table.lookup(*b)) {
            (Some(x), Some(y)) => Some(Contact::Stopped(x, y)),
            _ => None,
        },
    }
}

/// Maps the tick's drained raw events to the typed contact stream the
/// resolvers consume. Exactly the resolvable events appear, in order.
pub fn adapt_events(table: &HandleTable, raw: &Vec<RawContact>) -> (out: Vec<Contact>)
    ensures
        out@ == spec_adapt(table.entries@, raw@),
{
    let mut out: Vec<Contact> = Vec::new();
    let n = raw.len();
    let mut i: usize = 0;
    while i < n
        invariant
            n == raw@.len(),
            0 <= i <= n,
            out@ == spec_adapt(table.entries@, raw@.subrange(0, i as int)),
        decreases n - i,
    {
        if let Some(c) = resolve_contact(table, &raw[i]) {
            out.push(c);
        }
        proof {
            assert(raw@.subrange(0, i + 1).drop_last() =~= raw@.subrange(0, i as int));
            assert(raw@.subrange(0, i + 1).last() == raw@[i as int]);
        }
        i = i + 1;
    }
    proof {
        assert(raw@.subrange(0, n as int) =~= raw@);
    }
    out
}

} // verus!
