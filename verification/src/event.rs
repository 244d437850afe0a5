//! The event stream a run leaves behind.
//!
//! The engine records one `start` event when a step begins, one `end` event
//! when it finishes, `log` events for messages and for condition clauses
//! whose evaluation failed, and exactly one `error` event when the run
//! halts.  The host prints or forwards them; their emission can never alter
//! control flow.

use vstd::prelude::*;

verus! {

/// The four event types of the run record.
#[derive(Debug, Clone, Copy, PartialEq, Eq, Structural)]
pub enum EventKind {
    Start,
    End,
    Error,
    Log,
}

/// One event: the sequence id of the visited step it belongs to, its type,
/// the step's name and a human-readable message.
#[derive(Debug)]
pub struct Event {
    pub id: u64,
    pub kind: EventKind,
    pub step: String,
    pub message: String,
}

/// How many events of `es` are `error` events.
pub open spec fn error_count(es: Seq<Event>) -> nat
    decreases es.len(),
{
    if es.len() == 0 {
        0
    } else {
        error_count(es.drop_last()) + (if es.last().kind is Error {
            1nat
        } else {
            0nat
        })
    }
}

/// Recording one more event adds its error count.
pub broadcast proof fn lemma_error_count_push(s: Seq<Event>, e: Event)
    ensures
        #[trigger] error_count(s.push(e)) == error_count(s) + (if e.kind is Error {
            1nat
        } else {
            0nat
        }),
{
    assert(s.push(e).drop_last() =~= s);
    assert(s.push(e).last() == e);
}

/// Error events in a concatenation are the errors of both halves together.
pub proof fn lemma_error_count_add(a: Seq<Event>, b: Seq<Event>)
    ensures
        error_count(a + b) == error_count(a) + error_count(b),
    decreases b.len(),
{
    if b.len() == 0 {
        assert(a + b =~= a);
    } else {
        lemma_error_count_add(a, b.drop_last());
        assert((a + b).drop_last() =~= a + b.drop_last());
        assert((a + b).last() == b.last());
    }
}

} // verus!
