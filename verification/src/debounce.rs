//! Model of the debounced notification pipeline.
//!
//! The watcher collapses raw filesystem events that fall within the
//! debounce window into flushes, and each flush hands the library a batch:
//! either the collapsed events, classified by kind, or the errors the
//! watcher ran into. The functions here say how many payload-free
//! "file-changed" notifications a batch produces — one per modify event,
//! none for errors, which are logged and dropped — and how many flushes a
//! run of raw events produces: a new flush starts exactly where the gap to
//! the previous event exceeds the window.

use vstd::prelude::*;

verus! {

/// What a raw filesystem event did to the watched file, as far as the
/// notification pipeline cares: a modification, or anything else.
#[derive(Debug, PartialEq, Eq, Clone, Copy, Structural)]
pub enum FileEventKind {
    Modify,
    Other,
}

/// How many events of a batch are modifications.
pub open spec fn modify_count(events: Seq<FileEventKind>) -> int
    decreases events.len(),
{
    if events.len() == 0 {
        0
    } else {
        modify_count(events.drop_last()) + if events.last() is Modify {
            1int
        } else {
            0int
        }
    }
}

/// One flush of the debounced watcher: the collapsed events, or the errors
/// the watcher reported instead.
#[derive(Debug, PartialEq, Eq, Clone)]
pub enum DebouncedBatch {
    Events(Vec<FileEventKind>),
    Errors(Vec<String>),
}

/// How many "file-changed" notifications a flush pushes outward: one per
/// modify event in the batch; none at all for an error batch, whose errors
/// are logged and dropped rather than surfaced.
pub fn notifications_for_batch(batch: &DebouncedBatch) -> (n: usize)
    ensures
        match *batch {
            DebouncedBatch::Events(ref es) => n == modify_count(es@) && n <= es@.len(),
            DebouncedBatch::Errors(_) => n == 0,
        },
{
    match batch {
        DebouncedBatch::Events(es) => {
            let mut n: usize = 0;
            let mut i: usize = 0;
            while i < es.len()
                invariant
                    i <= es@.len(),
                    n == modify_count(es@.subrange(0, i as int)),
                    n <= i,
                decreases es@.len() - i,
            {
                proof {
                    assert(es@.subrange(0, i + 1).drop_last() =~= es@.subrange(0, i as int));
                    assert(es@.subrange(0, i + 1).last() == es@[i as int]);
                }
                if es[i] == FileEventKind::Modify {
                    n = n + 1;
                }
                i = i + 1;
            }
            proof {
                assert(es@.subrange(0, es@.len() as int) =~= es@);
            }
            n
        },
        DebouncedBatch::Errors(_) => 0,
    }
}

/// Whether a run of event times is in order of occurrence.
pub open spec fn in_order(times: Seq<u64>) -> bool {
    forall|i: int, j: int| 0 <= i <= j < times.len() ==> times[i] <= times[j]
}

/// How many flushes a run of raw event times produces under a debounce
/// window: the first event opens a flush, and each later event opens a new
/// one exactly when its gap to the previous event exceeds the window.
pub open spec fn flush_count(times: Seq<u64>, window: u64) -> int
    decreases times.len(),
{
    if times.len() <= 1 {
        times.len() as int
    } else {
        flush_count(times.drop_last(), window) + if times.last() - times[times.len() - 2]
            > window {
            1int
        } else {
            0int
        }
    }
}

/// Counts the flushes a run of raw event times produces.
pub fn flushes_of(times: &Vec<u64>, window: u64) -> (n: usize)
    requires
        in_order(times@),
    ensures
        n == flush_count(times@, window),
        n <= times@.len(),
{
    if times.len() == 0 {
        return 0;
    }
    let mut n: usize = 1;
    let mut i: usize = 1;
    while i < times.len()
        invariant
            1 <= i <= times@.len(),
            in_order(times@),
            n == flush_count(times@.subrange(0, i as int), window),
            n <= i,
        decreases times@.len() - i,
    {
        proof {
            let pre = times@.subrange(0, i + 1);
            assert(pre.drop_last() =~= times@.subrange(0, i as int));
            assert(pre.last() == times@[i as int]);
            assert(pre[pre.len() - 2] == times@[i - 1]);
        }
        if times[i] - times[i - 1] > window {
            n = n + 1;
        }
        i = i + 1;
    }
    proof {
        assert(times@.subrange(0, times@.len() as int) =~= times@);
    }
    n
}

/// A burst collapses: modifications whose consecutive gaps all lie within
/// the debounce window produce exactly one flush, however many they are.
pub proof fn lemma_burst_single_flush(times: Seq<u64>, window: u64)
    requires
        times.len() >= 1,
        forall|i: int| 1 <= i < times.len() ==> (#[trigger] times[i]) - times[i - 1] <= window,
    ensures
        flush_count(times, window) == 1,
    decreases times.len(),
{
    if times.len() > 1 {
        let t = times.drop_last();
        assert(forall|i: int| 1 <= i < t.len() ==> (#[trigger] t[i]) - t[i - 1] <= window);
        lemma_burst_single_flush(t, window);
    }
}

/// A single modification produces a single flush, and a flush whose batch
/// holds exactly one modify event produces exactly one notification.
pub proof fn lemma_single_change_single_notification(t: u64, window: u64)
    ensures
        flush_count(seq![t], window) == 1,
        modify_count(seq![FileEventKind::Modify]) == 1,
{
    assert(seq![FileEventKind::Modify].drop_last() =~= Seq::<FileEventKind>::empty());
    assert(modify_count(Seq::<FileEventKind>::empty()) == 0);
}

} // verus!
