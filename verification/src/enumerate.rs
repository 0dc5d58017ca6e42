use vstd::prelude::*;

use crate::errors::CaptureError;

verus! {

/// What the driver observed about one top-level window during the walk: the
/// window's handle, whether it is currently visible, the title length the OS
/// reported, how many text units the title read returned, and the decoded
/// title text.
pub struct WindowProbe {
    pub handle: isize,
    pub visible: bool,
    pub reported_len: i32,
    pub copied_len: i32,
    pub title: String,
}

/// One enumerated window: its handle and its title.
pub struct WindowRecord {
    pub handle: isize,
    pub title: String,
}

/// A probed window is kept when it is visible, the OS reported a non-empty
/// title, and reading the title returned text. Windows failing any of these
/// are silently skipped: they are uninteresting, not failures.
pub open spec fn keep_probe(p: WindowProbe) -> bool {
    &&& p.visible
    &&& p.reported_len != 0
    &&& p.copied_len != 0
}

/// The record an accepted probe turns into: its handle and title, unchanged.
pub open spec fn record_of(p: WindowProbe) -> WindowRecord {
    WindowRecord { handle: p.handle, title: p.title }
}

/// The records of the kept probes, in walk order: exactly one record per
/// probe that `keep_probe` accepts, carrying the probe's handle and title.
pub open spec fn kept_records(probes: Seq<WindowProbe>) -> Seq<WindowRecord>
    decreases probes.len(),
{
    if probes.len() == 0 {
        Seq::empty()
    } else {
        let rest = kept_records(probes.drop_last());
        if keep_probe(probes.last()) {
            rest.push(record_of(probes.last()))
        } else {
            rest
        }
    }
}

/// `kept_records` is the walk filtered to the accepted probes, each mapped
/// to its record: every visible, titled window yields exactly one record,
/// with the title the OS reported, and no other record appears.
pub proof fn lemma_kept_records_are_filtered(probes: Seq<WindowProbe>)
    ensures
        kept_records(probes) == probes.filter(|p: WindowProbe| keep_probe(p)).map_values(
            |p: WindowProbe| record_of(p),
        ),
    decreases probes.len(),
{
    reveal_with_fuel(Seq::filter, 2);
    let pred = |p: WindowProbe| keep_probe(p);
    let f = |p: WindowProbe| record_of(p);
    if probes.len() == 0 {
        assert(probes.filter(pred).map_values(f) =~= Seq::<WindowRecord>::empty());
    } else {
        lemma_kept_records_are_filtered(probes.drop_last());
        let rest = probes.drop_last();
        assert(probes.filter(pred) == if pred(probes.last()) {
            rest.filter(pred).push(probes.last())
        } else {
            rest.filter(pred)
        });
        if pred(probes.last()) {
            assert(rest.filter(pred).push(probes.last()).map_values(f) =~= rest.filter(
                pred,
            ).map_values(f).push(f(probes.last())));
        }
    }
}

/// Builds the list of enumerated windows from the walk's outcome. When the
/// walk itself was aborted by the OS, the whole enumeration fails; per-window
/// oddities were already folded into each probe and are skipped silently.
pub fn list_windows(walk_completed: bool, err: u32, probes: Vec<WindowProbe>) -> (r: Result<
    Vec<WindowRecord>,
    CaptureError,
>)
    ensures
        match r {
            Ok(records) => walk_completed && records@ == kept_records(probes@),
            Err(e) => !walk_completed && e == CaptureError::EnumerationFailed(err),
        },
{
    if !walk_completed {
        return Err(CaptureError::EnumerationFailed(err));
    }
    let mut records: Vec<WindowRecord> = Vec::new();
    let n: usize = probes.len();
    let mut i: usize = 0;
    while i < n
        invariant
            n == probes@.len(),
            i <= n,
            records@ == kept_records(probes@.subrange(0, i as int)),
        decreases n - i,
    {
        let p = &probes[i];
        proof {
            assert(probes@.subrange(0, i + 1).drop_last() =~= probes@.subrange(0, i as int));
            assert(probes@.subrange(0, i + 1).last() == probes@[i as int]);
        }
        if p.visible && p.reported_len != 0 && p.copied_len != 0 {
            let title = p.title.clone();
            records.push(WindowRecord { handle: p.handle, title });
        }
        i = i + 1;
    }
    proof {
        assert(probes@.subrange(0, n as int) =~= probes@);
    }
    Ok(records)
}

} // verus!
