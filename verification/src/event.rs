//! Typed change events and the normalizer that produces them from raw
//! records of the OS watch facility.

use vstd::prelude::*;

verus! {

/// Classification of a filesystem change.  Flags that the monitor does not
/// recognize (moves, modifications, ...) classify as `Unknown` rather than
/// being dropped.
#[derive(Clone, Copy, PartialEq, Eq, Structural, Debug)]
pub enum EventKind {
    Created,
    Deleted,
    Unknown,
}

/// Bit set in a raw record's mask when the change is a creation; the value
/// is the watch facility's creation bit (inotify's `IN_CREATE`).
pub const MASK_CREATE: u32 = 0x0000_0100;

/// Bit set in a raw record's mask when the change is a deletion; the value
/// is the watch facility's deletion bit (inotify's `IN_DELETE`).
pub const MASK_DELETE: u32 = 0x0000_0200;

/// A raw change record as the OS watch facility reports it, before
/// normalization: a mask of change flags and an optional file name (the
/// facility omits the name for some event classes).
#[derive(Debug)]
pub struct RawRecord {
    pub mask: u32,
    pub name: Option<String>,
}

/// Mathematical image of a `RawRecord`.
pub ghost struct RawRecordView {
    pub mask: u32,
    pub name: Option<Seq<char>>,
}

impl View for RawRecord {
    type V = RawRecordView;

    open spec fn view(&self) -> RawRecordView {
        RawRecordView {
            mask: self.mask,
            name: match self.name {
                Option::Some(n) => Option::Some(n@),
                Option::None => Option::None,
            },
        }
    }
}

impl DeepView for RawRecord {
    type V = RawRecordView;

    open spec fn deep_view(&self) -> RawRecordView {
        self.view()
    }
}

/// An immutable, normalized change event: what happened, to which path (as
/// reported, possibly a bare file name), and when it was observed.
#[derive(Debug)]
pub struct ChangeEvent {
    pub kind: EventKind,
    pub path: String,
    pub observed_at: u64,
}

/// Mathematical image of a `ChangeEvent`.
pub ghost struct EventView {
    pub kind: EventKind,
    pub path: Seq<char>,
    pub observed_at: u64,
}

impl View for ChangeEvent {
    type V = EventView;

    open spec fn view(&self) -> EventView {
        EventView { kind: self.kind, path: self.path@, observed_at: self.observed_at }
    }
}

impl DeepView for ChangeEvent {
    type V = EventView;

    open spec fn deep_view(&self) -> EventView {
        self.view()
    }
}

/// Whether `mask` has the bit `flag` set.
pub open spec fn has_flag(mask: u32, flag: u32) -> bool {
    mask & flag != 0
}

/// Classification rule: a creation flag wins over a deletion flag; a mask
/// with neither is `Unknown`.
pub open spec fn kind_of_mask(mask: u32) -> EventKind {
    if has_flag(mask, MASK_CREATE) {
        EventKind::Created
    } else if has_flag(mask, MASK_DELETE) {
        EventKind::Deleted
    } else {
        EventKind::Unknown
    }
}

/// Path rule: the reported name if there is one, else the literal
/// placeholder `"unknown"`.
pub open spec fn path_of_name(name: Option<Seq<char>>) -> Seq<char> {
    match name {
        Option::Some(n) => n,
        Option::None => "unknown"@,
    }
}

/// The event that normalizing `rec` at instant `now` must produce.
pub open spec fn normalized(rec: RawRecordView, now: u64) -> EventView {
    EventView { kind: kind_of_mask(rec.mask), path: path_of_name(rec.name), observed_at: now }
}

/// The events that normalizing a batch in delivery order must produce.
pub open spec fn normalized_all(recs: Seq<RawRecordView>, now: u64) -> Seq<EventView> {
    recs.map_values(|r: RawRecordView| normalized(r, now))
}

/// Map one raw record to a typed event, stamped with the instant `now`.
pub fn normalize(rec: RawRecord, now: u64) -> (e: ChangeEvent)
    ensures
        e@ == normalized(rec@, now),
        e.kind == kind_of_mask(rec@.mask),
        e.path@ == path_of_name(rec@.name),
        e.observed_at == now,
{
    let kind = if rec.mask & MASK_CREATE != 0 {
        EventKind::Created
    } else if rec.mask & MASK_DELETE != 0 {
        EventKind::Deleted
    } else {
        EventKind::Unknown
    };
    let path = match rec.name {
        Option::Some(n) => n,
        Option::None => String::from_str("unknown"),
    };
    ChangeEvent { kind, path, observed_at: now }
}

/// Normalize a whole batch of raw records, one event per record, preserving
/// the delivery order and stamping every event with the same instant.
pub fn normalize_batch(records: Vec<RawRecord>, now: u64) -> (out: Vec<ChangeEvent>)
    ensures
        out.deep_view() == normalized_all(records.deep_view(), now),
{
    let ghost orig = records.deep_view();
    let mut rest = records;
    let mut out: Vec<ChangeEvent> = Vec::new();
    proof {
        assert(rest.deep_view() =~= orig.skip(0));
        assert(out.deep_view() =~= normalized_all(orig, now).take(0));
    }
    while rest.len() > 0
        invariant
            out.deep_view().len() + rest.deep_view().len() == orig.len(),
            rest.deep_view() == orig.skip(out.deep_view().len() as int),
            out.deep_view() == normalized_all(orig, now).take(out.deep_view().len() as int),
        decreases rest.len(),
    {
        let ghost or_sh = rest@;
        let ghost or_dp = rest.deep_view();
        let ghost oo_sh = out@;
        let ghost oo_dp = out.deep_view();
        let ghost k = oo_dp.len() as int;
        let r = rest.remove(0);
        let ghost rv = r@;
        let e = normalize(r, now);
        out.push(e);
        proof {
            assert(rest@ =~= or_sh.skip(1));
            assert forall|i: int| 0 <= i < rest.deep_view().len() implies rest.deep_view()[i]
                == or_dp[i + 1] by {
                assert(rest@[i] == or_sh[i + 1]);
            }
            assert(rest.deep_view() =~= orig.skip(k + 1));
            assert forall|i: int| 0 <= i <= k implies out.deep_view()[i] == normalized_all(
                orig,
                now,
            ).take(k + 1)[i] by {
                if i < k {
                    assert(out@[i] == oo_sh[i]);
                    assert(out.deep_view()[i] == oo_dp[i]);
                } else {
                    assert(out@[i] == e);
                    assert(rv == or_dp[0]);
                    assert(or_dp[0] == orig[k]);
                    assert(normalized_all(orig, now)[k] == normalized(orig[k], now));
                }
            }
            assert(out.deep_view() =~= normalized_all(orig, now).take(k + 1));
        }
    }
    proof {
        assert(out.deep_view() =~= normalized_all(orig, now));
    }
    out
}

} // verus!
