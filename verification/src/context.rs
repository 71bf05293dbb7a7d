use vstd::prelude::*;

use crate::domain::ConnectionEnd;
use crate::height::Height;

verus! {

/// When the hosting chain processed one counterparty height: the host time
/// and host height at that moment. The delay-period check measures from
/// these values.
#[derive(Clone, Copy, Debug, PartialEq, Eq, Structural)]
pub struct ProcessedEntry {
    /// The counterparty height the entry is about.
    pub height: Height,
    /// Host timestamp at which that height was processed.
    pub processed_time: u64,
    /// Host height at which that height was processed.
    pub processed_height: Height,
}

/// The read-only auxiliary context the engine consults for ancillary chain
/// data: the host's current time and height, and when each counterparty
/// height was processed. It is never the source of the proof or root being
/// verified; those are always caller-supplied.
#[derive(Debug, PartialEq, Eq)]
pub struct AuxContext {
    pub host_timestamp: u64,
    pub host_height: Height,
    pub processed: Vec<ProcessedEntry>,
}

impl AuxContext {
    /// At most one record per counterparty height.
    pub open spec fn wf(self) -> bool {
        forall|i: int, j: int|
            0 <= i < j < self.processed@.len() ==> (#[trigger] self.processed@[i]).height != (
            #[trigger] self.processed@[j]).height
    }

    /// Whether the context holds a record for `h`.
    pub open spec fn has_processed(self, h: Height) -> bool {
        exists|i: int| 0 <= i < self.processed@.len() && (#[trigger] self.processed@[i]).height == h
    }

    /// Returns the record for `h`, or `None` when the context holds none.
    pub fn find_processed(&self, h: &Height) -> (r: Option<ProcessedEntry>)
        ensures
            r is Some <==> self.has_processed(*h),
            r matches Some(e) ==> e.height == *h && exists|i: int|
                0 <= i < self.processed@.len() && self.processed@[i] == e,
    {
        let mut i: usize = 0;
        while i < self.processed.len()
            invariant
                0 <= i <= self.processed.len(),
                forall|j: int| 0 <= j < i ==> (#[trigger] self.processed@[j]).height != *h,
            decreases self.processed.len() - i,
        {
            let e = self.processed[i];
            if e.height.revision_number == h.revision_number
                && e.height.revision_height == h.revision_height {
                return Some(e);
            }
            i += 1;
        }
        None
    }
}

/// Whether the delay configured on `conn` has elapsed since `e` was
/// processed: enough host time has passed and the host chain has advanced by
/// enough blocks within the processed revision.
pub open spec fn delay_elapsed(ctx: AuxContext, e: ProcessedEntry, conn: ConnectionEnd) -> bool {
    ctx.host_timestamp >= e.processed_time + conn.delay_period_time && (
    ctx.host_height.revision_number > e.processed_height.revision_number || (
    ctx.host_height.revision_number == e.processed_height.revision_number
        && ctx.host_height.revision_height >= e.processed_height.revision_height
        + conn.delay_period_blocks))
}

/// A connection with both delay parameters zero needs no processed record:
/// its proofs are accepted as soon as the height is reached.
pub open spec fn zero_delay(conn: ConnectionEnd) -> bool {
    conn.delay_period_time == 0 && conn.delay_period_blocks == 0
}

/// The cross-cutting delay-period rule: trivially satisfied on a zero-delay
/// connection, and otherwise satisfied only by a processed record for `h`
/// whose delay has elapsed.
pub open spec fn delay_check_passes(ctx: AuxContext, conn: ConnectionEnd, h: Height) -> bool {
    zero_delay(conn) || (exists|i: int|
        0 <= i < ctx.processed@.len() && (#[trigger] ctx.processed@[i]).height == h
            && delay_elapsed(ctx, ctx.processed@[i], conn))
}

/// Checks the delay-period rule for a proof captured at `h`.
pub fn check_delay(ctx: &AuxContext, conn: &ConnectionEnd, h: &Height) -> (r: Option<bool>)
    requires
        ctx.wf(),
    ensures
        r is None <==> (!zero_delay(*conn) && !ctx.has_processed(*h)),
        r matches Some(ok) ==> ok == delay_check_passes(*ctx, *conn, *h),
{
    if conn.delay_period_time == 0 && conn.delay_period_blocks == 0 {
        return Some(true);
    }
    match ctx.find_processed(h) {
        None => None,
        Some(e) => {
            let time_ok = ctx.host_timestamp >= e.processed_time && ctx.host_timestamp
                - e.processed_time >= conn.delay_period_time;
            let blocks_ok = ctx.host_height.revision_number > e.processed_height.revision_number
                || (ctx.host_height.revision_number == e.processed_height.revision_number
                && ctx.host_height.revision_height >= conn.delay_period_blocks
                && ctx.host_height.revision_height - conn.delay_period_blocks
                >= e.processed_height.revision_height);
            let ok = time_ok && blocks_ok;
            proof {
                assert(ok == delay_elapsed(*ctx, e, *conn));
                let i = choose|i: int|
                    0 <= i < ctx.processed@.len() && ctx.processed@[i] == e;
                if ok {
                    assert(0 <= i < ctx.processed@.len() && ctx.processed@[i].height == *h
                        && delay_elapsed(*ctx, ctx.processed@[i], *conn));
                } else {
                    assert forall|j: int|
                        0 <= j < ctx.processed@.len() && (#[trigger] ctx.processed@[j]).height
                            == *h implies ctx.processed@[j] == e by {
                        if j != i {
                            if j < i {
                                assert(ctx.processed@[j].height != ctx.processed@[i].height);
                            } else {
                                assert(ctx.processed@[i].height != ctx.processed@[j].height);
                            }
                        }
                    }
                }
            }
            Some(ok)
        },
    }
}

} // verus!
