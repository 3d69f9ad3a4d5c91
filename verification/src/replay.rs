//! Rejecting envelopes that were seen before, or that are dated too far
//! from the present.

use crate::identity::{AgentIdentity, IdentityModel};
use vstd::prelude::*;

verus! {

/// Why an envelope was not admitted.
#[derive(Debug, Clone, Copy, PartialEq, Eq, Structural)]
pub enum ReplayError {
    /// The time of issue is older than the window or further ahead than the
    /// tolerated clock skew.
    StaleTimestamp,
    /// The sender used this nonce before, within the window.
    NonceReplay,
}

/// One admitted envelope, as far as the guard remembers it.
pub struct ReplayRecord {
    identity: AgentIdentity,
    nonce: String,
    issued_at: u64,
}

/// Mathematical value of a [`ReplayRecord`].
pub struct RecordModel {
    pub identity: IdentityModel,
    pub nonce: Seq<char>,
    pub issued_at: u64,
}

impl View for ReplayRecord {
    type V = RecordModel;

    closed spec fn view(&self) -> RecordModel {
        RecordModel { identity: self.identity@, nonce: self.nonce@, issued_at: self.issued_at }
    }
}

/// Mathematical value of a [`ReplayGuard`]: its two settings, in the unit of
/// the timestamps, and the records it holds, oldest admission first.
pub struct GuardModel {
    pub window: u64,
    pub skew: u64,
    pub records: Seq<RecordModel>,
}

/// Whether a time of issue is acceptable at `now`: no older than the window
/// and no further ahead than the skew.
pub open spec fn timely(window: u64, skew: u64, issued_at: u64, now: u64) -> bool {
    now - window <= issued_at <= now + skew
}

/// Whether a record is still inside the window at `now`.
pub open spec fn live(window: u64, record: RecordModel, now: u64) -> bool {
    now - window <= record.issued_at
}

/// The records that are still inside the window at `now`, in their order.
pub open spec fn purged(records: Seq<RecordModel>, window: u64, now: u64) -> Seq<RecordModel>
    decreases records.len(),
{
    if records.len() == 0 {
        records
    } else if live(window, records.last(), now) {
        purged(records.drop_last(), window, now).push(records.last())
    } else {
        purged(records.drop_last(), window, now)
    }
}

/// Whether some record holds this nonce for this sender.
pub open spec fn seen(records: Seq<RecordModel>, sender: IdentityModel, nonce: Seq<char>) -> bool {
    exists|i: int|
        0 <= i < records.len() && (#[trigger] records[i]).identity == sender && records[i].nonce
            == nonce
}

impl GuardModel {
    /// The outcome of presenting `(sender, nonce, issued_at)` at `now`.
    pub open spec fn admission(
        self,
        sender: IdentityModel,
        nonce: Seq<char>,
        issued_at: u64,
        now: u64,
    ) -> Result<(), ReplayError> {
        if !timely(self.window, self.skew, issued_at, now) {
            Err(ReplayError::StaleTimestamp)
        } else if seen(purged(self.records, self.window, now), sender, nonce) {
            Err(ReplayError::NonceReplay)
        } else {
            Ok(())
        }
    }

    /// The guard after `(sender, nonce, issued_at)` was presented at `now`:
    /// records that left the window are dropped, and the new one is recorded
    /// where it was admitted.
    pub open spec fn after_admit(
        self,
        sender: IdentityModel,
        nonce: Seq<char>,
        issued_at: u64,
        now: u64,
    ) -> GuardModel {
        let kept = purged(self.records, self.window, now);
        GuardModel {
            window: self.window,
            skew: self.skew,
            records: if self.admission(sender, nonce, issued_at, now) is Ok {
                kept.push(RecordModel { identity: sender, nonce, issued_at })
            } else {
                kept
            },
        }
    }
}

/// Remembers, for each sender, the nonces seen inside a sliding window.
pub struct ReplayGuard {
    window: u64,
    skew: u64,
    records: Vec<ReplayRecord>,
}

impl View for ReplayGuard {
    type V = GuardModel;

    closed spec fn view(&self) -> GuardModel {
        GuardModel {
            window: self.window,
            skew: self.skew,
            records: Seq::new(self.records@.len(), |i: int| self.records@[i]@),
        }
    }
}

impl ReplayGuard {
    /// A guard with nothing recorded. `window` is how far back a time of
    /// issue may lie, `skew` how far ahead, both in the unit of the
    /// timestamps.
    pub fn new(window: u64, skew: u64) -> (r: Self)
        ensures
            r@ == (GuardModel { window, skew, records: Seq::empty() }),
    {
        let r = ReplayGuard { window, skew, records: Vec::new() };
        assert(r@.records =~= Seq::<RecordModel>::empty());
        r
    }

    /// How far back a time of issue may lie.
    pub fn window(&self) -> (r: u64)
        ensures
            r == self@.window,
    {
        self.window
    }

    /// How far ahead a time of issue may lie.
    pub fn skew(&self) -> (r: u64)
        ensures
            r == self@.skew,
    {
        self.skew
    }

    /// How many records the guard holds.
    pub fn len(&self) -> (r: usize)
        ensures
            r == self@.records.len(),
    {
        self.records.len()
    }

    fn is_timely(&self, issued_at: u64, now: u64) -> (r: bool)
        ensures
            r == timely(self@.window, self@.skew, issued_at, now),
    {
        let old_enough = self.window <= now && issued_at < now - self.window;
        let too_far = self.skew <= u64::MAX - now && issued_at > now + self.skew;
        !old_enough && !too_far
    }

    fn is_live(&self, issued_at: u64, now: u64) -> (r: bool)
        ensures
            r == (now - self@.window <= issued_at),
    {
        !(self.window <= now && issued_at < now - self.window)
    }

    /// Drops the records that have left the window at `now`.
    pub fn purge(&mut self, now: u64)
        ensures
            final(self)@ == (GuardModel {
                window: old(self)@.window,
                skew: old(self)@.skew,
                records: purged(old(self)@.records, old(self)@.window, now),
            }),
    {
        let ghost before = self@.records;
        let mut kept: Vec<ReplayRecord> = Vec::new();
        let mut i: usize = 0;
        assert(before.take(0) =~= Seq::<RecordModel>::empty());
        while i < self.records.len()
            invariant
                i <= self.records@.len(),
                self@ == old(self)@,
                before == self@.records,
                Seq::new(kept@.len(), |j: int| kept@[j]@) == purged(
                    before.take(i as int),
                    self@.window,
                    now,
                ),
            decreases self.records@.len() - i,
        {
            let ghost so_far = Seq::new(kept@.len(), |j: int| kept@[j]@);
            let record = &self.records[i];
            proof {
                assert(before.take(i + 1).drop_last() =~= before.take(i as int));
                assert(before.take(i + 1).last() == record@);
            }
            if self.is_live(record.issued_at, now) {
                kept.push(
                    ReplayRecord {
                        identity: record.identity.clone(),
                        nonce: record.nonce.clone(),
                        issued_at: record.issued_at,
                    },
                );
                assert(Seq::new(kept@.len(), |j: int| kept@[j]@) =~= so_far.push(record@));
            }
            i += 1;
        }
        assert(before.take(i as int) =~= before);
        self.records = kept;
    }

    fn has_seen(&self, sender: &AgentIdentity, nonce: &String) -> (r: bool)
        ensures
            r == seen(self@.records, sender@, nonce@),
    {
        let mut i: usize = 0;
        while i < self.records.len()
            invariant
                i <= self.records@.len(),
                forall|j: int|
                    0 <= j < i ==> !((#[trigger] self@.records[j]).identity == sender@
                        && self@.records[j].nonce == nonce@),
            decreases self.records@.len() - i,
        {
            let record = &self.records[i];
            assert(self@.records[i as int] == record@);
            if record.identity.same_as(sender) && record.nonce == *nonce {
                return true;
            }
            i += 1;
        }
        false
    }

    /// Presents `(sender, nonce, issued_at)` at `now`. The check and the
    /// recording are one step: of two presentations of the same nonce the
    /// second finds the first recorded.
    pub fn admit_nonce(&mut self, sender: &AgentIdentity, nonce: &String, issued_at: u64, now: u64) -> (r:
        Result<(), ReplayError>)
        ensures
            r == old(self)@.admission(sender@, nonce@, issued_at, now),
            final(self)@ == old(self)@.after_admit(sender@, nonce@, issued_at, now),
    {
        self.purge(now);
        if !self.is_timely(issued_at, now) {
            return Err(ReplayError::StaleTimestamp);
        }
        if self.has_seen(sender, nonce) {
            return Err(ReplayError::NonceReplay);
        }
        let ghost kept = self@.records;
        self.records.push(
            ReplayRecord { identity: sender.clone(), nonce: nonce.clone(), issued_at },
        );
        assert(self@.records =~= kept.push(
            RecordModel { identity: sender@, nonce: nonce@, issued_at },
        ));
        Ok(())
    }
}

/// Every record that survives a purge was there before and is inside the
/// window.
pub proof fn purged_came_from(records: Seq<RecordModel>, window: u64, now: u64, j: int)
    requires
        0 <= j < purged(records, window, now).len(),
    ensures
        live(window, purged(records, window, now)[j], now),
        records.contains(purged(records, window, now)[j]),
    decreases records.len(),
{
    if records.len() > 0 {
        let rest = purged(records.drop_last(), window, now);
        if j < rest.len() {
            purged_came_from(records.drop_last(), window, now, j);
            let i = choose|i: int| 0 <= i < records.drop_last().len() && records.drop_last()[i] == rest[j];
            assert(records[i] == rest[j]);
        } else {
            assert(records[records.len() - 1] == records.last());
        }
    }
}

/// Every record inside the window survives a purge.
pub proof fn purged_keeps(records: Seq<RecordModel>, window: u64, now: u64, i: int)
    requires
        0 <= i < records.len(),
        live(window, records[i], now),
    ensures
        purged(records, window, now).contains(records[i]),
    decreases records.len(),
{
    let all = purged(records, window, now);
    if i == records.len() - 1 {
        assert(all[all.len() - 1] == records[i]);
    } else {
        purged_keeps(records.drop_last(), window, now, i);
        let rest = purged(records.drop_last(), window, now);
        let j = choose|j: int| 0 <= j < rest.len() && rest[j] == records.drop_last()[i];
        assert(all[j] == records[i]);
    }
}

/// A nonce presented again while its first record is inside the window is
/// refused as a replay: so an envelope resubmitted unchanged inside the
/// window is refused.
pub proof fn resubmission_inside_window_is_replay(
    guard: GuardModel,
    sender: IdentityModel,
    nonce: Seq<char>,
    first_issued_at: u64,
    first_now: u64,
    issued_at: u64,
    now: u64,
)
    requires
        guard.admission(sender, nonce, first_issued_at, first_now) is Ok,
        now - guard.window <= first_issued_at,
        timely(guard.window, guard.skew, issued_at, now),
    ensures
        guard.after_admit(sender, nonce, first_issued_at, first_now).admission(
            sender,
            nonce,
            issued_at,
            now,
        ) == Err::<(), ReplayError>(ReplayError::NonceReplay),
{
    let next = guard.after_admit(sender, nonce, first_issued_at, first_now);
    let record = RecordModel { identity: sender, nonce, issued_at: first_issued_at };
    assert(next.records[next.records.len() - 1] == record);
    purged_keeps(next.records, next.window, now, next.records.len() - 1);
    let kept = purged(next.records, next.window, now);
    let j = choose|j: int| 0 <= j < kept.len() && kept[j] == record;
    assert(kept[j].identity == sender && kept[j].nonce == nonce);
}

/// Once the window has passed over the first record of a nonce, the sender
/// may use the nonce again under a timely time of issue: it counts as new.
pub proof fn reuse_after_window_is_admitted(
    guard: GuardModel,
    sender: IdentityModel,
    nonce: Seq<char>,
    first_issued_at: u64,
    first_now: u64,
    issued_at: u64,
    now: u64,
)
    requires
        guard.admission(sender, nonce, first_issued_at, first_now) is Ok,
        first_issued_at < now - guard.window,
        timely(guard.window, guard.skew, issued_at, now),
    ensures
        guard.after_admit(sender, nonce, first_issued_at, first_now).admission(
            sender,
            nonce,
            issued_at,
            now,
        ) is Ok,
{
    let next = guard.after_admit(sender, nonce, first_issued_at, first_now);
    let earlier = purged(guard.records, guard.window, first_now);
    let kept = purged(next.records, next.window, now);
    assert forall|j: int| 0 <= j < kept.len() implies !((#[trigger] kept[j]).identity == sender
        && kept[j].nonce == nonce) by {
        purged_came_from(next.records, next.window, now, j);
        let i = choose|i: int| 0 <= i < next.records.len() && next.records[i] == kept[j];
        if i < earlier.len() {
            assert(earlier[i] == kept[j]);
        }
    }
}

/// An envelope resubmitted unchanged after the window has passed over its
/// time of issue is refused as stale, whatever the guard holds.
pub proof fn resubmission_after_window_is_stale(
    guard: GuardModel,
    sender: IdentityModel,
    nonce: Seq<char>,
    issued_at: u64,
    now: u64,
)
    requires
        issued_at < now - guard.window,
    ensures
        guard.admission(sender, nonce, issued_at, now) == Err::<(), ReplayError>(
            ReplayError::StaleTimestamp,
        ),
{
}

/// What one sender presents never turns a nonce of another sender into a
/// replay: a nonce that counts as seen for `sender` after `other` presented
/// something was recorded for `sender` before.
pub proof fn senders_do_not_shadow_each_other(
    guard: GuardModel,
    other: IdentityModel,
    other_nonce: Seq<char>,
    other_issued_at: u64,
    other_now: u64,
    sender: IdentityModel,
    nonce: Seq<char>,
    now: u64,
)
    requires
        other != sender,
    ensures
        seen(
            purged(
                guard.after_admit(other, other_nonce, other_issued_at, other_now).records,
                guard.window,
                now,
            ),
            sender,
            nonce,
        ) ==> seen(guard.records, sender, nonce),
{
    let next = guard.after_admit(other, other_nonce, other_issued_at, other_now);
    let kept = purged(next.records, next.window, now);
    if seen(kept, sender, nonce) {
        let j = choose|j: int|
            0 <= j < kept.len() && (#[trigger] kept[j]).identity == sender && kept[j].nonce == nonce;
        purged_came_from(next.records, next.window, now, j);
        let i = choose|i: int| 0 <= i < next.records.len() && next.records[i] == kept[j];
        let earlier = purged(guard.records, guard.window, other_now);
        assert(earlier[i] == kept[j]);
        purged_came_from(guard.records, guard.window, other_now, i);
        let k = choose|k: int| 0 <= k < guard.records.len() && guard.records[k] == earlier[i];
        assert(guard.records[k].identity == sender && guard.records[k].nonce == nonce);
    }
}

} // verus!
