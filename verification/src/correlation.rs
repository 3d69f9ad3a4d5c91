//! Invocations that still await their answer.

use crate::envelope::{Envelope, EnvelopeModel};
use crate::identity::{AgentIdentity, IdentityModel};
use vstd::prelude::*;

verus! {

/// Why a correlation request failed.
#[derive(Debug, Clone, Copy, PartialEq, Eq, Structural)]
pub enum CorrelationError {
    /// The correlation id is pending already.
    DuplicateCorrelation,
    /// No pending invocation has this correlation id.
    UnknownCorrelation,
    /// The answer comes from another sender than the invocation expects.
    ResponderMismatch,
    /// The answer came after the invocation's deadline.
    Expired,
}

/// One invocation that awaits its answer. `responder` is the only sender
/// whose answer is accepted; `None` accepts an answer from anyone.
#[derive(Debug)]
pub struct PendingInvocation {
    pub correlation_id: String,
    pub initiated_at: u64,
    pub deadline: u64,
    pub responder: Option<AgentIdentity>,
}

/// Mathematical value of a [`PendingInvocation`].
pub struct PendingModel {
    pub correlation_id: Seq<char>,
    pub initiated_at: u64,
    pub deadline: u64,
    pub responder: Option<IdentityModel>,
}

/// The model of an optional identity.
pub open spec fn opt_identity(id: Option<AgentIdentity>) -> Option<IdentityModel> {
    match id {
        Some(i) => Some(i@),
        None => None,
    }
}

impl View for PendingInvocation {
    type V = PendingModel;

    open spec fn view(&self) -> PendingModel {
        PendingModel {
            correlation_id: self.correlation_id@,
            initiated_at: self.initiated_at,
            deadline: self.deadline,
            responder: opt_identity(self.responder),
        }
    }
}

impl PendingModel {
    /// Whether an answer from `sender` is one this invocation expects.
    pub open spec fn expects(self, sender: IdentityModel) -> bool {
        match self.responder {
            Some(r) => r == sender,
            None => true,
        }
    }

    /// Whether the deadline lies before `now`.
    pub open spec fn overdue(self, now: u64) -> bool {
        self.deadline < now
    }
}

/// Whether no correlation id stands twice in `pending`.
pub open spec fn distinct_ids(pending: Seq<PendingModel>) -> bool {
    forall|i: int, j: int|
        0 <= i < j < pending.len() ==> (#[trigger] pending[i]).correlation_id != (
        #[trigger] pending[j]).correlation_id
}

/// The place of the invocation with this id, if it is pending.
pub open spec fn place_of(pending: Seq<PendingModel>, id: Seq<char>) -> Option<int>
    decreases pending.len(),
{
    if pending.len() == 0 {
        None
    } else if pending.last().correlation_id == id {
        Some(pending.len() - 1)
    } else {
        place_of(pending.drop_last(), id)
    }
}

/// The condition under which a sweep drops an invocation: overdue at `now`.
pub open spec fn overdue_at(now: u64) -> spec_fn(PendingModel) -> bool {
    |p: PendingModel| p.overdue(now)
}

/// The condition under which closing the link to `peer` drops an
/// invocation: only `peer` could have answered it.
pub open spec fn bound_to(peer: IdentityModel) -> spec_fn(PendingModel) -> bool {
    |p: PendingModel| p.responder == Some(peer)
}

/// The invocations that `drop` spares, in their order.
pub open spec fn kept(pending: Seq<PendingModel>, drop: spec_fn(PendingModel) -> bool) -> Seq<
    PendingModel,
>
    decreases pending.len(),
{
    if pending.len() == 0 {
        pending
    } else if drop(pending.last()) {
        kept(pending.drop_last(), drop)
    } else {
        kept(pending.drop_last(), drop).push(pending.last())
    }
}

/// The correlation ids of the invocations that `drop` takes, in their order.
pub open spec fn dropped_ids(pending: Seq<PendingModel>, drop: spec_fn(PendingModel) -> bool) -> Seq<
    Seq<char>,
>
    decreases pending.len(),
{
    if pending.len() == 0 {
        Seq::empty()
    } else if drop(pending.last()) {
        dropped_ids(pending.drop_last(), drop).push(pending.last().correlation_id)
    } else {
        dropped_ids(pending.drop_last(), drop)
    }
}

/// The character sequences of a list of strings.
pub open spec fn texts(ids: Seq<String>) -> Seq<Seq<char>> {
    Seq::new(ids.len(), |i: int| ids[i]@)
}

/// The outcome of registering an invocation under `id`.
pub open spec fn registration(pending: Seq<PendingModel>, id: Seq<char>) -> Result<
    (),
    CorrelationError,
> {
    if place_of(pending, id) is Some {
        Err(CorrelationError::DuplicateCorrelation)
    } else {
        Ok(())
    }
}

/// The outcome of resolving `envelope` at `now`. An envelope that is no
/// answer, or names no correlation id, matches nothing that is pending.
pub open spec fn resolution(pending: Seq<PendingModel>, envelope: EnvelopeModel, now: u64) -> Result<
    PendingModel,
    CorrelationError,
> {
    if !envelope.body.answers() || envelope.correlation_id is None {
        Err(CorrelationError::UnknownCorrelation)
    } else {
        match place_of(pending, envelope.correlation_id->0) {
            None => Err(CorrelationError::UnknownCorrelation),
            Some(i) => if !pending[i].expects(envelope.sender) {
                Err(CorrelationError::ResponderMismatch)
            } else if pending[i].overdue(now) {
                Err(CorrelationError::Expired)
            } else {
                Ok(pending[i])
            },
        }
    }
}

/// What is pending after `envelope` was resolved at `now`: the invocation it
/// answers has left, whether in time or too late; on every other outcome
/// nothing has changed.
pub open spec fn after_resolve(pending: Seq<PendingModel>, envelope: EnvelopeModel, now: u64) -> Seq<
    PendingModel,
> {
    match resolution(pending, envelope, now) {
        Ok(_) => pending.remove(place_of(pending, envelope.correlation_id->0)->0),
        Err(CorrelationError::Expired) => pending.remove(
            place_of(pending, envelope.correlation_id->0)->0,
        ),
        Err(_) => pending,
    }
}

/// `place_of` finds an invocation with the id, and finds none only where
/// there is none.
pub proof fn place_of_finds(pending: Seq<PendingModel>, id: Seq<char>)
    ensures
        match place_of(pending, id) {
            Some(i) => 0 <= i < pending.len() && pending[i].correlation_id == id,
            None => forall|j: int| 0 <= j < pending.len() ==> (#[trigger] pending[j]).correlation_id != id,
        },
    decreases pending.len(),
{
    if pending.len() > 0 && pending.last().correlation_id != id {
        place_of_finds(pending.drop_last(), id);
        assert forall|j: int| 0 <= j < pending.len() && place_of(pending, id) is None implies (
        #[trigger] pending[j]).correlation_id != id by {
            if j < pending.len() - 1 {
                assert(pending.drop_last()[j] == pending[j]);
            }
        }
    }
}

/// Taking one invocation out leaves the ids distinct, and the id that left
/// is no longer pending.
pub proof fn removal_forgets(pending: Seq<PendingModel>, i: int)
    requires
        distinct_ids(pending),
        0 <= i < pending.len(),
    ensures
        distinct_ids(pending.remove(i)),
        place_of(pending.remove(i), pending[i].correlation_id) is None,
{
    let rest = pending.remove(i);
    assert forall|a: int, b: int| 0 <= a < b < rest.len() implies (#[trigger] rest[a]).correlation_id
        != (#[trigger] rest[b]).correlation_id by {
        let a0 = if a < i { a } else { a + 1 };
        let b0 = if b < i { b } else { b + 1 };
        assert(rest[a] == pending[a0] && rest[b] == pending[b0]);
    }
    place_of_finds(rest, pending[i].correlation_id);
    if place_of(rest, pending[i].correlation_id) is Some {
        let a = place_of(rest, pending[i].correlation_id)->0;
        let a0 = if a < i { a } else { a + 1 };
        assert(rest[a] == pending[a0]);
        assert(pending[a0].correlation_id == pending[i].correlation_id);
    }
}

/// Which invocations to take out of a tracker.
enum Rule<'a> {
    /// Those overdue at this time.
    Overdue(u64),
    /// Those that only this peer could have answered.
    BoundTo(&'a AgentIdentity),
}

impl<'a> Rule<'a> {
    /// The condition that the rule stands for.
    spec fn condition(self) -> spec_fn(PendingModel) -> bool {
        match self {
            Rule::Overdue(now) => overdue_at(now),
            Rule::BoundTo(peer) => bound_to(peer@),
        }
    }

    /// Whether the rule names `entry`.
    fn names(&self, entry: &PendingInvocation) -> (r: bool)
        ensures
            r == (self.condition())(entry@),
    {
        match self {
            Rule::Overdue(now) => entry.deadline < *now,
            Rule::BoundTo(peer) => match &entry.responder {
                Some(r) => r.same_as(peer),
                None => false,
            },
        }
    }
}

/// The invocations awaiting an answer, each under its own correlation id.
pub struct CorrelationTracker {
    pending: Vec<PendingInvocation>,
}

impl View for CorrelationTracker {
    type V = Seq<PendingModel>;

    closed spec fn view(&self) -> Seq<PendingModel> {
        Seq::new(self.pending@.len(), |i: int| self.pending@[i]@)
    }
}

impl CorrelationTracker {
    /// Whether the tracker is well formed: no correlation id is pending
    /// twice.
    pub open spec fn wf(&self) -> bool {
        distinct_ids(self@)
    }

    /// A tracker with nothing pending.
    pub fn new() -> (r: Self)
        ensures
            r.wf(),
            r@ == Seq::<PendingModel>::empty(),
    {
        let r = CorrelationTracker { pending: Vec::new() };
        assert(r@ =~= Seq::<PendingModel>::empty());
        r
    }

    /// How many invocations are pending.
    pub fn len(&self) -> (r: usize)
        ensures
            r == self@.len(),
    {
        self.pending.len()
    }

    fn locate(&self, id: &String) -> (r: Option<usize>)
        ensures
            match r {
                Some(i) => place_of(self@, id@) == Some(i as int) && i < self.pending@.len(),
                None => place_of(self@, id@) is None,
            },
    {
        let mut i: usize = self.pending.len();
        assert(self@.take(i as int) =~= self@);
        while i > 0
            invariant
                i <= self.pending@.len(),
                place_of(self@, id@) == place_of(self@.take(i as int), id@),
            decreases i,
        {
            i -= 1;
            assert(self@.take(i + 1).last() == self.pending@[i as int]@);
            assert(self@.take(i + 1).drop_last() =~= self@.take(i as int));
            if self.pending[i].correlation_id == *id {
                return Some(i);
            }
        }
        None
    }

    /// Whether an invocation is pending under `id`.
    pub fn is_pending(&self, id: &String) -> (r: bool)
        ensures
            r == place_of(self@, id@).is_some(),
    {
        self.locate(id).is_some()
    }

    /// Registers an invocation under `correlation_id`, to be answered by
    /// `responder` (by anyone, if `None`) no later than `deadline`.
    pub fn register_invoke(
        &mut self,
        correlation_id: String,
        initiated_at: u64,
        deadline: u64,
        responder: Option<AgentIdentity>,
    ) -> (r: Result<(), CorrelationError>)
        requires
            old(self).wf(),
        ensures
            final(self).wf(),
            r == registration(old(self)@, correlation_id@),
            r is Ok ==> final(self)@ == old(self)@.push(
                PendingModel {
                    correlation_id: correlation_id@,
                    initiated_at,
                    deadline,
                    responder: opt_identity(responder),
                },
            ),
            r is Err ==> final(self)@ == old(self)@,
    {
        if self.locate(&correlation_id).is_some() {
            return Err(CorrelationError::DuplicateCorrelation);
        }
        proof {
            place_of_finds(self@, correlation_id@);
        }
        let entry = PendingInvocation { correlation_id, initiated_at, deadline, responder };
        self.pending.push(entry);
        assert(self@ =~= old(self)@.push(entry@));
        Ok(())
    }

    fn take_at(&mut self, i: usize) -> (r: PendingInvocation)
        requires
            old(self).wf(),
            i < old(self)@.len(),
        ensures
            final(self).wf(),
            r@ == old(self)@[i as int],
            final(self)@ == old(self)@.remove(i as int),
    {
        let entry = self.pending.remove(i);
        proof {
            assert(self@ =~= old(self)@.remove(i as int));
            removal_forgets(old(self)@, i as int);
        }
        entry
    }

    /// Resolves an answer at `now`. The invocation it answers leaves the
    /// tracker in the same step, so that of two answers to one invocation
    /// only the first finds it.
    pub fn resolve(&mut self, envelope: &Envelope, now: u64) -> (r: Result<
        PendingInvocation,
        CorrelationError,
    >)
        requires
            old(self).wf(),
        ensures
            final(self).wf(),
            match r {
                Ok(entry) => resolution(old(self)@, envelope@, now) == Ok::<
                    PendingModel,
                    CorrelationError,
                >(entry@),
                Err(e) => resolution(old(self)@, envelope@, now) == Err::<
                    PendingModel,
                    CorrelationError,
                >(e),
            },
            final(self)@ == after_resolve(old(self)@, envelope@, now),
    {
        if !envelope.body.is_reply() {
            return Err(CorrelationError::UnknownCorrelation);
        }
        let id = match &envelope.correlation_id {
            Some(id) => id,
            None => {
                return Err(CorrelationError::UnknownCorrelation);
            },
        };
        let at = match self.locate(id) {
            Some(i) => i,
            None => {
                return Err(CorrelationError::UnknownCorrelation);
            },
        };
        assert(self@[at as int] == self.pending@[at as int]@);
        let expected = match &self.pending[at].responder {
            Some(r) => r.same_as(&envelope.sender),
            None => true,
        };
        if !expected {
            return Err(CorrelationError::ResponderMismatch);
        }
        let entry = self.take_at(at);
        if entry.deadline < now {
            return Err(CorrelationError::Expired);
        }
        Ok(entry)
    }

    /// Cancels the invocation pending under `id` and returns it; `None`, and
    /// nothing changed, if there is none.
    pub fn cancel(&mut self, id: &String) -> (r: Option<PendingInvocation>)
        requires
            old(self).wf(),
        ensures
            final(self).wf(),
            match r {
                Some(entry) => place_of(old(self)@, id@) is Some && entry@ == old(self)@[place_of(
                    old(self)@,
                    id@,
                )->0] && final(self)@ == old(self)@.remove(place_of(old(self)@, id@)->0),
                None => place_of(old(self)@, id@) is None && final(self)@ == old(self)@,
            },
    {
        match self.locate(id) {
            Some(i) => Some(self.take_at(i)),
            None => None,
        }
    }

    /// Takes out the invocations that `rule` names and returns their
    /// correlation ids, in the order of their registration.
    fn take_out(&mut self, rule: &Rule) -> (ids: Vec<String>)
        requires
            old(self).wf(),
        ensures
            final(self).wf(),
            final(self)@ == kept(old(self)@, rule.condition()),
            texts(ids@) == dropped_ids(old(self)@, rule.condition()),
    {
        let ghost before = self@;
        let ghost drop = rule.condition();
        let ghost mut k: int = 0;
        let mut ids: Vec<String> = Vec::new();
        let mut i: usize = 0;
        proof {
            assert(before.take(0) =~= Seq::<PendingModel>::empty());
            assert(self@.take(0) =~= kept(before.take(0), drop));
            assert(self@.skip(0) =~= before.skip(0));
            assert(texts(ids@) =~= dropped_ids(before.take(0), drop));
        }
        while i < self.pending.len()
            invariant
                self.wf(),
                0 <= k <= before.len(),
                i <= self.pending@.len(),
                drop == rule.condition(),
                self@.take(i as int) == kept(before.take(k), drop),
                self@.skip(i as int) == before.skip(k),
                texts(ids@) == dropped_ids(before.take(k), drop),
            decreases self.pending@.len() - i,
        {
            let ghost current = self@;
            let ghost listed = texts(ids@);
            proof {
                assert(current.skip(i as int).len() == current.len() - i);
                assert(before.skip(k).len() == before.len() - k);
                assert(current.skip(i as int)[0] == before.skip(k)[0]);
                assert(current[i as int] == self.pending@[i as int]@);
                assert(before.take(k + 1).drop_last() =~= before.take(k));
                assert(before.take(k + 1).last() == before[k]);
            }
            if rule.names(&self.pending[i]) {
                let entry = self.take_at(i);
                ids.push(entry.correlation_id);
                proof {
                    assert(self@.take(i as int) =~= current.take(i as int));
                    assert(self@.skip(i as int) =~= current.skip(i as int).skip(1));
                    assert(before.skip(k + 1) =~= before.skip(k).skip(1));
                    assert(texts(ids@) =~= listed.push(entry@.correlation_id));
                }
            } else {
                proof {
                    assert(self@.take(i + 1) =~= current.take(i as int).push(current[i as int]));
                    assert(self@.skip(i + 1) =~= current.skip(i as int).skip(1));
                    assert(before.skip(k + 1) =~= before.skip(k).skip(1));
                }
                i += 1;
            }
            proof {
                k = k + 1;
            }
        }
        proof {
            assert(before.take(k) =~= before);
            assert(self@.take(i as int) =~= self@);
        }
        ids
    }

    /// Takes out the invocations whose deadline lies before `now` and
    /// returns their correlation ids, in the order of their registration,
    /// for the caller to fail them with a timeout.
    pub fn sweep(&mut self, now: u64) -> (ids: Vec<String>)
        requires
            old(self).wf(),
        ensures
            final(self).wf(),
            final(self)@ == kept(old(self)@, overdue_at(now)),
            texts(ids@) == dropped_ids(old(self)@, overdue_at(now)),
    {
        self.take_out(&Rule::Overdue(now))
    }

    /// Takes out the invocations that only `peer` could have answered and
    /// returns their correlation ids, in the order of their registration.
    /// This is what closing the link to `peer` does to the tracker.
    pub fn expire_peer(&mut self, peer: &AgentIdentity) -> (ids: Vec<String>)
        requires
            old(self).wf(),
        ensures
            final(self).wf(),
            final(self)@ == kept(old(self)@, bound_to(peer@)),
            texts(ids@) == dropped_ids(old(self)@, bound_to(peer@)),
    {
        self.take_out(&Rule::BoundTo(peer))
    }
}

/// Of two answers to one invocation at most one is resolved: once an answer
/// has taken the invocation out, in time or too late, every later envelope
/// with the same correlation id finds nothing.
pub proof fn second_answer_finds_nothing(
    pending: Seq<PendingModel>,
    first: EnvelopeModel,
    first_now: u64,
    second: EnvelopeModel,
    second_now: u64,
)
    requires
        distinct_ids(pending),
        resolution(pending, first, first_now) is Ok || resolution(pending, first, first_now) == Err::<
            PendingModel,
            CorrelationError,
        >(CorrelationError::Expired),
        second.correlation_id == first.correlation_id,
    ensures
        resolution(after_resolve(pending, first, first_now), second, second_now) == Err::<
            PendingModel,
            CorrelationError,
        >(CorrelationError::UnknownCorrelation),
{
    let id = first.correlation_id->0;
    place_of_finds(pending, id);
    removal_forgets(pending, place_of(pending, id)->0);
}

/// Two answers that both fit a pending invocation, resolved one after the
/// other in either order: the first is resolved with the invocation, the
/// second finds nothing.
pub proof fn exactly_one_of_two_answers_resolves(
    pending: Seq<PendingModel>,
    one: EnvelopeModel,
    other: EnvelopeModel,
    now: u64,
)
    requires
        distinct_ids(pending),
        resolution(pending, one, now) is Ok,
        resolution(pending, other, now) is Ok,
        one.correlation_id == other.correlation_id,
    ensures
        resolution(after_resolve(pending, one, now), other, now) == Err::<
            PendingModel,
            CorrelationError,
        >(CorrelationError::UnknownCorrelation),
        resolution(after_resolve(pending, other, now), one, now) == Err::<
            PendingModel,
            CorrelationError,
        >(CorrelationError::UnknownCorrelation),
{
    second_answer_finds_nothing(pending, one, now, other, now);
    second_answer_finds_nothing(pending, other, now, one, now);
}

/// An answer to a pending invocation from another sender than the one the
/// invocation expects is refused, and the invocation stays pending.
pub proof fn answer_from_another_sender_is_refused(
    pending: Seq<PendingModel>,
    envelope: EnvelopeModel,
    now: u64,
)
    requires
        envelope.body.answers(),
        envelope.correlation_id is Some,
        place_of(pending, envelope.correlation_id->0) is Some,
        !pending[place_of(pending, envelope.correlation_id->0)->0].expects(envelope.sender),
    ensures
        resolution(pending, envelope, now) == Err::<PendingModel, CorrelationError>(
            CorrelationError::ResponderMismatch,
        ),
        after_resolve(pending, envelope, now) == pending,
{
}

/// After an invocation was cancelled, an answer to it finds nothing.
pub proof fn answer_after_cancel_finds_nothing(
    pending: Seq<PendingModel>,
    envelope: EnvelopeModel,
    now: u64,
)
    requires
        distinct_ids(pending),
        envelope.correlation_id is Some,
        place_of(pending, envelope.correlation_id->0) is Some,
    ensures
        resolution(
            pending.remove(place_of(pending, envelope.correlation_id->0)->0),
            envelope,
            now,
        ) == Err::<PendingModel, CorrelationError>(CorrelationError::UnknownCorrelation),
{
    let id = envelope.correlation_id->0;
    place_of_finds(pending, id);
    removal_forgets(pending, place_of(pending, id)->0);
}

/// Every invocation that is spared was pending before, at a place that
/// keeps the order, and does not meet the condition.
pub proof fn kept_came_from(pending: Seq<PendingModel>, drop: spec_fn(PendingModel) -> bool, j: int)
    requires
        0 <= j < kept(pending, drop).len(),
    ensures
        exists|i: int|
            j <= i < pending.len() && #[trigger] pending[i] == kept(pending, drop)[j] && !drop(
                pending[i],
            ),
    decreases pending.len(),
{
    if pending.len() > 0 {
        let rest = kept(pending.drop_last(), drop);
        if j < rest.len() {
            kept_came_from(pending.drop_last(), drop, j);
            let i = choose|i: int|
                j <= i < pending.drop_last().len() && #[trigger] pending.drop_last()[i] == rest[j]
                    && !drop(pending.drop_last()[i]);
            assert(pending[i] == kept(pending, drop)[j]);
        } else {
            kept_len_bound(pending.drop_last(), drop);
            assert(pending[pending.len() - 1] == kept(pending, drop)[j]);
        }
    }
}

/// No more invocations are spared than were pending.
pub proof fn kept_len_bound(pending: Seq<PendingModel>, drop: spec_fn(PendingModel) -> bool)
    ensures
        kept(pending, drop).len() <= pending.len(),
    decreases pending.len(),
{
    if pending.len() > 0 {
        kept_len_bound(pending.drop_last(), drop);
    }
}

/// Every id that is reported belongs to an invocation that was pending and
/// meets the condition.
pub proof fn dropped_came_from(
    pending: Seq<PendingModel>,
    drop: spec_fn(PendingModel) -> bool,
    j: int,
)
    requires
        0 <= j < dropped_ids(pending, drop).len(),
    ensures
        exists|i: int|
            0 <= i < pending.len() && (#[trigger] pending[i]).correlation_id == dropped_ids(
                pending,
                drop,
            )[j] && drop(pending[i]),
    decreases pending.len(),
{
    if pending.len() > 0 {
        let rest = dropped_ids(pending.drop_last(), drop);
        if j < rest.len() {
            dropped_came_from(pending.drop_last(), drop, j);
            let i = choose|i: int|
                0 <= i < pending.drop_last().len() && (#[trigger] pending.drop_last()[i]).correlation_id
                    == rest[j] && drop(pending.drop_last()[i]);
            assert(pending[i].correlation_id == dropped_ids(pending, drop)[j]);
        } else {
            assert(pending[pending.len() - 1].correlation_id == dropped_ids(pending, drop)[j]);
        }
    }
}

/// What a sweep leaves is in order: the ids are distinct as before, and
/// nothing that is left is overdue at the time of the sweep.
pub proof fn sweep_leaves_only_the_unexpired(pending: Seq<PendingModel>, now: u64)
    requires
        distinct_ids(pending),
    ensures
        distinct_ids(kept(pending, overdue_at(now))),
        forall|j: int|
            0 <= j < kept(pending, overdue_at(now)).len() ==> !(#[trigger] kept(
                pending,
                overdue_at(now),
            )[j]).overdue(now),
{
    kept_stays_distinct(pending, overdue_at(now));
    let left = kept(pending, overdue_at(now));
    assert forall|j: int| 0 <= j < left.len() implies !(#[trigger] left[j]).overdue(now) by {
        kept_came_from(pending, overdue_at(now), j);
    }
}

/// Sparing some invocations of a well-formed list leaves a well-formed list.
pub proof fn kept_stays_distinct(pending: Seq<PendingModel>, drop: spec_fn(PendingModel) -> bool)
    requires
        distinct_ids(pending),
    ensures
        distinct_ids(kept(pending, drop)),
    decreases pending.len(),
{
    if pending.len() > 0 {
        let front = pending.drop_last();
        assert forall|a: int, b: int| 0 <= a < b < front.len() implies (#[trigger] front[a]).correlation_id
            != (#[trigger] front[b]).correlation_id by {
            assert(front[a] == pending[a] && front[b] == pending[b]);
        }
        kept_stays_distinct(front, drop);
        let rest = kept(front, drop);
        let all = kept(pending, drop);
        if !drop(pending.last()) {
            assert forall|a: int, b: int| 0 <= a < b < all.len() implies (#[trigger] all[a]).correlation_id
                != (#[trigger] all[b]).correlation_id by {
                if b == all.len() - 1 {
                    kept_came_from(front, drop, a);
                    let i = choose|i: int|
                        a <= i < front.len() && #[trigger] front[i] == rest[a] && !drop(front[i]);
                    assert(pending[i] == all[a]);
                    assert(pending[pending.len() - 1] == all[b]);
                } else {
                    assert(all[a] == rest[a] && all[b] == rest[b]);
                }
            }
        }
    }
}

/// A sweep is idempotent: no id that one sweep reported is reported by a
/// later sweep, whatever the time of the later one.
pub proof fn swept_ids_are_not_reported_again(pending: Seq<PendingModel>, now: u64, later: u64)
    requires
        distinct_ids(pending),
    ensures
        forall|a: int, b: int|
            0 <= a < dropped_ids(pending, overdue_at(now)).len() && 0 <= b < dropped_ids(
                kept(pending, overdue_at(now)),
                overdue_at(later),
            ).len() ==> #[trigger] dropped_ids(pending, overdue_at(now))[a] != #[trigger] dropped_ids(
                kept(pending, overdue_at(now)),
                overdue_at(later),
            )[b],
        dropped_ids(kept(pending, overdue_at(now)), overdue_at(now)) == Seq::<Seq<char>>::empty(),
        kept(kept(pending, overdue_at(now)), overdue_at(now)) == kept(pending, overdue_at(now)),
{
    let first = dropped_ids(pending, overdue_at(now));
    let left = kept(pending, overdue_at(now));
    let second = dropped_ids(left, overdue_at(later));
    assert forall|a: int, b: int| 0 <= a < first.len() && 0 <= b < second.len() implies #[trigger] first[a]
        != #[trigger] second[b] by {
        dropped_came_from(pending, overdue_at(now), a);
        let i = choose|i: int|
            0 <= i < pending.len() && (#[trigger] pending[i]).correlation_id == first[a] && overdue_at(
                now,
            )(pending[i]);
        dropped_came_from(left, overdue_at(later), b);
        let m = choose|m: int|
            0 <= m < left.len() && (#[trigger] left[m]).correlation_id == second[b] && overdue_at(
                later,
            )(left[m]);
        kept_came_from(pending, overdue_at(now), m);
        let n = choose|n: int|
            m <= n < pending.len() && #[trigger] pending[n] == left[m] && !overdue_at(now)(pending[n]);
        assert(i != n);
        if i < n {
            assert(pending[i].correlation_id != pending[n].correlation_id);
        } else {
            assert(pending[n].correlation_id != pending[i].correlation_id);
        }
    }
    sweep_leaves_only_the_unexpired(pending, now);
    nothing_to_drop(left, overdue_at(now));
}

/// Where no invocation meets the condition, nothing is taken out and no id
/// is reported.
pub proof fn nothing_to_drop(pending: Seq<PendingModel>, drop: spec_fn(PendingModel) -> bool)
    requires
        forall|j: int| 0 <= j < pending.len() ==> !drop(#[trigger] pending[j]),
    ensures
        kept(pending, drop) == pending,
        dropped_ids(pending, drop) == Seq::<Seq<char>>::empty(),
    decreases pending.len(),
{
    if pending.len() > 0 {
        let front = pending.drop_last();
        assert forall|j: int| 0 <= j < front.len() implies !drop(#[trigger] front[j]) by {
            assert(front[j] == pending[j]);
        }
        nothing_to_drop(front, drop);
        assert(!drop(pending[pending.len() - 1]));
        assert(front.push(pending.last()) =~= pending);
    }
}

} // verus!
