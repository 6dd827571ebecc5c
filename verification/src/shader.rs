//! The consumer half of the shader hotloading pipeline.
//!
//! A background thread watches the shader package, rebuilds it on change and
//! reports progress as events: an announcement when a build starts and a
//! completion carrying the build's outcome. The render loop owns a
//! [`ShaderReceiver`], feeds those events into it as they arrive and calls
//! [`ShaderReceiver::update`] once per frame. The receiver never blocks; it
//! resolves the race between overlapping builds by honouring only the most
//! recently announced build, silently discarding results of builds that were
//! superseded before they were observed.
//!
//! The receiver is generic in the artifact type `A` that a successful build
//! delivers, so the same state machine serves the real dynamic-library handle
//! and any stand-in used for testing.

use vstd::prelude::*;

verus! {

/// A descriptive, displayable account of why a build or load failed.
#[derive(Debug)]
pub struct BuildError {
    message: String,
}

/// The result of one build of the shader package: either the artifact it
/// produced or a description of the failure.
#[derive(Debug)]
pub enum BuildOutcome<A> {
    Success(A),
    Failure(BuildError),
}

/// One notification sent from the build thread to the render thread. Each
/// build is identified by the number its announcement carries; its completion
/// carries the same number.
#[derive(Debug)]
pub enum ShaderEvent<A> {
    /// A build with the given id has been kicked off.
    Announced(u64),
    /// The build with the given id finished with the given outcome.
    Completed(u64, BuildOutcome<A>),
}

/// Describes the result of the last incoming library.
#[derive(Debug)]
pub enum LastIncoming {
    Succeeded,
    Failed(BuildError),
}

/// The current activity within the shader receiver.
#[derive(Debug)]
pub enum Activity<'a> {
    Incoming,
    LastIncoming(&'a LastIncoming),
}

/// The mathematical value of a [`BuildOutcome`]: the artifact itself or the
/// failure text.
pub enum OutcomeModel<A> {
    Success(A),
    Failure(Seq<char>),
}

/// The mathematical value of a [`ShaderEvent`].
pub enum EventModel<A> {
    Announced(u64),
    Completed(u64, OutcomeModel<A>),
}

/// The mathematical value of a [`LastIncoming`].
pub enum LastIncomingModel {
    Succeeded,
    Failed(Seq<char>),
}

/// The mathematical state of a [`ShaderReceiver`]: the pending events in
/// arrival order, the id of the awaited build if one has been accepted, the
/// summary of the last completed build and the moment its result arrived.
pub struct ReceiverModel<A> {
    pub queue: Seq<EventModel<A>>,
    pub awaiting: Option<u64>,
    pub last: LastIncomingModel,
    pub stamp: u64,
}

impl BuildError {
    /// The failure text.
    pub closed spec fn model(&self) -> Seq<char> {
        self.message@
    }

    /// Wrap the given diagnostic text.
    pub fn new(message: String) -> (e: Self)
        ensures
            e.model() == message@,
    {
        BuildError { message }
    }

    /// The diagnostic text reported by the build.
    pub fn message(&self) -> (m: &str)
        ensures
            m@ == self.model(),
    {
        self.message.as_str()
    }
}

impl<A> View for BuildOutcome<A> {
    type V = OutcomeModel<A>;

    open spec fn view(&self) -> OutcomeModel<A> {
        match *self {
            BuildOutcome::Success(a) => OutcomeModel::Success(a),
            BuildOutcome::Failure(e) => OutcomeModel::Failure(e.model()),
        }
    }
}

impl<A> View for ShaderEvent<A> {
    type V = EventModel<A>;

    open spec fn view(&self) -> EventModel<A> {
        match *self {
            ShaderEvent::Announced(id) => EventModel::Announced(id),
            ShaderEvent::Completed(id, ref outcome) => EventModel::Completed(id, outcome@),
        }
    }
}

impl View for LastIncoming {
    type V = LastIncomingModel;

    open spec fn view(&self) -> LastIncomingModel {
        match *self {
            LastIncoming::Succeeded => LastIncomingModel::Succeeded,
            LastIncoming::Failed(ref e) => LastIncomingModel::Failed(e.model()),
        }
    }
}

/// The model of a queue of events: each event replaced by its value.
pub open spec fn queue_model<A>(q: Seq<ShaderEvent<A>>) -> Seq<EventModel<A>> {
    q.map_values(|e: ShaderEvent<A>| e@)
}

/// Whether the event announces a build.
pub open spec fn is_announcement<A>(e: EventModel<A>) -> bool {
    e is Announced
}

/// Whether the event completes the build with the given id.
pub open spec fn is_completion_for<A>(e: EventModel<A>, id: u64) -> bool {
    e matches EventModel::Completed(i, _) && i == id
}

/// The index of the most recent announcement in the queue, if any.
pub open spec fn last_announcement<A>(q: Seq<EventModel<A>>) -> Option<int>
    decreases q.len(),
{
    if q.len() == 0 {
        None
    } else if is_announcement(q.last()) {
        Some(q.len() - 1)
    } else {
        last_announcement(q.drop_last())
    }
}

/// The index of the earliest completion of the build with the given id, if
/// any.
pub open spec fn first_completion<A>(q: Seq<EventModel<A>>, id: u64) -> Option<int>
    decreases q.len(),
{
    if q.len() == 0 {
        None
    } else if is_completion_for(q[0], id) {
        Some(0)
    } else {
        match first_completion(q.subrange(1, q.len() as int), id) {
            None => None,
            Some(j) => Some(j + 1),
        }
    }
}

/// What `last_announcement` returns: the index of an announcement after which
/// no further announcement occurs, or nothing when the queue holds none.
pub proof fn lemma_last_announcement<A>(q: Seq<EventModel<A>>)
    ensures
        match last_announcement(q) {
            None => forall|j: int| 0 <= j < q.len() ==> !is_announcement(q[j]),
            Some(k) => 0 <= k < q.len() && is_announcement(q[k]) && forall|j: int|
                k < j < q.len() ==> !is_announcement(q[j]),
        },
    decreases q.len(),
{
    if q.len() > 0 && !is_announcement(q.last()) {
        lemma_last_announcement(q.drop_last());
        assert(forall|j: int| 0 <= j < q.len() - 1 ==> q.drop_last()[j] == q[j]);
    }
}

/// What `first_completion` returns: the index of a completion of the given
/// build before which no other completion of it occurs, or nothing when the
/// queue holds none.
pub proof fn lemma_first_completion<A>(q: Seq<EventModel<A>>, id: u64)
    ensures
        match first_completion(q, id) {
            None => forall|j: int| 0 <= j < q.len() ==> !is_completion_for(q[j], id),
            Some(i) => 0 <= i < q.len() && is_completion_for(q[i], id) && forall|j: int|
                0 <= j < i ==> !is_completion_for(q[j], id),
        },
    decreases q.len(),
{
    if q.len() > 0 && !is_completion_for(q[0], id) {
        lemma_first_completion(q.subrange(1, q.len() as int), id);
        assert(forall|j: int| 1 <= j < q.len() ==> q.subrange(1, q.len() as int)[j - 1] == q[j]);
    }
}

/// The step the receiver takes while awaiting the build with the given id: if
/// the queue holds a completion of that build, the earliest one is consumed
/// and resolved; otherwise nothing changes.
pub open spec fn resolve_spec<A>(m: ReceiverModel<A>, id: u64, now: u64) -> (ReceiverModel<A>,
    Option<A>) {
    match first_completion(m.queue, id) {
        None => (m, None),
        Some(j) => {
            let q2 = m.queue.remove(j);
            match m.queue[j]->Completed_1 {
                OutcomeModel::Success(a) => (
                    ReceiverModel {
                        queue: q2,
                        awaiting: None,
                        last: LastIncomingModel::Succeeded,
                        stamp: now,
                    },
                    Some(a),
                ),
                OutcomeModel::Failure(msg) => (
                    ReceiverModel {
                        queue: q2,
                        awaiting: None,
                        last: LastIncomingModel::Failed(msg),
                        stamp: now,
                    },
                    None,
                ),
            }
        },
    }
}

/// One non-blocking update of the receiver.
///
/// While a build is awaited, only its completion is looked for. While idle,
/// the queue is drained up to the most recent announcement — everything
/// before it, including completions of superseded builds, is discarded — and
/// that announcement's build becomes the awaited one; if its completion is
/// already pending it resolves immediately. A resolution stamps the given
/// moment and records the outcome; a successful build's artifact is handed to
/// the caller exactly once.
pub open spec fn update_spec<A>(m: ReceiverModel<A>, now: u64) -> (ReceiverModel<A>, Option<A>) {
    match m.awaiting {
        Some(id) => resolve_spec(m, id, now),
        None => match last_announcement(m.queue) {
            None => (
                ReceiverModel {
                    queue: Seq::empty(),
                    awaiting: m.awaiting,
                    last: m.last,
                    stamp: m.stamp,
                },
                None,
            ),
            Some(k) => {
                let id = m.queue[k]->Announced_0;
                let m1 = ReceiverModel {
                    queue: m.queue.subrange(k + 1, m.queue.len() as int),
                    awaiting: Some(id),
                    last: m.last,
                    stamp: m.stamp,
                };
                resolve_spec(m1, id, now)
            },
        },
    }
}

/// A handle for receiving hotloading shader updates on the main thread.
pub struct ShaderReceiver<A> {
    // The pending notifications, in arrival order.
    queue: Vec<ShaderEvent<A>>,
    // The id of the build currently awaited, if one has been accepted.
    incoming: Option<u64>,
    // The result of the last incoming shader.
    last_incoming: LastIncoming,
    // The moment at which the last result was received.
    last_timestamp: u64,
}

impl<A> View for ShaderReceiver<A> {
    type V = ReceiverModel<A>;

    closed spec fn view(&self) -> ReceiverModel<A> {
        ReceiverModel {
            queue: queue_model(self.queue@),
            awaiting: self.incoming,
            last: self.last_incoming@,
            stamp: self.last_timestamp,
        }
    }
}

impl<A> ShaderReceiver<A> {
    /// A fresh receiver: no pending events, no build awaited, and — so that
    /// the status display shows no spurious failure before the first build
    /// completes — a last result that reads as succeeded.
    pub fn new(now: u64) -> (r: Self)
        ensures
            r@ == (ReceiverModel {
                queue: Seq::<EventModel<A>>::empty(),
                awaiting: None::<u64>,
                last: LastIncomingModel::Succeeded,
                stamp: now,
            }),
    {
        let r = ShaderReceiver {
            queue: Vec::new(),
            incoming: None,
            last_incoming: LastIncoming::Succeeded,
            last_timestamp: now,
        };
        proof {
            assert(r@.queue =~= Seq::<EventModel<A>>::empty());
        }
        r
    }

    /// Record one notification received from the build thread. Called by the
    /// owner of the channel each time a message is drained from it, in
    /// arrival order.
    pub fn push_event(&mut self, event: ShaderEvent<A>)
        ensures
            final(self)@ == (ReceiverModel {
                queue: old(self)@.queue.push(event@),
                ..old(self)@
            }),
    {
        let ghost ev = event@;
        self.queue.push(event);
        proof {
            assert(self@.queue =~= old(self)@.queue.push(ev));
        }
    }

    /// Whether or not the shader is currently incoming. If not, whether the
    /// last incoming shader built successfully or not.
    pub fn activity<'a>(&'a self) -> (a: Activity<'a>)
        ensures
            self@.awaiting is Some ==> a is Incoming,
            self@.awaiting is None ==> (a matches Activity::LastIncoming(li) && li@ == self@.last),
    {
        if self.incoming.is_some() {
            Activity::Incoming
        } else {
            Activity::LastIncoming(&self.last_incoming)
        }
    }

    /// The last incoming shader result.
    pub fn last_incoming(&self) -> (li: &LastIncoming)
        ensures
            li@ == self@.last,
    {
        &self.last_incoming
    }

    /// The moment at which the last incoming shader result was received,
    /// whether success or failure.
    pub fn last_timestamp(&self) -> (t: u64)
        ensures
            t == self@.stamp,
    {
        self.last_timestamp
    }

    /// Update the shader receiver to check for newly received shaders:
    /// exactly the step described by [`update_spec`], performed without
    /// blocking. Returns the freshly built artifact the first time the
    /// awaited build is seen to have succeeded, and nothing otherwise; a
    /// failed build is reported only through [`ShaderReceiver::activity`] and
    /// [`ShaderReceiver::last_incoming`]. `now` is the moment to stamp on a
    /// result if one is resolved.
    pub fn update(&mut self, now: u64) -> (shader: Option<A>)
        ensures
            ({
                let (m, res) = update_spec(old(self)@, now);
                final(self)@ == m && shader == res
            }),
    {
        let ghost q0 = self@.queue;
        if self.incoming.is_none() {
            // Find the most recent announcement among the pending events.
            let mut last_ann: Option<usize> = None;
            let mut i: usize = 0;
            while i < self.queue.len()
                invariant
                    i <= self.queue.len(),
                    self@.queue == q0,
                    match last_ann {
                        None => forall|j: int| 0 <= j < i ==> !is_announcement(q0[j]),
                        Some(k) => k < i && is_announcement(q0[k as int]) && forall|j: int|
                            k < j < i ==> !is_announcement(q0[j]),
                    },
                decreases self.queue.len() - i,
            {
                if let ShaderEvent::Announced(_) = &self.queue[i] {
                    last_ann = Some(i);
                }
                i = i + 1;
            }
            match last_ann {
                None => {
                    // Nothing was announced: every pending event is the
                    // completion of a build superseded before being observed.
                    self.queue.clear();
                    proof {
                        lemma_last_announcement(q0);
                        assert(self@.queue =~= Seq::<EventModel<A>>::empty());
                    }
                    return None;
                },
                Some(k) => {
                    // Accept the most recent announcement and discard
                    // everything that arrived before it.
                    proof {
                        lemma_last_announcement(q0);
                        assert(last_announcement(q0) == Some(k as int));
                        assert(q0[k as int] == self.queue@[k as int]@);
                    }
                    let id = match &self.queue[k] {
                        ShaderEvent::Announced(id) => *id,
                        ShaderEvent::Completed(_, _) => 0,
                    };
                    proof {
                        assert(q0[k as int]->Announced_0 == id);
                    }
                    let rest = self.queue.split_off(k + 1);
                    self.queue = rest;
                    self.incoming = Some(id);
                    proof {
                        assert(self@.queue =~= q0.subrange(k + 1, q0.len() as int));
                    }
                },
            }
        }
        // A build is now awaited: look for the earliest completion of it.
        let id = match self.incoming {
            Some(id) => id,
            None => {
                return None;
            },
        };
        let ghost m1 = self@;
        let n = self.queue.len();
        let mut j: usize = 0;
        #[verifier::loop_isolation(false)]
        while j < n
            invariant
                j <= n,
                n == self.queue@.len(),
                self@ == m1,
                m1.awaiting == Some(id),
                forall|jj: int| 0 <= jj < j ==> !is_completion_for(m1.queue[jj], id),
            decreases n - j,
        {
            let is_match = match &self.queue[j] {
                ShaderEvent::Completed(cid, _) => *cid == id,
                ShaderEvent::Announced(_) => false,
            };
            if is_match {
                proof {
                    assert(m1.queue[j as int] == self.queue@[j as int]@);
                    assert(is_completion_for(m1.queue[j as int], id));
                    lemma_first_completion(m1.queue, id);
                    assert(first_completion(m1.queue, id) == Some(j as int));
                }
                let ev = self.queue.remove(j);
                self.incoming = None;
                self.last_timestamp = now;
                proof {
                    assert(ev@ == m1.queue[j as int]);
                    assert(self@.queue =~= m1.queue.remove(j as int));
                }
                if let ShaderEvent::Completed(_, outcome) = ev {
                    match outcome {
                        BuildOutcome::Success(artifact) => {
                            self.last_incoming = LastIncoming::Succeeded;
                            return Some(artifact);
                        },
                        BuildOutcome::Failure(err) => {
                            self.last_incoming = LastIncoming::Failed(err);
                            return None;
                        },
                    }
                } else {
                    return None;
                }
            }
            j = j + 1;
        }
        // The awaited build has not completed yet: no news this frame.
        proof {
            lemma_first_completion(m1.queue, id);
        }
        None
    }
}

/// While a build is awaited, an artifact can be delivered only by that very
/// build: whenever an update returns an artifact, the queue held a successful
/// completion of the awaited build carrying exactly that artifact.
pub proof fn lemma_awaited_build_only<A>(m: ReceiverModel<A>, now: u64)
    requires
        m.awaiting is Some,
        update_spec(m, now).1 is Some,
    ensures
        exists|j: int|
            0 <= j < m.queue.len() && (#[trigger] m.queue[j]) == EventModel::Completed(
                m.awaiting->Some_0,
                OutcomeModel::Success(update_spec(m, now).1->Some_0),
            ),
{
    let id = m.awaiting->Some_0;
    lemma_first_completion(m.queue, id);
    let j = first_completion(m.queue, id)->Some_0;
    assert(m.queue[j] == EventModel::Completed(
        id,
        OutcomeModel::Success(update_spec(m, now).1->Some_0),
    ));
}

/// At-most-once delivery, idle half: when no build is awaited, an artifact
/// can be delivered only by the most recently announced build. The completion
/// consumed lies strictly after the last announcement in the queue and
/// carries that announcement's id — so a build whose completion was
/// superseded by a later announcement before being observed is never
/// delivered.
pub proof fn lemma_only_latest_announced_delivered<A>(m: ReceiverModel<A>, now: u64)
    requires
        m.awaiting is None,
        update_spec(m, now).1 is Some,
    ensures
        last_announcement(m.queue) is Some,
        exists|j: int|
            last_announcement(m.queue)->Some_0 < j < m.queue.len() && (#[trigger] m.queue[j])
                == EventModel::Completed(
                m.queue[last_announcement(m.queue)->Some_0]->Announced_0,
                OutcomeModel::Success(update_spec(m, now).1->Some_0),
            ),
{
    lemma_last_announcement(m.queue);
    let k = last_announcement(m.queue)->Some_0;
    let id = m.queue[k]->Announced_0;
    let q1 = m.queue.subrange(k + 1, m.queue.len() as int);
    lemma_first_completion(q1, id);
    let j1 = first_completion(q1, id)->Some_0;
    let j = k + 1 + j1;
    assert(q1[j1] == m.queue[j]);
    assert(k < j < m.queue.len() && m.queue[j] == EventModel::Completed(
        id,
        OutcomeModel::Success(update_spec(m, now).1->Some_0),
    ));
}

/// Whether the event is the successful completion of some build.
pub open spec fn is_success<A>(e: EventModel<A>) -> bool {
    e matches EventModel::Completed(_, OutcomeModel::Success(_))
}

/// Fallback correctness: while no successful completion is pending, an update
/// delivers nothing, the last-build summary can only turn to (or stay) a
/// failure — it reads as succeeded only if it already did — and the resulting
/// queue again holds no successful completion. The property is therefore
/// preserved across any number of updates, and as long as no build succeeds
/// the caller keeps rendering with its own fallback shader.
pub proof fn lemma_no_success_no_delivery<A>(m: ReceiverModel<A>, now: u64)
    requires
        forall|i: int| 0 <= i < m.queue.len() ==> !is_success(#[trigger] m.queue[i]),
    ensures
        update_spec(m, now).1 is None,
        update_spec(m, now).0.last is Succeeded ==> m.last is Succeeded,
        forall|i: int|
            0 <= i < update_spec(m, now).0.queue.len() ==> !is_success(
                #[trigger] update_spec(m, now).0.queue[i],
            ),
    decreases m.queue.len(),
{
    match m.awaiting {
        Some(id) => {
            lemma_first_completion(m.queue, id);
            match first_completion(m.queue, id) {
                None => {},
                Some(j) => {
                    let q2 = m.queue.remove(j);
                    assert forall|i: int| 0 <= i < q2.len() implies !is_success(#[trigger] q2[i]) by {
                        if i < j {
                            assert(q2[i] == m.queue[i]);
                        } else {
                            assert(q2[i] == m.queue[i + 1]);
                        }
                    }
                },
            }
        },
        None => {
            lemma_last_announcement(m.queue);
            match last_announcement(m.queue) {
                None => {},
                Some(k) => {
                    let id = m.queue[k]->Announced_0;
                    let q1 = m.queue.subrange(k + 1, m.queue.len() as int);
                    assert(forall|i: int| 0 <= i < q1.len() ==> q1[i] == m.queue[k + 1 + i]);
                    let m1 = ReceiverModel {
                        queue: q1,
                        awaiting: Some(id),
                        last: m.last,
                        stamp: m.stamp,
                    };
                    lemma_no_success_no_delivery(m1, now);
                },
            }
        },
    }
}

/// Failure isolation: resolving a failed build delivers no artifact and only
/// records the failure text and the moment — the one consumed completion
/// aside, the pending events are untouched. Artifacts handed out by earlier
/// updates are owned by the caller, so a failed rebuild cannot reach them.
pub proof fn lemma_failure_changes_only_summary<A>(m: ReceiverModel<A>, now: u64, j: int)
    requires
        m.awaiting is Some,
        first_completion(m.queue, m.awaiting->Some_0) == Some(j),
        m.queue[j] matches EventModel::Completed(_, OutcomeModel::Failure(_)),
    ensures
        update_spec(m, now).1 is None,
        update_spec(m, now).0.queue == m.queue.remove(j),
        update_spec(m, now).0.awaiting is None,
        update_spec(m, now).0.last == LastIncomingModel::Failed(
            m.queue[j]->Completed_1->Failure_0,
        ),
        update_spec(m, now).0.stamp == now,
{
    lemma_first_completion(m.queue, m.awaiting->Some_0);
}

} // verus!
