//! The bridge between calls into the native layer and the callbacks by which
//! it answers. Every call gets a fresh command handle and a slot that waits
//! for the answer. The slot leaves the registry exactly once: when the native
//! layer turns the call down at once, or when the callback arrives. Whatever
//! comes for that handle afterwards is rejected.

use vstd::prelude::*;
use std::collections::HashMap;
use crate::error_code::ErrorCode;

verus! {

broadcast use vstd::std_specs::hash::group_hash_axioms;

/// The token that pairs a call with its callback.
pub type CommandHandle = i32;

/// The handle that no call ever gets.
pub const INVALID_COMMAND_HANDLE: CommandHandle = 0;

/// The greatest number of handles that one bridge can issue.
pub const MAX_COMMAND_HANDLES: CommandHandle = 0x7fff_ffff;

/// The state of a bridge, with its history: which handles were issued, which
/// of them still wait, and how the others were resolved.
pub struct BridgeState<S> {
    /// How many handles the bridge may issue in all.
    pub limit: int,
    /// How many handles were issued. They are the numbers from 1 to `issued`.
    pub issued: int,
    /// The slots that wait for a callback, by handle.
    pub pending: Map<CommandHandle, S>,
    /// The handles whose callback arrived.
    pub delivered: Set<CommandHandle>,
    /// The handles whose call the native layer turned down at once.
    pub refused: Set<CommandHandle>,
}

/// What can happen to a bridge.
pub enum Operation<S> {
    /// A call is prepared; `S` is the slot that will wait for its answer.
    Issue(S),
    /// The native layer returned this status from the call with this handle.
    Settle(CommandHandle, ErrorCode),
    /// The callback for this handle arrived.
    Complete(CommandHandle),
}

impl<S> BridgeState<S> {
    /// A bridge that has issued no handle and may issue `limit` of them.
    pub open spec fn initial(limit: int) -> Self {
        BridgeState {
            limit,
            issued: 0,
            pending: Map::empty(),
            delivered: Set::empty(),
            refused: Set::empty(),
        }
    }

    /// Whether `handle` was issued.
    pub open spec fn was_issued(self, handle: CommandHandle) -> bool {
        1 <= handle <= self.issued
    }

    /// Whether `handle` waits for its callback.
    pub open spec fn is_pending(self, handle: CommandHandle) -> bool {
        self.pending.contains_key(handle)
    }

    /// Whether `handle` was resolved, one way or the other.
    pub open spec fn is_resolved(self, handle: CommandHandle) -> bool {
        self.delivered.contains(handle) || self.refused.contains(handle)
    }

    /// What holds of every bridge: each issued handle is in exactly one of the
    /// three states, and no other handle is in any.
    pub open spec fn inv(self) -> bool {
        &&& 0 <= self.issued <= self.limit <= MAX_COMMAND_HANDLES
        &&& forall|h: CommandHandle| #[trigger]
            self.pending.contains_key(h) ==> self.was_issued(h) && !self.delivered.contains(h)
                && !self.refused.contains(h)
        &&& forall|h: CommandHandle| #[trigger]
            self.delivered.contains(h) ==> self.was_issued(h) && !self.refused.contains(h)
        &&& forall|h: CommandHandle| #[trigger]
            self.refused.contains(h) ==> self.was_issued(h)
        &&& forall|h: CommandHandle|
            self.was_issued(h) ==> #[trigger] self.pending.contains_key(h)
                || self.delivered.contains(h) || self.refused.contains(h)
    }

    /// Whether a handle is left to issue.
    pub open spec fn can_issue(self) -> bool {
        self.issued < self.limit
    }

    /// The handle that the next call gets.
    pub open spec fn next_handle(self) -> CommandHandle {
        (self.issued + 1) as CommandHandle
    }

    /// The bridge after a call was prepared with `slot`.
    pub open spec fn issue(self, slot: S) -> Self {
        BridgeState {
            issued: self.issued + 1,
            pending: self.pending.insert(self.next_handle(), slot),
            ..self
        }
    }

    /// Whether the status `status`, returned from the call with `handle`,
    /// resolves that call at once.
    pub open spec fn refuses(self, handle: CommandHandle, status: ErrorCode) -> bool {
        self.is_pending(handle) && status != ErrorCode::Success
    }

    /// The bridge after the call with `handle` returned `status`.
    pub open spec fn settle(self, handle: CommandHandle, status: ErrorCode) -> Self {
        if self.refuses(handle, status) {
            BridgeState {
                pending: self.pending.remove(handle),
                refused: self.refused.insert(handle),
                ..self
            }
        } else {
            self
        }
    }

    /// The bridge after a callback for `handle` arrived.
    pub open spec fn complete(self, handle: CommandHandle) -> Self {
        if self.is_pending(handle) {
            BridgeState {
                pending: self.pending.remove(handle),
                delivered: self.delivered.insert(handle),
                ..self
            }
        } else {
            self
        }
    }

    /// Whether `op` can be applied.
    pub open spec fn admits(self, op: Operation<S>) -> bool {
        op is Issue ==> self.can_issue()
    }

    /// The bridge after `op`.
    pub open spec fn step(self, op: Operation<S>) -> Self {
        match op {
            Operation::Issue(slot) => self.issue(slot),
            Operation::Settle(handle, status) => self.settle(handle, status),
            Operation::Complete(handle) => self.complete(handle),
        }
    }

    /// Whether `op` resolves the call with `handle`: by its callback, or by a
    /// status that turns the call down.
    pub open spec fn resolves(self, op: Operation<S>, handle: CommandHandle) -> bool {
        match op {
            Operation::Issue(_) => false,
            Operation::Settle(h, status) => h == handle && self.refuses(h, status),
            Operation::Complete(h) => h == handle && self.is_pending(h),
        }
    }

    /// Whether every one of `ops` can be applied in its turn.
    pub open spec fn admits_all(self, ops: Seq<Operation<S>>) -> bool
        decreases ops.len(),
    {
        if ops.len() == 0 {
            true
        } else {
            self.admits(ops[0]) && self.step(ops[0]).admits_all(ops.drop_first())
        }
    }

    /// The bridge after all of `ops`, in their order.
    pub open spec fn run(self, ops: Seq<Operation<S>>) -> Self
        decreases ops.len(),
    {
        if ops.len() == 0 {
            self
        } else {
            self.step(ops[0]).run(ops.drop_first())
        }
    }

    /// How often the call with `handle` is resolved in the course of `ops`.
    pub open spec fn resolutions(self, ops: Seq<Operation<S>>, handle: CommandHandle) -> nat
        decreases ops.len(),
    {
        if ops.len() == 0 {
            0
        } else {
            let here: nat = if self.resolves(ops[0], handle) {
                1
            } else {
                0
            };
            here + self.step(ops[0]).resolutions(ops.drop_first(), handle)
        }
    }
}

/// What the bridge decided when a call returned its status.
#[derive(Debug)]
pub enum Settlement<S> {
    /// The call was taken; its slot goes on waiting for the callback.
    Awaiting,
    /// The call was turned down. Its slot is handed out to be resolved with
    /// the failure, and no callback will be accepted for it.
    Refused(S),
    /// No slot waits under that handle: there is nothing to do.
    NotPending,
}

/// What the bridge decided when a callback arrived.
#[derive(Debug)]
pub enum Completion<S> {
    /// No slot waits under that handle: the callback is rejected.
    Rejected,
    /// The callback reports success; the slot is handed out to take the
    /// outputs.
    Succeeded(S),
    /// The callback reports a failure of this kind; the slot is handed out to
    /// take the error.
    Failed(S, ErrorCode),
}

/// The registry of pending calls.
pub struct Bridge<S> {
    limit: CommandHandle,
    last: CommandHandle,
    slots: HashMap<CommandHandle, S>,
    delivered: Ghost<Set<CommandHandle>>,
    refused: Ghost<Set<CommandHandle>>,
}

impl<S> View for Bridge<S> {
    type V = BridgeState<S>;

    closed spec fn view(&self) -> BridgeState<S> {
        BridgeState {
            limit: self.limit as int,
            issued: self.last as int,
            pending: self.slots@,
            delivered: self.delivered@,
            refused: self.refused@,
        }
    }
}

impl<S> Bridge<S> {
    /// The registry is in order at all times.
    #[verifier::type_invariant]
    pub open spec fn in_order(&self) -> bool {
        self@.inv()
    }

    /// A bridge that has issued no handle and can issue as many as there are.
    pub fn new() -> (bridge: Self)
        ensures
            bridge@.inv(),
            bridge@ == BridgeState::<S>::initial(MAX_COMMAND_HANDLES as int),
    {
        Bridge {
            limit: MAX_COMMAND_HANDLES,
            last: 0,
            slots: HashMap::new(),
            delivered: Ghost(Set::empty()),
            refused: Ghost(Set::empty()),
        }
    }

    /// A bridge that has issued no handle and will issue `limit` of them at
    /// most: none at all where `limit` is below one.
    pub fn with_limit(limit: CommandHandle) -> (bridge: Self)
        ensures
            bridge@.inv(),
            bridge@ == BridgeState::<S>::initial(
                if limit < 0 {
                    0
                } else {
                    limit as int
                },
            ),
    {
        Bridge {
            limit: if limit < 0 {
                0
            } else {
                limit
            },
            last: 0,
            slots: HashMap::new(),
            delivered: Ghost(Set::empty()),
            refused: Ghost(Set::empty()),
        }
    }

    /// Moves the registry out and leaves an empty one in its place, so that
    /// its parts can be changed one by one before it is put back whole.
    fn take(&mut self) -> (whole: Self)
        ensures
            whole == *old(self),
            whole@.inv(),
    {
        proof {
            use_type_invariant(&*self);
        }
        let mut whole = Bridge::with_limit(0);
        std::mem::swap(self, &mut whole);
        whole
    }

    /// Registers `slot` under a fresh handle and gives the handle. When all
    /// handles are used up, nothing changes and the slot comes back.
    pub fn issue(&mut self, slot: S) -> (issued: Result<CommandHandle, S>)
        ensures
            final(self)@.inv(),
            match issued {
                Ok(handle) => {
                    &&& old(self)@.can_issue()
                    &&& handle == old(self)@.next_handle()
                    &&& handle != INVALID_COMMAND_HANDLE
                    &&& !old(self)@.was_issued(handle)
                    &&& final(self)@ == old(self)@.issue(slot)
                },
                Err(back) => {
                    &&& !old(self)@.can_issue()
                    &&& back == slot
                    &&& final(self)@ == old(self)@
                },
            },
    {
        proof {
            use_type_invariant(&*self);
        }
        if self.last >= self.limit {
            return Err(slot);
        }
        let Bridge { limit, last, mut slots, delivered, refused } = self.take();
        let handle: CommandHandle = last + 1;
        slots.insert(handle, slot);
        proof {
            lemma_issue(old(self)@, slot);
        }
        *self = Bridge { limit, last: handle, slots, delivered, refused };
        Ok(handle)
    }

    /// Takes note of the status that the call with `handle` returned. A
    /// status other than success resolves the call at once: its slot leaves
    /// the registry and is handed out.
    pub fn settle(&mut self, handle: CommandHandle, status: ErrorCode) -> (settlement: Settlement<S>)
        ensures
            final(self)@.inv(),
            final(self)@ == old(self)@.settle(handle, status),
            match settlement {
                Settlement::Awaiting => old(self)@.is_pending(handle) && status
                    == ErrorCode::Success,
                Settlement::Refused(slot) => old(self)@.refuses(handle, status) && slot == old(
                    self,
                )@.pending[handle],
                Settlement::NotPending => !old(self)@.is_pending(handle),
            },
    {
        proof {
            use_type_invariant(&*self);
            lemma_settle(old(self)@, handle, status);
        }
        if !self.slots.contains_key(&handle) {
            return Settlement::NotPending;
        }
        if status.is_success() {
            return Settlement::Awaiting;
        }
        let Bridge { limit, last, mut slots, delivered, refused } = self.take();
        let found = slots.remove(&handle);
        *self = Bridge { limit, last, slots, delivered, refused: Ghost(refused@.insert(handle)) };
        match found {
            Some(slot) => Settlement::Refused(slot),
            None => Settlement::NotPending,
        }
    }

    /// Takes the callback for `handle`, which reports `status`. The slot leaves
    /// the registry before it is handed out, so a second callback for the
    /// same handle finds nothing and is rejected.
    pub fn complete(&mut self, handle: CommandHandle, status: ErrorCode) -> (completion: Completion<S>)
        ensures
            final(self)@.inv(),
            final(self)@ == old(self)@.complete(handle),
            match completion {
                Completion::Rejected => !old(self)@.is_pending(handle),
                Completion::Succeeded(slot) => old(self)@.is_pending(handle) && status
                    == ErrorCode::Success && slot == old(self)@.pending[handle],
                Completion::Failed(slot, kind) => old(self)@.is_pending(handle) && status
                    != ErrorCode::Success && kind == status && slot == old(self)@.pending[handle],
            },
    {
        proof {
            use_type_invariant(&*self);
            lemma_complete(old(self)@, handle);
        }
        if !self.slots.contains_key(&handle) {
            return Completion::Rejected;
        }
        let Bridge { limit, last, mut slots, delivered, refused } = self.take();
        let found = slots.remove(&handle);
        *self = Bridge { limit, last, slots, delivered: Ghost(delivered@.insert(handle)), refused };
        match found {
            Some(slot) => if status.is_success() {
                Completion::Succeeded(slot)
            } else {
                Completion::Failed(slot, status)
            },
            None => Completion::Rejected,
        }
    }

    /// Whether a slot waits under `handle`.
    pub fn is_pending(&self, handle: CommandHandle) -> (waits: bool)
        ensures
            self@.inv(),
            waits == self@.is_pending(handle),
    {
        proof {
            use_type_invariant(self);
        }
        self.slots.contains_key(&handle)
    }

    /// How many handles were issued so far.
    pub fn issued(&self) -> (n: CommandHandle)
        ensures
            self@.inv(),
            n == self@.issued,
    {
        proof {
            use_type_invariant(self);
        }
        self.last
    }

    /// How many slots wait.
    pub fn pending(&self) -> (n: usize)
        ensures
            self@.inv(),
            n == self@.pending.len(),
    {
        proof {
            use_type_invariant(self);
        }
        self.slots.len()
    }
}

/// A bridge that has issued nothing is in order, and no handle is in any
/// state.
pub proof fn lemma_initial<S>(limit: int, handle: CommandHandle)
    requires
        0 <= limit <= MAX_COMMAND_HANDLES,
    ensures
        BridgeState::<S>::initial(limit).inv(),
        !BridgeState::<S>::initial(limit).was_issued(handle),
        !BridgeState::<S>::initial(limit).is_pending(handle),
        !BridgeState::<S>::initial(limit).is_resolved(handle),
{
}

/// Issuing keeps the bridge in order. The handle is fresh: it was never
/// issued before, it is not the invalid handle, and it waits afterwards.
pub proof fn lemma_issue<S>(s: BridgeState<S>, slot: S)
    requires
        s.inv(),
        s.can_issue(),
    ensures
        s.issue(slot).inv(),
        s.next_handle() == s.issued + 1,
        s.next_handle() != INVALID_COMMAND_HANDLE,
        !s.was_issued(s.next_handle()),
        !s.is_pending(s.next_handle()),
        !s.is_resolved(s.next_handle()),
        s.issue(slot).is_pending(s.next_handle()),
        s.issue(slot).pending[s.next_handle()] == slot,
{
    let t = s.issue(slot);
    assert forall|h: CommandHandle| t.was_issued(h) implies #[trigger] t.pending.contains_key(h)
        || t.delivered.contains(h) || t.refused.contains(h) by {
        if h != s.next_handle() {
            assert(s.was_issued(h));
        }
    }
}

/// Taking note of a status keeps the bridge in order, and changes it only
/// where the status turns a waiting call down.
pub proof fn lemma_settle<S>(s: BridgeState<S>, handle: CommandHandle, status: ErrorCode)
    requires
        s.inv(),
    ensures
        s.settle(handle, status).inv(),
        s.refuses(handle, status) ==> s.settle(handle, status).refused.contains(handle) && !s.settle(
            handle,
            status,
        ).is_pending(handle),
        !s.refuses(handle, status) ==> s.settle(handle, status) == s,
{
    let t = s.settle(handle, status);
    if s.refuses(handle, status) {
        assert forall|h: CommandHandle| t.was_issued(h) implies #[trigger] t.pending.contains_key(
            h,
        ) || t.delivered.contains(h) || t.refused.contains(h) by {
            if h != handle {
                assert(s.pending.contains_key(h) || s.delivered.contains(h) || s.refused.contains(
                    h,
                ));
            }
        }
    }
}

/// Taking a callback keeps the bridge in order, and changes it only where
/// the call still waited.
pub proof fn lemma_complete<S>(s: BridgeState<S>, handle: CommandHandle)
    requires
        s.inv(),
    ensures
        s.complete(handle).inv(),
        s.is_pending(handle) ==> s.complete(handle).delivered.contains(handle) && !s.complete(
            handle,
        ).is_pending(handle),
        !s.is_pending(handle) ==> s.complete(handle) == s,
{
    let t = s.complete(handle);
    if s.is_pending(handle) {
        assert forall|h: CommandHandle| t.was_issued(h) implies #[trigger] t.pending.contains_key(
            h,
        ) || t.delivered.contains(h) || t.refused.contains(h) by {
            if h != handle {
                assert(s.pending.contains_key(h) || s.delivered.contains(h) || s.refused.contains(
                    h,
                ));
            }
        }
    }
}

/// Every operation that can be applied keeps the bridge in order.
pub proof fn lemma_step<S>(s: BridgeState<S>, op: Operation<S>)
    requires
        s.inv(),
        s.admits(op),
    ensures
        s.step(op).inv(),
{
    match op {
        Operation::Issue(slot) => lemma_issue(s, slot),
        Operation::Settle(handle, status) => lemma_settle(s, handle, status),
        Operation::Complete(handle) => lemma_complete(s, handle),
    }
}

/// An issued handle is in exactly one state: it waits, or its callback was
/// delivered, or its call was turned down at once. Never two of these, never
/// none. A handle that was not issued is in none.
pub proof fn lemma_one_state_per_handle<S>(s: BridgeState<S>, handle: CommandHandle)
    requires
        s.inv(),
    ensures
        s.was_issued(handle) ==> s.is_pending(handle) || s.delivered.contains(handle)
            || s.refused.contains(handle),
        !(s.is_pending(handle) && s.delivered.contains(handle)),
        !(s.is_pending(handle) && s.refused.contains(handle)),
        !(s.delivered.contains(handle) && s.refused.contains(handle)),
        !s.was_issued(handle) ==> !s.is_pending(handle) && !s.is_resolved(handle),
{
}

/// A resolution is final: what was delivered stays delivered, what was
/// turned down stays turned down, and neither waits again, whatever is done
/// to the bridge next.
pub proof fn lemma_resolution_is_final<S>(s: BridgeState<S>, op: Operation<S>, handle: CommandHandle)
    requires
        s.inv(),
        s.admits(op),
        s.is_resolved(handle),
    ensures
        s.step(op).delivered.contains(handle) == s.delivered.contains(handle),
        s.step(op).refused.contains(handle) == s.refused.contains(handle),
        !s.step(op).is_pending(handle),
        !s.resolves(op, handle),
{
    lemma_step(s, op);
}

/// Once the native layer has turned a call down, no callback for its handle
/// is accepted: the callback changes nothing, and no later operation
/// resolves the handle again.
pub proof fn lemma_refused_call_rejects_callback<S>(
    s: BridgeState<S>,
    handle: CommandHandle,
    status: ErrorCode,
    later: Seq<Operation<S>>,
)
    requires
        s.inv(),
        s.refuses(handle, status),
        s.settle(handle, status).admits_all(later),
    ensures
        s.settle(handle, status).refused.contains(handle),
        !s.settle(handle, status).is_pending(handle),
        s.settle(handle, status).complete(handle) == s.settle(handle, status),
        s.settle(handle, status).resolutions(later, handle) == 0,
        !s.settle(handle, status).run(later).delivered.contains(handle),
{
    lemma_settle(s, handle, status);
    lemma_resolved_stays_resolved(s.settle(handle, status), later, handle);
}

/// After a callback was delivered, a second one for the same handle is
/// rejected: it changes nothing, and no later operation resolves the handle
/// again.
pub proof fn lemma_second_callback_rejected<S>(
    s: BridgeState<S>,
    handle: CommandHandle,
    later: Seq<Operation<S>>,
)
    requires
        s.inv(),
        s.is_pending(handle),
        s.complete(handle).admits_all(later),
    ensures
        s.complete(handle).delivered.contains(handle),
        s.complete(handle).complete(handle) == s.complete(handle),
        s.complete(handle).resolutions(later, handle) == 0,
        !s.complete(handle).run(later).refused.contains(handle),
{
    lemma_complete(s, handle);
    lemma_resolved_stays_resolved(s.complete(handle), later, handle);
}

/// A resolved handle is not resolved again in any course of operations, and
/// ends as it was.
pub proof fn lemma_resolved_stays_resolved<S>(
    s: BridgeState<S>,
    ops: Seq<Operation<S>>,
    handle: CommandHandle,
)
    requires
        s.inv(),
        s.admits_all(ops),
        s.is_resolved(handle),
    ensures
        s.run(ops).inv(),
        s.resolutions(ops, handle) == 0,
        s.run(ops).delivered.contains(handle) == s.delivered.contains(handle),
        s.run(ops).refused.contains(handle) == s.refused.contains(handle),
        !s.run(ops).is_pending(handle),
    decreases ops.len(),
{
    if ops.len() > 0 {
        lemma_step(s, ops[0]);
        lemma_resolution_is_final(s, ops[0], handle);
        lemma_resolved_stays_resolved(s.step(ops[0]), ops.drop_first(), handle);
    }
}

/// In any course of operations every handle is resolved at most once, and
/// exactly once if it is resolved at the end and was not at the start. So of
/// each handle that a bridge has issued since it was made: it waits and was
/// never resolved, or it was resolved once, either by its callback or by the
/// status that turned it down.
pub proof fn lemma_resolved_exactly_once<S>(
    s: BridgeState<S>,
    ops: Seq<Operation<S>>,
    handle: CommandHandle,
)
    requires
        s.inv(),
        s.admits_all(ops),
        !s.is_resolved(handle),
    ensures
        s.run(ops).inv(),
        s.resolutions(ops, handle) <= 1,
        s.resolutions(ops, handle) == 1 <==> s.run(ops).is_resolved(handle),
        s.resolutions(ops, handle) == 0 && s.run(ops).was_issued(handle) ==> s.run(ops).is_pending(
            handle,
        ),
    decreases ops.len(),
{
    if ops.len() > 0 {
        let t = s.step(ops[0]);
        lemma_step(s, ops[0]);
        if s.resolves(ops[0], handle) {
            lemma_resolved_stays_resolved(t, ops.drop_first(), handle);
        } else {
            lemma_resolved_exactly_once(t, ops.drop_first(), handle);
        }
    }
}

} // verus!
