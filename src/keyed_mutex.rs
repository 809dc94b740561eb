//! The handshake that hands a shared texture back and forth between a
//! producer (the 2D renderer) and a consumer (another API), on top of the
//! texture's keyed mutex.
//!
//! The mutex starts free, with the producer's turn. A side acquires it under
//! its own key when it is its turn, works on the texture, closes its drawing
//! session, and releases it under the same key, which hands the turn to the
//! other side. Acquiring again under the key that already holds the mutex is
//! allowed and changes nothing; every other misordered call is rejected and
//! leaves the state as it was.
use vstd::prelude::*;

verus! {

/// The key under which the producer acquires the mutex.
pub const PRODUCER_KEY: u64 = 0;
/// The key under which the consumer acquires the mutex.
pub const CONSUMER_KEY: u64 = 1;

/// Why a step of the handshake was refused.
#[derive(Clone, Copy, Debug, PartialEq, Eq, Structural)]
pub enum HandshakeError {
    /// The mutex is held by the other side, or it is the other side's turn:
    /// a native acquire would wait until its timeout.
    Timeout,
    /// The mutex is not held under this key.
    NotHeld,
    /// A drawing session is still open and must be closed first.
    DrawSessionOpen,
    /// There is no drawing session to close.
    NoDrawSession,
}

/// Who holds the mutex.
#[derive(Clone, Copy, Debug, PartialEq, Eq, Structural)]
pub enum Ownership {
    Unowned,
    OwnedByProducer,
    OwnedByConsumer,
}

/// One call that a side makes on the handshake.
#[derive(Clone, Copy, Debug, PartialEq, Eq, Structural)]
pub enum Op {
    Acquire(u64),
    Release(u64),
    BeginDraw(u64),
    EndDraw(u64),
}

/// The state of the handshake: the key that holds the mutex, if any; the key
/// that may acquire it next while it is free; and whether the holder has a
/// drawing session open.
#[derive(Clone, Copy, Debug, PartialEq, Eq, Structural)]
pub struct HandshakeState {
    pub holder: Option<u64>,
    pub turn: u64,
    pub drawing: bool,
}

pub open spec fn is_side_key(key: u64) -> bool {
    key == PRODUCER_KEY || key == CONSUMER_KEY
}

/// The key of the side that is not `key`'s.
pub open spec fn other_key(key: u64) -> u64 {
    if key == PRODUCER_KEY {
        CONSUMER_KEY
    } else {
        PRODUCER_KEY
    }
}

impl HandshakeState {
    /// Keys belong to the two sides, and only a holder draws.
    pub open spec fn wf(self) -> bool {
        &&& is_side_key(self.turn)
        &&& (self.holder matches Some(k) ==> is_side_key(k))
        &&& (self.drawing ==> self.holder is Some)
    }

    /// Whether the side with `key` holds the mutex.
    pub open spec fn holds(self, key: u64) -> bool {
        self.holder == Some(key)
    }

    pub open spec fn ownership(self) -> Ownership {
        match self.holder {
            None => Ownership::Unowned,
            Some(k) => if k == PRODUCER_KEY {
                Ownership::OwnedByProducer
            } else {
                Ownership::OwnedByConsumer
            },
        }
    }
}

/// The key of the side that is not `key`'s.
pub fn other_side(key: u64) -> (r: u64)
    ensures
        r == other_key(key),
{
    if key == PRODUCER_KEY {
        CONSUMER_KEY
    } else {
        PRODUCER_KEY
    }
}

/// A fresh handshake: the mutex is free and the producer goes first.
pub open spec fn initial() -> HandshakeState {
    HandshakeState { holder: None, turn: PRODUCER_KEY, drawing: false }
}

/// What one call does: the state after it, and its outcome.
pub open spec fn step(s: HandshakeState, op: Op) -> (HandshakeState, Result<(), HandshakeError>) {
    match op {
        Op::Acquire(key) => if s.holds(key) {
            (s, Ok(()))
        } else if s.holder is None && s.turn == key {
            (HandshakeState { holder: Some(key), turn: s.turn, drawing: false }, Ok(()))
        } else {
            (s, Err(HandshakeError::Timeout))
        },
        Op::Release(key) => if !s.holds(key) {
            (s, Err(HandshakeError::NotHeld))
        } else if s.drawing {
            (s, Err(HandshakeError::DrawSessionOpen))
        } else {
            (HandshakeState { holder: None, turn: other_key(key), drawing: false }, Ok(()))
        },
        Op::BeginDraw(key) => if !s.holds(key) {
            (s, Err(HandshakeError::NotHeld))
        } else if s.drawing {
            (s, Err(HandshakeError::DrawSessionOpen))
        } else {
            (HandshakeState { holder: s.holder, turn: s.turn, drawing: true }, Ok(()))
        },
        Op::EndDraw(key) => if !s.holds(key) {
            (s, Err(HandshakeError::NotHeld))
        } else if !s.drawing {
            (s, Err(HandshakeError::NoDrawSession))
        } else {
            (HandshakeState { holder: s.holder, turn: s.turn, drawing: false }, Ok(()))
        },
    }
}

/// The state after the calls of `ops`, in order, from `s`.
pub open spec fn run(s: HandshakeState, ops: Seq<Op>) -> HandshakeState
    decreases ops.len(),
{
    if ops.len() == 0 {
        s
    } else {
        step(run(s, ops.drop_last()), ops.last()).0
    }
}

/// Every call keeps the state well formed.
pub proof fn lemma_step_wf(s: HandshakeState, op: Op)
    requires
        s.wf(),
    ensures
        step(s, op).0.wf(),
{
}

/// Whatever calls the two sides make, in whatever order, the state stays well
/// formed and the producer and the consumer never both hold the mutex.
pub proof fn lemma_exclusive_ownership(s: HandshakeState, ops: Seq<Op>)
    requires
        s.wf(),
    ensures
        run(s, ops).wf(),
        !(run(s, ops).holds(PRODUCER_KEY) && run(s, ops).holds(CONSUMER_KEY)),
    decreases ops.len(),
{
    if ops.len() > 0 {
        lemma_exclusive_ownership(s, ops.drop_last());
        lemma_step_wf(run(s, ops.drop_last()), ops.last());
    }
}

/// Acquiring twice under the same key is the same as acquiring once: the
/// second call succeeds and changes nothing.
pub proof fn lemma_acquire_idempotent(s: HandshakeState, key: u64)
    requires
        s.wf(),
        step(s, Op::Acquire(key)).1 is Ok,
    ensures
        step(step(s, Op::Acquire(key)).0, Op::Acquire(key)) == (
        step(s, Op::Acquire(key)).0,
        Ok::<(), HandshakeError>(()),
        ),
{
}

/// The sides strictly alternate: once the holder has released the mutex,
/// acquiring it again under its key is refused and the other side's acquire
/// succeeds.
pub proof fn lemma_release_hands_over(s: HandshakeState, key: u64)
    requires
        s.wf(),
        step(s, Op::Release(key)).1 is Ok,
    ensures
        step(step(s, Op::Release(key)).0, Op::Acquire(key)).1 == Err::<(), HandshakeError>(
            HandshakeError::Timeout,
        ),
        step(step(s, Op::Release(key)).0, Op::Acquire(other_key(key))).1 is Ok,
        step(step(s, Op::Release(key)).0, Op::Acquire(other_key(key))).0.holds(other_key(key)),
{
}

/// The handshake over one shared texture's keyed mutex.
pub struct Handshake {
    state: HandshakeState,
}

impl View for Handshake {
    type V = HandshakeState;

    closed spec fn view(&self) -> HandshakeState {
        self.state
    }
}

impl Handshake {
    #[verifier::type_invariant]
    spec fn inv(&self) -> bool {
        self.state.wf()
    }

    /// A fresh handshake: the mutex is free and the producer goes first.
    pub fn new() -> (r: Handshake)
        ensures
            r@ == initial(),
    {
        Handshake { state: HandshakeState { holder: None, turn: PRODUCER_KEY, drawing: false } }
    }

    /// Acquires the mutex under `key`. Succeeds when `key` already holds it
    /// (and changes nothing), or when the mutex is free and it is `key`'s
    /// turn; otherwise fails with `Timeout` and changes nothing.
    pub fn acquire(&mut self, key: u64) -> (r: Result<(), HandshakeError>)
        ensures
            (final(self)@, r) == step(old(self)@, Op::Acquire(key)),
            old(self)@.holds(key) ==> r is Ok && final(self)@ == old(self)@,
            final(self)@.wf(),
    {
        proof {
            use_type_invariant(&*self);
        }
        if self.state.holder == Some(key) {
            Ok(())
        } else if self.state.holder.is_none() && self.state.turn == key {
            self.state = HandshakeState { holder: Some(key), turn: self.state.turn, drawing: false };
            Ok(())
        } else {
            Err(HandshakeError::Timeout)
        }
    }

    /// Releases the mutex held under `key` and hands the turn to the other
    /// side. Fails with `NotHeld` when `key` does not hold the mutex, and with
    /// `DrawSessionOpen` while a drawing session is open; a failed release
    /// changes nothing.
    pub fn release(&mut self, key: u64) -> (r: Result<(), HandshakeError>)
        ensures
            (final(self)@, r) == step(old(self)@, Op::Release(key)),
            !old(self)@.holds(key) ==> r == Err::<(), HandshakeError>(HandshakeError::NotHeld)
                && final(self)@ == old(self)@,
            final(self)@.wf(),
    {
        proof {
            use_type_invariant(&*self);
        }
        if self.state.holder != Some(key) {
            Err(HandshakeError::NotHeld)
        } else if self.state.drawing {
            Err(HandshakeError::DrawSessionOpen)
        } else {
            let next = other_side(key);
            self.state = HandshakeState { holder: None, turn: next, drawing: false };
            Ok(())
        }
    }

    /// Opens a drawing session for the side that holds the mutex under `key`.
    pub fn begin_draw(&mut self, key: u64) -> (r: Result<(), HandshakeError>)
        ensures
            (final(self)@, r) == step(old(self)@, Op::BeginDraw(key)),
            final(self)@.wf(),
    {
        proof {
            use_type_invariant(&*self);
        }
        if self.state.holder != Some(key) {
            Err(HandshakeError::NotHeld)
        } else if self.state.drawing {
            Err(HandshakeError::DrawSessionOpen)
        } else {
            self.state = HandshakeState { holder: self.state.holder, turn: self.state.turn, drawing: true };
            Ok(())
        }
    }

    /// Closes the drawing session of the side that holds the mutex under
    /// `key`; the work it submitted is then complete and the mutex may be
    /// released.
    pub fn end_draw(&mut self, key: u64) -> (r: Result<(), HandshakeError>)
        ensures
            (final(self)@, r) == step(old(self)@, Op::EndDraw(key)),
            final(self)@.wf(),
    {
        proof {
            use_type_invariant(&*self);
        }
        if self.state.holder != Some(key) {
            Err(HandshakeError::NotHeld)
        } else if !self.state.drawing {
            Err(HandshakeError::NoDrawSession)
        } else {
            self.state = HandshakeState { holder: self.state.holder, turn: self.state.turn, drawing: false };
            Ok(())
        }
    }

    /// Performs one call.
    pub fn apply(&mut self, op: Op) -> (r: Result<(), HandshakeError>)
        ensures
            (final(self)@, r) == step(old(self)@, op),
            final(self)@.wf(),
    {
        match op {
            Op::Acquire(key) => self.acquire(key),
            Op::Release(key) => self.release(key),
            Op::BeginDraw(key) => self.begin_draw(key),
            Op::EndDraw(key) => self.end_draw(key),
        }
    }

    /// What `op` would return, without performing it.
    pub fn check(&self, op: Op) -> (r: Result<(), HandshakeError>)
        ensures
            r == step(self@, op).1,
    {
        proof {
            use_type_invariant(self);
        }
        let mut probe = Handshake { state: self.state };
        probe.apply(op)
    }

    /// Performs the calls of `ops` in order, whatever each one returns, and
    /// gives back the outcome of each.
    pub fn apply_all(&mut self, ops: &Vec<Op>) -> (r: Vec<Result<(), HandshakeError>>)
        ensures
            final(self)@ == run(old(self)@, ops@),
            final(self)@.wf(),
            r@.len() == ops@.len(),
            forall|j: int|
                0 <= j < ops@.len() ==> #[trigger] r@[j] == step(
                    run(old(self)@, ops@.take(j)),
                    ops@[j],
                ).1,
    {
        proof {
            use_type_invariant(&*self);
        }
        let mut outcomes: Vec<Result<(), HandshakeError>> = Vec::new();
        let mut i: usize = 0;
        assert(ops@.take(0) =~= Seq::<Op>::empty());
        while i < ops.len()
            invariant
                i <= ops@.len(),
                self@.wf(),
                self@ == run(old(self)@, ops@.take(i as int)),
                outcomes@.len() == i,
                forall|j: int|
                    0 <= j < i ==> #[trigger] outcomes@[j] == step(
                        run(old(self)@, ops@.take(j)),
                        ops@[j],
                    ).1,
            decreases ops@.len() - i,
        {
            let outcome = self.apply(ops[i]);
            assert(ops@.take(i + 1).drop_last() =~= ops@.take(i as int));
            outcomes.push(outcome);
            i = i + 1;
        }
        assert(ops@.take(ops@.len() as int) =~= ops@);
        outcomes
    }

    /// Whether the side with `key` holds the mutex.
    pub fn holds(&self, key: u64) -> (r: bool)
        ensures
            r == self@.holds(key),
            self@.wf(),
    {
        proof {
            use_type_invariant(self);
        }
        self.state.holder == Some(key)
    }

    /// Who holds the mutex.
    pub fn ownership(&self) -> (r: Ownership)
        ensures
            r == self@.ownership(),
    {
        match self.state.holder {
            None => Ownership::Unowned,
            Some(k) => if k == PRODUCER_KEY {
                Ownership::OwnedByProducer
            } else {
                Ownership::OwnedByConsumer
            },
        }
    }

    /// The key that may acquire the mutex next while it is free.
    pub fn turn(&self) -> (r: u64)
        ensures
            r == self@.turn,
    {
        self.state.turn
    }

    /// Whether the holder has a drawing session open.
    pub fn is_drawing(&self) -> (r: bool)
        ensures
            r == self@.drawing,
    {
        self.state.drawing
    }
}

} // verus!
