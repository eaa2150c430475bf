//! The retrying request/response exchange as a state machine. The caller owns
//! the transport: it feeds each outcome in as an event and performs the action
//! that comes back, until the exchange delivers a message or gives up.
use vstd::prelude::*;
use vstd::slice::slice_to_vec;
use crate::frame::{UbxMessage, FrameError, MAX_PAYLOAD, frame_bytes, decode_spec, encode_ubx_frame, parse_ubx_message};

verus! {

/// Attempts made before an exchange gives up, unless configured otherwise.
pub const DEFAULT_MAX_RETRIES: u32 = 10;

/// Longest wait for the response to one attempt, in milliseconds.
pub const DEFAULT_ATTEMPT_TIMEOUT_MS: u64 = 200;

/// Pause between sending a request and reading the response, in milliseconds.
pub const DEFAULT_INTER_ATTEMPT_DELAY_MS: u64 = 500;

/// How an exchange retries.
#[derive(Debug, Clone, Copy, PartialEq, Eq, Structural)]
pub struct RetryConfig {
    /// Attempts before the exchange gives up.
    pub max_retries: u32,
    /// Longest wait for one read, in milliseconds.
    pub attempt_timeout_ms: u64,
    /// Pause between a write and the read that follows it, in milliseconds.
    pub inter_attempt_delay_ms: u64,
}

impl Default for RetryConfig {
    fn default() -> (r: RetryConfig)
        ensures
            r.max_retries == DEFAULT_MAX_RETRIES,
            r.attempt_timeout_ms == DEFAULT_ATTEMPT_TIMEOUT_MS,
            r.inter_attempt_delay_ms == DEFAULT_INTER_ATTEMPT_DELAY_MS,
    {
        RetryConfig {
            max_retries: DEFAULT_MAX_RETRIES,
            attempt_timeout_ms: DEFAULT_ATTEMPT_TIMEOUT_MS,
            inter_attempt_delay_ms: DEFAULT_INTER_ATTEMPT_DELAY_MS,
        }
    }
}

/// Where an exchange stands.
#[derive(Debug, Clone, Copy, PartialEq, Eq, Structural)]
pub enum ExchangeState {
    /// Nothing sent yet.
    Idle,
    /// The request frame is being written.
    Sent,
    /// Waiting for the response to be read.
    Awaiting,
    /// The requested message arrived (final).
    Matched,
    /// Every attempt failed (final).
    Exhausted,
}

/// What the transport reported.
#[derive(Debug)]
pub enum ExchangeEvent {
    /// Begin the exchange.
    Start,
    /// The request frame was written and flushed.
    WriteOk,
    /// Writing the request frame failed.
    WriteFailed,
    /// One read returned these bytes.
    ReadOk(Vec<u8>),
    /// The read failed or timed out.
    ReadFailed,
}

/// What the caller is to do next.
#[derive(Debug)]
pub enum ExchangeAction {
    /// Write these bytes to the transport, then report `WriteOk` or `WriteFailed`.
    Write(Vec<u8>),
    /// Wait, read once, then report `ReadOk` or `ReadFailed`.
    Read,
    /// The exchange succeeded with this message.
    Deliver(UbxMessage),
    /// Every attempt failed; no response.
    GiveUp,
    /// The event does not fit the current state and changed nothing.
    Ignore,
}

/// The abstract content of an action.
pub enum ActionView {
    Write(Seq<u8>),
    Read,
    Deliver((u8, u8, Seq<u8>)),
    GiveUp,
    Ignore,
}

impl View for ExchangeAction {
    type V = ActionView;

    open spec fn view(&self) -> ActionView {
        match self {
            ExchangeAction::Write(f) => ActionView::Write(f@),
            ExchangeAction::Read => ActionView::Read,
            ExchangeAction::Deliver(m) => ActionView::Deliver(m@),
            ExchangeAction::GiveUp => ActionView::GiveUp,
            ExchangeAction::Ignore => ActionView::Ignore,
        }
    }
}

/// The abstract state of an exchange.
pub struct ExchangeView {
    pub class: u8,
    pub id: u8,
    /// The request frame written on every attempt.
    pub frame: Seq<u8>,
    pub max_retries: u32,
    /// Attempts begun so far.
    pub attempt: u32,
    pub state: ExchangeState,
}

impl ExchangeView {
    /// The attempt counter stays within the bound and agrees with the state.
    pub open spec fn wf(self) -> bool {
        &&& self.attempt <= self.max_retries
        &&& self.state == ExchangeState::Idle ==> self.attempt == 0
        &&& (self.state == ExchangeState::Sent || self.state == ExchangeState::Awaiting
            || self.state == ExchangeState::Matched) ==> self.attempt >= 1
        &&& self.state == ExchangeState::Exhausted ==> self.attempt == self.max_retries
    }
}

/// An attempt failed: begin the next one, or give up when none is left.
pub open spec fn retry(s: ExchangeView) -> (ExchangeView, ActionView) {
    if s.attempt < s.max_retries {
        (
            ExchangeView { attempt: (s.attempt + 1) as u32, state: ExchangeState::Sent, ..s },
            ActionView::Write(s.frame),
        )
    } else {
        (ExchangeView { state: ExchangeState::Exhausted, ..s }, ActionView::GiveUp)
    }
}

/// The transition that an event causes: the next state and the action to take.
pub open spec fn step(s: ExchangeView, ev: ExchangeEvent) -> (ExchangeView, ActionView) {
    match ev {
        ExchangeEvent::Start => if s.state == ExchangeState::Idle {
            retry(s)
        } else {
            (s, ActionView::Ignore)
        },
        ExchangeEvent::WriteOk => if s.state == ExchangeState::Sent {
            (ExchangeView { state: ExchangeState::Awaiting, ..s }, ActionView::Read)
        } else {
            (s, ActionView::Ignore)
        },
        ExchangeEvent::WriteFailed => if s.state == ExchangeState::Sent {
            retry(s)
        } else {
            (s, ActionView::Ignore)
        },
        ExchangeEvent::ReadOk(buf) => if s.state == ExchangeState::Awaiting {
            match decode_spec(buf@) {
                Some(m) => if m.0 == s.class && m.1 == s.id {
                    (ExchangeView { state: ExchangeState::Matched, ..s }, ActionView::Deliver(m))
                } else {
                    retry(s)
                },
                None => retry(s),
            }
        } else {
            (s, ActionView::Ignore)
        },
        ExchangeEvent::ReadFailed => if s.state == ExchangeState::Awaiting {
            retry(s)
        } else {
            (s, ActionView::Ignore)
        },
    }
}

/// One request/response exchange for a message identity.
pub struct Exchange {
    class: u8,
    id: u8,
    frame: Vec<u8>,
    max_retries: u32,
    attempt: u32,
    state: ExchangeState,
}

impl View for Exchange {
    type V = ExchangeView;

    closed spec fn view(&self) -> ExchangeView {
        ExchangeView {
            class: self.class,
            id: self.id,
            frame: self.frame@,
            max_retries: self.max_retries,
            attempt: self.attempt,
            state: self.state,
        }
    }
}

impl Exchange {
    /// Prepares an exchange that requests `class`/`id` with `payload`; refuses
    /// a payload too long for a frame.
    pub fn new(class: u8, id: u8, payload: &[u8], config: &RetryConfig) -> (r: Result<Exchange, FrameError>)
        ensures
            payload@.len() > MAX_PAYLOAD <==> r is Err,
            r matches Err(e) ==> e == FrameError::PayloadTooLarge,
            r matches Ok(x) ==> x@ == (ExchangeView {
                class,
                id,
                frame: frame_bytes(class, id, payload@),
                max_retries: config.max_retries,
                attempt: 0,
                state: ExchangeState::Idle,
            }),
    {
        match encode_ubx_frame(class, id, payload) {
            Ok(frame) => Ok(Exchange {
                class,
                id,
                frame,
                max_retries: config.max_retries,
                attempt: 0,
                state: ExchangeState::Idle,
            }),
            Err(e) => Err(e),
        }
    }

    /// The current state.
    pub fn state(&self) -> (r: ExchangeState)
        ensures
            r == self@.state,
    {
        self.state
    }

    /// The number of attempts begun so far.
    pub fn attempt(&self) -> (r: u32)
        ensures
            r == self@.attempt,
    {
        self.attempt
    }

    fn next_attempt(&mut self) -> (a: ExchangeAction)
        requires
            old(self)@.wf(),
            old(self)@.state == ExchangeState::Idle || old(self)@.state == ExchangeState::Sent
                || old(self)@.state == ExchangeState::Awaiting,
        ensures
            (final(self)@, a@) == retry(old(self)@),
    {
        if self.attempt < self.max_retries {
            self.attempt = self.attempt + 1;
            self.state = ExchangeState::Sent;
            ExchangeAction::Write(slice_to_vec(self.frame.as_slice()))
        } else {
            self.state = ExchangeState::Exhausted;
            ExchangeAction::GiveUp
        }
    }

    /// Advances the exchange by one event and says what to do next.
    pub fn on_event(&mut self, ev: ExchangeEvent) -> (a: ExchangeAction)
        requires
            old(self)@.wf(),
        ensures
            final(self)@.wf(),
            (final(self)@, a@) == step(old(self)@, ev),
    {
        match ev {
            ExchangeEvent::Start => if self.state == ExchangeState::Idle {
                self.next_attempt()
            } else {
                ExchangeAction::Ignore
            },
            ExchangeEvent::WriteOk => if self.state == ExchangeState::Sent {
                self.state = ExchangeState::Awaiting;
                ExchangeAction::Read
            } else {
                ExchangeAction::Ignore
            },
            ExchangeEvent::WriteFailed => if self.state == ExchangeState::Sent {
                self.next_attempt()
            } else {
                ExchangeAction::Ignore
            },
            ExchangeEvent::ReadOk(buf) => if self.state == ExchangeState::Awaiting {
                match parse_ubx_message(buf.as_slice()) {
                    Some(m) => if m.class == self.class && m.id == self.id {
                        self.state = ExchangeState::Matched;
                        ExchangeAction::Deliver(m)
                    } else {
                        self.next_attempt()
                    },
                    None => self.next_attempt(),
                }
            } else {
                ExchangeAction::Ignore
            },
            ExchangeEvent::ReadFailed => if self.state == ExchangeState::Awaiting {
                self.next_attempt()
            } else {
                ExchangeAction::Ignore
            },
        }
    }
}

/// A read returned a valid frame of the requested class and identifier.
pub open spec fn answers(s: ExchangeView, buf: Seq<u8>) -> bool {
    decode_spec(buf) matches Some(m) && m.0 == s.class && m.1 == s.id
}

/// The event ends the current attempt without the requested message: the
/// write failed, the read failed, or it returned no frame or another message.
pub open spec fn is_failure(s: ExchangeView, ev: ExchangeEvent) -> bool {
    ||| s.state == ExchangeState::Sent && ev is WriteFailed
    ||| s.state == ExchangeState::Awaiting && ev is ReadFailed
    ||| s.state == ExchangeState::Awaiting && (ev matches ExchangeEvent::ReadOk(b) && !answers(s, b@))
}

/// The state after feeding `evs` in order.
pub open spec fn run(s: ExchangeView, evs: Seq<ExchangeEvent>) -> ExchangeView
    decreases evs.len(),
{
    if evs.len() == 0 {
        s
    } else {
        step(run(s, evs.drop_last()), evs.last()).0
    }
}

/// Every transition keeps the attempt counter within the bound and in
/// agreement with the state.
pub proof fn lemma_step_wf(s: ExchangeView, ev: ExchangeEvent)
    requires
        s.wf(),
    ensures
        step(s, ev).0.wf(),
        step(s, ev).0.class == s.class,
        step(s, ev).0.id == s.id,
        step(s, ev).0.frame == s.frame,
        step(s, ev).0.max_retries == s.max_retries,
{
}

/// A message is delivered only when a read returned a valid frame of the
/// requested class and identifier, and it is the message of that frame.
pub proof fn lemma_delivers_only_answer(s: ExchangeView, ev: ExchangeEvent)
    requires
        s.wf(),
    ensures
        step(s, ev).1 matches ActionView::Deliver(m) ==> (ev matches ExchangeEvent::ReadOk(b)
            && answers(s, b@) && decode_spec(b@) == Some(m)
            && step(s, ev).0.state == ExchangeState::Matched),
{
}

/// A failed attempt before the last begins the next attempt by writing the
/// request frame again; the failure of the last gives up with the exchange
/// exhausted after exactly `max_retries` attempts.
pub proof fn lemma_failure_retries(s: ExchangeView, ev: ExchangeEvent)
    requires
        s.wf(),
        is_failure(s, ev),
    ensures
        s.attempt < s.max_retries ==> step(s, ev) == (
            ExchangeView { attempt: (s.attempt + 1) as u32, state: ExchangeState::Sent, ..s },
            ActionView::Write(s.frame),
        ),
        s.attempt == s.max_retries ==> step(s, ev) == (
            ExchangeView { state: ExchangeState::Exhausted, ..s },
            ActionView::GiveUp,
        ),
{
}

/// Whatever a transport reports, an exchange none of whose reads answers the
/// request never reaches `Matched`, and never begins more than `max_retries`
/// attempts.
pub proof fn lemma_no_answer_never_matches(s: ExchangeView, evs: Seq<ExchangeEvent>)
    requires
        s.wf(),
        s.state != ExchangeState::Matched,
        forall|i: int| 0 <= i < evs.len() ==> (#[trigger] evs[i] matches ExchangeEvent::ReadOk(b) ==> !answers(s, b@)),
    ensures
        run(s, evs).state != ExchangeState::Matched,
        run(s, evs).attempt <= s.max_retries,
        run(s, evs).wf(),
        run(s, evs).class == s.class && run(s, evs).id == s.id,
        run(s, evs).max_retries == s.max_retries,
    decreases evs.len(),
{
    if evs.len() > 0 {
        let pre = evs.drop_last();
        assert forall|i: int| 0 <= i < pre.len() implies (#[trigger] pre[i] matches ExchangeEvent::ReadOk(b) ==> !answers(s, b@)) by {
            assert(pre[i] == evs[i]);
        }
        lemma_no_answer_never_matches(s, pre);
        let mid = run(s, pre);
        lemma_step_wf(mid, evs.last());
        assert(evs.last() == evs[evs.len() - 1]);
    }
}

} // verus!
