use vstd::prelude::*;

verus! {

/// Where the protocol encoder stands: idle, or `elapsed` sample ticks into a
/// frame of `length` ticks.
#[derive(Clone, Copy, Debug, PartialEq, Eq, Structural)]
pub enum EncoderState {
    Idle,
    Transmitting { elapsed: u32, length: u32 },
}

/// A load was refused because a frame is still being sent.
#[derive(Clone, Copy, Debug, PartialEq, Eq, Structural)]
pub struct EncoderBusy;

impl EncoderState {
    /// A frame in progress has not yet run its length.
    pub open spec fn wf(self) -> bool {
        match self {
            EncoderState::Idle => true,
            EncoderState::Transmitting { elapsed, length } => elapsed < length,
        }
    }
}

/// One sample tick: nothing while idle; otherwise one step further, and back
/// to idle once the frame is complete.
pub open spec fn tick_spec(s: EncoderState) -> EncoderState {
    match s {
        EncoderState::Idle => EncoderState::Idle,
        EncoderState::Transmitting { elapsed, length } => if elapsed + 1 >= length {
            EncoderState::Idle
        } else {
            EncoderState::Transmitting { elapsed: (elapsed + 1) as u32, length }
        },
    }
}

/// Loading a frame of `length` ticks: taken only while idle.
pub open spec fn load_spec(s: EncoderState, length: u32) -> (Result<(), EncoderBusy>, EncoderState) {
    match s {
        EncoderState::Idle => (Ok(()), EncoderState::Transmitting { elapsed: 0, length }),
        EncoderState::Transmitting { .. } => (Err(EncoderBusy), s),
    }
}

/// The state after `n` sample ticks.
pub open spec fn ticks(s: EncoderState, n: nat) -> EncoderState
    decreases n,
{
    if n == 0 {
        s
    } else {
        ticks(tick_spec(s), (n - 1) as nat)
    }
}

impl EncoderState {
    /// Advances by one sample tick.
    pub fn tick(&mut self)
        requires
            old(self).wf(),
        ensures
            *final(self) == tick_spec(*old(self)),
            final(self).wf(),
    {
        match *self {
            EncoderState::Idle => {},
            EncoderState::Transmitting { elapsed, length } => {
                if elapsed >= length - 1 {
                    *self = EncoderState::Idle;
                } else {
                    *self = EncoderState::Transmitting { elapsed: elapsed + 1, length };
                }
            },
        }
    }

    /// Starts a frame of `length` ticks if idle; refuses, and leaves the
    /// frame in progress as it is, otherwise.
    pub fn load(&mut self, length: u32) -> (r: Result<(), EncoderBusy>)
        requires
            length > 0,
        ensures
            (r, *final(self)) == load_spec(*old(self), length),
            old(self).wf() ==> final(self).wf(),
    {
        match *self {
            EncoderState::Idle => {
                *self = EncoderState::Transmitting { elapsed: 0, length };
                Ok(())
            },
            EncoderState::Transmitting { .. } => Err(EncoderBusy),
        }
    }
}

/// The pending flags of the two interrupt sources that share the encoder:
/// the periodic sample timer and the button's edge detector.
#[derive(Clone, Copy, Debug, PartialEq, Eq, Structural)]
pub struct PendingFlags {
    pub sample: bool,
    pub edge: bool,
}

/// The encoder shared by the sample-tick and button-edge handlers, with a
/// count of the loads that were refused because a frame was in progress.
#[derive(Debug)]
pub struct SharedTransmitter {
    encoder: EncoderState,
    busy_count: u32,
}

impl SharedTransmitter {
    pub closed spec fn encoder_state(&self) -> EncoderState {
        self.encoder
    }

    pub closed spec fn busy_loads(&self) -> nat {
        self.busy_count as nat
    }

    /// The state stays well formed through every handler.
    pub open spec fn wf(&self) -> bool {
        self.encoder_state().wf()
    }

    /// An idle encoder with no refused loads.
    pub fn new() -> (r: SharedTransmitter)
        ensures
            r.encoder_state() == EncoderState::Idle,
            r.busy_loads() == 0,
            r.wf(),
    {
        SharedTransmitter { encoder: EncoderState::Idle, busy_count: 0 }
    }

    /// The encoder's state.
    pub fn state(&self) -> (r: EncoderState)
        ensures
            r == self.encoder_state(),
    {
        self.encoder
    }

    /// How many loads were refused, saturating at `u32::MAX`.
    pub fn busy_count(&self) -> (r: u32)
        ensures
            r as nat == self.busy_loads(),
    {
        self.busy_count
    }

    /// The sample timer's handler: one encoder tick, then the timer's
    /// pending flag is cleared, whatever the tick did.
    pub fn on_sample_tick(&mut self, flags: &mut PendingFlags)
        requires
            old(self).wf(),
        ensures
            final(self).encoder_state() == tick_spec(old(self).encoder_state()),
            final(self).busy_loads() == old(self).busy_loads(),
            final(self).wf(),
            *final(flags) == (PendingFlags { sample: false, ..*old(flags) }),
    {
        self.encoder.tick();
        flags.sample = false;
    }

    /// The button's handler: asks the encoder to start a frame of `length`
    /// ticks, counts a refusal, then clears the edge's pending flag on
    /// either path.
    pub fn on_button_edge(&mut self, flags: &mut PendingFlags, length: u32) -> (r: Result<
        (),
        EncoderBusy,
    >)
        requires
            old(self).wf(),
            length > 0,
        ensures
            (r, final(self).encoder_state()) == load_spec(old(self).encoder_state(), length),
            final(self).busy_loads() == if r is Err && old(self).busy_loads() < u32::MAX {
                old(self).busy_loads() + 1
            } else {
                old(self).busy_loads()
            },
            final(self).wf(),
            *final(flags) == (PendingFlags { edge: false, ..*old(flags) }),
    {
        let r = self.encoder.load(length);
        if r.is_err() && self.busy_count < u32::MAX {
            self.busy_count = self.busy_count + 1;
        }
        flags.edge = false;
        r
    }
}

/// A load refused while a frame is in progress changes nothing: the frame
/// goes on, tick by tick, exactly as it would have without the load.
pub proof fn lemma_busy_load_keeps_frame(s: EncoderState, length: u32, n: nat)
    requires
        s is Transmitting,
    ensures
        load_spec(s, length).0 == Err::<(), EncoderBusy>(EncoderBusy),
        load_spec(s, length).1 == s,
        ticks(load_spec(s, length).1, n) == ticks(s, n),
{
}

/// A frame loaded while idle keeps the encoder transmitting for exactly
/// `length` sample ticks, after which it is idle again.
pub proof fn lemma_frame_runs_its_length(length: u32)
    requires
        length > 0,
    ensures
        load_spec(EncoderState::Idle, length).0 == Ok::<(), EncoderBusy>(()),
        forall|k: nat|
            k < length ==> #[trigger] ticks(load_spec(EncoderState::Idle, length).1, k)
                == (EncoderState::Transmitting { elapsed: k as u32, length }),
        ticks(load_spec(EncoderState::Idle, length).1, length as nat) == EncoderState::Idle,
{
    let start = EncoderState::Transmitting { elapsed: 0, length };
    assert forall|k: nat| k <= length implies #[trigger] ticks(start, k) == (if k < length {
        EncoderState::Transmitting { elapsed: k as u32, length }
    } else {
        EncoderState::Idle
    }) by {
        lemma_ticks_from(length, 0, k);
    }
    assert(ticks(start, length as nat) == EncoderState::Idle);
}

/// From `elapsed` ticks into a frame, `k` more ticks reach `elapsed + k`, or
/// idle once that reaches the frame's length.
proof fn lemma_ticks_from(length: u32, elapsed: u32, k: nat)
    requires
        elapsed < length,
        elapsed + k <= length,
    ensures
        ticks(EncoderState::Transmitting { elapsed, length }, k) == (if elapsed + k < length {
            EncoderState::Transmitting { elapsed: (elapsed + k) as u32, length }
        } else {
            EncoderState::Idle
        }),
    decreases k,
{
    if k > 0 {
        let s = EncoderState::Transmitting { elapsed, length };
        if elapsed + 1 < length {
            lemma_ticks_from(length, (elapsed + 1) as u32, (k - 1) as nat);
        } else {
            assert(tick_spec(s) == EncoderState::Idle);
            assert(k == 1);
            assert(ticks(EncoderState::Idle, 0) == EncoderState::Idle);
        }
    }
}

} // verus!
