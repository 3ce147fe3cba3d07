//! The serial command loop, as a state machine.
//!
//! The firmware polls the transport and hands each outcome to a
//! `CommandLoop`: the bytes of a receive event (`on_read`), a failed read
//! (`on_read_error`), or how many echoed bytes the transport accepted
//! (`on_write`). The loop decides the channels' duty and the status
//! indicator, and which bytes are still to be echoed (`pending_echo`).
//!
//! Only the first byte of a receive event is a command. All of its bytes are
//! echoed back, in order, before the next receive event is taken. A write
//! that accepts no byte is simply tried again, with no limit: if the host
//! stops draining the link, the echo never ends.
use vstd::prelude::*;
use crate::calibration::{command_duty, duty_at_startup, duty_for_command, startup_duty};
use crate::pwm::{Channel, PwmChannels};

verus! {

/// The largest number of bytes that one receive event holds.
pub const ECHO_CAPACITY: usize = 64;

/// The status indicator: `Active` while a command is handled, `Idle` after.
#[derive(Clone, Copy, Debug, PartialEq, Eq, Structural)]
pub enum Indicator {
    Active,
    Idle,
}

/// What the loop waits for: a receive event, or the transport accepting the
/// rest of the echo.
#[derive(Clone, Copy, Debug, PartialEq, Eq, Structural)]
pub enum Phase {
    WaitForData,
    Echo,
}

/// The abstract state of the loop.
pub struct LoopView {
    pub pwm: PwmChannels,
    pub indicator: Indicator,
    pub phase: Phase,
    /// The bytes of the last receive event.
    pub received: Seq<u8>,
    /// How many of them the transport has accepted back.
    pub written: nat,
}

impl LoopView {
    /// The channels are in range and move together; the echo is in bounds,
    /// and an echo under way has bytes left.
    pub open spec fn wf(self) -> bool {
        &&& self.pwm.wf()
        &&& self.pwm.duty(Channel::C2) == self.pwm.duty(Channel::C3)
        &&& self.received.len() <= ECHO_CAPACITY
        &&& self.written <= self.received.len()
        &&& (self.phase is Echo ==> self.written < self.received.len())
    }

    /// The bytes of the last receive event that are not yet echoed.
    pub open spec fn pending(self) -> Seq<u8> {
        self.received.subrange(self.written as int, self.received.len() as int)
    }
}

/// The channels at startup: all enabled, channel 1 at zero, and the gauge's
/// two channels at the duty of the startup reading.
pub open spec fn startup_channels(max_duty: u16) -> PwmChannels {
    PwmChannels {
        duty1: 0,
        duty2: startup_duty(max_duty),
        duty3: startup_duty(max_duty),
        enabled1: true,
        enabled2: true,
        enabled3: true,
        max_duty,
    }
}

/// The loop before its first receive event. The indicator's pin comes up
/// low, which shows it active.
pub open spec fn startup(max_duty: u16) -> LoopView {
    LoopView {
        pwm: startup_channels(max_duty),
        indicator: Indicator::Active,
        phase: Phase::WaitForData,
        received: Seq::empty(),
        written: 0,
    }
}

/// The loop after a receive event with bytes `data`: an empty one only sets
/// the indicator idle; otherwise the first byte sets the gauge's channels,
/// the indicator turns active and the echo of `data` begins.
pub open spec fn after_read(v: LoopView, data: Seq<u8>) -> LoopView {
    if data.len() == 0 {
        LoopView { indicator: Indicator::Idle, ..v }
    } else {
        LoopView {
            pwm: v.pwm.with_gauge_duty(command_duty(data[0], v.pwm.max_duty)),
            indicator: Indicator::Active,
            phase: Phase::Echo,
            received: data,
            written: 0,
        }
    }
}

/// The loop after a failed read: the indicator turns idle.
pub open spec fn after_read_error(v: LoopView) -> LoopView {
    LoopView { indicator: Indicator::Idle, ..v }
}

/// The loop after the transport accepted `n` more bytes of the echo; once
/// all are accepted the indicator turns idle and the loop waits for data.
pub open spec fn after_write(v: LoopView, n: nat) -> LoopView {
    if v.written + n >= v.received.len() {
        LoopView {
            indicator: Indicator::Idle,
            phase: Phase::WaitForData,
            written: v.written + n,
            ..v
        }
    } else {
        LoopView { written: v.written + n, ..v }
    }
}

/// The loop after the transport accepted, write by write, the counts `ns`.
pub open spec fn after_writes(v: LoopView, ns: Seq<nat>) -> LoopView
    decreases ns.len(),
{
    if ns.len() == 0 {
        v
    } else {
        after_writes(after_write(v, ns[0]), ns.drop_first())
    }
}

/// The bytes that the transport accepted over the writes `ns`, in order.
pub open spec fn echoed(v: LoopView, ns: Seq<nat>) -> Seq<u8>
    decreases ns.len(),
{
    if ns.len() == 0 {
        Seq::empty()
    } else {
        v.pending().take(ns[0] as int) + echoed(after_write(v, ns[0]), ns.drop_first())
    }
}

/// Each write of `ns` comes while the echo is under way, and accepts at most
/// the bytes it was offered.
pub open spec fn writes_accepted(v: LoopView, ns: Seq<nat>) -> bool
    decreases ns.len(),
{
    ns.len() == 0 || {
        &&& v.phase is Echo
        &&& ns[0] <= v.pending().len()
        &&& writes_accepted(after_write(v, ns[0]), ns.drop_first())
    }
}

/// The serial command loop's state.
pub struct CommandLoop {
    pwm: PwmChannels,
    indicator: Indicator,
    phase: Phase,
    received: Vec<u8>,
    written: usize,
}

impl View for CommandLoop {
    type V = LoopView;

    closed spec fn view(&self) -> LoopView {
        LoopView {
            pwm: self.pwm,
            indicator: self.indicator,
            phase: self.phase,
            received: self.received@,
            written: self.written as nat,
        }
    }
}

impl CommandLoop {
    /// The loop's abstract state is well formed.
    pub open spec fn wf(&self) -> bool {
        self@.wf()
    }

    /// The loop for a timer whose counter period is `max_duty`: all three
    /// channels enabled, and the gauge's two channels already at the duty of
    /// the startup reading.
    pub fn new(max_duty: u16) -> (r: CommandLoop)
        ensures
            r.wf(),
            r@ == startup(max_duty),
    {
        let mut pwm = PwmChannels::new(max_duty);
        assert(pwm.duty(Channel::C1) == 0);
        pwm.enable(Channel::C1);
        pwm.enable(Channel::C2);
        pwm.enable(Channel::C3);
        let duty = duty_at_startup(max_duty);
        pwm.set_gauge_duty(duty);
        let r = CommandLoop {
            pwm,
            indicator: Indicator::Active,
            phase: Phase::WaitForData,
            received: Vec::new(),
            written: 0,
        };
        assert(r@.pwm == startup_channels(max_duty));
        assert(r@.received =~= Seq::<u8>::empty());
        r
    }

    /// Handles a receive event whose bytes are `data`.
    pub fn on_read(&mut self, data: &[u8])
        requires
            old(self).wf(),
            old(self)@.phase is WaitForData,
            data@.len() <= ECHO_CAPACITY,
        ensures
            final(self).wf(),
            final(self)@ == after_read(old(self)@, data@),
    {
        if data.len() == 0 {
            self.indicator = Indicator::Idle;
            return;
        }
        let duty = duty_for_command(data[0], self.pwm.get_max_duty());
        self.pwm.set_gauge_duty(duty);
        self.indicator = Indicator::Active;
        let mut buf: Vec<u8> = Vec::new();
        let mut i: usize = 0;
        while i < data.len()
            invariant
                i <= data@.len(),
                buf@ == data@.take(i as int),
            decreases data@.len() - i,
        {
            buf.push(data[i]);
            i = i + 1;
        }
        assert(buf@ =~= data@);
        self.received = buf;
        self.written = 0;
        self.phase = Phase::Echo;
    }

    /// Handles a read that failed.
    pub fn on_read_error(&mut self)
        requires
            old(self).wf(),
            old(self)@.phase is WaitForData,
        ensures
            final(self).wf(),
            final(self)@ == after_read_error(old(self)@),
    {
        self.indicator = Indicator::Idle;
    }

    /// The bytes still to be echoed, to be offered to the transport.
    pub fn pending_echo(&self) -> (r: Vec<u8>)
        requires
            self.wf(),
        ensures
            r@ == self@.pending(),
    {
        let mut r: Vec<u8> = Vec::new();
        let mut i: usize = self.written;
        while i < self.received.len()
            invariant
                self.written <= i <= self.received@.len(),
                r@ == self.received@.subrange(self.written as int, i as int),
            decreases self.received@.len() - i,
        {
            r.push(self.received[i]);
            i = i + 1;
            assert(r@ =~= self.received@.subrange(self.written as int, i as int));
        }
        r
    }

    /// Handles a write of the echo that the transport accepted `n` bytes of.
    pub fn on_write(&mut self, n: usize)
        requires
            old(self).wf(),
            old(self)@.phase is Echo,
            n <= old(self)@.pending().len(),
        ensures
            final(self).wf(),
            final(self)@ == after_write(old(self)@, n as nat),
    {
        self.written = self.written + n;
        if self.written >= self.received.len() {
            self.indicator = Indicator::Idle;
            self.phase = Phase::WaitForData;
        }
    }

    /// What the loop waits for.
    pub fn phase(&self) -> (r: Phase)
        ensures
            r == self@.phase,
    {
        self.phase
    }

    /// The status indicator.
    pub fn indicator(&self) -> (r: Indicator)
        ensures
            r == self@.indicator,
    {
        self.indicator
    }

    /// The channels' state.
    pub fn channels(&self) -> (r: PwmChannels)
        ensures
            r == self@.pwm,
    {
        self.pwm
    }
}

/// Channels 2 and 3 hold the same duty after every step of the loop: a
/// receive event, a failed read, or a write of the echo.
pub proof fn lemma_channels_move_together(v: LoopView, data: Seq<u8>, n: nat)
    requires
        v.wf(),
    ensures
        v.phase is WaitForData && data.len() <= ECHO_CAPACITY ==> {
            &&& after_read(v, data).wf()
            &&& after_read(v, data).pwm.duty(Channel::C2) == after_read(v, data).pwm.duty(Channel::C3)
        },
        v.phase is WaitForData ==> {
            &&& after_read_error(v).wf()
            &&& after_read_error(v).pwm.duty(Channel::C2) == after_read_error(v).pwm.duty(Channel::C3)
        },
        v.phase is Echo && n <= v.pending().len() ==> {
            &&& after_write(v, n).wf()
            &&& after_write(v, n).pwm.duty(Channel::C2) == after_write(v, n).pwm.duty(Channel::C3)
        },
{
}

/// The same command byte, received in any two states of one timer, sets the
/// gauge's channels to the same duty: the duty that the byte stands for.
pub proof fn lemma_same_command_same_duty(v1: LoopView, v2: LoopView, d1: Seq<u8>, d2: Seq<u8>)
    requires
        v1.wf(),
        v2.wf(),
        v1.pwm.max_duty == v2.pwm.max_duty,
        d1.len() > 0,
        d2.len() > 0,
        d1[0] == d2[0],
    ensures
        after_read(v1, d1).pwm.duty(Channel::C2) == after_read(v2, d2).pwm.duty(Channel::C2),
        after_read(v1, d1).pwm.duty(Channel::C3) == after_read(v2, d2).pwm.duty(Channel::C3),
        after_read(v1, d1).pwm.duty(Channel::C2) == command_duty(d1[0], v1.pwm.max_duty),
{
}

/// While the echo is under way, the bytes that the transport accepts over
/// any writes are the received bytes from where the echo stood, in order;
/// the loop goes back to waiting for data exactly when all are accepted.
pub proof fn lemma_echo_progress(v: LoopView, ns: Seq<nat>)
    requires
        v.wf(),
        v.phase is Echo,
        writes_accepted(v, ns),
    ensures
        after_writes(v, ns).wf(),
        after_writes(v, ns).received == v.received,
        after_writes(v, ns).pwm == v.pwm,
        v.written <= after_writes(v, ns).written,
        echoed(v, ns) == v.received.subrange(v.written as int, after_writes(v, ns).written as int),
        (after_writes(v, ns).phase is WaitForData) == (after_writes(v, ns).written
            == v.received.len()),
    decreases ns.len(),
{
    if ns.len() > 0 {
        let v1 = after_write(v, ns[0]);
        let rest = ns.drop_first();
        let first = v.pending().take(ns[0] as int);
        assert(first =~= v.received.subrange(v.written as int, v1.written as int));
        if v1.phase is Echo {
            lemma_echo_progress(v1, rest);
            let u = after_writes(v1, rest);
            assert(first + echoed(v1, rest) =~= v.received.subrange(
                v.written as int,
                u.written as int,
            ));
        } else {
            assert(rest.len() == 0);
            assert(echoed(v1, rest) =~= Seq::<u8>::empty());
            assert(first + echoed(v1, rest) =~= first);
        }
    }
}

/// Echo round trip: after a receive event of 1 to 64 bytes, the bytes that
/// the transport accepts back are a prefix of those received, in order,
/// however the writes split them; they are all of them exactly when the
/// loop is back to waiting for data.
pub proof fn lemma_echo_round_trip(v: LoopView, data: Seq<u8>, ns: Seq<nat>)
    requires
        v.wf(),
        v.phase is WaitForData,
        1 <= data.len() <= ECHO_CAPACITY,
        writes_accepted(after_read(v, data), ns),
    ensures
        echoed(after_read(v, data), ns) == data.take(
            after_writes(after_read(v, data), ns).written as int,
        ),
        (after_writes(after_read(v, data), ns).phase is WaitForData) == (echoed(
            after_read(v, data),
            ns,
        ) == data),
{
    let v0 = after_read(v, data);
    lemma_echo_progress(v0, ns);
    let u = after_writes(v0, ns);
    assert(data.subrange(0, u.written as int) =~= data.take(u.written as int));
    if u.written == data.len() {
        assert(data.take(u.written as int) =~= data);
    } else {
        assert(echoed(v0, ns).len() < data.len());
    }
}

/// A transport that never accepts a byte leaves the echo where it is: the
/// loop stays in its echo, with nothing echoed, however many writes it tries.
pub proof fn lemma_stalled_echo(v: LoopView, k: nat)
    requires
        v.wf(),
        v.phase is Echo,
    ensures
        writes_accepted(v, Seq::new(k, |i: int| 0nat)),
        after_writes(v, Seq::new(k, |i: int| 0nat)) == v,
        echoed(v, Seq::new(k, |i: int| 0nat)) == Seq::<u8>::empty(),
    decreases k,
{
    let zeros = Seq::new(k, |i: int| 0nat);
    if k > 0 {
        let rest = Seq::new((k - 1) as nat, |i: int| 0nat);
        assert(zeros.drop_first() =~= rest);
        assert(after_write(v, 0) == v);
        lemma_stalled_echo(v, (k - 1) as nat);
        assert(v.pending().take(0) =~= Seq::<u8>::empty());
        assert(echoed(v, zeros) =~= Seq::<u8>::empty());
    }
}

} // verus!
