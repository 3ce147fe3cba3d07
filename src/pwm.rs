//! The three PWM output channels of the gauge's timer.
//!
//! Channels 2 and 3 drive the gauge together; channel 1 is enabled but not
//! driven by commands. A duty written here must lie within the timer's
//! counter period, `max_duty`, which is fixed when the timer is set up.
use vstd::prelude::*;

verus! {

/// One of the timer's three PWM channels.
#[derive(Clone, Copy, Debug, PartialEq, Eq, Structural)]
pub enum Channel {
    C1,
    C2,
    C3,
}

/// The state of the timer's channels: each one's duty and whether it is
/// enabled, and the counter period that bounds every duty.
#[derive(Clone, Copy, Debug, PartialEq, Eq, Structural)]
pub struct PwmChannels {
    pub duty1: u16,
    pub duty2: u16,
    pub duty3: u16,
    pub enabled1: bool,
    pub enabled2: bool,
    pub enabled3: bool,
    pub max_duty: u16,
}

impl PwmChannels {
    /// Every channel's duty lies within the counter period.
    pub open spec fn wf(self) -> bool {
        &&& self.duty1 <= self.max_duty
        &&& self.duty2 <= self.max_duty
        &&& self.duty3 <= self.max_duty
    }

    /// The duty of channel `ch`.
    pub open spec fn duty(self, ch: Channel) -> u16 {
        match ch {
            Channel::C1 => self.duty1,
            Channel::C2 => self.duty2,
            Channel::C3 => self.duty3,
        }
    }

    /// Whether channel `ch` is enabled.
    pub open spec fn enabled(self, ch: Channel) -> bool {
        match ch {
            Channel::C1 => self.enabled1,
            Channel::C2 => self.enabled2,
            Channel::C3 => self.enabled3,
        }
    }

    /// These channels with the duty of `ch` set to `value`.
    pub open spec fn with_duty(self, ch: Channel, value: u16) -> PwmChannels {
        match ch {
            Channel::C1 => PwmChannels { duty1: value, ..self },
            Channel::C2 => PwmChannels { duty2: value, ..self },
            Channel::C3 => PwmChannels { duty3: value, ..self },
        }
    }

    /// These channels with `ch` enabled.
    pub open spec fn with_enabled(self, ch: Channel) -> PwmChannels {
        match ch {
            Channel::C1 => PwmChannels { enabled1: true, ..self },
            Channel::C2 => PwmChannels { enabled2: true, ..self },
            Channel::C3 => PwmChannels { enabled3: true, ..self },
        }
    }

    /// These channels with the gauge's two channels, 2 and 3, both at `value`.
    pub open spec fn with_gauge_duty(self, value: u16) -> PwmChannels {
        self.with_duty(Channel::C3, value).with_duty(Channel::C2, value)
    }

    /// Channels of a timer whose counter period is `max_duty`, all disabled
    /// and at duty zero.
    pub fn new(max_duty: u16) -> (r: PwmChannels)
        ensures
            r.wf(),
            r.max_duty == max_duty,
            forall|ch: Channel| r.duty(ch) == 0 && !r.enabled(ch),
    {
        PwmChannels {
            duty1: 0,
            duty2: 0,
            duty3: 0,
            enabled1: false,
            enabled2: false,
            enabled3: false,
            max_duty,
        }
    }

    /// Enables channel `ch`.
    pub fn enable(&mut self, ch: Channel)
        ensures
            *final(self) == old(self).with_enabled(ch),
    {
        match ch {
            Channel::C1 => self.enabled1 = true,
            Channel::C2 => self.enabled2 = true,
            Channel::C3 => self.enabled3 = true,
        }
    }

    /// Sets the duty of channel `ch` to `value`, which must lie within the
    /// counter period.
    pub fn set_duty(&mut self, ch: Channel, value: u16)
        requires
            old(self).wf(),
            value <= old(self).max_duty,
        ensures
            *final(self) == old(self).with_duty(ch, value),
            final(self).wf(),
    {
        match ch {
            Channel::C1 => self.duty1 = value,
            Channel::C2 => self.duty2 = value,
            Channel::C3 => self.duty3 = value,
        }
    }

    /// Sets the gauge's two channels, 3 then 2, to the same `value`.
    pub fn set_gauge_duty(&mut self, value: u16)
        requires
            old(self).wf(),
            value <= old(self).max_duty,
        ensures
            *final(self) == old(self).with_gauge_duty(value),
            final(self).wf(),
            final(self).duty(Channel::C2) == value,
            final(self).duty(Channel::C3) == value,
    {
        self.set_duty(Channel::C3, value);
        self.set_duty(Channel::C2, value);
    }

    /// The duty of channel `ch`.
    pub fn get_duty(&self, ch: Channel) -> (r: u16)
        ensures
            r == self.duty(ch),
    {
        match ch {
            Channel::C1 => self.duty1,
            Channel::C2 => self.duty2,
            Channel::C3 => self.duty3,
        }
    }

    /// Whether channel `ch` is enabled.
    pub fn is_enabled(&self, ch: Channel) -> (r: bool)
        ensures
            r == self.enabled(ch),
    {
        match ch {
            Channel::C1 => self.enabled1,
            Channel::C2 => self.enabled2,
            Channel::C3 => self.enabled3,
        }
    }

    /// The counter period, the largest duty a channel can hold.
    pub fn get_max_duty(&self) -> (r: u16)
        ensures
            r == self.max_duty,
    {
        self.max_duty
    }
}

} // verus!
