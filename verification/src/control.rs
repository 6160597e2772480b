//! Models of the digital control lines and the delay provider the driver
//! drives: each records what was done to it, which is the behaviour the
//! driver's contracts speak of.

use vstd::prelude::*;

verus! {

/// The level of a digital output line.
#[derive(Clone, Copy, Debug, PartialEq, Eq, Structural)]
pub enum Level {
    Low,
    High,
}

/// A digital output line failed to change state: the line or its driver
/// hardware is unusable.
#[derive(Clone, Copy, Debug, PartialEq, Eq, Structural)]
pub struct LineFault;

/// The bus's command/data select line. Only its current level and health are
/// observable: the tag on each recorded bus word captures the level each
/// transfer was made at.
#[derive(Clone, Copy, Debug, PartialEq, Eq, Structural)]
pub struct SelectLine {
    pub level: Level,
    pub broken: bool,
}

impl SelectLine {
    /// A select line resting low; `broken` wires in a permanent line fault.
    pub fn new(broken: bool) -> (l: SelectLine)
        ensures
            l == (SelectLine { level: Level::Low, broken }),
    {
        SelectLine { level: Level::Low, broken }
    }

    /// Drives the line low; fails without changing state if the line is
    /// broken.
    pub fn set_low(&mut self) -> (r: Result<(), LineFault>)
        ensures
            final(self).broken == old(self).broken,
            !old(self).broken ==> r is Ok && final(self).level == Level::Low,
            old(self).broken ==> r is Err && *final(self) == *old(self),
    {
        if self.broken {
            Err(LineFault)
        } else {
            self.level = Level::Low;
            Ok(())
        }
    }

    /// Drives the line high; fails without changing state if the line is
    /// broken.
    pub fn set_high(&mut self) -> (r: Result<(), LineFault>)
        ensures
            final(self).broken == old(self).broken,
            !old(self).broken ==> r is Ok && final(self).level == Level::High,
            old(self).broken ==> r is Err && *final(self) == *old(self),
    {
        if self.broken {
            Err(LineFault)
        } else {
            self.level = Level::High;
            Ok(())
        }
    }
}

/// An optional panel control line (reset or backlight). It records every
/// level driven onto it, in order, so contracts can count transitions.
#[derive(Clone, Debug, PartialEq, Eq)]
pub struct ControlLine {
    pub driven: Vec<Level>,
    pub broken: bool,
}

impl ControlLine {
    /// A fresh line with no transitions yet; `broken` wires in a permanent
    /// line fault.
    pub fn new(broken: bool) -> (l: ControlLine)
        ensures
            l.driven@ == Seq::<Level>::empty(),
            l.broken == broken,
    {
        ControlLine { driven: Vec::new(), broken }
    }

    /// Drives the line low; fails without a transition if the line is broken.
    pub fn set_low(&mut self) -> (r: Result<(), LineFault>)
        ensures
            final(self).broken == old(self).broken,
            !old(self).broken ==> r is Ok && final(self).driven@ == old(self).driven@.push(
                Level::Low,
            ),
            old(self).broken ==> r is Err && *final(self) == *old(self),
    {
        if self.broken {
            Err(LineFault)
        } else {
            self.driven.push(Level::Low);
            Ok(())
        }
    }

    /// Drives the line high; fails without a transition if the line is
    /// broken.
    pub fn set_high(&mut self) -> (r: Result<(), LineFault>)
        ensures
            final(self).broken == old(self).broken,
            !old(self).broken ==> r is Ok && final(self).driven@ == old(self).driven@.push(
                Level::High,
            ),
            old(self).broken ==> r is Err && *final(self) == *old(self),
    {
        if self.broken {
            Err(LineFault)
        } else {
            self.driven.push(Level::High);
            Ok(())
        }
    }
}

/// A blocking millisecond-granularity delay provider. Each requested pause is
/// logged in call order.
#[derive(Clone, Debug, PartialEq, Eq)]
pub struct DelaySource {
    pub log: Vec<u32>,
}

impl DelaySource {
    /// A delay provider with an empty log.
    pub fn new() -> (d: DelaySource)
        ensures
            d.log@ == Seq::<u32>::empty(),
    {
        DelaySource { log: Vec::new() }
    }

    /// Pauses for `ms` milliseconds and logs the pause.
    pub fn delay_ms(&mut self, ms: u32)
        ensures
            final(self).log@ == old(self).log@.push(ms),
    {
        self.log.push(ms);
    }
}

} // verus!
