//! The decisions of the fixed-rate control loop.
//!
//! Each tick the hardware edge reads the sensor, hands the outcome to
//! [`ControlLoop::step`], performs the action that comes back (draw and
//! flush the returned frame, or halt), and then blocks until the next tick
//! of the periodic timer. Every failure a collaborator reports is fatal:
//! the loop never retries and never continues with stale state.

use vstd::prelude::*;
use crate::bus::BusError;
use crate::reader::{normalized_sample, AccelReader, RawSample};
use crate::render::{cur_line_spec, max_line_spec, render_frame, Frame, LINE_HEIGHT};
use crate::sample::{magnitude, magnitude_spec};
use crate::tracker::{peak_fold, peak_max, PeakTracker};

verus! {

/// A sample read failed: the bus transaction failed or the device reported
/// invalid data.
#[derive(Clone, Copy, PartialEq, Eq, Structural, Debug)]
pub enum SampleError {
    Bus(BusError),
    InvalidData,
}

/// A display operation failed while drawing or while flushing the surface.
#[derive(Clone, Copy, PartialEq, Eq, Structural, Debug)]
pub enum RenderError {
    Draw(BusError),
    Flush(BusError),
}

/// What the hardware edge reports at the start of one tick.
#[derive(Clone, Copy, PartialEq, Eq, Structural, Debug)]
pub enum TickEvent {
    /// The sensor delivered a raw reading.
    SampleReady(RawSample),
    /// The sensor read failed.
    SampleFailed(SampleError),
    /// The previous tick's frame could not be drawn or flushed.
    RenderFailed(RenderError),
}

/// What the loop does with the rest of the tick.
pub enum Action {
    /// Draw both lines of this frame and flush them to the display.
    Render(Frame),
    /// Stop: enter the idle loop and never touch the hardware again.
    Halt,
}

/// The loop-local state: the configured reader, the running peak, and (as
/// a ghost history) every magnitude processed so far, oldest first.
pub struct ControlLoop {
    pub reader: AccelReader,
    pub tracker: PeakTracker,
    pub mags: Ghost<Seq<u32>>,
}

impl ControlLoop {
    /// The tracked peak is exactly the fold of every magnitude seen.
    pub open spec fn wf(self) -> bool {
        self.tracker.peak == peak_fold(0, self.mags@)
    }

    /// A fresh loop around a configured reader, with no history and a peak
    /// of zero.
    pub fn new(reader: AccelReader) -> (c: ControlLoop)
        ensures
            c.wf(),
            c.reader == reader,
            c.tracker.peak == 0,
            c.mags@ == Seq::<u32>::empty(),
    {
        ControlLoop { reader, tracker: PeakTracker::new(), mags: Ghost(Seq::empty()) }
    }

    /// One tick of the loop.
    ///
    /// On a raw reading: normalize it, compute its magnitude, fold the
    /// magnitude into the peak, and return the frame showing the current
    /// magnitude and the new peak. On any reported failure: halt, leaving
    /// the state untouched.
    pub fn step(&mut self, event: TickEvent) -> (a: Action)
        requires
            old(self).wf(),
        ensures
            final(self).wf(),
            final(self).reader == old(self).reader,
            match event {
                TickEvent::SampleReady(raw) => {
                    let m = magnitude_spec(normalized_sample(old(self).reader, raw)) as u32;
                    &&& final(self).mags@ == old(self).mags@.push(m)
                    &&& final(self).tracker.peak == peak_max(old(self).tracker.peak, m)
                    &&& (a matches Action::Render(f)
                        && f.cur_text@ == cur_line_spec(m as nat)
                        && f.peak_text@ == max_line_spec(final(self).tracker.peak as nat)
                        && f.cur_origin == (0i32, 0i32)
                        && f.peak_origin == (0i32, LINE_HEIGHT))
                },
                TickEvent::SampleFailed(_) => a is Halt && *final(self) == *old(self),
                TickEvent::RenderFailed(_) => a is Halt && *final(self) == *old(self),
            },
    {
        match event {
            TickEvent::SampleReady(raw) => {
                let s = self.reader.sample_from_raw(raw);
                let m = magnitude(&s);
                self.tracker.update(m);
                proof {
                    self.mags@ = self.mags@.push(m);
                    assert(self.mags@.drop_last() =~= old(self).mags@);
                    assert(peak_fold(0, self.mags@) == peak_max(
                        peak_fold(0, old(self).mags@),
                        m,
                    ));
                }
                Action::Render(render_frame(m, self.tracker.peak))
            },
            TickEvent::SampleFailed(_) => Action::Halt,
            TickEvent::RenderFailed(_) => Action::Halt,
        }
    }
}

} // verus!
