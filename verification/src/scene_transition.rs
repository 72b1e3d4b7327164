//! The staged animation that bridges two pages.
//!
//! Progress and opacity are fixed-point numbers in thousandths: 0 is the
//! start of a ramp and `PROGRESS_FULL` its end.

use std::time::{Duration, Instant};
use vstd::prelude::*;

verus! {

/// The end of a ramp, in thousandths.
pub const PROGRESS_FULL: u32 = 1000;

/// Duration of the transition that a button starts, in milliseconds.
pub const DEFAULT_TRANSITION_MS: u32 = 500;

/// A point on the monotonic clock. Nothing is known of its value.
#[verifier::external_type_specification]
#[verifier::external_body]
pub struct ExInstant(Instant);

/// `Instant::now` reads the monotonic clock; nothing is promised of the
/// reading.
pub assume_specification[ Instant::now ]() -> (now: Instant);

/// `Instant::elapsed` measures the time since the instant was taken; nothing
/// is promised of the measurement.
pub assume_specification[ Instant::elapsed ](start: &Instant) -> (elapsed: Duration);

/// `Duration::as_millis` gives the whole milliseconds in a duration; nothing
/// is promised of the number.
pub assume_specification[ Duration::as_millis ](duration: &Duration) -> (millis: u128);

/// A count of milliseconds in 64 bits: a count that does not fit is the
/// largest that does.
pub open spec fn saturated_millis(millis: u128) -> u64 {
    if millis > u64::MAX {
        u64::MAX
    } else {
        millis as u64
    }
}

/// Brings a clock reading in milliseconds into 64 bits.
pub fn saturate_millis(millis: u128) -> (count: u64)
    ensures
        count == saturated_millis(millis),
{
    if millis > u64::MAX as u128 {
        u64::MAX
    } else {
        millis as u64
    }
}

/// Scene transition effect types.
///
/// `Fade` carries the opacity of the black overlay. `Slide` carries the
/// progress of the ramp, the side the outgoing page leaves by (0 down, 1 up,
/// 2 right, 3 left) and the distance it travels in pixels.
#[derive(Debug, Clone, Copy, PartialEq, Eq, Structural)]
pub enum TransitionType {
    Immediate,
    Fade(u32),
    Slide(u32, u8, i32),
}

/// How far a ramp of `span` has come after `elapsed`, in thousandths. A
/// ramp without length is complete at once.
pub open spec fn ramp(elapsed: int, span: int) -> int {
    if span <= 0 || elapsed >= span {
        PROGRESS_FULL as int
    } else if elapsed <= 0 {
        0
    } else {
        elapsed * 1000 / span
    }
}

/// A ramp stays between its start and its end, and is at its end exactly
/// when its span has gone by.
pub proof fn lemma_ramp_bounds(elapsed: int, span: int)
    ensures
        0 <= ramp(elapsed, span) <= PROGRESS_FULL,
        ramp(elapsed, span) == PROGRESS_FULL <==> (span <= 0 || elapsed >= span),
{
    if span > 0 && 0 < elapsed < span {
        assert(0 <= elapsed * 1000 / span < 1000) by (nonlinear_arith)
            requires
                0 < elapsed < span,
        ;
    }
}

/// Computes `ramp` for a span that fits in 33 bits.
fn ramp_exec(elapsed: u64, span: u64) -> (p: u32)
    requires
        span <= 2 * u32::MAX,
    ensures
        p == ramp(elapsed as int, span as int),
        p <= PROGRESS_FULL,
{
    proof {
        lemma_ramp_bounds(elapsed as int, span as int);
    }
    if span == 0 || elapsed >= span {
        PROGRESS_FULL
    } else {
        let scaled: u64 = elapsed * 1000;
        (scaled / span) as u32
    }
}

impl TransitionType {
    /// Opacity of the black overlay drawn over the page, from 0 to 255.
    pub open spec fn overlay_alpha_spec(self) -> int {
        match self {
            TransitionType::Fade(opacity) => if opacity >= PROGRESS_FULL {
                255
            } else {
                opacity * 255 / 1000
            },
            _ => 0,
        }
    }

    /// Opacity of the black overlay drawn over the page, from 0 to 255:
    /// the fade's opacity scaled to a byte, rounded down. Other kinds draw
    /// no overlay.
    pub fn overlay_alpha(&self) -> (alpha: u8)
        ensures
            alpha == self.overlay_alpha_spec(),
    {
        match self {
            TransitionType::Fade(opacity) => {
                if *opacity >= PROGRESS_FULL {
                    255
                } else {
                    let scaled: u32 = *opacity * 255;
                    assert(scaled / 1000 <= 255);
                    (scaled / 1000) as u8
                }
            },
            _ => 0,
        }
    }

    /// Distance, rounded toward zero, that `progress` thousandths of a
    /// slide of `speed` pixels has covered.
    pub open spec fn travelled(progress: int, speed: int) -> int {
        let p = if progress >= PROGRESS_FULL { PROGRESS_FULL as int } else { progress };
        if speed >= 0 {
            p * speed / 1000
        } else {
            -(p * (-speed) / 1000)
        }
    }

    /// Offset at which the outgoing page of a slide is drawn, as (x, y).
    pub open spec fn slide_offset_spec(self) -> (int, int) {
        match self {
            TransitionType::Slide(progress, side, speed) => {
                if side == 1 {
                    (0, Self::travelled(progress as int, -(speed as int)))
                } else if side == 2 {
                    (Self::travelled(progress as int, speed as int), 0)
                } else if side == 3 {
                    (Self::travelled(progress as int, -(speed as int)), 0)
                } else {
                    (0, Self::travelled(progress as int, speed as int))
                }
            },
            _ => (0, 0),
        }
    }

    fn travelled_exec(progress: u32, speed: i64) -> (d: i64)
        requires
            -0x8000_0000 <= speed <= 0x8000_0000,
        ensures
            d == Self::travelled(progress as int, speed as int),
            -0x8000_0000 <= d <= 0x8000_0000,
    {
        let p: i64 = if progress >= PROGRESS_FULL { 1000 } else { progress as i64 };
        if speed >= 0 {
            assert(0 <= p * speed <= 1000 * speed) by (nonlinear_arith)
                requires
                    0 <= p <= 1000,
                    0 <= speed,
            ;
            (p * speed) / 1000
        } else {
            let up: i64 = -speed;
            assert(0 <= p * up <= 1000 * up) by (nonlinear_arith)
                requires
                    0 <= p <= 1000,
                    0 <= up,
            ;
            -((p * up) / 1000)
        }
    }

    /// Offset at which the outgoing page of a slide is drawn, as (x, y):
    /// progress times speed along the side's axis, rounded toward zero.
    /// Sides 1 and 3 move against the axis; an unknown side moves down.
    pub fn slide_offset(&self) -> (offset: (i64, i64))
        ensures
            offset.0 == self.slide_offset_spec().0,
            offset.1 == self.slide_offset_spec().1,
    {
        match self {
            TransitionType::Slide(progress, side, speed) => {
                let s: i64 = *speed as i64;
                if *side == 1 {
                    (0, Self::travelled_exec(*progress, -s))
                } else if *side == 2 {
                    (Self::travelled_exec(*progress, s), 0)
                } else if *side == 3 {
                    (Self::travelled_exec(*progress, -s), 0)
                } else {
                    (0, Self::travelled_exec(*progress, s))
                }
            },
            _ => (0, 0),
        }
    }
}

/// Manages an active scene transition (fade or slide).
#[derive(Debug, Copy)]
pub struct SceneTransition<PageId> {
    pub active: bool,
    pub progress: u32,
    pub transition_type: TransitionType,
    pub is_second_stage: bool,
    pub has_switched: bool,
    pub start_time: Instant,
    pub duration_ms: u32,
    pub next_page: Option<PageId>,
}

impl<PageId: Copy> Clone for SceneTransition<PageId> {
    fn clone(&self) -> (copy: Self)
        ensures
            copy == *self,
    {
        *self
    }
}

/// Everything in a transition but the clock reading its stage started at.
pub struct TransitionModel<PageId> {
    pub active: bool,
    pub progress: u32,
    pub transition_type: TransitionType,
    pub is_second_stage: bool,
    pub has_switched: bool,
    pub duration_ms: u32,
    pub next_page: Option<PageId>,
}

impl<PageId> View for SceneTransition<PageId> {
    type V = TransitionModel<PageId>;

    open spec fn view(&self) -> TransitionModel<PageId> {
        TransitionModel {
            active: self.active,
            progress: self.progress,
            transition_type: self.transition_type,
            is_second_stage: self.is_second_stage,
            has_switched: self.has_switched,
            duration_ms: self.duration_ms,
            next_page: self.next_page,
        }
    }
}

impl<PageId> TransitionModel<PageId> {
    /// A transition as `SceneTransition::new` makes it.
    pub open spec fn fresh(
        transition_type: TransitionType,
        duration_ms: u32,
        next_page: Option<PageId>,
    ) -> Self {
        TransitionModel {
            active: true,
            progress: 0,
            transition_type,
            is_second_stage: false,
            has_switched: false,
            duration_ms,
            next_page,
        }
    }

    /// The pending page is due: the second stage has begun and the page
    /// has not been switched yet.
    pub open spec fn swap_due(self) -> bool {
        !self.has_switched && self.is_second_stage && self.next_page is Some
    }

    /// The transition once its pending page has been handed over.
    pub open spec fn swapped(self) -> Self {
        TransitionModel { next_page: None, has_switched: true, ..self }
    }

    /// The transition after one update that finds `elapsed` milliseconds
    /// gone since the current stage began, and whether it has finished.
    ///
    /// A fade ramps twice, each time over half the duration: first the
    /// overlay rises to full opacity, then the stage flips and it falls
    /// back to nothing. A slide ramps once over the whole duration and
    /// enters its second stage on the first update.
    pub open spec fn step(self, elapsed: int) -> (Self, bool) {
        if !self.active {
            (self, true)
        } else {
            match self.transition_type {
                TransitionType::Fade(_) => {
                    let p = ramp(2 * elapsed, self.duration_ms as int) as u32;
                    if !self.is_second_stage {
                        if p >= PROGRESS_FULL {
                            (
                                TransitionModel {
                                    progress: 0,
                                    transition_type: TransitionType::Fade(p),
                                    is_second_stage: true,
                                    ..self
                                },
                                false,
                            )
                        } else {
                            (
                                TransitionModel {
                                    progress: p,
                                    transition_type: TransitionType::Fade(p),
                                    ..self
                                },
                                false,
                            )
                        }
                    } else {
                        (
                            TransitionModel {
                                progress: p,
                                transition_type: TransitionType::Fade((PROGRESS_FULL - p) as u32),
                                active: p < PROGRESS_FULL,
                                ..self
                            },
                            p >= PROGRESS_FULL,
                        )
                    }
                },
                TransitionType::Slide(_, side, speed) => {
                    let p = ramp(elapsed, self.duration_ms as int) as u32;
                    (
                        TransitionModel {
                            progress: p,
                            transition_type: TransitionType::Slide(p, side, speed),
                            is_second_stage: true,
                            active: p < PROGRESS_FULL,
                            ..self
                        },
                        p >= PROGRESS_FULL,
                    )
                },
                TransitionType::Immediate => (TransitionModel { active: false, ..self }, true),
            }
        }
    }
}

impl<PageId: Copy> SceneTransition<PageId> {
    /// Creates a new transition of a given type and duration, at the start
    /// of its first stage.
    pub fn new(transition_type: TransitionType, duration_ms: u32, next_page: Option<PageId>) -> (t:
        Self)
        ensures
            t@ == TransitionModel::fresh(transition_type, duration_ms, next_page),
    {
        Self {
            active: true,
            progress: 0,
            transition_type,
            is_second_stage: false,
            has_switched: false,
            start_time: Instant::now(),
            duration_ms,
            next_page,
        }
    }

    /// Updates progress for a stage that began `elapsed_ms` milliseconds ago
    /// and returns `true` when the transition has finished. Entering the
    /// second stage restarts the stage clock.
    pub fn advance(&mut self, elapsed_ms: u64) -> (finished: bool)
        ensures
            final(self)@ == old(self)@.step(elapsed_ms as int).0,
            finished == old(self)@.step(elapsed_ms as int).1,
    {
        if !self.active {
            return true;
        }
        let span: u64 = self.duration_ms as u64;
        match self.transition_type {
            TransitionType::Fade(_) => {
                let doubled: u64 = if elapsed_ms >= span { span } else { 2 * elapsed_ms };
                assert(ramp(doubled as int, span as int) == ramp(2 * elapsed_ms, span as int));
                let p: u32 = ramp_exec(doubled, span);
                self.progress = p;
                if !self.is_second_stage {
                    self.transition_type = TransitionType::Fade(p);
                    if p >= PROGRESS_FULL {
                        self.is_second_stage = true;
                        self.start_time = Instant::now();
                        self.progress = 0;
                    }
                    false
                } else {
                    self.transition_type = TransitionType::Fade(PROGRESS_FULL - p);
                    if p >= PROGRESS_FULL {
                        self.active = false;
                        true
                    } else {
                        false
                    }
                }
            },
            TransitionType::Slide(_, side, speed) => {
                let p: u32 = ramp_exec(elapsed_ms, span);
                self.progress = p;
                self.transition_type = TransitionType::Slide(p, side, speed);
                if !self.is_second_stage {
                    self.is_second_stage = true;
                    self.start_time = Instant::now();
                }
                if p >= PROGRESS_FULL {
                    self.active = false;
                    true
                } else {
                    false
                }
            },
            TransitionType::Immediate => {
                self.active = false;
                true
            },
        }
    }

    /// Milliseconds since the current stage began, as the clock has them.
    /// Nothing is known of the clock, so nothing is promised of the
    /// reading; `saturate_millis` says how a reading becomes this count.
    pub fn stage_elapsed_ms(&self) -> (elapsed_ms: u64) {
        saturate_millis(self.start_time.elapsed().as_millis())
    }

    /// Reads the clock and updates progress; returns `true` when finished.
    /// Whatever the clock says, the outcome is one `step` of the transition.
    pub fn update(&mut self) -> (finished: bool)
        ensures
            exists|elapsed: u64|
                #![trigger old(self)@.step(elapsed as int)]
                final(self)@ == old(self)@.step(elapsed as int).0 && finished == old(self)@.step(
                    elapsed as int,
                ).1,
    {
        let elapsed_ms: u64 = self.stage_elapsed_ms();
        let ghost before = self@;
        let finished = self.advance(elapsed_ms);
        assert(self@ == before.step(elapsed_ms as int).0);
        finished
    }
}

} // verus!
