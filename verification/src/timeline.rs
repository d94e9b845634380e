//! An animation timeline: a queue of timed steps through which elapsed
//! time advances.
//!
//! One step is current at a time; `jump` advances its elapsed time, and
//! when a step completes, the remainder of the jump spills into the next
//! queued step. `arrived` always holds the most recently completed step,
//! and `previous` the one completed before it. The periodic tick that
//! drives `jump` at wall-clock rate belongs to the embedding layer; the
//! timeline itself is a pure state machine over millisecond counts.

use vstd::prelude::*;

verus! {

/// Upper bound on one step's duration and on one jump, in milliseconds
/// (about thirty years), so that elapsed-time sums stay inside `u64`.
pub const MAX_DURATION_MS: u64 = 1_000_000_000_000;

/// One timed step: a target state and how long the transition to it runs.
pub struct Step<T> {
    pub duration: u64,
    pub state: T,
    pub elapsed: u64,
}

impl<T: Copy> Clone for Step<T> {
    fn clone(&self) -> (r: Self)
        ensures
            r == *self,
    {
        Step { duration: self.duration, state: self.state, elapsed: self.elapsed }
    }
}

impl<T: Copy> Copy for Step<T> {
}

/// The mathematical value of one step.
#[verifier::ext_equal]
pub ghost struct StepModel<T> {
    pub duration: int,
    pub state: T,
    pub elapsed: int,
}

impl<T> View for Step<T> {
    type V = StepModel<T>;

    open spec fn view(&self) -> StepModel<T> {
        StepModel {
            duration: self.duration as int,
            state: self.state,
            elapsed: self.elapsed as int,
        }
    }
}

impl<T: Copy> Step<T> {
    /// A step that has not started: no time elapsed yet.
    pub fn new(duration: u64, state: T) -> (r: Step<T>)
        ensures
            r@.duration == duration as int,
            r@.state == state,
            r@.elapsed == 0,
    {
        Step { duration, state, elapsed: 0 }
    }
}

/// The mathematical value of a timeline.
#[verifier::ext_equal]
pub ghost struct TimelineModel<T> {
    pub queue: Seq<StepModel<T>>,
    pub current: Option<StepModel<T>>,
    pub arrived: StepModel<T>,
    pub previous: Option<StepModel<T>>,
}

impl<T> TimelineModel<T> {
    /// Every step's elapsed time is within its duration, durations are
    /// bounded, and queued steps have not started.
    pub open spec fn wf(self) -> bool {
        &&& (self.current matches Some(c) ==> 0 <= c.elapsed <= c.duration
            <= MAX_DURATION_MS as int)
        &&& 0 <= self.arrived.elapsed <= self.arrived.duration <= MAX_DURATION_MS as int
        &&& (forall|i: int|
            0 <= i < self.queue.len() ==> (#[trigger] self.queue[i]).elapsed == 0 && 0
                <= self.queue[i].duration <= MAX_DURATION_MS as int)
    }
}

/// How a timeline advances by `jump` milliseconds.
///
/// With a current step, its elapsed time grows, capped at its duration;
/// on completion the timeline records it as arrived (and the old arrived
/// step as previous) and spills the remainder of the jump into the next
/// queued step, or clears the current step when the queue is empty. With
/// no current step, the next queued step is started and advanced.
pub open spec fn spec_jump<T>(m: TimelineModel<T>, jump: int) -> TimelineModel<T>
    decreases m.queue.len(),
{
    match m.current {
        Some(cur) => {
            let ewj = cur.elapsed + jump;
            let add_to_next = if ewj <= cur.duration {
                0
            } else {
                ewj - cur.duration
            };
            let cur2 = StepModel { elapsed: ewj - add_to_next, ..cur };
            if ewj - add_to_next == cur.duration {
                let arrived = TimelineModel {
                    current: Some(cur2),
                    arrived: cur2,
                    previous: Some(m.arrived),
                    ..m
                };
                if add_to_next != 0 {
                    if m.queue.len() > 0 {
                        let started = TimelineModel {
                            queue: arrived.queue.drop_first(),
                            current: Some(arrived.queue.first()),
                            ..arrived
                        };
                        spec_jump(started, add_to_next)
                    } else {
                        TimelineModel { current: None, ..arrived }
                    }
                } else {
                    arrived
                }
            } else {
                TimelineModel { current: Some(cur2), ..m }
            }
        },
        None => {
            if m.queue.len() > 0 {
                let started = TimelineModel {
                    queue: m.queue.drop_first(),
                    current: Some(m.queue.first()),
                    ..m
                };
                spec_jump(started, jump)
            } else {
                m
            }
        },
    }
}

/// The timeline: queued steps, the running one, and the two most recently
/// completed ones.
pub struct Timeline<T> {
    pub queue: Vec<Step<T>>,
    pub current: Option<Step<T>>,
    pub arrived: Step<T>,
    pub previous: Option<Step<T>>,
}

impl<T> View for Timeline<T> {
    type V = TimelineModel<T>;

    open spec fn view(&self) -> TimelineModel<T> {
        TimelineModel {
            queue: self.queue@.map_values(|s: Step<T>| s@),
            current: match self.current {
                Some(s) => Some(s@),
                None => None,
            },
            arrived: self.arrived@,
            previous: match self.previous {
                Some(s) => Some(s@),
                None => None,
            },
        }
    }
}

impl<T: Copy> Timeline<T> {
    /// A timeline standing at `state`: a zero-length step is both current
    /// and arrived, and nothing is queued.
    pub fn new(state: T) -> (r: Timeline<T>)
        ensures
            r@.wf(),
            r@.queue.len() == 0,
            r@.current == Some(StepModel::<T> { duration: 0, state, elapsed: 0 }),
            r@.arrived == (StepModel::<T> { duration: 0, state, elapsed: 0 }),
            r@.previous is None,
    {
        let step = Step::new(0, state);
        Timeline { queue: Vec::new(), current: Some(step), arrived: step, previous: None }
    }

    /// Queue one more step after the ones already waiting.
    pub fn push(&mut self, duration: u64, state: T)
        requires
            old(self)@.wf(),
            duration <= MAX_DURATION_MS,
        ensures
            final(self)@.wf(),
            final(self)@.queue == old(self)@.queue.push(
                StepModel::<T> { duration: duration as int, state, elapsed: 0 },
            ),
            final(self)@.current == old(self)@.current,
            final(self)@.arrived == old(self)@.arrived,
            final(self)@.previous == old(self)@.previous,
    {
        let step = Step::new(duration, state);
        self.queue.push(step);
        proof {
            assert(final(self)@.queue =~= old(self)@.queue.push(
                StepModel::<T> { duration: duration as int, state, elapsed: 0 },
            ));
        }
    }

    /// The state of the most recently completed step.
    pub fn arrived_signal(&self) -> (r: T)
        ensures
            r == self@.arrived.state,
    {
        self.arrived.state
    }

    /// Advance the timeline by `jump` milliseconds, as [`spec_jump`]
    /// describes.
    pub fn jump(&mut self, jump: u64)
        requires
            old(self)@.wf(),
            jump <= MAX_DURATION_MS,
        ensures
            final(self)@.wf(),
            final(self)@ == spec_jump(old(self)@, jump as int),
        decreases old(self).queue@.len(),
    {
        match self.current {
            Some(cur) => {
                let ewj = cur.elapsed + jump;
                let add_to_next = if ewj <= cur.duration {
                    0
                } else {
                    ewj - cur.duration
                };
                let new_elapsed = ewj - add_to_next;
                let cur2 = Step { duration: cur.duration, state: cur.state, elapsed: new_elapsed };
                if new_elapsed == cur.duration {
                    self.current = Some(cur2);
                    self.previous = Some(self.arrived);
                    self.arrived = cur2;
                    if add_to_next > 0 {
                        if self.queue.len() > 0 {
                            let next = self.queue.remove(0);
                            self.current = Some(next);
                            let ghost mid = self@;
                            proof {
                                let m = old(self)@;
                                let started_queue = m.queue.drop_first();
                                assert(mid.queue =~= started_queue);
                                assert(mid =~= spec_started(m, jump as int));
                                assert(mid.wf());
                            }
                            self.jump(add_to_next);
                            proof {
                                assert(final(self)@ == spec_jump(mid, add_to_next as int));
                            }
                        } else {
                            self.current = None;
                            proof {
                                assert(final(self)@ =~= spec_jump(old(self)@, jump as int));
                            }
                        }
                    } else {
                        proof {
                            assert(final(self)@ =~= spec_jump(old(self)@, jump as int));
                        }
                    }
                } else {
                    self.current = Some(cur2);
                    proof {
                        assert(final(self)@ =~= spec_jump(old(self)@, jump as int));
                    }
                }
            },
            None => {
                if self.queue.len() > 0 {
                    let next = self.queue.remove(0);
                    self.current = Some(next);
                    let ghost mid = self@;
                    proof {
                        let m = old(self)@;
                        assert(mid.queue =~= m.queue.drop_first());
                        assert(mid =~= (TimelineModel {
                            queue: m.queue.drop_first(),
                            current: Some(m.queue.first()),
                            ..m
                        }));
                        assert(mid.wf());
                    }
                    self.jump(jump);
                    proof {
                        assert(final(self)@ == spec_jump(mid, jump as int));
                    }
                }
            },
        }
    }
}

/// The intermediate timeline inside one completing jump: the finished
/// step recorded as arrived and the next queued step made current.
pub open spec fn spec_started<T>(m: TimelineModel<T>, jump: int) -> TimelineModel<T>
    recommends
        m.current is Some,
        m.queue.len() > 0,
{
    let cur = m.current.unwrap();
    let ewj = cur.elapsed + jump;
    let add_to_next = if ewj <= cur.duration {
        0
    } else {
        ewj - cur.duration
    };
    let cur2 = StepModel { elapsed: ewj - add_to_next, ..cur };
    TimelineModel {
        queue: m.queue.drop_first(),
        current: Some(m.queue.first()),
        arrived: cur2,
        previous: Some(m.arrived),
    }
}

} // verus!
