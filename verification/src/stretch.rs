//! Where a stretch of audio reads and writes: which frames of the input are
//! matched, overlapped and kept, while the samples themselves are held outside.

use vstd::prelude::*;

verus! {

/// How many frames one step adds.
pub const HOP: u64 = 480;

/// How many frames one step reads.
pub const WINDOW: u64 = 960;

/// How far around its ideal place a match is looked for.
pub const SEARCH: u64 = 192;

/// How many frames the input holds.
pub const INPUT_CAPACITY: usize = 4096;

/// How many samples the output holds; a frame has two.
pub const OUTPUT_SAMPLES: usize = 960;

/// How far positions may go.
pub const MAX_POSITION: u64 = 0x0FFF_FFFF_FFFF_FFFF;

/// The places of a stretch.
#[derive(Clone, Copy, Debug, PartialEq, Eq, Structural)]
pub struct Stretch {
    /// How many frames the input holds now.
    pub input_frames: usize,
    /// The position of the first of them.
    pub origin: u64,
    pub output_offset: usize,
    pub output_len: usize,
    /// Whether a step was made.
    pub primed: bool,
    /// Where the last step read.
    pub last_source: u64,
    pub source_frames: u64,
    pub produced_frames: u64,
    pub finishing: bool,
}

/// What a step reads.
#[derive(Clone, Copy, Debug, PartialEq, Eq, Structural)]
pub enum StepSource {
    /// The first step reads at the beginning.
    First(u64),
    /// A later one reads where it matches best what would have come next.
    Search { low: u64, high: u64, continuation: u64 },
}

/// A step: what it reads, and how many frames it adds.
#[derive(Clone, Copy, Debug, PartialEq, Eq, Structural)]
pub struct StepPlan {
    pub source: StepSource,
    pub frames: u64,
}

/// How often the input is padded to come to the end.
pub const FINISH_ROUNDS: u8 = 8;

/// What comes next towards the end.
#[derive(Clone, Copy, Debug, PartialEq, Eq, Structural)]
pub enum FinishStep {
    /// The output is given.
    Give,
    Ended,
    /// Silence goes behind the input, and a step is attempted again.
    Pad { start: usize, frames: usize },
    /// The input cannot hold what would be needed.
    Full { required: usize },
}

impl Stretch {
    /// The position behind the last frame of the input.
    pub open spec fn end(self) -> int {
        self.origin + self.input_frames
    }

    pub open spec fn wf(self) -> bool {
        &&& self.input_frames <= INPUT_CAPACITY
        &&& self.output_offset <= self.output_len <= OUTPUT_SAMPLES
        &&& self.output_offset % 2 == 0 && self.output_len % 2 == 0
        &&& self.origin <= self.last_source + HOP
        &&& self.origin <= MAX_POSITION && self.last_source <= MAX_POSITION
        &&& self.source_frames <= MAX_POSITION && self.produced_frames <= MAX_POSITION
    }

    pub fn new() -> (r: Stretch)
        ensures
            r.wf(),
            r == (Stretch {
                input_frames: 0,
                origin: 0,
                output_offset: 0,
                output_len: 0,
                primed: false,
                last_source: 0,
                source_frames: 0,
                produced_frames: 0,
                finishing: false,
            }),
    {
        Stretch {
            input_frames: 0,
            origin: 0,
            output_offset: 0,
            output_len: 0,
            primed: false,
            last_source: 0,
            source_frames: 0,
            produced_frames: 0,
            finishing: false,
        }
    }

    /// Where the samples that fit into the room begin in the output, and how
    /// many they are: whole frames only.
    pub fn drain(&mut self, room: usize) -> (r: (usize, usize))
        requires
            old(self).wf(),
        ensures
            final(self).wf(),
            r.0 == old(self).output_offset,
            r.1 == (if old(self).output_len - old(self).output_offset <= room {
                old(self).output_len - old(self).output_offset
            } else {
                room as int
            }) / 2 * 2,
            r.0 + r.1 <= old(self).output_len,
            ({
                let offset = old(self).output_offset + r.1;
                *final(self) == if offset == old(self).output_len {
                    Stretch { output_offset: 0, output_len: 0, ..*old(self) }
                } else {
                    Stretch { output_offset: offset as usize, ..*old(self) }
                }
            }),
    {
        let left: usize = self.output_len - self.output_offset;
        let fitting: usize = if left <= room {
            left
        } else {
            room
        };
        let count: usize = fitting / 2 * 2;
        let start: usize = self.output_offset;
        self.output_offset = start + count;
        if self.output_offset == self.output_len {
            self.output_offset = 0;
            self.output_len = 0;
        }
        (start, count)
    }

    /// The position up to which the input is not needed any more.
    pub open spec fn keep_from(self, search_floor: u64) -> int {
        let floor = if search_floor >= SEARCH {
            search_floor - SEARCH
        } else {
            0
        };
        let wanted = if floor <= self.last_source + HOP {
            floor
        } else {
            self.last_source + HOP
        };
        if wanted < self.origin {
            self.origin as int
        } else if wanted > self.end() {
            self.end()
        } else {
            wanted
        }
    }

    /// Forgets the frames that are not needed any more: how many they are.
    pub fn compact(&mut self, search_floor: u64) -> (r: usize)
        requires
            old(self).wf(),
        ensures
            r == old(self).keep_from(search_floor) - old(self).origin,
            final(self).end() == old(self).end(),
            *final(self) == (Stretch {
                input_frames: (old(self).input_frames - r) as usize,
                origin: (old(self).origin + r) as u64,
                ..*old(self)
            }),
            final(self).origin <= MAX_POSITION ==> final(self).wf(),
    {
        let floor: u64 = if search_floor >= SEARCH {
            search_floor - SEARCH
        } else {
            0
        };
        let next: u64 = self.last_source + HOP;
        let wanted: u64 = if floor <= next {
            floor
        } else {
            next
        };
        let end: u64 = self.origin + self.input_frames as u64;
        let keep: u64 = if wanted < self.origin {
            self.origin
        } else if wanted > end {
            end
        } else {
            wanted
        };
        let discard: usize = (keep - self.origin) as usize;
        self.input_frames = self.input_frames - discard;
        self.origin = keep;
        discard
    }

    /// Takes as many whole frames as fit: how many samples they are.
    pub fn append(&mut self, samples: usize, source: bool) -> (r: usize)
        requires
            old(self).wf(),
            old(self).source_frames + INPUT_CAPACITY <= MAX_POSITION,
        ensures
            final(self).wf(),
            ({
                let frames = if samples / 2 <= INPUT_CAPACITY - old(self).input_frames {
                    (samples / 2) as int
                } else {
                    INPUT_CAPACITY - old(self).input_frames
                };
                &&& r == frames * 2
                &&& *final(self) == (Stretch {
                    input_frames: (old(self).input_frames + frames) as usize,
                    source_frames: if source {
                        (old(self).source_frames + frames) as u64
                    } else {
                        old(self).source_frames
                    },
                    ..*old(self)
                })
            }),
    {
        let free: usize = INPUT_CAPACITY - self.input_frames;
        let frames: usize = if samples / 2 <= free {
            samples / 2
        } else {
            free
        };
        self.input_frames = self.input_frames + frames;
        if source {
            self.source_frames = self.source_frames + frames as u64;
        }
        frames * 2
    }

    /// How many frames of silence are put behind the input: none where it is
    /// full.
    pub open spec fn padding(self) -> int {
        let free = INPUT_CAPACITY - self.input_frames;
        if free <= WINDOW + SEARCH {
            free
        } else {
            WINDOW + SEARCH
        }
    }

    /// Puts silence behind the input: where it begins and how many frames it
    /// has, or none where the input is full.
    pub fn append_padding(&mut self) -> (r: Option<(usize, usize)>)
        requires
            old(self).wf(),
        ensures
            final(self).wf(),
            old(self).padding() == 0 ==> r is None && *final(self) == *old(self),
            old(self).padding() > 0 ==> r == Some(
                (old(self).input_frames, old(self).padding() as usize),
            ) && *final(self) == (Stretch {
                input_frames: (old(self).input_frames + old(self).padding()) as usize,
                ..*old(self)
            }),
    {
        let free: usize = INPUT_CAPACITY - self.input_frames;
        if free == 0 {
            return None;
        }
        let most: usize = (WINDOW + SEARCH) as usize;
        let frames: usize = if free <= most {
            free
        } else {
            most
        };
        let start: usize = self.input_frames;
        self.input_frames = start + frames;
        Some((start, frames))
    }

    /// Takes source samples: how many, or how many frames the input would have
    /// to hold where it has no room for any of them.
    pub fn accept(&mut self, samples: usize) -> (r: Result<usize, usize>)
        requires
            old(self).wf(),
            old(self).source_frames + INPUT_CAPACITY <= MAX_POSITION,
        ensures
            final(self).wf(),
            ({
                let frames = if samples / 2 <= INPUT_CAPACITY - old(self).input_frames {
                    (samples / 2) as int
                } else {
                    INPUT_CAPACITY - old(self).input_frames
                };
                &&& *final(self) == (Stretch {
                    input_frames: (old(self).input_frames + frames) as usize,
                    source_frames: (old(self).source_frames + frames) as u64,
                    ..*old(self)
                })
                &&& r == if frames == 0 && samples > 0 {
                    Err((old(self).input_frames + samples / 2) as usize)
                } else {
                    Ok((frames * 2) as usize)
                }
            }),
    {
        let consumed: usize = self.append(samples, true);
        if consumed == 0 && samples > 0 {
            Err(self.input_frames + samples / 2)
        } else {
            Ok(consumed)
        }
    }

    /// Goes on towards the end after an attempt at a step. `target` is how many
    /// frames there will be in all, `round` how many attempts were made before.
    pub fn finish_round(&mut self, stepped: bool, target: u64, round: u8) -> (r: FinishStep)
        requires
            old(self).wf(),
        ensures
            final(self).wf(),
            if stepped {
                r is Give && *final(self) == *old(self)
            } else if old(self).produced_frames >= target {
                r is Ended && *final(self) == *old(self)
            } else if round >= FINISH_ROUNDS || old(self).padding() == 0 {
                r == FinishStep::Full {
                    required: (old(self).input_frames + WINDOW + SEARCH) as usize,
                } && *final(self) == *old(self)
            } else {
                r == FinishStep::Pad {
                    start: old(self).input_frames,
                    frames: old(self).padding() as usize,
                } && *final(self) == (Stretch {
                    input_frames: (old(self).input_frames + old(self).padding()) as usize,
                    ..*old(self)
                })
            },
    {
        let required: usize = self.input_frames + (WINDOW + SEARCH) as usize;
        if stepped {
            FinishStep::Give
        } else if self.produced_frames >= target {
            FinishStep::Ended
        } else if round >= FINISH_ROUNDS {
            FinishStep::Full { required }
        } else {
            match self.append_padding() {
                Some((start, frames)) => FinishStep::Pad { start, frames },
                None => FinishStep::Full { required },
            }
        }
    }

    /// Whether a step has nothing to do: it finished, or its input is not
    /// there yet. `base` is the ideal place of the step, `target` how many
    /// frames there will be in all where the end is known.
    pub open spec fn waits(self, base: int, target: Option<u64>) -> bool {
        let maximum = self.end() - WINDOW;
        let continuation = self.last_source + HOP;
        let needed = if base + SEARCH + WINDOW >= continuation + HOP {
            base + SEARCH + WINDOW
        } else {
            continuation + HOP
        };
        ||| target matches Some(target) && self.produced_frames >= target
        ||| !self.primed && self.origin + WINDOW > self.end()
        ||| self.primed && ((!self.finishing && needed > self.end()) || maximum < self.origin
            || continuation + HOP > self.end() || self.high(base) < self.low(base))
    }

    /// The first place at which a match is looked for.
    pub open spec fn low(self, base: int) -> int {
        if base - SEARCH >= self.origin {
            base - SEARCH
        } else {
            self.origin as int
        }
    }

    /// The last place at which a match is looked for.
    pub open spec fn high(self, base: int) -> int {
        if base + SEARCH <= self.end() - WINDOW {
            base + SEARCH
        } else {
            self.end() - WINDOW
        }
    }

    /// How many frames a step adds.
    pub open spec fn frames_due(self, target: Option<u64>) -> int {
        match target {
            Some(target) => if target - self.produced_frames <= HOP {
                target - self.produced_frames
            } else {
                HOP as int
            },
            None => HOP as int,
        }
    }

    /// The next step, or none where there is nothing to do yet.
    pub fn plan(&self, base: i64, target: Option<u64>) -> (r: Option<StepPlan>)
        requires
            self.wf(),
            -(MAX_POSITION as int) <= base <= MAX_POSITION,
        ensures
            r is None <==> self.waits(base as int, target),
            r matches Some(plan) ==> plan.frames == self.frames_due(target) && plan.source
                == if self.primed {
                StepSource::Search {
                    low: self.low(base as int) as u64,
                    high: self.high(base as int) as u64,
                    continuation: (self.last_source + HOP) as u64,
                }
            } else {
                StepSource::First(self.origin)
            },
    {
        if let Some(target) = target {
            if self.produced_frames >= target {
                return None;
            }
        }
        let frames: u64 = match target {
            Some(target) => if target - self.produced_frames <= HOP {
                target - self.produced_frames
            } else {
                HOP
            },
            None => HOP,
        };
        let end: u64 = self.origin + self.input_frames as u64;
        if !self.primed {
            if self.origin + WINDOW > end {
                return None;
            }
            return Some(StepPlan { source: StepSource::First(self.origin), frames });
        }
        let minimum: i64 = self.origin as i64;
        let maximum: i64 = end as i64 - WINDOW as i64;
        let continuation: u64 = self.last_source + HOP;
        let reach: i64 = base + SEARCH as i64 + WINDOW as i64;
        let follow: i64 = (continuation + HOP) as i64;
        let needed: i64 = if reach >= follow {
            reach
        } else {
            follow
        };
        if (!self.finishing && needed > end as i64) || maximum < minimum || continuation + HOP > end {
            return None;
        }
        let low: i64 = if base - SEARCH as i64 >= minimum {
            base - SEARCH as i64
        } else {
            minimum
        };
        let high: i64 = if base + SEARCH as i64 <= maximum {
            base + SEARCH as i64
        } else {
            maximum
        };
        if high < low {
            return None;
        }
        Some(
            StepPlan {
                source: StepSource::Search { low: low as u64, high: high as u64, continuation },
                frames,
            },
        )
    }

    /// Takes a step that read at a place and added frames.
    pub fn advance(&mut self, source: u64, frames: u64)
        requires
            old(self).wf(),
            old(self).origin <= source <= MAX_POSITION,
            frames <= HOP,
            old(self).produced_frames + frames <= MAX_POSITION,
        ensures
            final(self).wf(),
            *final(self) == (Stretch {
                output_offset: 0,
                output_len: (frames * 2) as usize,
                produced_frames: (old(self).produced_frames + frames) as u64,
                last_source: source,
                primed: true,
                ..*old(self)
            }),
    {
        self.output_offset = 0;
        self.output_len = (frames * 2) as usize;
        self.produced_frames = self.produced_frames + frames;
        self.last_source = source;
        self.primed = true;
    }
}

/// Whether frames at a place are all in the input.
pub open spec fn in_input(stretch: Stretch, place: int, frames: int) -> bool {
    stretch.origin <= place && place + frames <= stretch.end()
}

/// A step never reads outside the input: wherever in its bounds a match is
/// found, the whole window is there, and so is what it is matched with.
pub proof fn steps_read_inside_the_input(
    stretch: Stretch,
    base: i64,
    target: Option<u64>,
    candidate: int,
)
    requires
        stretch.wf(),
        !stretch.waits(base as int, target),
    ensures
        !stretch.primed ==> in_input(stretch, stretch.origin as int, WINDOW as int),
        stretch.primed && stretch.low(base as int) <= candidate <= stretch.high(base as int)
            ==> in_input(stretch, candidate, WINDOW as int),
        stretch.primed ==> in_input(stretch, stretch.last_source + HOP, HOP as int),
{
}

/// What is forgotten is never what the next step continues with.
pub proof fn what_comes_next_is_kept(stretch: Stretch, search_floor: u64)
    requires
        stretch.wf(),
    ensures
        stretch.keep_from(search_floor) <= stretch.last_source + HOP || stretch.keep_from(
            search_floor,
        ) == stretch.origin,
        stretch.origin <= stretch.keep_from(search_floor) <= stretch.end(),
{
}

/// A stretch whose end is known adds no more frames than are left.
pub proof fn no_frame_too_many(stretch: Stretch, base: i64, target: u64)
    requires
        stretch.wf(),
        !stretch.waits(base as int, Some(target)),
    ensures
        0 < stretch.frames_due(Some(target)) <= HOP,
        stretch.produced_frames + stretch.frames_due(Some(target)) <= target,
{
}

/// How many frames a hop of a transform takes.
pub const HOP_FRAMES: usize = 128;

/// How many frames a hop of a transform gives at most.
pub const MAX_HOP_OUTPUT: usize = 1023;

/// The places of a transform that takes its input hop by hop.
#[derive(Clone, Copy, Debug, PartialEq, Eq, Structural)]
pub struct Hops {
    pub input_frames: usize,
    pub output_offset: usize,
    pub output_len: usize,
    pub finished: bool,
}

impl Hops {
    pub open spec fn wf(self) -> bool {
        &&& self.input_frames <= HOP_FRAMES
        &&& self.output_offset <= self.output_len <= 2 * MAX_HOP_OUTPUT
        &&& self.output_offset % 2 == 0 && self.output_len % 2 == 0
    }

    pub fn new() -> (r: Hops)
        ensures
            r.wf(),
            r == (Hops { input_frames: 0, output_offset: 0, output_len: 0, finished: false }),
    {
        Hops { input_frames: 0, output_offset: 0, output_len: 0, finished: false }
    }

    /// Where the samples that fit into the room begin in the output, and how
    /// many they are: whole frames only.
    pub fn drain(&mut self, room: usize) -> (r: (usize, usize))
        requires
            old(self).wf(),
        ensures
            final(self).wf(),
            r.0 == old(self).output_offset,
            r.1 == (if old(self).output_len - old(self).output_offset <= room {
                old(self).output_len - old(self).output_offset
            } else {
                room as int
            }) / 2 * 2,
            r.0 + r.1 <= old(self).output_len,
            ({
                let offset = old(self).output_offset + r.1;
                *final(self) == if offset == old(self).output_len {
                    Hops { output_offset: 0, output_len: 0, ..*old(self) }
                } else {
                    Hops { output_offset: offset as usize, ..*old(self) }
                }
            }),
    {
        let left: usize = self.output_len - self.output_offset;
        let fitting: usize = if left <= room {
            left
        } else {
            room
        };
        let count: usize = fitting / 2 * 2;
        let start: usize = self.output_offset;
        self.output_offset = start + count;
        if self.output_offset == self.output_len {
            self.output_offset = 0;
            self.output_len = 0;
        }
        (start, count)
    }

    /// How many frames of the input the next hop still takes.
    pub open spec fn taken(self, samples: usize) -> int {
        if self.output_len != 0 {
            0
        } else if samples / 2 <= HOP_FRAMES - self.input_frames {
            (samples / 2) as int
        } else {
            HOP_FRAMES - self.input_frames
        }
    }

    /// Takes input once the output was given: where it goes, how many samples
    /// it is, and whether the hop is complete.
    pub fn take(&mut self, samples: usize) -> (r: (usize, usize, bool))
        requires
            old(self).wf(),
        ensures
            final(self).wf(),
            r.0 == 2 * old(self).input_frames,
            r.1 == 2 * old(self).taken(samples),
            r.2 == (old(self).output_len == 0 && samples > 0 && final(self).input_frames
                == HOP_FRAMES),
            *final(self) == (Hops {
                input_frames: (old(self).input_frames + old(self).taken(samples)) as usize,
                ..*old(self)
            }),
    {
        let at: usize = 2 * self.input_frames;
        if self.output_len != 0 {
            return (at, 0, false);
        }
        let free: usize = HOP_FRAMES - self.input_frames;
        let frames: usize = if samples / 2 <= free {
            samples / 2
        } else {
            free
        };
        self.input_frames = self.input_frames + frames;
        (at, 2 * frames, samples > 0 && self.input_frames == HOP_FRAMES)
    }

    /// Takes note of the frames that a hop gave.
    pub fn generated(&mut self, output_frames: usize)
        requires
            old(self).wf(),
            output_frames <= MAX_HOP_OUTPUT,
        ensures
            final(self).wf(),
            *final(self) == (Hops {
                input_frames: 0,
                output_offset: 0,
                output_len: (2 * output_frames) as usize,
                finished: old(self).finished,
            }),
    {
        self.output_offset = 0;
        self.output_len = 2 * output_frames;
        self.input_frames = 0;
    }

    /// Ends the input: whether what is left of it makes one more hop.
    pub fn finish(&mut self) -> (r: bool)
        ensures
            r == (!old(self).finished && old(self).input_frames != 0),
            *final(self) == (Hops { finished: true, ..*old(self) }),
    {
        let more: bool = !self.finished && self.input_frames != 0;
        self.finished = true;
        more
    }
}

/// Where the input reaches far enough, the best match is looked for 192 frames to
/// either side, and what is due is a step of 480 frames or what is left.
pub proof fn matches_are_looked_for_nearby(stretch: Stretch, base: int, target: u64)
    requires
        stretch.origin + 192 <= base,
        base + 192 + 960 <= stretch.end(),
        stretch.produced_frames <= target,
    ensures
        stretch.low(base) == base - 192,
        stretch.high(base) == base + 192,
        stretch.frames_due(None) == 480,
        target - stretch.produced_frames >= 480 ==> stretch.frames_due(Some(target)) == 480,
        target - stretch.produced_frames < 480 ==> stretch.frames_due(Some(target)) == target
            - stretch.produced_frames,
{
}

} // verus!
