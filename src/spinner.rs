//! A ticking indicator: a cycle of frames that a background clock advances
//! while the indicator runs. This is its state machine; the clock that calls
//! `tick` lives with the caller.

use vstd::prelude::*;
use crate::error::ConfigError;
use crate::text::same_text;

verus! {

/// A named cycle of frames and the time between two frames.
pub struct SpinnerData {
    pub frames: Vec<&'static str>,
    /// Milliseconds between frame updates.
    pub interval: u64,
}

/// An entry of a table of indicator styles.
pub struct SpinnerStyle {
    pub name: &'static str,
    pub data: SpinnerData,
}

/// The characters of each frame.
pub open spec fn frames_view(frames: Seq<&'static str>) -> Seq<Seq<char>> {
    frames.map_values(|f: &'static str| f@)
}

/// Style `i` is the first in `styles` named `name`.
pub open spec fn first_named(styles: Seq<SpinnerStyle>, name: Seq<char>, i: int) -> bool {
    &&& 0 <= i < styles.len()
    &&& styles[i].name@ == name
    &&& forall|j: int| 0 <= j < i ==> styles[j].name@ != name
}

/// The index of the first style named `name`, or none.
pub fn find_style(styles: &Vec<SpinnerStyle>, name: &str) -> (r: Option<usize>)
    ensures
        match r {
            Some(i) => i < styles@.len() && styles@[i as int].name@ == name@ && forall|j: int|
                0 <= j < i ==> styles@[j].name@ != name@,
            None => forall|j: int| 0 <= j < styles@.len() ==> styles@[j].name@ != name@,
        },
{
    let mut i: usize = 0;
    while i < styles.len()
        invariant
            i <= styles@.len(),
            forall|j: int| 0 <= j < i ==> styles@[j].name@ != name@,
        decreases styles@.len() - i,
    {
        if same_text(styles[i].name, name) {
            return Some(i);
        }
        i = i + 1;
    }
    None
}

/// The abstract state of a [`Spinner`].
pub ghost struct SpinnerView {
    pub frames: Seq<Seq<char>>,
    pub interval: u64,
    pub message: Seq<char>,
    pub running: bool,
    pub frame: int,
}

impl SpinnerView {
    /// At least one frame, and the current frame is one of them.
    pub open spec fn valid(self) -> bool {
        self.frames.len() > 0 && 0 <= self.frame < self.frames.len()
    }

    /// The frame after the current one, from the last back to the first.
    pub open spec fn advance(self) -> SpinnerView {
        SpinnerView {
            frame: if self.frame + 1 < self.frames.len() { self.frame + 1 } else { 0 },
            ..self
        }
    }
}

/// An indicator that shows its frames in turn while it runs.
pub struct Spinner {
    frames: Vec<&'static str>,
    interval: u64,
    message: String,
    running: bool,
    current_frame: usize,
}

impl View for Spinner {
    type V = SpinnerView;

    closed spec fn view(&self) -> SpinnerView {
        SpinnerView {
            frames: frames_view(self.frames@),
            interval: self.interval,
            message: self.message@,
            running: self.running,
            frame: self.current_frame as int,
        }
    }
}

impl Spinner {
    /// A stopped indicator on the first frame of the style named `style` in
    /// `styles`. Fails when no style has that name, or when it has no frames.
    pub fn new(message: String, style: &str, styles: &Vec<SpinnerStyle>) -> (r: Result<
        Spinner,
        ConfigError,
    >)
        ensures
            r == Err::<Spinner, ConfigError>(ConfigError::UnknownStyle) <==> forall|j: int|
                0 <= j < styles@.len() ==> styles@[j].name@ != style@,
            r is Ok <==> exists|i: int|
                first_named(styles@, style@, i) && styles@[i].data.frames@.len() > 0,
            r == Err::<Spinner, ConfigError>(ConfigError::NoFrames) <==> exists|i: int|
                first_named(styles@, style@, i) && styles@[i].data.frames@.len() == 0,
            r matches Ok(s) ==> exists|i: int|
                {
                    &&& first_named(styles@, style@, i)
                    &&& s@.valid()
                    &&& s@ == SpinnerView {
                        frames: frames_view(styles@[i].data.frames@),
                        interval: styles@[i].data.interval,
                        message: message@,
                        running: false,
                        frame: 0,
                    }
                },
    {
        match find_style(styles, style) {
            None => Err(ConfigError::UnknownStyle),
            Some(i) => {
                assert forall|j: int| first_named(styles@, style@, j) implies j == i by {
                    if j < i {
                        assert(styles@[j].name@ != style@);
                    } else if j > i {
                        assert(styles@[i as int].name@ != style@);
                    }
                }
                assert(first_named(styles@, style@, i as int));
                let data = &styles[i].data;
                if data.frames.len() == 0 {
                    return Err(ConfigError::NoFrames);
                }
                let mut frames: Vec<&'static str> = Vec::new();
                let mut k: usize = 0;
                while k < data.frames.len()
                    invariant
                        k <= data.frames@.len(),
                        frames@ =~= data.frames@.subrange(0, k as int),
                    decreases data.frames@.len() - k,
                {
                    frames.push(data.frames[k]);
                    k = k + 1;
                }
                assert(frames@ =~= data.frames@);
                Ok(
                    Spinner {
                        frames,
                        interval: data.interval,
                        message,
                        running: false,
                        current_frame: 0,
                    },
                )
            },
        }
    }

    /// Starts the indicator. Returns whether it was stopped, that is whether a
    /// clock must now be started to drive it; starting a running indicator
    /// changes nothing.
    pub fn start(&mut self) -> (spawn: bool)
        ensures
            spawn == !old(self)@.running,
            final(self)@ == (SpinnerView { running: true, ..old(self)@ }),
    {
        let spawn = !self.running;
        self.running = true;
        spawn
    }

    /// Stops the indicator; its clock ends at its next tick.
    pub fn stop(&mut self)
        ensures
            final(self)@ == (SpinnerView { running: false, ..old(self)@ }),
    {
        self.running = false;
    }

    /// One tick of the clock: while running, the frame to show now, and the
    /// indicator moves to the next frame; once stopped, none, and the clock
    /// should end.
    pub fn tick(&mut self) -> (r: Option<&'static str>)
        requires
            old(self)@.valid(),
        ensures
            final(self)@.valid(),
            old(self)@.running ==> final(self)@ == old(self)@.advance() && (r matches Some(f)
                && f@ == old(self)@.frames[old(self)@.frame]),
            !old(self)@.running ==> final(self)@ == old(self)@ && r is None,
    {
        if self.running {
            let n = self.frames.len();
            let f = self.frames[self.current_frame];
            self.current_frame = if self.current_frame + 1 < n {
                self.current_frame + 1
            } else {
                0
            };
            Some(f)
        } else {
            None
        }
    }

    /// Whether the indicator runs.
    pub fn is_running(&self) -> (r: bool)
        ensures
            r == self@.running,
    {
        self.running
    }

    /// The index of the frame shown next.
    pub fn current_frame(&self) -> (r: usize)
        ensures
            r == self@.frame,
    {
        self.current_frame
    }

    /// Milliseconds between two frames.
    pub fn interval(&self) -> (r: u64)
        ensures
            r == self@.interval,
    {
        self.interval
    }

    /// The text shown beside the frame.
    pub fn message(&self) -> (r: &str)
        ensures
            r@ == self@.message,
    {
        self.message.as_str()
    }
}

} // verus!
