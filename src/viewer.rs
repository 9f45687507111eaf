//! The interactive viewer's reaction to window input: the camera's eye moves
//! one unit per key press along the ground plane, the sample count per pixel
//! goes up or down tenfold, and a frame is rendered whenever something
//! changed.
use vstd::prelude::*;

verus! {

/// Fewest samples per pixel the viewer renders with.
pub const MIN_SAMPLES: u32 = 1;

/// Most samples per pixel the viewer renders with.
pub const MAX_SAMPLES: u32 = 500;

/// Factor by which one key press changes the sample count.
pub const SAMPLE_STEP: u32 = 10;

/// Keys the viewer reacts to, by their label on the keyboard.
#[derive(Clone, Copy, PartialEq, Eq, Structural, Debug)]
pub enum Key {
    /// Moves the eye one unit towards -z.
    W,
    /// Moves the eye one unit towards +z.
    S,
    /// Moves the eye one unit towards -x.
    A,
    /// Moves the eye one unit towards +x.
    D,
    /// Ten times as many samples per pixel.
    U,
    /// A tenth of the samples per pixel.
    I,
    /// Closes the viewer.
    Escape,
    /// Any other key: ignored.
    Other,
}

/// What the window reports to the viewer.
#[derive(Clone, Copy, PartialEq, Eq, Structural, Debug)]
pub enum Input {
    CloseRequested,
    KeyPressed(Key),
    KeyReleased(Key),
    /// All pending window events have been handled: a frame may be drawn.
    FrameDue,
}

/// What the window loop does next.
#[derive(Clone, Copy, PartialEq, Eq, Structural, Debug)]
pub enum Action {
    /// Nothing to do until the next input.
    Wait,
    /// Close the window and stop.
    Exit,
    /// Render a frame from the viewer's eye with its sample count, and show it.
    Render,
}

/// State of the viewer: the eye's ground-plane coordinates (its height stays
/// fixed), the samples per pixel, and whether a new frame is owed.
#[derive(Clone, Copy, PartialEq, Eq, Structural, Debug)]
pub struct Viewer {
    pub eye_x: i64,
    pub eye_z: i64,
    pub samples: u32,
    pub redraw: bool,
}

/// The sample count after a press of `U`: ten times as many, at most
/// `MAX_SAMPLES`.
pub open spec fn more_samples(n: int) -> int {
    if n * SAMPLE_STEP >= MAX_SAMPLES {
        MAX_SAMPLES as int
    } else {
        n * SAMPLE_STEP
    }
}

/// The sample count after a press of `I`: a tenth, rounded down, at least
/// `MIN_SAMPLES`.
pub open spec fn fewer_samples(n: int) -> int {
    if n / (SAMPLE_STEP as int) == 0 {
        MIN_SAMPLES as int
    } else {
        n / (SAMPLE_STEP as int)
    }
}

/// The viewer with its eye moved by `(dx, dz)` and a frame owed; unchanged
/// where a coordinate would leave the range of `i64`.
pub open spec fn moved(v: Viewer, dx: int, dz: int) -> Viewer {
    let x = v.eye_x + dx;
    let z = v.eye_z + dz;
    if i64::MIN <= x <= i64::MAX && i64::MIN <= z <= i64::MAX {
        Viewer { eye_x: x as i64, eye_z: z as i64, redraw: true, ..v }
    } else {
        v
    }
}

/// The viewer with `samples` samples per pixel and a frame owed.
pub open spec fn resampled(v: Viewer, samples: int) -> Viewer {
    Viewer { samples: samples as u32, redraw: true, ..v }
}

/// The state after a key press and the action it calls for. Escape always
/// closes; other keys are ignored while a frame is owed.
pub open spec fn after_key(v: Viewer, k: Key) -> (Viewer, Action) {
    if k == Key::Escape {
        (v, Action::Exit)
    } else if v.redraw {
        (v, Action::Wait)
    } else {
        let w = match k {
            Key::W => moved(v, 0, -1),
            Key::S => moved(v, 0, 1),
            Key::A => moved(v, -1, 0),
            Key::D => moved(v, 1, 0),
            Key::U => resampled(v, more_samples(v.samples as int)),
            Key::I => resampled(v, fewer_samples(v.samples as int)),
            _ => v,
        };
        (w, Action::Wait)
    }
}

/// The state after `input` and the action it calls for.
pub open spec fn next(v: Viewer, input: Input) -> (Viewer, Action) {
    match input {
        Input::CloseRequested => (v, Action::Exit),
        Input::KeyReleased(_) => (v, Action::Wait),
        Input::KeyPressed(k) => after_key(v, k),
        Input::FrameDue => if v.redraw {
            (Viewer { redraw: false, ..v }, Action::Render)
        } else {
            (v, Action::Wait)
        },
    }
}

impl Viewer {
    /// The sample count lies within `MIN_SAMPLES..=MAX_SAMPLES`.
    pub open spec fn wf(&self) -> bool {
        MIN_SAMPLES <= self.samples <= MAX_SAMPLES
    }

    /// A viewer with its eye at ground coordinates `(eye_x, eye_z)`, one
    /// sample per pixel, and a first frame owed.
    pub fn new(eye_x: i64, eye_z: i64) -> (v: Viewer)
        ensures
            v == (Viewer { eye_x, eye_z, samples: MIN_SAMPLES, redraw: true }),
            v.wf(),
    {
        Viewer { eye_x, eye_z, samples: MIN_SAMPLES, redraw: true }
    }

    /// Moves the eye by `(dx, dz)` and owes a frame, unless a coordinate would
    /// leave the range of `i64`.
    fn move_eye(&mut self, dx: i64, dz: i64)
        requires
            -1 <= dx <= 1,
            -1 <= dz <= 1,
        ensures
            *final(self) == moved(*old(self), dx as int, dz as int),
    {
        match (self.eye_x.checked_add(dx), self.eye_z.checked_add(dz)) {
            (Some(x), Some(z)) => {
                self.eye_x = x;
                self.eye_z = z;
                self.redraw = true;
            },
            _ => {},
        }
    }

    /// Ten times as many samples per pixel, at most `MAX_SAMPLES`.
    pub fn raise_samples(&mut self)
        requires
            old(self).wf(),
        ensures
            *final(self) == resampled(*old(self), more_samples(old(self).samples as int)),
            final(self).wf(),
    {
        let n = self.samples * SAMPLE_STEP;
        self.samples = if n >= MAX_SAMPLES {
            MAX_SAMPLES
        } else {
            n
        };
        self.redraw = true;
    }

    /// A tenth of the samples per pixel, rounded down, at least `MIN_SAMPLES`.
    pub fn lower_samples(&mut self)
        requires
            old(self).wf(),
        ensures
            *final(self) == resampled(*old(self), fewer_samples(old(self).samples as int)),
            final(self).wf(),
    {
        let n = self.samples / SAMPLE_STEP;
        self.samples = if n == 0 {
            MIN_SAMPLES
        } else {
            n
        };
        self.redraw = true;
    }

    /// Takes one input from the window and says what to do next.
    pub fn step(&mut self, input: Input) -> (a: Action)
        requires
            old(self).wf(),
        ensures
            (*final(self), a) == next(*old(self), input),
            final(self).wf(),
    {
        match input {
            Input::CloseRequested => Action::Exit,
            Input::KeyReleased(_) => Action::Wait,
            Input::KeyPressed(Key::Escape) => Action::Exit,
            Input::KeyPressed(k) => {
                if !self.redraw {
                    match k {
                        Key::W => self.move_eye(0, -1),
                        Key::S => self.move_eye(0, 1),
                        Key::A => self.move_eye(-1, 0),
                        Key::D => self.move_eye(1, 0),
                        Key::U => self.raise_samples(),
                        Key::I => self.lower_samples(),
                        _ => {},
                    }
                }
                Action::Wait
            },
            Input::FrameDue => {
                if self.redraw {
                    self.redraw = false;
                    Action::Render
                } else {
                    Action::Wait
                }
            },
        }
    }
}

} // verus!
