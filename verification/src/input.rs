//! What the keyboard and the window ask of the program.

use crate::engine::window::Extent;
use vstd::prelude::*;

verus! {

/// The keys that the program tells apart.
#[derive(Clone, Copy, Debug, PartialEq, Eq, Structural)]
pub enum Key {
    A,
    D,
    W,
    S,
    Q,
    E,
    Left,
    Right,
    Up,
    Back,
    Escape,
    Other,
}

/// The ends of the three axes that steer the camera. Each end is held down
/// or not.
#[derive(Clone, Copy, Debug, PartialEq, Eq, Structural)]
pub struct Axes {
    pub x_negative: bool,
    pub x_positive: bool,
    pub y_negative: bool,
    pub y_positive: bool,
    pub rotation_negative: bool,
    pub rotation_positive: bool,
}

/// The pull of an axis whose ends are held as given: one step towards the
/// end that is held, none when neither or both are.
pub open spec fn pull(negative: bool, positive: bool) -> int {
    (if positive { 1int } else { 0int }) - (if negative { 1int } else { 0int })
}

fn axis(negative: bool, positive: bool) -> (value: i8)
    ensures
        value == pull(negative, positive),
{
    let up: i8 = if positive { 1 } else { 0 };
    let down: i8 = if negative { 1 } else { 0 };
    up - down
}

impl Axes {
    /// The axes after `key` went down (`pressed`) or up: `A` and `Left` hold
    /// the negative end of the x axis, `D` and `Right` its positive end; `S`
    /// and `Back` the negative end of the y axis, `W` and `Up` its positive
    /// end; `Q` the negative end of the rotation, `E` its positive end. Every
    /// other key leaves the axes as they are.
    pub open spec fn after(self, key: Key, pressed: bool) -> Axes {
        match key {
            Key::A | Key::Left => Axes { x_negative: pressed, ..self },
            Key::W | Key::Up => Axes { y_positive: pressed, ..self },
            Key::S | Key::Back => Axes { y_negative: pressed, ..self },
            Key::D | Key::Right => Axes { x_positive: pressed, ..self },
            Key::Q => Axes { rotation_negative: pressed, ..self },
            Key::E => Axes { rotation_positive: pressed, ..self },
            Key::Escape | Key::Other => self,
        }
    }

    /// Whether `key` steers the camera.
    pub open spec fn steers(key: Key) -> bool {
        key != Key::Escape && key != Key::Other
    }

    /// All ends released.
    pub fn new() -> (axes: Self)
        ensures
            axes == (Axes {
                x_negative: false,
                x_positive: false,
                y_negative: false,
                y_positive: false,
                rotation_negative: false,
                rotation_positive: false,
            }),
    {
        Axes {
            x_negative: false,
            x_positive: false,
            y_negative: false,
            y_positive: false,
            rotation_negative: false,
            rotation_positive: false,
        }
    }

    /// Records that `key` went down or up, and says whether the key steers
    /// the camera.
    pub fn handle_keys(&mut self, key: Key, pressed: bool) -> (handled: bool)
        ensures
            *final(self) == old(self).after(key, pressed),
            handled == Axes::steers(key),
    {
        match key {
            Key::A | Key::Left => {
                self.x_negative = pressed;
                true
            },
            Key::W | Key::Up => {
                self.y_positive = pressed;
                true
            },
            Key::S | Key::Back => {
                self.y_negative = pressed;
                true
            },
            Key::D | Key::Right => {
                self.x_positive = pressed;
                true
            },
            Key::Q => {
                self.rotation_negative = pressed;
                true
            },
            Key::E => {
                self.rotation_positive = pressed;
                true
            },
            Key::Escape | Key::Other => false,
        }
    }

    /// The pull along the x axis: -1, 0 or 1.
    pub fn x(&self) -> (value: i8)
        ensures
            value == pull(self.x_negative, self.x_positive),
    {
        axis(self.x_negative, self.x_positive)
    }

    /// The pull along the y axis: -1, 0 or 1.
    pub fn y(&self) -> (value: i8)
        ensures
            value == pull(self.y_negative, self.y_positive),
    {
        axis(self.y_negative, self.y_positive)
    }

    /// The pull of the rotation: -1, 0 or 1.
    pub fn rotation(&self) -> (value: i8)
        ensures
            value == pull(self.rotation_negative, self.rotation_positive),
    {
        axis(self.rotation_negative, self.rotation_positive)
    }
}

/// What the window reports.
#[derive(Clone, Copy, Debug, PartialEq, Eq, Structural)]
pub enum Input {
    CloseRequested,
    Key { key: Key, pressed: bool },
    Wheel,
    Resized(Extent),
    Other,
}

/// What the program does about it.
#[derive(Clone, Copy, Debug, PartialEq, Eq, Structural)]
pub enum Reaction {
    /// The camera controller has taken the input.
    Steer,
    /// The surface is configured for the new size.
    Resize(Extent),
    Exit,
    Nothing,
}

/// The reaction to `input` with the axes and the window size as they were
/// before it.
///
/// The camera controller sees every input first: it takes the wheel and the
/// keys that steer. Of what it leaves, a request to close and a press of
/// `Escape` end the program, and a new size for which a surface can be
/// configured is taken over. Everything else is ignored.
pub open spec fn reaction_to(input: Input) -> Reaction {
    match input {
        Input::Wheel => Reaction::Steer,
        Input::Key { key, pressed } => if Axes::steers(key) {
            Reaction::Steer
        } else if key == Key::Escape && pressed {
            Reaction::Exit
        } else {
            Reaction::Nothing
        },
        Input::CloseRequested => Reaction::Exit,
        Input::Resized(size) => if size.is_drawable() {
            Reaction::Resize(size)
        } else {
            Reaction::Nothing
        },
        Input::Other => Reaction::Nothing,
    }
}

/// Takes one input: updates the axes and the window size and says what the
/// program has to do.
pub fn react(axes: &mut Axes, window: &mut Extent, input: Input) -> (reaction: Reaction)
    ensures
        reaction == reaction_to(input),
        *final(axes) == (match input {
            Input::Key { key, pressed } => old(axes).after(key, pressed),
            _ => *old(axes),
        }),
        *final(window) == (match reaction {
            Reaction::Resize(size) => size,
            _ => *old(window),
        }),
{
    match input {
        Input::Wheel => Reaction::Steer,
        Input::Key { key, pressed } => {
            if axes.handle_keys(key, pressed) {
                Reaction::Steer
            } else if key == Key::Escape && pressed {
                Reaction::Exit
            } else {
                Reaction::Nothing
            }
        },
        Input::CloseRequested => Reaction::Exit,
        Input::Resized(size) => {
            match window.resize(size) {
                Some(accepted) => Reaction::Resize(accepted),
                None => Reaction::Nothing,
            }
        },
        Input::Other => Reaction::Nothing,
    }
}

/// The ways in which presenting a frame can fail.
#[derive(Clone, Copy, Debug, PartialEq, Eq, Structural)]
pub enum RenderFailure {
    /// The surface was lost.
    Lost,
    OutOfMemory,
    /// Another failure of the surface.
    Surface,
    /// A failure that does not come from the surface.
    Foreign,
}

/// What the program does about a frame that failed.
#[derive(Clone, Copy, Debug, PartialEq, Eq, Structural)]
pub enum Recovery {
    /// The window is resized to the size it has.
    Resize,
    Exit,
    /// The failure is printed.
    Report,
    Nothing,
}

/// A lost surface is answered by resizing the window to its own size, lack
/// of memory ends the program, other failures of the surface are printed,
/// and failures from elsewhere are passed over.
pub fn recover(failure: RenderFailure) -> (recovery: Recovery)
    ensures
        recovery == (match failure {
            RenderFailure::Lost => Recovery::Resize,
            RenderFailure::OutOfMemory => Recovery::Exit,
            RenderFailure::Surface => Recovery::Report,
            RenderFailure::Foreign => Recovery::Nothing,
        }),
{
    match failure {
        RenderFailure::Lost => Recovery::Resize,
        RenderFailure::OutOfMemory => Recovery::Exit,
        RenderFailure::Surface => Recovery::Report,
        RenderFailure::Foreign => Recovery::Nothing,
    }
}

} // verus!
