//! The window controller: a state machine from window events to actions.
//!
//! The controller owns no window. It is told what happened ([`Event`]),
//! decides what is to be done ([`Action`]) and keeps the handle of the
//! display surface. Whoever runs the window performs the action and reports
//! what came of it as the next event.
//!
//! The controller moves through three phases and never back: it starts
//! uninitialised, is ready once the display surface exists, and is closed
//! once the window is destroyed.

use crate::extract::{display_of, display_text, ExtractError};
use crate::message::{hiword, is_path_of, loword, packed_words, path_in_buffer};
use vstd::prelude::*;
use vstd::string::StringExecFns;

verus! {

/// The phase of a controller.
#[derive(Clone, Copy, Debug, PartialEq, Eq)]
pub enum Phase {
    /// No display surface yet.
    Uninitialized,
    /// The display surface exists.
    Ready,
    /// The window was destroyed.
    Closed,
}

/// The state of the application: the handle of the display surface, zero
/// while there is none, and whether the window was destroyed.
#[derive(Clone, Copy, Debug, PartialEq, Eq)]
pub struct App {
    pub hedit: isize,
    pub closed: bool,
}

/// What happened to the window.
#[derive(Debug, PartialEq, Eq)]
pub enum Event {
    /// The window was created.
    Create,
    /// The display surface was asked for; `handle` is what the platform
    /// gave, zero where it gave none.
    SurfaceCreated { handle: isize },
    /// The window has a new client area.
    Resize { width: u16, height: u16 },
    /// Files were dropped on the window: one buffer of UTF-16 units per
    /// file, each holding a path that ends at its first zero unit.
    Drop { paths: Vec<Vec<u16>> },
    /// The dropped file was read and the extraction has ended.
    Extracted { outcome: Result<String, ExtractError> },
    /// The window is being destroyed.
    Destroy,
    /// Anything else.
    Other,
}

/// What is to be done about an event.
#[derive(Debug, PartialEq, Eq)]
pub enum Action {
    /// Nothing; the event counts as handled.
    Nothing,
    /// Create the display surface with width and height zero, and report its
    /// handle as [`Event::SurfaceCreated`].
    CreateSurface,
    /// Give the surface its font, show `prompt` in it, and register the
    /// window as a drop target.
    PrepareSurface { surface: isize, prompt: String },
    /// Move the surface to the origin of the client area with the given
    /// size, then let the platform handle the event as well.
    ResizeSurface { surface: isize, width: u16, height: u16 },
    /// Read the file at `path`, extract its report, and report the outcome
    /// as [`Event::Extracted`].
    ReadFile { path: Vec<u16> },
    /// Replace the text of the surface.
    ShowText { surface: isize, text: String },
    /// Release the surface, where there is one, and end the event loop.
    Quit { release: Option<isize> },
    /// Leave the event to the platform's default handling.
    Forward,
}

/// The failure of the controller: the platform did not create the display
/// surface. Startup cannot go on after it.
#[derive(Clone, Copy, Debug, PartialEq, Eq)]
pub enum ControllerError {
    ResourceCreationFailure,
}

/// The text shown until a file is dropped.
pub open spec fn prompt() -> Seq<char> {
    "DRAG AND DROP HERE!!"@
}

/// The resize event that a size message stands for: the width is the low
/// word of the low 32 bits of its parameter, the height the high word.
pub fn resize_event(lparam: isize) -> (event: Event)
    ensures
        event == (Event::Resize {
            width: ((lparam as u32) % 0x1_0000) as u16,
            height: ((lparam as u32) / 0x1_0000) as u16,
        }),
{
    let packed = packed_words(lparam);
    Event::Resize { width: loword(packed), height: hiword(packed) }
}

impl App {
    /// The phase that the state is in.
    pub open spec fn phase(self) -> Phase {
        if self.closed {
            Phase::Closed
        } else if self.hedit != 0 {
            Phase::Ready
        } else {
            Phase::Uninitialized
        }
    }

    /// The state after an event. Only two things change it: the display
    /// surface coming into being, and the window being destroyed.
    pub open spec fn after(self, event: Event) -> App {
        match (self.phase(), event) {
            (Phase::Closed, _) => self,
            (Phase::Uninitialized, Event::SurfaceCreated { handle }) => App {
                hedit: handle,
                closed: false,
            },
            (_, Event::Destroy) => App { hedit: 0, closed: true },
            _ => self,
        }
    }

    /// Whether `res` is the answer of a controller in this state to `event`.
    pub open spec fn responds(self, event: Event, res: Result<Action, ControllerError>) -> bool {
        match self.phase() {
            Phase::Closed => res == Ok::<Action, ControllerError>(Action::Forward),
            Phase::Uninitialized => match event {
                Event::Create => res == Ok::<Action, ControllerError>(Action::CreateSurface),
                Event::SurfaceCreated { handle } => if handle == 0 {
                    res == Err::<Action, ControllerError>(ControllerError::ResourceCreationFailure)
                } else {
                    res matches Ok(Action::PrepareSurface { surface, prompt: text })
                        && surface == handle && text@ == prompt()
                },
                Event::Resize { .. } => res == Ok::<Action, ControllerError>(Action::Forward),
                Event::Drop { .. } => res == Ok::<Action, ControllerError>(Action::Nothing),
                Event::Extracted { .. } => res == Ok::<Action, ControllerError>(Action::Nothing),
                Event::Destroy => res == Ok::<Action, ControllerError>(
                    Action::Quit { release: None },
                ),
                Event::Other => res == Ok::<Action, ControllerError>(Action::Forward),
            },
            Phase::Ready => match event {
                Event::Create => res == Ok::<Action, ControllerError>(Action::Nothing),
                Event::SurfaceCreated { .. } => res == Ok::<Action, ControllerError>(
                    Action::Nothing,
                ),
                Event::Resize { width, height } => res == Ok::<Action, ControllerError>(
                    Action::ResizeSurface { surface: self.hedit, width, height },
                ),
                Event::Drop { paths } => if paths@.len() == 0 {
                    res == Ok::<Action, ControllerError>(Action::Nothing)
                } else {
                    res matches Ok(Action::ReadFile { path }) && is_path_of(paths@[0]@, path@)
                },
                Event::Extracted { outcome } => res matches Ok(Action::ShowText { surface, text })
                    && surface == self.hedit && text@ == display_of(outcome),
                Event::Destroy => res == Ok::<Action, ControllerError>(
                    Action::Quit { release: Some(self.hedit) },
                ),
                Event::Other => res == Ok::<Action, ControllerError>(Action::Forward),
            },
        }
    }

    /// The phase that the state is in.
    pub fn current_phase(&self) -> (phase: Phase)
        ensures
            phase == self.phase(),
    {
        if self.closed {
            Phase::Closed
        } else if self.hedit != 0 {
            Phase::Ready
        } else {
            Phase::Uninitialized
        }
    }

    /// Takes an event, moves to the state after it and says what is to be
    /// done.
    ///
    /// Fails only where the platform reports that it created no display
    /// surface; the state is then unchanged.
    pub fn handle(&mut self, event: Event) -> (res: Result<Action, ControllerError>)
        ensures
            *final(self) == old(self).after(event),
            old(self).responds(event, res),
            res is Err <==> old(self).phase() == Phase::Uninitialized && event
                == (Event::SurfaceCreated { handle: 0 }),
    {
        match self.current_phase() {
            Phase::Closed => Ok(Action::Forward),
            Phase::Uninitialized => match event {
                Event::Create => Ok(Action::CreateSurface),
                Event::SurfaceCreated { handle } => {
                    if handle == 0 {
                        Err(ControllerError::ResourceCreationFailure)
                    } else {
                        self.hedit = handle;
                        Ok(
                            Action::PrepareSurface {
                                surface: handle,
                                prompt: String::from_str("DRAG AND DROP HERE!!"),
                            },
                        )
                    }
                },
                Event::Resize { .. } => Ok(Action::Forward),
                Event::Drop { .. } => Ok(Action::Nothing),
                Event::Extracted { .. } => Ok(Action::Nothing),
                Event::Destroy => {
                    self.hedit = 0;
                    self.closed = true;
                    Ok(Action::Quit { release: None })
                },
                Event::Other => Ok(Action::Forward),
            },
            Phase::Ready => match event {
                Event::Create => Ok(Action::Nothing),
                Event::SurfaceCreated { .. } => Ok(Action::Nothing),
                Event::Resize { width, height } => Ok(
                    Action::ResizeSurface { surface: self.hedit, width, height },
                ),
                Event::Drop { paths } => {
                    if paths.len() == 0 {
                        Ok(Action::Nothing)
                    } else {
                        Ok(Action::ReadFile { path: path_in_buffer(&paths[0]) })
                    }
                },
                Event::Extracted { outcome } => Ok(
                    Action::ShowText { surface: self.hedit, text: display_text(&outcome) },
                ),
                Event::Destroy => {
                    let surface = self.hedit;
                    self.hedit = 0;
                    self.closed = true;
                    Ok(Action::Quit { release: Some(surface) })
                },
                Event::Other => Ok(Action::Forward),
            },
        }
    }
}

impl Default for App {
    /// The state before the window exists: no surface, not closed.
    fn default() -> (app: App)
        ensures
            app == (App { hedit: 0, closed: false }),
            app.phase() == Phase::Uninitialized,
    {
        App { hedit: 0, closed: false }
    }
}

impl Action {
    /// Whether the platform's default handling is to run as well: for an
    /// event that is forwarded, and after the surface was resized.
    pub fn is_forwarded(&self) -> (forwarded: bool)
        ensures
            forwarded <==> *self is Forward || *self is ResizeSurface,
    {
        match self {
            Action::Forward => true,
            Action::ResizeSurface { .. } => true,
            _ => false,
        }
    }
}

/// The place of a phase in the order in which phases are passed through.
pub open spec fn phase_rank(phase: Phase) -> nat {
    match phase {
        Phase::Uninitialized => 0,
        Phase::Ready => 1,
        Phase::Closed => 2,
    }
}

/// A resize event that comes before the display surface exists changes
/// nothing, touches no surface and does not fail: it is left to the
/// platform.
pub proof fn lemma_resize_before_creation(
    app: App,
    width: u16,
    height: u16,
    res: Result<Action, ControllerError>,
)
    requires
        app.phase() == Phase::Uninitialized,
        app.responds(Event::Resize { width, height }, res),
    ensures
        app.after(Event::Resize { width, height }) == app,
        res == Ok::<Action, ControllerError>(Action::Forward),
{
}

/// A drop without paths changes nothing in any phase: the state stays, and
/// no action touches the surface or a file.
pub proof fn lemma_empty_drop_changes_nothing(
    app: App,
    paths: Vec<Vec<u16>>,
    res: Result<Action, ControllerError>,
)
    requires
        paths@.len() == 0,
        app.responds(Event::Drop { paths }, res),
    ensures
        app.after(Event::Drop { paths }) == app,
        res == Ok::<Action, ControllerError>(Action::Nothing) || res == Ok::<
            Action,
            ControllerError,
        >(Action::Forward),
{
}

/// Phases are passed through in one direction: no event leads back to an
/// earlier phase, and a closed controller stays as it is and leaves every
/// event to the platform.
pub proof fn lemma_phases_never_go_back(
    app: App,
    event: Event,
    res: Result<Action, ControllerError>,
)
    requires
        app.responds(event, res),
    ensures
        phase_rank(app.phase()) <= phase_rank(app.after(event).phase()),
        app.phase() == Phase::Closed ==> app.after(event) == app && res == Ok::<
            Action,
            ControllerError,
        >(Action::Forward),
        event is Destroy ==> app.after(event).phase() == Phase::Closed,
{
}

/// While the controller is ready its surface handle is valid and stays the
/// same, every action on the surface names that handle, and nothing fails.
pub proof fn lemma_surface_is_stable(app: App, event: Event, res: Result<Action, ControllerError>)
    requires
        app.phase() == Phase::Ready,
        app.responds(event, res),
    ensures
        app.hedit != 0,
        res is Ok,
        app.after(event).phase() == Phase::Ready ==> app.after(event).hedit == app.hedit,
        res matches Ok(Action::ResizeSurface { surface, .. }) ==> surface == app.hedit,
        res matches Ok(Action::ShowText { surface, .. }) ==> surface == app.hedit,
        res matches Ok(Action::Quit { release }) ==> release == Some(app.hedit),
{
}

} // verus!
