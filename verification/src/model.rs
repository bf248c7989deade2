//! The session: the cartridge that is loaded, the state that is kept, and
//! the run that is under way.
//!
//! Every command begins a run on a fresh machine and is over when the run
//! has yielded.  A cartridge or a state that the machine does not take is
//! not kept; a frame that was only shown changes nothing.

use vstd::prelude::*;
use crate::blank_rom::{blank_rom_image, load_blank_rom};
use crate::runner::{
    Action, ActionView, Event, EventView, Mode, ModelError, Outcome, OutcomeView, Phase, PhaseView,
    Runner, advance_spec, state_view,
};

verus! {

/// What a run was begun for.
#[derive(Clone, Debug, PartialEq, Eq)]
pub enum Request {
    /// Show the next frame.
    Refresh,
    /// Load this cartridge image.
    LoadRom(Vec<u8>),
    /// Take up this state.
    LoadSaveState(Vec<u8>),
    /// Go on by one frame.
    Step,
    /// Set a colour.
    SetCgram,
}

/// `Request` with its lists as sequences.
pub enum RequestView {
    Refresh,
    LoadRom(Seq<u8>),
    LoadSaveState(Seq<u8>),
    Step,
    SetCgram,
}

impl View for Request {
    type V = RequestView;

    open spec fn view(&self) -> RequestView {
        match self {
            Request::Refresh => RequestView::Refresh,
            Request::LoadRom(image) => RequestView::LoadRom(image@),
            Request::LoadSaveState(state) => RequestView::LoadSaveState(state@),
            Request::Step => RequestView::Step,
            Request::SetCgram => RequestView::SetCgram,
        }
    }
}

/// A run under way: what it was begun for, its mode and its phase.
pub struct RunView {
    pub request: RequestView,
    pub mode: Mode,
    pub phase: PhaseView,
}

/// The session as a mathematical value.
pub struct ModelView {
    /// The cartridge image that is loaded.
    pub rom: Seq<u8>,
    /// The state that is kept; none stands for the machine as it is when
    /// switched on.
    pub state: Option<Seq<u8>>,
    /// The run under way, if there is one.
    pub run: Option<RunView>,
}

/// The session.
#[derive(Clone, Debug, PartialEq, Eq)]
pub struct Model {
    rom: Vec<u8>,
    state: Option<Vec<u8>>,
    run: Option<(Request, Runner)>,
}

impl View for Model {
    type V = ModelView;

    closed spec fn view(&self) -> ModelView {
        ModelView {
            rom: self.rom@,
            state: state_view(self.state),
            run: match self.run {
                Some((request, runner)) => Some(
                    RunView { request: request@, mode: runner.mode, phase: runner.phase@ },
                ),
                None => None,
            },
        }
    }
}

/// The answer to what cannot be done.
pub open spec fn refused() -> ActionView {
    ActionView::Finish(OutcomeView::Failed(ModelError::InvariantViolation))
}

/// The session with a run for `request` begun, and the first thing that
/// the machine is to do.  While a run is under way none is begun.
pub open spec fn begin_spec(model: ModelView, request: RequestView, mode: Mode) -> (
    ModelView,
    ActionView,
) {
    if model.run is Some {
        (model, refused())
    } else {
        let image = match request {
            RequestView::LoadRom(image) => image,
            _ => model.rom,
        };
        let prior = match request {
            RequestView::LoadRom(image) => None,
            RequestView::LoadSaveState(state) => Some(state),
            _ => model.state,
        };
        (
            ModelView {
                run: Some(RunView { request, mode, phase: PhaseView::Constructing { prior } }),
                ..model
            },
            ActionView::Construct(image),
        )
    }
}

/// The session after a run begun for `request` has yielded `outcome`, and
/// what follows.
///
/// A frame that was shown ends the command; with it a cartridge image or a
/// state that was asked for is kept.  A state that the machine reached is
/// kept, and the next frame is shown from it.  A run that yielded nothing
/// leaves cartridge and state as they were.
pub open spec fn settle_spec(model: ModelView, request: RequestView, outcome: OutcomeView) -> (
    ModelView,
    ActionView,
) {
    let idle = ModelView { run: None, ..model };
    match (request, outcome) {
        (RequestView::Refresh, OutcomeView::Previewed(data)) => (idle, ActionView::Finish(outcome)),
        (RequestView::LoadRom(image), OutcomeView::Previewed(data)) => (
            ModelView { rom: image, state: None, run: None },
            ActionView::Finish(outcome),
        ),
        (RequestView::LoadSaveState(state), OutcomeView::Previewed(data)) => (
            ModelView { state: Some(state), ..idle },
            ActionView::Finish(outcome),
        ),
        (RequestView::Step, OutcomeView::Committed(state, data)) => begin_spec(
            ModelView { state: Some(state), ..idle },
            RequestView::Refresh,
            Mode::Preview,
        ),
        (RequestView::SetCgram, OutcomeView::Poked(state)) => begin_spec(
            ModelView { state: Some(state), ..idle },
            RequestView::Refresh,
            Mode::Preview,
        ),
        (_, OutcomeView::Failed(error)) => (idle, ActionView::Finish(outcome)),
        _ => (idle, refused()),
    }
}

/// The session after the machine has done what it was asked to, and what it
/// is to do next.  Where no run is under way nothing changes.
pub open spec fn handle_spec(model: ModelView, event: EventView) -> (ModelView, ActionView) {
    match model.run {
        None => (model, refused()),
        Some(run) => {
            let (phase, action) = advance_spec(run.mode, run.phase, event);
            match action {
                ActionView::Finish(outcome) => settle_spec(model, run.request, outcome),
                _ => (ModelView { run: Some(RunView { phase, ..run }), ..model }, action),
            }
        },
    }
}

/// A copy of `bytes`.
fn copy_bytes(bytes: &Vec<u8>) -> (copy: Vec<u8>)
    ensures
        copy@ == bytes@,
{
    let copy = bytes.clone();
    assert(copy@ =~= bytes@);
    copy
}

/// A copy of `state`.
fn copy_state(state: &Option<Vec<u8>>) -> (copy: Option<Vec<u8>>)
    ensures
        state_view(copy) == state_view(*state),
{
    match state {
        Some(s) => Some(copy_bytes(s)),
        None => None,
    }
}

impl Model {
    /// The session with the blank cartridge loaded, no state and no run.
    pub fn new() -> (model: Model)
        ensures
            model@ == (ModelView { rom: blank_rom_image(), state: None, run: None }),
    {
        Model { rom: load_blank_rom(), state: None, run: None }
    }

    /// The cartridge image that is loaded.
    pub fn rom(&self) -> (rom: &Vec<u8>)
        ensures
            rom@ == self@.rom,
    {
        &self.rom
    }

    /// The state that is kept.
    pub fn state(&self) -> (state: &Option<Vec<u8>>)
        ensures
            state_view(*state) == self@.state,
    {
        &self.state
    }

    /// Whether a run is under way.
    pub fn is_busy(&self) -> (busy: bool)
        ensures
            busy == self@.run is Some,
    {
        self.run.is_some()
    }

    /// Begins a run for `request`.
    fn begin(&mut self, request: Request, mode: Mode) -> (action: Action)
        ensures
            (final(self)@, action@) == begin_spec(old(self)@, request@, mode),
    {
        if self.run.is_some() {
            return Action::Finish(Outcome::Failed(ModelError::InvariantViolation));
        }
        let image = match &request {
            Request::LoadRom(image) => copy_bytes(image),
            _ => copy_bytes(&self.rom),
        };
        let prior = match &request {
            Request::LoadRom(_) => None,
            Request::LoadSaveState(state) => Some(copy_bytes(state)),
            _ => copy_state(&self.state),
        };
        let (runner, action) = Runner::start(mode, image, prior);
        self.run = Some((request, runner));
        action
    }

    /// Settles a run that has yielded.
    fn settle(&mut self, request: Request, outcome: Outcome) -> (action: Action)
        requires
            old(self)@.run is None,
        ensures
            (final(self)@, action@) == settle_spec(old(self)@, request@, outcome@),
    {
        match outcome {
            Outcome::Previewed(data) => match request {
                Request::Refresh => Action::Finish(Outcome::Previewed(data)),
                Request::LoadRom(image) => {
                    self.rom = image;
                    self.state = None;
                    Action::Finish(Outcome::Previewed(data))
                },
                Request::LoadSaveState(state) => {
                    self.state = Some(state);
                    Action::Finish(Outcome::Previewed(data))
                },
                _ => Action::Finish(Outcome::Failed(ModelError::InvariantViolation)),
            },
            Outcome::Committed(state, data) => match request {
                Request::Step => {
                    self.state = Some(state);
                    self.begin(Request::Refresh, Mode::Preview)
                },
                _ => Action::Finish(Outcome::Failed(ModelError::InvariantViolation)),
            },
            Outcome::Poked(state) => match request {
                Request::SetCgram => {
                    self.state = Some(state);
                    self.begin(Request::Refresh, Mode::Preview)
                },
                _ => Action::Finish(Outcome::Failed(ModelError::InvariantViolation)),
            },
            Outcome::Failed(error) => Action::Finish(Outcome::Failed(error)),
        }
    }

    /// Asks for the next frame to be shown.
    pub fn update_frame(&mut self) -> (action: Action)
        ensures
            (final(self)@, action@) == begin_spec(old(self)@, RequestView::Refresh, Mode::Preview),
    {
        self.begin(Request::Refresh, Mode::Preview)
    }

    /// Asks for the cartridge image `content` to be loaded and its first
    /// frame to be shown.
    pub fn load_rom(&mut self, content: Vec<u8>) -> (action: Action)
        ensures
            (final(self)@, action@) == begin_spec(
                old(self)@,
                RequestView::LoadRom(content@),
                Mode::Preview,
            ),
    {
        self.begin(Request::LoadRom(content), Mode::Preview)
    }

    /// Asks for the state `content` to be taken up and the frame after it
    /// to be shown.
    pub fn load_save_state(&mut self, content: Vec<u8>) -> (action: Action)
        ensures
            (final(self)@, action@) == begin_spec(
                old(self)@,
                RequestView::LoadSaveState(content@),
                Mode::Preview,
            ),
    {
        self.begin(Request::LoadSaveState(content), Mode::Preview)
    }

    /// Asks for the machine to go on by one frame and for the frame after
    /// that to be shown.
    pub fn step(&mut self) -> (action: Action)
        ensures
            (final(self)@, action@) == begin_spec(old(self)@, RequestView::Step, Mode::Commit),
    {
        self.begin(Request::Step, Mode::Commit)
    }

    /// Asks for the colour with number `index` to be set to `raw` and for
    /// the next frame to be shown.
    pub fn set_cgram(&mut self, index: u8, raw: u16) -> (action: Action)
        ensures
            (final(self)@, action@) == begin_spec(
                old(self)@,
                RequestView::SetCgram,
                Mode::Poke(index, raw),
            ),
    {
        self.begin(Request::SetCgram, Mode::Poke(index, raw))
    }

    /// Takes what the machine did and names what it is to do next.
    pub fn handle(&mut self, event: Event) -> (action: Action)
        ensures
            (final(self)@, action@) == handle_spec(old(self)@, event@),
    {
        match self.run.take() {
            None => Action::Finish(Outcome::Failed(ModelError::InvariantViolation)),
            Some((request, runner)) => {
                let (runner, action) = runner.advance(event);
                match action {
                    Action::Finish(outcome) => self.settle(request, outcome),
                    other => {
                        self.run = Some((request, runner));
                        other
                    },
                }
            },
        }
    }
}

} // verus!
