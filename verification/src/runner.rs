//! Rendering one frame on the machine, for display only or for good.
//!
//! The machine is not part of this crate.  A run is a dialogue: the runner
//! names the next thing the machine is to do, the caller has the machine do
//! it and reports what came of it.  The runner decides the order of the
//! steps, which state the machine is put into, and what the run yields.

use vstd::prelude::*;
use crate::data::{
    CgramColor, ModelData, ModelDataView, ObjectRecord, Sprite, sprite_of, CGRAM_ENTRIES,
    OAM_ENTRIES,
};
use crate::registers::RegisterSnapshot;
use crate::text::{decimal, push_decimal};

verus! {

/// Width of a frame in pixels.
pub const FRAME_WIDTH: usize = 256;

/// Height of a frame in pixels.
pub const FRAME_HEIGHT: usize = 224;

/// Length of a frame in bytes: three to a pixel.
pub const FRAME_LEN: usize = 256 * 224 * 3;

/// Why a run yielded nothing.
#[derive(Clone, Copy, Debug, PartialEq, Eq, Structural)]
pub enum ModelError {
    /// The machine did not take the cartridge image.
    InvalidImage,
    /// The machine did not take the state.
    CorruptState,
    /// The machine and the runner are out of step, or the machine handed
    /// out what no machine hands out.
    InvariantViolation,
}

impl ModelError {
    /// The error in words.
    pub open spec fn spec_message(self) -> Seq<char> {
        match self {
            ModelError::InvalidImage => "the cartridge image is not valid"@,
            ModelError::CorruptState => "the saved state is corrupt or belongs to another cartridge"@,
            ModelError::InvariantViolation => "the machine and the inspector are out of step"@,
        }
    }

    /// The error in words.
    pub fn message(&self) -> (text: String)
        ensures
            text@ == self.spec_message(),
    {
        match self {
            ModelError::InvalidImage => String::from_str("the cartridge image is not valid"),
            ModelError::CorruptState => String::from_str(
                "the saved state is corrupt or belongs to another cartridge",
            ),
            ModelError::InvariantViolation => String::from_str(
                "the machine and the inspector are out of step",
            ),
        }
    }
}

/// What a run is for.
#[derive(Clone, Copy, Debug, PartialEq, Eq)]
pub enum Mode {
    /// Render the next frame and leave the machine as it was.
    Preview,
    /// Render the next frame and keep the state that follows it.
    Commit,
    /// Set the colour with the given number to the given raw value, and
    /// keep the state that follows.
    Poke(u8, u16),
}

/// What the machine holds after a frame, as far as the inspector shows it.
#[derive(Clone, Debug, PartialEq, Eq)]
pub struct Readout {
    /// The object table.
    pub objects: Vec<ObjectRecord>,
    /// The video registers.
    pub ppu: RegisterSnapshot,
    /// Colour memory.
    pub cgram: Vec<CgramColor>,
    /// Title of the cartridge, where it has one.
    pub title: Option<String>,
    /// Horizontal position of the beam.
    pub h_counter: u16,
    /// Vertical position of the beam.
    pub v_counter: u16,
}

/// `Readout` with its lists and its text as sequences.
pub struct ReadoutView {
    pub objects: Seq<ObjectRecord>,
    pub ppu: RegisterSnapshot,
    pub cgram: Seq<CgramColor>,
    pub title: Option<Seq<char>>,
    pub h_counter: u16,
    pub v_counter: u16,
}

impl View for Readout {
    type V = ReadoutView;

    open spec fn view(&self) -> ReadoutView {
        ReadoutView {
            objects: self.objects@,
            ppu: self.ppu,
            cgram: self.cgram@,
            title: match self.title {
                Some(t) => Some(t@),
                None => None,
            },
            h_counter: self.h_counter,
            v_counter: self.v_counter,
        }
    }
}

/// What the caller reports of the machine.
#[derive(Clone, Debug, PartialEq, Eq)]
pub enum Event {
    /// A machine was built from the cartridge image.
    Constructed,
    /// The machine did not take the cartridge image.
    InvalidImage,
    /// The machine is in the state it was given.
    Deserialized,
    /// The machine did not take the state.
    CorruptState,
    /// The state of the machine.
    Serialized(Vec<u8>),
    /// The frame that the machine rendered.
    Rendered(Vec<u8>),
    /// What was read from the machine.
    Extracted(Readout),
    /// The colour was set.
    Poked,
}

/// `Event` with its lists as sequences.
pub enum EventView {
    Constructed,
    InvalidImage,
    Deserialized,
    CorruptState,
    Serialized(Seq<u8>),
    Rendered(Seq<u8>),
    Extracted(ReadoutView),
    Poked,
}

impl View for Event {
    type V = EventView;

    open spec fn view(&self) -> EventView {
        match self {
            Event::Constructed => EventView::Constructed,
            Event::InvalidImage => EventView::InvalidImage,
            Event::Deserialized => EventView::Deserialized,
            Event::CorruptState => EventView::CorruptState,
            Event::Serialized(state) => EventView::Serialized(state@),
            Event::Rendered(frame) => EventView::Rendered(frame@),
            Event::Extracted(readout) => EventView::Extracted(readout@),
            Event::Poked => EventView::Poked,
        }
    }
}

/// What a run yields.
#[derive(Clone, Debug, PartialEq, Eq)]
pub enum Outcome {
    /// The next frame; the machine is as it was.
    Previewed(ModelData),
    /// The state after the next frame, and that frame.
    Committed(Vec<u8>, ModelData),
    /// The state after the colour was set.
    Poked(Vec<u8>),
    /// Nothing.
    Failed(ModelError),
}

/// `Outcome` with its lists as sequences.
pub enum OutcomeView {
    Previewed(ModelDataView),
    Committed(Seq<u8>, ModelDataView),
    Poked(Seq<u8>),
    Failed(ModelError),
}

impl View for Outcome {
    type V = OutcomeView;

    open spec fn view(&self) -> OutcomeView {
        match self {
            Outcome::Previewed(data) => OutcomeView::Previewed(data@),
            Outcome::Committed(state, data) => OutcomeView::Committed(state@, data@),
            Outcome::Poked(state) => OutcomeView::Poked(state@),
            Outcome::Failed(error) => OutcomeView::Failed(*error),
        }
    }
}

/// What the machine is to do next.
#[derive(Clone, Debug, PartialEq, Eq)]
pub enum Action {
    /// Build a fresh machine from this cartridge image.
    Construct(Vec<u8>),
    /// Put the machine into this state.
    Deserialize(Vec<u8>),
    /// Hand out the state of the machine.
    Serialize,
    /// Run the machine to the end of the frame.
    RenderFrame,
    /// Read the object table, the registers and colour memory.
    Extract,
    /// Set the colour with this number to this raw value.
    SetCgram(u8, u16),
    /// Nothing more: the run is over and has yielded this.
    Finish(Outcome),
}

/// `Action` with its lists as sequences.
pub enum ActionView {
    Construct(Seq<u8>),
    Deserialize(Seq<u8>),
    Serialize,
    RenderFrame,
    Extract,
    SetCgram(u8, u16),
    Finish(OutcomeView),
}

impl View for Action {
    type V = ActionView;

    open spec fn view(&self) -> ActionView {
        match self {
            Action::Construct(image) => ActionView::Construct(image@),
            Action::Deserialize(state) => ActionView::Deserialize(state@),
            Action::Serialize => ActionView::Serialize,
            Action::RenderFrame => ActionView::RenderFrame,
            Action::Extract => ActionView::Extract,
            Action::SetCgram(index, raw) => ActionView::SetCgram(*index, *raw),
            Action::Finish(outcome) => ActionView::Finish(outcome@),
        }
    }
}

/// How far a run has come, with what it holds on to.
#[derive(Clone, Debug, PartialEq, Eq)]
pub enum Phase {
    /// The machine is being built; `prior` is the state to start from.
    Constructing { prior: Option<Vec<u8>> },
    /// The machine is taking the state to start from.
    Restoring,
    /// The machine is handing out its state before the frame.
    Saving,
    /// The machine is rendering; `snapshot` is its state before the frame,
    /// where the run is to go back to it.
    Rendering { snapshot: Option<Vec<u8>> },
    /// The machine is being read.
    Extracting { snapshot: Option<Vec<u8>>, frame: Vec<u8> },
    /// The machine is taking back its state before the frame.
    RollingBack { data: ModelData },
    /// The machine is handing out its state after the frame.
    Committing { data: ModelData },
    /// The machine is setting a colour.
    Poking,
    /// The machine is handing out its state after the colour was set.
    SavingPoke,
    /// The run is over.
    Done,
}

/// `Phase` with its lists as sequences.
pub enum PhaseView {
    Constructing { prior: Option<Seq<u8>> },
    Restoring,
    Saving,
    Rendering { snapshot: Option<Seq<u8>> },
    Extracting { snapshot: Option<Seq<u8>>, frame: Seq<u8> },
    RollingBack { data: ModelDataView },
    Committing { data: ModelDataView },
    Poking,
    SavingPoke,
    Done,
}

/// A state that may be absent, as a sequence.
pub open spec fn state_view(state: Option<Vec<u8>>) -> Option<Seq<u8>> {
    match state {
        Some(s) => Some(s@),
        None => None,
    }
}

impl View for Phase {
    type V = PhaseView;

    open spec fn view(&self) -> PhaseView {
        match self {
            Phase::Constructing { prior } => PhaseView::Constructing { prior: state_view(*prior) },
            Phase::Restoring => PhaseView::Restoring,
            Phase::Saving => PhaseView::Saving,
            Phase::Rendering { snapshot } => PhaseView::Rendering { snapshot: state_view(*snapshot) },
            Phase::Extracting { snapshot, frame } => PhaseView::Extracting {
                snapshot: state_view(*snapshot),
                frame: frame@,
            },
            Phase::RollingBack { data } => PhaseView::RollingBack { data: data@ },
            Phase::Committing { data } => PhaseView::Committing { data: data@ },
            Phase::Poking => PhaseView::Poking,
            Phase::SavingPoke => PhaseView::SavingPoke,
            Phase::Done => PhaseView::Done,
        }
    }
}

/// The lines on the cartridge and the beam.
pub open spec fn info_text(title: Option<Seq<char>>, h_counter: u16, v_counter: u16) -> Seq<char> {
    "ROM name: "@ + (match title {
        Some(t) => t,
        None => "<none>"@,
    }) + "\nH position: "@ + decimal(h_counter as nat) + "\nV position: "@ + decimal(
        v_counter as nat,
    )
}

/// What the inspector shows of `readout` and of the frame rendered before
/// it was taken.
pub open spec fn decode(readout: ReadoutView, frame: Seq<u8>) -> ModelDataView {
    ModelDataView {
        sprites: Seq::new(readout.objects.len(), |i: int| sprite_of(readout.ppu, readout.objects[i])),
        ppu: readout.ppu,
        cgram: readout.cgram,
        frame: frame,
        info: info_text(readout.title, readout.h_counter, readout.v_counter),
    }
}

/// The end of a run that yields nothing.
pub open spec fn failed(error: ModelError) -> (PhaseView, ActionView) {
    (PhaseView::Done, ActionView::Finish(OutcomeView::Failed(error)))
}

/// The step that follows once the machine is in the state to start from.
pub open spec fn first_step(mode: Mode) -> (PhaseView, ActionView) {
    match mode {
        Mode::Preview => (PhaseView::Saving, ActionView::Serialize),
        Mode::Commit => (PhaseView::Rendering { snapshot: None }, ActionView::RenderFrame),
        Mode::Poke(index, raw) => (PhaseView::Poking, ActionView::SetCgram(index, raw)),
    }
}

/// The phase that a run in mode `mode` enters from `phase` on `event`, and
/// what the machine is to do next.
///
/// An event that does not answer what the machine was last asked to do, a
/// frame of another length than `FRAME_LEN`, an object table of another
/// length than `OAM_ENTRIES` and a colour memory of another length than
/// `CGRAM_ENTRIES` end the run with `InvariantViolation`.
pub open spec fn advance_spec(mode: Mode, phase: PhaseView, event: EventView) -> (
    PhaseView,
    ActionView,
) {
    match (phase, event) {
        (PhaseView::Constructing { prior }, EventView::Constructed) => match prior {
            Some(state) => (PhaseView::Restoring, ActionView::Deserialize(state)),
            None => first_step(mode),
        },
        (PhaseView::Constructing { prior }, EventView::InvalidImage) => failed(
            ModelError::InvalidImage,
        ),
        (PhaseView::Restoring, EventView::Deserialized) => first_step(mode),
        (PhaseView::Restoring, EventView::CorruptState) => failed(ModelError::CorruptState),
        (PhaseView::Saving, EventView::Serialized(state)) => (
            PhaseView::Rendering { snapshot: Some(state) },
            ActionView::RenderFrame,
        ),
        (PhaseView::Rendering { snapshot }, EventView::Rendered(frame)) => if frame.len()
            == FRAME_LEN {
            (PhaseView::Extracting { snapshot, frame }, ActionView::Extract)
        } else {
            failed(ModelError::InvariantViolation)
        },
        (PhaseView::Extracting { snapshot, frame }, EventView::Extracted(readout)) => if readout.objects.len()
            == OAM_ENTRIES && readout.cgram.len() == CGRAM_ENTRIES {
            match snapshot {
                Some(state) => (
                    PhaseView::RollingBack { data: decode(readout, frame) },
                    ActionView::Deserialize(state),
                ),
                None => (PhaseView::Committing { data: decode(readout, frame) }, ActionView::Serialize),
            }
        } else {
            failed(ModelError::InvariantViolation)
        },
        (PhaseView::RollingBack { data }, EventView::Deserialized) => (
            PhaseView::Done,
            ActionView::Finish(OutcomeView::Previewed(data)),
        ),
        (PhaseView::Committing { data }, EventView::Serialized(state)) => (
            PhaseView::Done,
            ActionView::Finish(OutcomeView::Committed(state, data)),
        ),
        (PhaseView::Poking, EventView::Poked) => (PhaseView::SavingPoke, ActionView::Serialize),
        (PhaseView::SavingPoke, EventView::Serialized(state)) => (
            PhaseView::Done,
            ActionView::Finish(OutcomeView::Poked(state)),
        ),
        _ => failed(ModelError::InvariantViolation),
    }
}

/// Writes the lines on the cartridge and the beam.
pub fn format_info(title: &Option<String>, h_counter: u16, v_counter: u16) -> (text: String)
    ensures
        text@ == info_text(
            match *title {
                Some(t) => Some(t@),
                None => None,
            },
            h_counter,
            v_counter,
        ),
{
    let mut text = String::new();
    text.append("ROM name: ");
    match title {
        Some(t) => text.append(t.as_str()),
        None => text.append("<none>"),
    }
    text.append("\nH position: ");
    push_decimal(&mut text, h_counter);
    text.append("\nV position: ");
    push_decimal(&mut text, v_counter);
    assert(text@ =~= info_text(
        match *title {
            Some(t) => Some(t@),
            None => None,
        },
        h_counter,
        v_counter,
    ));
    text
}

/// Decodes what was read from the machine after it rendered `frame`.
pub fn decode_readout(readout: Readout, frame: Vec<u8>) -> (data: ModelData)
    ensures
        data@ == decode(readout@, frame@),
{
    let mut sprites: Vec<Sprite> = Vec::with_capacity(readout.objects.len());
    let mut i: usize = 0;
    while i < readout.objects.len()
        invariant
            i <= readout.objects@.len(),
            sprites@.len() == i,
            forall|k: int| 0 <= k < i ==> sprites@[k] == sprite_of(readout.ppu, readout.objects@[k]),
        decreases readout.objects@.len() - i,
    {
        sprites.push(Sprite::new(&readout.ppu, &readout.objects[i]));
        i += 1;
    }
    let info = format_info(&readout.title, readout.h_counter, readout.v_counter);
    let data = ModelData { sprites, ppu: readout.ppu, cgram: readout.cgram, frame, info };
    assert(data@.sprites =~= decode(readout@, frame@).sprites);
    data
}

/// One run on the machine.
#[derive(Clone, Debug, PartialEq, Eq)]
pub struct Runner {
    /// What the run is for.
    pub mode: Mode,
    /// How far it has come.
    pub phase: Phase,
}

impl Runner {
    /// Begins a run on a fresh machine built from `image`.  The machine
    /// starts from `prior`, or as it is when switched on where there is
    /// none.
    pub fn start(mode: Mode, image: Vec<u8>, prior: Option<Vec<u8>>) -> (begun: (Runner, Action))
        ensures
            begun.0.mode == mode,
            begun.0.phase@ == (PhaseView::Constructing { prior: state_view(prior) }),
            begun.1@ == ActionView::Construct(image@),
    {
        (Runner { mode, phase: Phase::Constructing { prior } }, Action::Construct(image))
    }

    /// The end of a run that yields nothing.
    fn fail(mode: Mode, error: ModelError) -> (next: (Runner, Action))
        ensures
            next.0.mode == mode,
            (next.0.phase@, next.1@) == failed(error),
    {
        (Runner { mode, phase: Phase::Done }, Action::Finish(Outcome::Failed(error)))
    }

    /// The step that follows once the machine is in the state to start
    /// from.
    fn first(mode: Mode) -> (next: (Runner, Action))
        ensures
            next.0.mode == mode,
            (next.0.phase@, next.1@) == first_step(mode),
    {
        match mode {
            Mode::Preview => (Runner { mode, phase: Phase::Saving }, Action::Serialize),
            Mode::Commit => (
                Runner { mode, phase: Phase::Rendering { snapshot: None } },
                Action::RenderFrame,
            ),
            Mode::Poke(index, raw) => (
                Runner { mode, phase: Phase::Poking },
                Action::SetCgram(index, raw),
            ),
        }
    }

    /// Takes what the machine did and names what it is to do next.
    pub fn advance(self, event: Event) -> (next: (Runner, Action))
        ensures
            next.0.mode == self.mode,
            (next.0.phase@, next.1@) == advance_spec(self.mode, self.phase@, event@),
    {
        let mode = self.mode;
        match self.phase {
            Phase::Constructing { prior } => match event {
                Event::Constructed => match prior {
                    Some(state) => (
                        Runner { mode, phase: Phase::Restoring },
                        Action::Deserialize(state),
                    ),
                    None => Self::first(mode),
                },
                Event::InvalidImage => Self::fail(mode, ModelError::InvalidImage),
                _ => Self::fail(mode, ModelError::InvariantViolation),
            },
            Phase::Restoring => match event {
                Event::Deserialized => Self::first(mode),
                Event::CorruptState => Self::fail(mode, ModelError::CorruptState),
                _ => Self::fail(mode, ModelError::InvariantViolation),
            },
            Phase::Saving => match event {
                Event::Serialized(state) => (
                    Runner { mode, phase: Phase::Rendering { snapshot: Some(state) } },
                    Action::RenderFrame,
                ),
                _ => Self::fail(mode, ModelError::InvariantViolation),
            },
            Phase::Rendering { snapshot } => match event {
                Event::Rendered(frame) => if frame.len() == FRAME_LEN {
                    (Runner { mode, phase: Phase::Extracting { snapshot, frame } }, Action::Extract)
                } else {
                    Self::fail(mode, ModelError::InvariantViolation)
                },
                _ => Self::fail(mode, ModelError::InvariantViolation),
            },
            Phase::Extracting { snapshot, frame } => match event {
                Event::Extracted(readout) => if readout.objects.len() == OAM_ENTRIES
                    && readout.cgram.len() == CGRAM_ENTRIES {
                    let data = decode_readout(readout, frame);
                    match snapshot {
                        Some(state) => (
                            Runner { mode, phase: Phase::RollingBack { data } },
                            Action::Deserialize(state),
                        ),
                        None => (Runner { mode, phase: Phase::Committing { data } }, Action::Serialize),
                    }
                } else {
                    Self::fail(mode, ModelError::InvariantViolation)
                },
                _ => Self::fail(mode, ModelError::InvariantViolation),
            },
            Phase::RollingBack { data } => match event {
                Event::Deserialized => (
                    Runner { mode, phase: Phase::Done },
                    Action::Finish(Outcome::Previewed(data)),
                ),
                _ => Self::fail(mode, ModelError::InvariantViolation),
            },
            Phase::Committing { data } => match event {
                Event::Serialized(state) => (
                    Runner { mode, phase: Phase::Done },
                    Action::Finish(Outcome::Committed(state, data)),
                ),
                _ => Self::fail(mode, ModelError::InvariantViolation),
            },
            Phase::Poking => match event {
                Event::Poked => (Runner { mode, phase: Phase::SavingPoke }, Action::Serialize),
                _ => Self::fail(mode, ModelError::InvariantViolation),
            },
            Phase::SavingPoke => match event {
                Event::Serialized(state) => (
                    Runner { mode, phase: Phase::Done },
                    Action::Finish(Outcome::Poked(state)),
                ),
                _ => Self::fail(mode, ModelError::InvariantViolation),
            },
            Phase::Done => Self::fail(mode, ModelError::InvariantViolation),
        }
    }
}

} // verus!
