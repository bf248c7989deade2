//! What a whole command comes to on a machine that always answers alike.
//!
//! The machine itself is outside this crate.  Here it is a handful of
//! mathematical functions, and a command is followed from its first step to
//! its last, each answer of the machine handed to the session in turn.

use vstd::prelude::*;
use crate::model::{ModelView, RequestView, begin_spec, handle_spec};
use crate::runner::{
    ActionView, EventView, Mode, ModelError, OutcomeView, ReadoutView, decode, FRAME_LEN,
};
use crate::data::{CGRAM_ENTRIES, OAM_ENTRIES};

verus! {

/// A machine whose answers depend on nothing but what it is given; `M` is
/// all that it holds.
#[verifier::reject_recursive_types(M)]
pub struct Machine<M> {
    /// The machine built from a cartridge image, if it takes the image.
    pub load: spec_fn(Seq<u8>) -> Option<M>,
    /// The machine put into a state, if it takes the state.
    pub restore: spec_fn(M, Seq<u8>) -> Option<M>,
    /// The state of the machine.
    pub save: spec_fn(M) -> Seq<u8>,
    /// The machine after the next frame, and that frame.
    pub render: spec_fn(M) -> (M, Seq<u8>),
    /// What the inspector reads from the machine.
    pub read: spec_fn(M) -> ReadoutView,
    /// The machine after a colour was set.
    pub poke: spec_fn(M, u8, u16) -> M,
}

impl<M> Machine<M> {
    /// The machine after it did `action`, and what is reported of it.
    /// `now` is the machine before, none where none was built yet.  Asked
    /// for anything but to be built while none was built, and asked to end,
    /// it stays as it is and reports that there is no cartridge.
    pub open spec fn respond(self, now: Option<M>, action: ActionView) -> (Option<M>, EventView) {
        match (action, now) {
            (ActionView::Construct(image), _) => match (self.load)(image) {
                Some(m) => (Some(m), EventView::Constructed),
                None => (None, EventView::InvalidImage),
            },
            (ActionView::Deserialize(state), Some(m)) => match (self.restore)(m, state) {
                Some(next) => (Some(next), EventView::Deserialized),
                None => (now, EventView::CorruptState),
            },
            (ActionView::Serialize, Some(m)) => (now, EventView::Serialized((self.save)(m))),
            (ActionView::RenderFrame, Some(m)) => (
                Some((self.render)(m).0),
                EventView::Rendered((self.render)(m).1),
            ),
            (ActionView::Extract, Some(m)) => (now, EventView::Extracted((self.read)(m))),
            (ActionView::SetCgram(index, raw), Some(m)) => (
                Some((self.poke)(m, index, raw)),
                EventView::Poked,
            ),
            _ => (now, EventView::InvalidImage),
        }
    }

    /// The session, the last answer of the session and the machine after at
    /// most `steps` steps of the machine, beginning with `action`.
    pub open spec fn run(self, model: ModelView, action: ActionView, now: Option<M>, steps: nat) -> (
        ModelView,
        ActionView,
        Option<M>,
    )
        decreases steps,
    {
        if steps == 0 || action is Finish {
            (model, action, now)
        } else {
            let (next, event) = self.respond(now, action);
            let (model, action) = handle_spec(model, event);
            self.run(model, action, next, (steps - 1) as nat)
        }
    }

    /// The machine built from `image` and put into `state`, where it takes
    /// both; else why it does not.
    pub open spec fn boot(self, image: Seq<u8>, state: Option<Seq<u8>>) -> Result<M, ModelError> {
        match (self.load)(image) {
            None => Err(ModelError::InvalidImage),
            Some(m) => match state {
                None => Ok(m),
                Some(s) => match (self.restore)(m, s) {
                    Some(restored) => Ok(restored),
                    None => Err(ModelError::CorruptState),
                },
            },
        }
    }

    /// What showing the next frame of `image` from `state` yields.
    pub open spec fn preview(self, image: Seq<u8>, state: Option<Seq<u8>>) -> OutcomeView {
        match self.boot(image, state) {
            Err(error) => OutcomeView::Failed(error),
            Ok(m) => {
                let (after, frame) = (self.render)(m);
                let readout = (self.read)(after);
                if frame.len() != FRAME_LEN || readout.objects.len() != OAM_ENTRIES
                    || readout.cgram.len() != CGRAM_ENTRIES || (self.restore)(
                    after,
                    (self.save)(m),
                ) is None {
                    OutcomeView::Failed(ModelError::InvariantViolation)
                } else {
                    OutcomeView::Previewed(decode(readout, frame))
                }
            },
        }
    }

    /// The state after the next frame of `image` from `state`, where the
    /// machine renders it; else why it does not.
    pub open spec fn commit(self, image: Seq<u8>, state: Option<Seq<u8>>) -> Result<
        Seq<u8>,
        ModelError,
    > {
        match self.boot(image, state) {
            Err(error) => Err(error),
            Ok(m) => {
                let (after, frame) = (self.render)(m);
                let readout = (self.read)(after);
                if frame.len() != FRAME_LEN || readout.objects.len() != OAM_ENTRIES
                    || readout.cgram.len() != CGRAM_ENTRIES {
                    Err(ModelError::InvariantViolation)
                } else {
                    Ok((self.save)(after))
                }
            },
        }
    }

    /// The state after a colour of `image` in `state` was set, where the
    /// machine takes image and state; else why it does not.
    pub open spec fn set_color(
        self,
        image: Seq<u8>,
        state: Option<Seq<u8>>,
        index: u8,
        raw: u16,
    ) -> Result<Seq<u8>, ModelError> {
        match self.boot(image, state) {
            Err(error) => Err(error),
            Ok(m) => Ok((self.save)((self.poke)(m, index, raw))),
        }
    }

    /// The machine after `n` more frames.
    pub open spec fn after_frames(self, m: M, n: nat) -> M
        decreases n,
    {
        if n == 0 {
            m
        } else {
            (self.render)(self.after_frames(m, (n - 1) as nat)).0
        }
    }

    /// The `n`-th frame that the machine renders from now on, counted from
    /// 1.
    pub open spec fn nth_frame(self, m: M, n: nat) -> Seq<u8> {
        (self.render)(self.after_frames(m, (n - 1) as nat)).1
    }

    /// Whether the machine, put into a state it handed out, is as it was
    /// when it handed the state out.
    pub open spec fn restores(self) -> bool {
        forall|at: M, m: M| #[trigger] (self.restore)(at, (self.save)(m)) == Some(m)
    }
}

/// Number of steps of the machine that no command exceeds.
pub open spec fn enough_steps() -> nat {
    16
}

/// Showing the next frame leaves cartridge and state as they were, and
/// yields what `preview` says of them.  So showing it again yields the
/// same, bit for bit.
pub proof fn lemma_update_frame<M>(machine: Machine<M>, model: ModelView)
    requires
        model.run is None,
    ensures
        ({
            let (begun, action) = begin_spec(model, RequestView::Refresh, Mode::Preview);
            let (after, last, _) = machine.run(begun, action, None, enough_steps());
            &&& after == model
            &&& last == ActionView::Finish(machine.preview(model.rom, model.state))
        }),
{
    reveal_with_fuel(Machine::run, 8);
}

/// Loading a cartridge image shows its first frame from the machine as it
/// is when switched on.  Where a frame was shown the image is kept and the
/// state is dropped; where none was shown cartridge and state stay as they
/// were.
pub proof fn lemma_load_rom<M>(machine: Machine<M>, model: ModelView, content: Seq<u8>)
    requires
        model.run is None,
    ensures
        ({
            let (begun, action) = begin_spec(model, RequestView::LoadRom(content), Mode::Preview);
            let (after, last, _) = machine.run(begun, action, None, enough_steps());
            let shown = machine.preview(content, None);
            &&& last == ActionView::Finish(shown)
            &&& shown is Previewed ==> after == (ModelView { rom: content, state: None, run: None })
            &&& !(shown is Previewed) ==> after == model
        }),
{
    reveal_with_fuel(Machine::run, 8);
}

/// Taking up a state shows the frame that follows it.  Where a frame was
/// shown the state is kept; where none was shown cartridge and state stay
/// as they were.
pub proof fn lemma_load_save_state<M>(machine: Machine<M>, model: ModelView, content: Seq<u8>)
    requires
        model.run is None,
    ensures
        ({
            let (begun, action) = begin_spec(
                model,
                RequestView::LoadSaveState(content),
                Mode::Preview,
            );
            let (after, last, _) = machine.run(begun, action, None, enough_steps());
            let shown = machine.preview(model.rom, Some(content));
            &&& last == ActionView::Finish(shown)
            &&& shown is Previewed ==> after == (ModelView { state: Some(content), ..model })
            &&& !(shown is Previewed) ==> after == model
        }),
{
    reveal_with_fuel(Machine::run, 8);
}

/// A run of `first + rest` steps is a run of `first` steps followed by one
/// of `rest` steps.
pub proof fn lemma_run_split<M>(
    machine: Machine<M>,
    model: ModelView,
    action: ActionView,
    now: Option<M>,
    first: nat,
    rest: nat,
)
    ensures
        machine.run(model, action, now, first + rest) == ({
            let (model, action, now) = machine.run(model, action, now, first);
            machine.run(model, action, now, rest)
        }),
    decreases first,
{
    if first != 0 && !(action is Finish) {
        let (next, event) = machine.respond(now, action);
        let (model, action) = handle_spec(model, event);
        lemma_run_split(machine, model, action, next, (first - 1) as nat, rest);
    }
}

/// Showing the next frame takes no more than seven steps, whatever machine
/// stood there before.
proof fn lemma_preview_run<M>(machine: Machine<M>, model: ModelView, now: Option<M>, steps: nat)
    requires
        model.run is None,
        steps >= 7,
    ensures
        ({
            let (begun, action) = begin_spec(model, RequestView::Refresh, Mode::Preview);
            let (after, last, _) = machine.run(begun, action, now, steps);
            &&& after == model
            &&& last == ActionView::Finish(machine.preview(model.rom, model.state))
        }),
{
    let (begun, action) = begin_spec(model, RequestView::Refresh, Mode::Preview);
    assert({
        let (after, last, _) = machine.run(begun, action, now, 7);
        &&& after == model
        &&& last == ActionView::Finish(machine.preview(model.rom, model.state))
    }) by {
        reveal_with_fuel(Machine::run, 8);
    }
    lemma_run_split(machine, begun, action, now, 7, (steps - 7) as nat);
}

/// Going on by one frame keeps the state after that frame and shows the
/// frame that follows it.  Where the machine does not render the frame,
/// cartridge and state stay as they were.
pub proof fn lemma_step<M>(machine: Machine<M>, model: ModelView)
    requires
        model.run is None,
    ensures
        ({
            let (begun, action) = begin_spec(model, RequestView::Step, Mode::Commit);
            let (after, last, _) = machine.run(begun, action, None, enough_steps());
            match machine.commit(model.rom, model.state) {
                Ok(state) => {
                    &&& after == (ModelView { state: Some(state), ..model })
                    &&& last == ActionView::Finish(machine.preview(model.rom, Some(state)))
                },
                Err(error) => {
                    &&& after == model
                    &&& last == ActionView::Finish(OutcomeView::Failed(error))
                },
            }
        }),
{
    let (begun, action) = begin_spec(model, RequestView::Step, Mode::Commit);
    let first: nat = if model.state is Some {
        5
    } else {
        4
    };
    let rest = (enough_steps() - first) as nat;
    let (mid, next, now) = machine.run(begun, action, None, first);
    lemma_run_split(machine, begun, action, None, first, rest);
    match machine.commit(model.rom, model.state) {
        Ok(state) => {
            let kept = ModelView { state: Some(state), ..model };
            assert((mid, next) == begin_spec(kept, RequestView::Refresh, Mode::Preview)) by {
                reveal_with_fuel(Machine::run, 6);
            }
            lemma_preview_run(machine, kept, now, rest);
        },
        Err(error) => {
            assert(mid == model && next == ActionView::Finish(OutcomeView::Failed(error))) by {
                reveal_with_fuel(Machine::run, 6);
            }
        },
    }
}

/// Setting a colour keeps the state that follows and shows the next frame
/// from it.  Where the machine takes neither cartridge nor state, both stay
/// as they were.
pub proof fn lemma_set_cgram<M>(machine: Machine<M>, model: ModelView, index: u8, raw: u16)
    requires
        model.run is None,
    ensures
        ({
            let (begun, action) = begin_spec(model, RequestView::SetCgram, Mode::Poke(index, raw));
            let (after, last, _) = machine.run(begun, action, None, enough_steps());
            match machine.set_color(model.rom, model.state, index, raw) {
                Ok(state) => {
                    &&& after == (ModelView { state: Some(state), ..model })
                    &&& last == ActionView::Finish(machine.preview(model.rom, Some(state)))
                },
                Err(error) => {
                    &&& after == model
                    &&& last == ActionView::Finish(OutcomeView::Failed(error))
                },
            }
        }),
{
    let (begun, action) = begin_spec(model, RequestView::SetCgram, Mode::Poke(index, raw));
    let first: nat = if model.state is Some {
        4
    } else {
        3
    };
    let rest = (enough_steps() - first) as nat;
    let (mid, next, now) = machine.run(begun, action, None, first);
    lemma_run_split(machine, begun, action, None, first, rest);
    match machine.set_color(model.rom, model.state, index, raw) {
        Ok(state) => {
            let kept = ModelView { state: Some(state), ..model };
            assert((mid, next) == begin_spec(kept, RequestView::Refresh, Mode::Preview)) by {
                reveal_with_fuel(Machine::run, 5);
            }
            lemma_preview_run(machine, kept, now, rest);
        },
        Err(error) => {
            assert(mid == model && next == ActionView::Finish(OutcomeView::Failed(error))) by {
                reveal_with_fuel(Machine::run, 5);
            }
        },
    }
}

/// Showing the next frame twice in a row yields the same both times, and
/// cartridge and state are after each what they were before.
pub proof fn lemma_update_frame_twice<M>(machine: Machine<M>, model: ModelView)
    requires
        model.run is None,
    ensures
        ({
            let (begun, action) = begin_spec(model, RequestView::Refresh, Mode::Preview);
            let (once, first, _) = machine.run(begun, action, None, enough_steps());
            let (begun, action) = begin_spec(once, RequestView::Refresh, Mode::Preview);
            let (twice, second, _) = machine.run(begun, action, None, enough_steps());
            &&& once == model
            &&& twice == model
            &&& first == second
        }),
{
    lemma_update_frame(machine, model);
}

/// On a machine that restores what it saved, showing the next frame leaves
/// the machine as it was before the frame.
pub proof fn lemma_update_frame_rolls_back<M>(machine: Machine<M>, model: ModelView)
    requires
        model.run is None,
        machine.restores(),
        machine.preview(model.rom, model.state) is Previewed,
    ensures
        ({
            let (begun, action) = begin_spec(model, RequestView::Refresh, Mode::Preview);
            let (_, _, left) = machine.run(begun, action, None, enough_steps());
            Ok::<M, ModelError>(left.unwrap()) == machine.boot(model.rom, model.state)
        }),
{
    reveal_with_fuel(Machine::run, 8);
}

/// The frame shown after going on by one frame is the frame that follows
/// the one shown before.  So on a machine that restores what it saved, the
/// two differ wherever the machine renders two frames in a row that differ.
pub proof fn lemma_step_shows_following_frame<M>(machine: Machine<M>, model: ModelView)
    requires
        model.run is None,
        machine.restores(),
        machine.preview(model.rom, model.state) is Previewed,
        machine.commit(model.rom, model.state) is Ok,
        machine.preview(model.rom, Some(machine.commit(model.rom, model.state)->Ok_0)) is Previewed,
    ensures
        ({
            let m = machine.boot(model.rom, model.state)->Ok_0;
            let (next, frame) = (machine.render)(m);
            let kept = machine.commit(model.rom, model.state)->Ok_0;
            let before = machine.preview(model.rom, model.state)->Previewed_0.frame;
            let after = machine.preview(model.rom, Some(kept))->Previewed_0.frame;
            &&& before == frame
            &&& after == (machine.render)(next).1
            &&& (machine.render)(next).1 != frame ==> after != before
        }),
{
}

/// On a machine that restores what it saved, a fresh machine of a
/// cartridge that takes up the state another machine handed out is that
/// machine: it hands out the same state, and every frame it renders from
/// then on is the frame the other renders.
pub proof fn lemma_saved_state_replays<M>(machine: Machine<M>, image: Seq<u8>, m: M)
    requires
        machine.restores(),
        (machine.load)(image) is Some,
    ensures
        ({
            let state = (machine.save)(m);
            let taken = machine.boot(image, Some(state));
            &&& taken == Ok::<M, ModelError>(m)
            &&& (machine.save)(taken->Ok_0) == state
            &&& forall|n: nat| n >= 1 ==> machine.nth_frame(taken->Ok_0, n) == machine.nth_frame(m, n)
        }),
{
}

/// On a machine that restores what it saved, taking up the state that a
/// machine of the loaded cartridge handed out shows the first frame that
/// machine renders next, and the state is kept; or no frame is shown and
/// cartridge and state stay as they were.
pub proof fn lemma_load_save_state_replays<M>(machine: Machine<M>, model: ModelView, m: M)
    requires
        model.run is None,
        machine.restores(),
        (machine.load)(model.rom) is Some,
    ensures
        ({
            let content = (machine.save)(m);
            let (begun, action) = begin_spec(
                model,
                RequestView::LoadSaveState(content),
                Mode::Preview,
            );
            let (after, last, _) = machine.run(begun, action, None, enough_steps());
            match last {
                ActionView::Finish(OutcomeView::Previewed(data)) => {
                    &&& after == (ModelView { state: Some(content), ..model })
                    &&& data.frame == machine.nth_frame(m, 1)
                },
                _ => after == model,
            }
        }),
{
    lemma_load_save_state(machine, model, (machine.save)(m));
    lemma_saved_state_replays(machine, model.rom, m);
}

} // verus!
