use std::path::PathBuf;

use breeze_tool::blank_rom::load_blank_rom;
use breeze_tool::controller::Controller;
use breeze_tool::data::{CgramColor, ObjectRecord, Sprite};
use breeze_tool::model::Model;
use breeze_tool::registers::RegisterSnapshot;
use breeze_tool::runner::{
    decode_readout, format_info, Action, Event, Mode, ModelError, Outcome, Phase, Readout, Runner,
    FRAME_HEIGHT, FRAME_LEN, FRAME_WIDTH,
};

/// A machine that counts its frames.  Its state is three bytes: the count
/// and the first colour.  It takes every image of four bytes or more.
struct Counting {
    frames: u8,
    color: u16,
    frame_len: usize,
    objects: usize,
    colors: usize,
    forgets: bool,
    log: Vec<String>,
}

fn counting_machine() -> Counting {
    Counting {
        frames: 0,
        color: 0,
        frame_len: FRAME_LEN,
        objects: 128,
        colors: 256,
        forgets: false,
        log: vec![],
    }
}

fn registers_showing(frames: u8) -> RegisterSnapshot {
    RegisterSnapshot {
        inidisp: frames,
        obsel: 0x61,
        bgmode: 0,
        mosaic: 0,
        m7sel: 0,
        w12sel: 0,
        w34sel: 0,
        wobjsel: 0,
        wbglog: 0,
        wobjlog: 0,
        tm: 0,
        ts: 0,
        tmw: 0,
        tsw: 0,
        cgwsel: 0,
        cgadsub: 0,
        setini: 0,
    }
}

fn readout_of(frames: u8, color: u16, objects: usize, colors: usize) -> Readout {
    Readout {
        objects: (0..objects)
            .map(|n| {
                ObjectRecord::new(n as u8, false, n as i16, frames, n % 2 == 1, 1, 3, false, false)
                    .unwrap()
            })
            .collect(),
        ppu: registers_showing(frames),
        cgram: (0..colors).map(|_| CgramColor { raw: color, r: 1, g: 2, b: 3 }).collect(),
        title: Some(String::from("COUNTING")),
        h_counter: 339,
        v_counter: frames as u16,
    }
}

fn perform(machine: &mut Counting, action: &Action) -> Event {
    match action {
        Action::Construct(image) => {
            machine.log.push(String::from("construct"));
            if image.len() < 4 {
                return Event::InvalidImage;
            }
            machine.frames = 0;
            machine.color = 0;
            Event::Constructed
        }
        Action::Deserialize(state) => {
            machine.log.push(format!("deserialize {:?}", state));
            if state.len() != 3 || machine.forgets {
                return Event::CorruptState;
            }
            machine.frames = state[0];
            machine.color = state[1] as u16 | (state[2] as u16) << 8;
            Event::Deserialized
        }
        Action::Serialize => {
            machine.log.push(String::from("serialize"));
            Event::Serialized(vec![machine.frames, machine.color as u8, (machine.color >> 8) as u8])
        }
        Action::RenderFrame => {
            machine.log.push(String::from("render"));
            machine.frames = machine.frames.wrapping_add(1);
            Event::Rendered(vec![machine.frames; machine.frame_len])
        }
        Action::Extract => {
            machine.log.push(String::from("extract"));
            Event::Extracted(readout_of(
                machine.frames,
                machine.color,
                machine.objects,
                machine.colors,
            ))
        }
        Action::SetCgram(index, raw) => {
            machine.log.push(format!("poke {} {}", index, raw));
            machine.color = *raw;
            Event::Poked
        }
        Action::Finish(_) => unreachable!(),
    }
}

fn run_to_end(model: &mut Model, machine: &mut Counting, first: Action) -> Outcome {
    let mut action = first;
    loop {
        if let Action::Finish(outcome) = action {
            return outcome;
        }
        let event = perform(machine, &action);
        action = model.handle(event);
    }
}

fn run_runner(mode: Mode, prior: Option<Vec<u8>>, machine: &mut Counting) -> Outcome {
    let (mut runner, mut action) = Runner::start(mode, load_blank_rom(), prior);
    loop {
        if let Action::Finish(outcome) = action {
            assert_eq!(runner.phase, Phase::Done);
            return outcome;
        }
        let event = perform(machine, &action);
        let next = runner.advance(event);
        runner = next.0;
        action = next.1;
        assert_eq!(runner.mode, mode);
    }
}

fn frame_of(outcome: &Outcome) -> Vec<u8> {
    match outcome {
        Outcome::Previewed(data) => data.frame.clone(),
        other => panic!("no frame was shown: {:?}", other),
    }
}

#[test]
fn frame_is_256_by_224_in_three_bytes() {
    assert_eq!(FRAME_WIDTH, 256);
    assert_eq!(FRAME_HEIGHT, 224);
    assert_eq!(FRAME_LEN, 256 * 224 * 3);
    assert_eq!(FRAME_LEN, 172032);
}

#[test]
fn runner_starts_by_building_the_machine() {
    let (runner, action) = Runner::start(Mode::Commit, vec![1, 2, 3, 4], Some(vec![9]));
    assert_eq!(runner.mode, Mode::Commit);
    assert_eq!(runner.phase, Phase::Constructing { prior: Some(vec![9]) });
    assert_eq!(action, Action::Construct(vec![1, 2, 3, 4]));
}

#[test]
fn preview_steps_without_prior_state() {
    let mut machine = counting_machine();
    let outcome = run_runner(Mode::Preview, None, &mut machine);
    assert!(matches!(outcome, Outcome::Previewed(_)));
    assert_eq!(
        machine.log,
        vec!["construct", "serialize", "render", "extract", "deserialize [0, 0, 0]"]
    );
}

#[test]
fn preview_steps_with_prior_state() {
    let mut machine = counting_machine();
    let outcome = run_runner(Mode::Preview, Some(vec![7, 0x34, 0x12]), &mut machine);
    assert_eq!(frame_of(&outcome), vec![8u8; FRAME_LEN]);
    assert_eq!(
        machine.log,
        vec![
            "construct",
            "deserialize [7, 52, 18]",
            "serialize",
            "render",
            "extract",
            "deserialize [7, 52, 18]"
        ]
    );
    // The machine is back where it was before the frame.
    assert_eq!(machine.frames, 7);
    assert_eq!(machine.color, 0x1234);
}

#[test]
fn commit_steps_and_new_state() {
    let mut machine = counting_machine();
    let outcome = run_runner(Mode::Commit, Some(vec![7, 0, 0]), &mut machine);
    assert_eq!(
        machine.log,
        vec!["construct", "deserialize [7, 0, 0]", "render", "extract", "serialize"]
    );
    match outcome {
        Outcome::Committed(state, data) => {
            assert_eq!(state, vec![8, 0, 0]);
            assert_eq!(data.frame, vec![8u8; FRAME_LEN]);
            assert_eq!(data.ppu, registers_showing(8));
        }
        other => panic!("not committed: {:?}", other),
    }
}

#[test]
fn poke_steps_and_new_state() {
    let mut machine = counting_machine();
    let outcome = run_runner(Mode::Poke(5, 0x7fff), Some(vec![2, 0, 0]), &mut machine);
    assert_eq!(
        machine.log,
        vec!["construct", "deserialize [2, 0, 0]", "poke 5 32767", "serialize"]
    );
    assert_eq!(outcome, Outcome::Poked(vec![2, 0xff, 0x7f]));
}

#[test]
fn runner_reports_an_image_that_is_not_taken() {
    let (runner, _) = Runner::start(Mode::Preview, vec![], None);
    let (runner, action) = runner.advance(Event::InvalidImage);
    assert_eq!(runner.phase, Phase::Done);
    assert_eq!(action, Action::Finish(Outcome::Failed(ModelError::InvalidImage)));
}

#[test]
fn runner_reports_a_state_that_is_not_taken() {
    let mut machine = counting_machine();
    let outcome = run_runner(Mode::Commit, Some(vec![1, 2]), &mut machine);
    assert_eq!(outcome, Outcome::Failed(ModelError::CorruptState));
    assert_eq!(machine.log, vec!["construct", "deserialize [1, 2]"]);
}

#[test]
fn runner_refuses_an_event_out_of_step() {
    let (runner, _) = Runner::start(Mode::Preview, vec![0; 4], None);
    let (runner, action) = runner.advance(Event::Rendered(vec![0; FRAME_LEN]));
    assert_eq!(action, Action::Finish(Outcome::Failed(ModelError::InvariantViolation)));
    let (_, action) = runner.advance(Event::Constructed);
    assert_eq!(action, Action::Finish(Outcome::Failed(ModelError::InvariantViolation)));
}

#[test]
fn runner_refuses_a_frame_of_another_length() {
    let mut machine = counting_machine();
    machine.frame_len = FRAME_LEN - 1;
    let outcome = run_runner(Mode::Preview, None, &mut machine);
    assert_eq!(outcome, Outcome::Failed(ModelError::InvariantViolation));
    assert_eq!(machine.log, vec!["construct", "serialize", "render"]);
}

#[test]
fn runner_refuses_an_object_table_of_another_length() {
    let mut machine = counting_machine();
    machine.objects = 127;
    assert_eq!(
        run_runner(Mode::Commit, None, &mut machine),
        Outcome::Failed(ModelError::InvariantViolation)
    );
    let mut machine = counting_machine();
    machine.colors = 257;
    assert_eq!(
        run_runner(Mode::Preview, None, &mut machine),
        Outcome::Failed(ModelError::InvariantViolation)
    );
}

#[test]
fn runner_reports_a_snapshot_that_is_not_taken_back() {
    let (runner, _) = Runner::start(Mode::Preview, vec![0; 4], None);
    let (runner, _) = runner.advance(Event::Constructed);
    let (runner, _) = runner.advance(Event::Serialized(vec![1, 2, 3]));
    let (runner, _) = runner.advance(Event::Rendered(vec![0; FRAME_LEN]));
    let (runner, action) = runner.advance(Event::Extracted(readout_of(1, 0, 128, 256)));
    assert_eq!(action, Action::Deserialize(vec![1, 2, 3]));
    let (_, action) = runner.advance(Event::CorruptState);
    assert_eq!(action, Action::Finish(Outcome::Failed(ModelError::InvariantViolation)));
}

#[test]
fn readout_is_decoded_object_by_object() {
    let readout = readout_of(4, 0x001f, 128, 256);
    let data = decode_readout(readout.clone(), vec![4, 5, 6]);
    assert_eq!(data.sprites.len(), 128);
    for (n, record) in readout.objects.iter().enumerate() {
        assert_eq!(data.sprites[n], Sprite::new(&readout.ppu, record));
    }
    assert_eq!(data.sprites[1].size, (32, 32));
    assert_eq!(data.sprites[2].size, (16, 16));
    assert_eq!(data.sprites[2].tile_addr, (0x2000 | 2 << 4) << 1);
    assert_eq!(data.sprites[2].color_start, 176);
    assert_eq!(data.ppu, readout.ppu);
    assert_eq!(data.cgram, readout.cgram);
    assert_eq!(data.frame, vec![4, 5, 6]);
    assert_eq!(data.info, "ROM name: COUNTING\nH position: 339\nV position: 4");
}

#[test]
fn info_text_exact_values() {
    assert_eq!(
        format_info(&Some(String::from("BLANK")), 0, 261),
        "ROM name: BLANK\nH position: 0\nV position: 261"
    );
    assert_eq!(format_info(&None, 12, 3), "ROM name: <none>\nH position: 12\nV position: 3");
}

#[test]
fn error_messages() {
    assert_eq!(ModelError::InvalidImage.message(), "the cartridge image is not valid");
    assert_eq!(
        ModelError::CorruptState.message(),
        "the saved state is corrupt or belongs to another cartridge"
    );
    assert_eq!(
        ModelError::InvariantViolation.message(),
        "the machine and the inspector are out of step"
    );
}

#[test]
fn new_session_holds_the_blank_cartridge() {
    let model = Model::new();
    assert_eq!(*model.rom(), load_blank_rom());
    assert_eq!(*model.state(), None);
    assert!(!model.is_busy());
}

#[test]
fn preview_twice_yields_the_same_and_changes_nothing() {
    let mut model = Model::new();
    let mut machine = counting_machine();
    let first = model.load_save_state(vec![41, 0, 0]);
    run_to_end(&mut model, &mut machine, first);
    let before = model.clone();

    let first = model.update_frame();
    let once = run_to_end(&mut model, &mut machine, first);
    assert_eq!(model, before);
    let first = model.update_frame();
    let twice = run_to_end(&mut model, &mut machine, first);
    assert_eq!(model, before);

    assert_eq!(once, twice);
    assert_eq!(frame_of(&once), vec![42u8; FRAME_LEN]);
    assert_eq!(*model.state(), Some(vec![41, 0, 0]));
}

#[test]
fn preview_from_power_on_changes_nothing() {
    let mut model = Model::new();
    let mut machine = counting_machine();
    let first = model.update_frame();
    assert!(model.is_busy());
    assert_eq!(first, Action::Construct(load_blank_rom()));
    let outcome = run_to_end(&mut model, &mut machine, first);
    assert_eq!(frame_of(&outcome), vec![1u8; FRAME_LEN]);
    assert_eq!(model, Model::new());
}

#[test]
fn step_keeps_the_new_state_and_shows_the_frame_after_it() {
    let mut model = Model::new();
    let mut machine = counting_machine();
    let first = model.update_frame();
    let before = run_to_end(&mut model, &mut machine, first);

    let first = model.step();
    let shown = run_to_end(&mut model, &mut machine, first);
    assert_eq!(*model.state(), Some(vec![1, 0, 0]));
    assert!(!model.is_busy());
    assert_eq!(frame_of(&before), vec![1u8; FRAME_LEN]);
    assert_eq!(frame_of(&shown), vec![2u8; FRAME_LEN]);
    assert_ne!(frame_of(&shown), frame_of(&before));

    let first = model.update_frame();
    let again = run_to_end(&mut model, &mut machine, first);
    assert_eq!(again, shown);

    let first = model.step();
    run_to_end(&mut model, &mut machine, first);
    assert_eq!(*model.state(), Some(vec![2, 0, 0]));
}

#[test]
fn step_runs_commit_then_preview() {
    let mut model = Model::new();
    let mut machine = counting_machine();
    let first = model.step();
    run_to_end(&mut model, &mut machine, first);
    assert_eq!(
        machine.log,
        vec![
            "construct",
            "render",
            "extract",
            "serialize",
            "construct",
            "deserialize [1, 0, 0]",
            "serialize",
            "render",
            "extract",
            "deserialize [1, 0, 0]"
        ]
    );
}

#[test]
fn cartridge_that_is_not_taken_is_not_kept() {
    let mut model = Model::new();
    let mut machine = counting_machine();
    let first = model.step();
    run_to_end(&mut model, &mut machine, first);
    let before = model.clone();

    let first = model.load_rom(vec![1, 2, 3]);
    assert_eq!(first, Action::Construct(vec![1, 2, 3]));
    let outcome = run_to_end(&mut model, &mut machine, first);
    assert_eq!(outcome, Outcome::Failed(ModelError::InvalidImage));
    assert_eq!(model, before);
}

#[test]
fn cartridge_that_is_taken_replaces_cartridge_and_state() {
    let mut model = Model::new();
    let mut machine = counting_machine();
    let first = model.step();
    run_to_end(&mut model, &mut machine, first);
    assert!(model.state().is_some());

    let first = model.load_rom(vec![1, 2, 3, 4, 5]);
    let outcome = run_to_end(&mut model, &mut machine, first);
    assert_eq!(frame_of(&outcome), vec![1u8; FRAME_LEN]);
    assert_eq!(*model.rom(), vec![1, 2, 3, 4, 5]);
    assert_eq!(*model.state(), None);
}

#[test]
fn state_that_is_not_taken_is_not_kept() {
    let mut model = Model::new();
    let mut machine = counting_machine();
    let first = model.load_save_state(vec![5, 0, 0]);
    run_to_end(&mut model, &mut machine, first);
    let before = model.clone();

    let first = model.load_save_state(vec![1, 2, 3, 4]);
    let outcome = run_to_end(&mut model, &mut machine, first);
    assert_eq!(outcome, Outcome::Failed(ModelError::CorruptState));
    assert_eq!(model, before);
    assert_eq!(*model.state(), Some(vec![5, 0, 0]));
}

#[test]
fn state_that_is_taken_is_kept() {
    let mut model = Model::new();
    let mut machine = counting_machine();
    let first = model.load_save_state(vec![5, 0x1f, 0]);
    let outcome = run_to_end(&mut model, &mut machine, first);
    assert_eq!(frame_of(&outcome), vec![6u8; FRAME_LEN]);
    assert_eq!(*model.state(), Some(vec![5, 0x1f, 0]));
    assert_eq!(*model.rom(), load_blank_rom());
}

#[test]
fn setting_a_colour_keeps_the_state_that_follows() {
    let mut model = Model::new();
    let mut machine = counting_machine();
    let first = model.load_save_state(vec![5, 0, 0]);
    run_to_end(&mut model, &mut machine, first);

    let first = model.set_cgram(0, 0x03e0);
    let outcome = run_to_end(&mut model, &mut machine, first);
    assert_eq!(*model.state(), Some(vec![5, 0xe0, 0x03]));
    match outcome {
        Outcome::Previewed(data) => {
            assert_eq!(data.cgram[0].raw, 0x03e0);
            assert_eq!(data.frame, vec![6u8; FRAME_LEN]);
        }
        other => panic!("no frame was shown: {:?}", other),
    }
}

#[test]
fn failed_step_changes_nothing() {
    let mut model = Model::new();
    let mut machine = counting_machine();
    machine.frame_len = 10;
    let first = model.step();
    let outcome = run_to_end(&mut model, &mut machine, first);
    assert_eq!(outcome, Outcome::Failed(ModelError::InvariantViolation));
    assert_eq!(model, Model::new());
}

#[test]
fn command_during_a_run_is_refused() {
    let mut model = Model::new();
    let first = model.update_frame();
    assert!(matches!(first, Action::Construct(_)));
    let busy = model.clone();
    let refused = Action::Finish(Outcome::Failed(ModelError::InvariantViolation));
    assert_eq!(model.step(), refused);
    assert_eq!(model.update_frame(), refused);
    assert_eq!(model.load_rom(vec![0; 8]), refused);
    assert_eq!(model.load_save_state(vec![0; 3]), refused);
    assert_eq!(model.set_cgram(0, 0), refused);
    assert_eq!(model, busy);

    let mut machine = counting_machine();
    let outcome = run_to_end(&mut model, &mut machine, first);
    assert!(matches!(outcome, Outcome::Previewed(_)));
}

#[test]
fn event_without_a_run_is_refused() {
    let mut model = Model::new();
    assert_eq!(
        model.handle(Event::Constructed),
        Action::Finish(Outcome::Failed(ModelError::InvariantViolation))
    );
    assert_eq!(model, Model::new());
}

#[test]
fn controller_takes_note_of_a_pick() {
    let controller = Controller {};
    assert!(controller.load_rom(PathBuf::from("some.sfc")).is_ok());
}

#[test]
fn saved_state_replays_on_a_fresh_session() {
    let mut first_model = Model::new();
    let mut first_machine = counting_machine();
    for _ in 0..3 {
        let first = first_model.step();
        run_to_end(&mut first_model, &mut first_machine, first);
    }
    let blob = first_model.state().clone().unwrap();
    assert_eq!(blob, vec![3, 0, 0]);

    let mut fresh_model = Model::new();
    let mut fresh_machine = counting_machine();
    let first = fresh_model.load_save_state(blob.clone());
    let shown = run_to_end(&mut fresh_model, &mut fresh_machine, first);
    assert_eq!(*fresh_model.state(), Some(blob));
    let first = first_model.update_frame();
    assert_eq!(shown, run_to_end(&mut first_model, &mut first_machine, first));

    for n in 1..=5u8 {
        let first = first_model.step();
        let expected = run_to_end(&mut first_model, &mut first_machine, first);
        let first = fresh_model.step();
        let got = run_to_end(&mut fresh_model, &mut fresh_machine, first);
        assert_eq!(got, expected);
        assert_eq!(frame_of(&got), vec![3 + n + 1; FRAME_LEN]);
        assert_eq!(fresh_model.state(), first_model.state());
    }
}
