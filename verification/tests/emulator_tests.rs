use jade::emulator::{
    instructions_per_tick, latest_display, Display, Executor, InstructionSettings, Key, KeySet,
    ProgramState, Reaction, Request, Response, Speed, DEFAULT_INSTRUCTIONS_PER_SECOND,
    DISPLAY_HEIGHT, DISPLAY_WIDTH, TIMER_INTERVAL_MICROS,
};
use jade::processor::{EmulatorError, ExecutionError, LoadingError};

fn program(words: &[u16]) -> Vec<u8> {
    let mut bytes = Vec::new();
    for word in words {
        bytes.push((word >> 8) as u8);
        bytes.push((word & 0xff) as u8);
    }
    bytes
}

fn host_with(words: &[u16]) -> Executor {
    let mut host = Executor::new();
    let reaction = host.process(Request::LoadProgram(program(words)));
    assert_eq!(reaction.responses, vec![Response::LoadProgram(Ok(()))]);
    host
}

fn display_of(host: &mut Executor) -> Display {
    let reaction = host.process(Request::Display);
    assert_eq!(reaction.responses.len(), 1);
    match &reaction.responses[0] {
        Response::Display(display) => display.clone(),
        other => panic!("no display: {:?}", other),
    }
}

fn silent(reaction: Reaction) {
    assert_eq!(reaction, Reaction { responses: vec![], sound: false });
}

#[test]
fn display_has_64_by_32_pixels() {
    assert_eq!(DISPLAY_WIDTH, 64);
    assert_eq!(DISPLAY_HEIGHT, 32);
}

#[test]
fn speed_holds_the_rate() {
    assert_eq!(Speed::new(700).instructions_per_second(), 700);
    assert_eq!(Speed::new(0).instructions_per_second(), 0);
    assert_eq!(Speed::new(700), Speed::new(700));
    assert_ne!(Speed::new(700), Speed::new(701));
}

#[test]
fn budget_of_a_tick_at_the_default_speed_is_12() {
    assert_eq!(TIMER_INTERVAL_MICROS, 16666);
    assert_eq!(DEFAULT_INSTRUCTIONS_PER_SECOND, 700);
    assert_eq!(instructions_per_tick(Speed::new(700)), 12);
}

#[test]
fn budget_of_a_tick_is_rounded_up() {
    assert_eq!(instructions_per_tick(Speed::new(0)), 0);
    assert_eq!(instructions_per_tick(Speed::new(1)), 1);
    assert_eq!(instructions_per_tick(Speed::new(59)), 1);
    assert_eq!(instructions_per_tick(Speed::new(60)), 1);
    assert_eq!(instructions_per_tick(Speed::new(61)), 2);
    assert_eq!(instructions_per_tick(Speed::new(1000)), 17);
    assert_eq!(instructions_per_tick(Speed::new(1_000_000)), 16666);
    assert_eq!(instructions_per_tick(Speed::new(1_000_001)), 16667);
    assert_eq!(instructions_per_tick(Speed::new(4_294_967_295)), 71_579_925);
}

#[test]
fn new_host_is_stopped() {
    let mut host = Executor::new();
    assert_eq!(host.state(), ProgramState::Stopped);
    assert_eq!(host.budget(), 0);
    assert!(!host.sound());
    assert_eq!(host.handle(Request::State), Some(Response::State(ProgramState::Stopped)));
    assert_eq!(display_of(&mut host).content, vec![false; 2048]);
}

#[test]
fn host_runs_clear_screen_then_self_jump() {
    let mut host = host_with(&[0x00e0, 0x1202]);
    let reaction = host.process(Request::Step);
    assert_eq!(reaction, Reaction { responses: vec![Response::Step(Ok(()))], sound: false });
    assert_eq!(display_of(&mut host).content, vec![false; 2048]);
    for _ in 0..50 {
        assert_eq!(host.process(Request::Step).responses, vec![Response::Step(Ok(()))]);
    }
    assert_eq!(display_of(&mut host).content, vec![false; 2048]);
    assert_eq!(host.state(), ProgramState::Stopped);
}

#[test]
fn host_rejects_a_program_that_is_too_large() {
    let mut host = host_with(&[0xa050, 0xd005]);
    host.process(Request::Step);
    host.process(Request::Step);
    let before = display_of(&mut host);
    assert_eq!(before.content.iter().filter(|on| **on).count(), 14);
    let reaction = host.process(Request::LoadProgram(vec![0; 4096 - 0x200 + 1]));
    assert_eq!(
        reaction.responses,
        vec![Response::LoadProgram(Err(EmulatorError::Loading(LoadingError::RomTooLarge)))]
    );
    assert_eq!(display_of(&mut host), before);
    let reaction = host.process(Request::LoadProgram(vec![0; 4096 - 0x200]));
    assert_eq!(reaction.responses, vec![Response::LoadProgram(Ok(()))]);
    assert_eq!(display_of(&mut host).content, vec![false; 2048]);
}

#[test]
fn run_and_stop_change_the_state() {
    let mut host = host_with(&[0x1200]);
    silent(host.process(Request::RunProgram(Speed::new(700))));
    assert_eq!(host.state(), ProgramState::Running);
    assert_eq!(
        host.process(Request::State).responses,
        vec![Response::State(ProgramState::Running)]
    );
    silent(host.process(Request::RunProgram(Speed::new(60))));
    assert_eq!(host.state(), ProgramState::Running);
    silent(host.process(Request::Stop));
    assert_eq!(host.state(), ProgramState::Stopped);
    assert_eq!(
        host.process(Request::State).responses,
        vec![Response::State(ProgramState::Stopped)]
    );
    silent(host.process(Request::Stop));
    assert_eq!(host.state(), ProgramState::Stopped);
}

#[test]
fn a_tick_while_stopped_pays_for_nothing() {
    // V0 = 0x80; I = 0x300; store V0; draw the row at (0, 0).
    let mut host = host_with(&[0x6080, 0xa300, 0xf055, 0xd001, 0x1208]);
    silent(host.process(Request::TimerTick));
    assert_eq!(host.budget(), 0);
    assert_eq!(display_of(&mut host).content, vec![false; 2048]);
    silent(host.process(Request::RunProgram(Speed::new(700))));
    silent(host.process(Request::TimerTick));
    let display = display_of(&mut host);
    assert!(display.get(0, 0));
    assert_eq!(display.content.iter().filter(|on| **on).count(), 1);
}

#[test]
fn a_tick_at_a_low_rate_pays_for_one_instruction() {
    // Each instruction draws the row 0x80 one column further to the right.
    // V0 = 0x80; I = 0x300; store V0; V1 = 0; 0x208: draw at (V1, 0); V1 += 2; jump 0x208.
    let mut host = host_with(&[0x6080, 0xa300, 0xf055, 0x6100, 0xd101, 0x7102, 0x1208]);
    silent(host.process(Request::RunProgram(Speed::new(60))));
    for _ in 0..4 {
        silent(host.process(Request::TimerTick));
        assert_eq!(display_of(&mut host).content, vec![false; 2048]);
    }
    silent(host.process(Request::TimerTick));
    let display = display_of(&mut host);
    assert!(display.get(0, 0));
    assert_eq!(display.content.iter().filter(|on| **on).count(), 1);
    silent(host.process(Request::TimerTick));
    silent(host.process(Request::TimerTick));
    assert_eq!(display_of(&mut host).content.iter().filter(|on| **on).count(), 1);
    silent(host.process(Request::TimerTick));
    let display = display_of(&mut host);
    assert!(display.get(0, 0));
    assert!(display.get(2, 0));
    assert_eq!(display.content.iter().filter(|on| **on).count(), 2);
}

#[test]
fn a_tick_at_700_per_second_runs_12_instructions() {
    // V0 = 0x80; I = 0x300; store V0; V1 = 0; 0x208: draw at (V1, 0); V1 += 2; jump 0x208.
    // 12 instructions: 4 to set up, then draw, add, jump, draw, add, jump, draw, add.
    let mut host = host_with(&[0x6080, 0xa300, 0xf055, 0x6100, 0xd101, 0x7102, 0x1208]);
    silent(host.process(Request::RunProgram(Speed::new(700))));
    silent(host.process(Request::TimerTick));
    let display = display_of(&mut host);
    assert!(display.get(0, 0));
    assert!(display.get(2, 0));
    assert!(display.get(4, 0));
    assert_eq!(display.content.iter().filter(|on| **on).count(), 3);
    // The next 12: jump, then draw, add, jump three times, then draw, add.
    silent(host.process(Request::TimerTick));
    assert_eq!(display_of(&mut host).content.iter().filter(|on| **on).count(), 7);
}

#[test]
fn a_failure_while_running_stops_the_host() {
    let mut host = host_with(&[0x6001, 0xffff, 0x6002]);
    silent(host.process(Request::RunProgram(Speed::new(700))));
    let reaction = host.process(Request::TimerTick);
    assert_eq!(
        reaction.responses,
        vec![Response::RunError(EmulatorError::Execution {
            address: 0x202,
            instruction: 0xffff,
            source: ExecutionError::UnknownInstruction(0xffff),
        })]
    );
    assert_eq!(host.state(), ProgramState::Stopped);
    assert_eq!(host.budget(), 0);
    // The host goes on to serve requests.
    silent(host.process(Request::TimerTick));
    assert_eq!(host.process(Request::Step).responses, vec![Response::Step(Ok(()))]);
}

#[test]
fn a_failed_step_leaves_the_state_of_the_host() {
    let mut host = host_with(&[0x00ee, 0x1202]);
    silent(host.process(Request::RunProgram(Speed::new(700))));
    let reaction = host.process(Request::Step);
    assert_eq!(
        reaction.responses,
        vec![Response::Step(Err(EmulatorError::Execution {
            address: 0x200,
            instruction: 0x00ee,
            source: ExecutionError::StackUnderflow,
        }))]
    );
    assert_eq!(host.state(), ProgramState::Running);
    silent(host.process(Request::TimerTick));
    assert_eq!(host.state(), ProgramState::Running);
}

#[test]
fn a_step_and_a_run_error_are_reported_in_order() {
    // A budget that is left over cannot be built through requests, so the two responses
    // come from two requests: first the step, then the tick.
    let mut host = host_with(&[0x6001, 0x0000]);
    silent(host.process(Request::RunProgram(Speed::new(700))));
    assert_eq!(host.process(Request::Step).responses, vec![Response::Step(Ok(()))]);
    let reaction = host.process(Request::TimerTick);
    assert_eq!(
        reaction.responses,
        vec![Response::RunError(EmulatorError::Execution {
            address: 0x202,
            instruction: 0x0000,
            source: ExecutionError::UnknownInstruction(0x0000),
        })]
    );
}

#[test]
fn sound_follows_the_sound_timer() {
    // V0 = 2; sound timer = V0; jump to itself.
    let mut host = host_with(&[0x6002, 0xf018, 0x1204]);
    assert!(!host.process(Request::Step).sound);
    let reaction = host.process(Request::Step);
    assert_eq!(reaction, Reaction { responses: vec![Response::Step(Ok(()))], sound: true });
    assert!(host.sound());
    assert!(host.process(Request::TimerTick).sound);
    assert!(!host.process(Request::TimerTick).sound);
    assert!(!host.sound());
    assert!(!host.process(Request::TimerTick).sound);
}

#[test]
fn timers_count_down_while_stopped() {
    // V0 = 3; delay timer = V0; V1 = delay timer.
    let mut host = host_with(&[0x6003, 0xf015, 0xf107, 0x3102, 0x0000, 0x1200]);
    host.process(Request::Step);
    host.process(Request::Step);
    silent(host.process(Request::TimerTick));
    host.process(Request::Step);
    // V1 is 2, so the skip is taken and the jump is reached.
    assert_eq!(host.process(Request::Step).responses, vec![Response::Step(Ok(()))]);
    assert_eq!(host.process(Request::Step).responses, vec![Response::Step(Ok(()))]);
}

#[test]
fn settings_are_replaced_and_survive_a_load() {
    let settings =
        InstructionSettings { use_bxnn_instead_bnnn: true, ..InstructionSettings::default() };
    let mut host = Executor::new();
    silent(host.process(Request::LoadSettings(settings)));
    // V0 = 0; V2 = 2; jump to 0x206 + V2 = 0x208 under the settings, to 0x206 otherwise.
    host.process(Request::LoadProgram(program(&[0x6000, 0x6202, 0xb206, 0x0000, 0x1208])));
    for _ in 0..4 {
        assert_eq!(host.process(Request::Step).responses, vec![Response::Step(Ok(()))]);
    }
    silent(host.process(Request::LoadSettings(InstructionSettings::default())));
    host.process(Request::LoadProgram(program(&[0x6000, 0x6202, 0xb206, 0x0000, 0x1208])));
    for _ in 0..3 {
        assert_eq!(host.process(Request::Step).responses, vec![Response::Step(Ok(()))]);
    }
    assert_eq!(
        host.process(Request::Step).responses,
        vec![Response::Step(Err(EmulatorError::Execution {
            address: 0x206,
            instruction: 0x0000,
            source: ExecutionError::UnknownInstruction(0x0000),
        }))]
    );
}

#[test]
fn keys_are_replaced_by_send_keys() {
    // V0 = 5; skip if key 5 is held; (not skipped: unknown word); jump to itself.
    let mut host = host_with(&[0x6005, 0xe09e, 0x0000, 0x1206]);
    silent(host.process(Request::SendKeys(KeySet::from_keys(&vec![Key::Num4]))));
    silent(host.process(Request::SendKeys(KeySet::from_keys(&vec![Key::Num5, Key::A]))));
    host.process(Request::Step);
    host.process(Request::Step);
    assert_eq!(host.process(Request::Step).responses, vec![Response::Step(Ok(()))]);
    // Keys survive a load.
    host.process(Request::LoadProgram(program(&[0x6005, 0xe09e, 0x0000, 0x1206])));
    silent(host.process(Request::RunProgram(Speed::new(700))));
    silent(host.process(Request::TimerTick));
    assert_eq!(host.state(), ProgramState::Running);
}

#[test]
fn handle_leaves_the_budget_to_run_budget() {
    let mut host = host_with(&[0x7001, 0x1200]);
    assert_eq!(host.handle(Request::RunProgram(Speed::new(1000))), None);
    assert_eq!(host.handle(Request::TimerTick), None);
    assert_eq!(host.budget(), 17);
    assert_eq!(host.run_budget(), None);
    assert_eq!(host.budget(), 0);
    assert_eq!(host.state(), ProgramState::Running);
}

#[test]
fn run_budget_of_a_stopped_host_does_nothing() {
    // Each pass through the loop draws one more pixel.
    let mut host = host_with(&[0x6080, 0xa300, 0xf055, 0x6100, 0xd101, 0x7102, 0x1208]);
    assert_eq!(host.handle(Request::RunProgram(Speed::new(700))), None);
    assert_eq!(host.handle(Request::TimerTick), None);
    assert_eq!(host.handle(Request::Stop), None);
    assert_eq!(host.budget(), 12);
    assert_eq!(host.run_budget(), None);
    assert_eq!(host.budget(), 12);
    assert_eq!(host.state(), ProgramState::Stopped);
    assert_eq!(display_of(&mut host).content, vec![false; 2048]);
    // Once it runs again the budget is spent.
    assert_eq!(host.handle(Request::RunProgram(Speed::new(700))), None);
    assert_eq!(host.run_budget(), None);
    assert_eq!(host.budget(), 0);
    assert_eq!(display_of(&mut host).content.iter().filter(|on| **on).count(), 3);
}

#[test]
fn run_budget_reports_the_failure_and_drops_the_rest() {
    let mut host = host_with(&[0x6001, 0x00ee]);
    host.handle(Request::RunProgram(Speed::new(6000)));
    host.handle(Request::TimerTick);
    assert_eq!(host.budget(), 100);
    assert_eq!(
        host.run_budget(),
        Some(EmulatorError::Execution {
            address: 0x202,
            instruction: 0x00ee,
            source: ExecutionError::StackUnderflow,
        })
    );
    assert_eq!(host.budget(), 0);
    assert_eq!(host.state(), ProgramState::Stopped);
    assert_eq!(host.run_budget(), None);
}

#[test]
fn latest_display_is_the_last_one() {
    let a = Display { content: vec![true] };
    let b = Display { content: vec![false] };
    let responses = vec![
        Response::State(ProgramState::Running),
        Response::Display(a),
        Response::Step(Ok(())),
        Response::Display(b.clone()),
        Response::LoadProgram(Ok(())),
    ];
    assert_eq!(latest_display(&responses), Some(3));
    assert_eq!(responses[3], Response::Display(b));
    assert_eq!(latest_display(&vec![]), None);
    assert_eq!(latest_display(&vec![Response::Step(Ok(()))]), None);
    assert_eq!(latest_display(&vec![Response::Display(Display::default())]), Some(0));
}

#[test]
fn response_error_picks_the_failures() {
    let error = EmulatorError::Execution {
        address: 0x200,
        instruction: 0x00ee,
        source: ExecutionError::StackUnderflow,
    };
    let loading = EmulatorError::Loading(LoadingError::RomTooLarge);
    assert_eq!(Response::LoadProgram(Err(loading)).error(), Some(loading));
    assert_eq!(Response::Step(Err(error)).error(), Some(error));
    assert_eq!(Response::RunError(error).error(), Some(error));
    assert_eq!(Response::LoadProgram(Ok(())).error(), None);
    assert_eq!(Response::Step(Ok(())).error(), None);
    assert_eq!(Response::State(ProgramState::Stopped).error(), None);
    assert_eq!(Response::Display(Display::default()).error(), None);
    assert_eq!(error.execution_source(), Some(ExecutionError::StackUnderflow));
    assert_eq!(loading.execution_source(), None);
    assert_eq!(EmulatorError::from(LoadingError::RomTooLarge), loading);
}
