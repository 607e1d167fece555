use vstd::prelude::*;
use crate::error::{EmulatorError, LoadingError};
use crate::machine::{
    lemma_run_ends_at_failure, lemma_run_push, Machine, MEMORY_SIZE, ROM_START_ADDR,
};
use crate::processor::Processor;
pub use crate::processor::{
    Display, InstructionSettings, Key, KeySet, DISPLAY_HEIGHT, DISPLAY_WIDTH,
};

verus! {

/// Time between two timer ticks, in microseconds: the timers run at 60 Hz.
pub const TIMER_INTERVAL_MICROS: u64 = 16666;

/// The speed of a host that was never told another one.
pub const DEFAULT_INSTRUCTIONS_PER_SECOND: usize = 700;

/// Program execution speed. Instructions per second.
#[derive(Debug, Copy, Clone, PartialEq, Eq, Structural)]
pub struct Speed(usize);

impl View for Speed {
    type V = nat;

    closed spec fn view(&self) -> nat {
        self.0 as nat
    }
}

impl Speed {
    /// The speed of `instructions_per_second` instructions per second.
    pub fn new(instructions_per_second: usize) -> (speed: Speed)
        ensures
            speed@ == instructions_per_second,
    {
        Speed(instructions_per_second)
    }

    /// The number of instructions per second.
    pub fn instructions_per_second(&self) -> (rate: usize)
        ensures
            rate == self@,
    {
        self.0
    }
}

/// The number of instructions that one timer tick pays for at
/// `instructions_per_second`: the rate times the length of a tick in seconds,
/// rounded up.
pub open spec fn tick_budget(instructions_per_second: nat) -> nat {
    (instructions_per_second * TIMER_INTERVAL_MICROS as nat + 999_999) / 1_000_000
}

/// The number of instructions that one timer tick pays for at `speed`.
pub fn instructions_per_tick(speed: Speed) -> (budget: usize)
    ensures
        budget == tick_budget(speed@),
{
    let rate: u128 = speed.instructions_per_second() as u128;
    let interval: u128 = TIMER_INTERVAL_MICROS as u128;
    assert(rate * interval <= rate * 1_000_000 && rate * 1_000_000 <= 0xffff_ffff_ffff_ffff
        * 1_000_000) by (nonlinear_arith)
        requires
            interval == 16666,
            rate <= 0xffff_ffff_ffff_ffff,
    ;
    let budget: u128 = (rate * interval + 999_999) / 1_000_000;
    assert(budget <= rate);
    budget as usize
}

/// The program state. Running or stopped.
#[derive(Debug, Copy, Clone, PartialEq, Eq, Structural)]
pub enum ProgramState {
    Running,
    Stopped,
}

/// What a host can be asked to do: the commands of a client and the tick of
/// the timer.
#[derive(Debug, PartialEq, Eq)]
pub enum Request {
    LoadSettings(InstructionSettings),
    LoadProgram(Vec<u8>),
    RunProgram(Speed),
    Stop,
    Step,
    Display,
    State,
    SendKeys(KeySet),
    TimerTick,
}

/// The answers of a host. Not every request has one.
#[derive(Debug, PartialEq, Eq)]
pub enum Response {
    LoadProgram(Result<(), EmulatorError>),
    Step(Result<(), EmulatorError>),
    Display(Display),
    State(ProgramState),
    RunError(EmulatorError),
}

/// A response as a mathematical value.
#[verifier::ext_equal]
pub enum ResponseView {
    LoadProgram(Result<(), EmulatorError>),
    Step(Result<(), EmulatorError>),
    Display(Seq<bool>),
    State(ProgramState),
    RunError(EmulatorError),
}

impl View for Response {
    type V = ResponseView;

    open spec fn view(&self) -> ResponseView {
        match *self {
            Response::LoadProgram(result) => ResponseView::LoadProgram(result),
            Response::Step(result) => ResponseView::Step(result),
            Response::Display(display) => ResponseView::Display(display@),
            Response::State(state) => ResponseView::State(state),
            Response::RunError(error) => ResponseView::RunError(error),
        }
    }
}

impl Response {
    /// The failure that the response reports, if it reports one.
    pub fn error(&self) -> (error: Option<EmulatorError>)
        ensures
            error == match self@ {
                ResponseView::LoadProgram(Err(e)) => Some(e),
                ResponseView::Step(Err(e)) => Some(e),
                ResponseView::RunError(e) => Some(e),
                _ => None::<EmulatorError>,
            },
    {
        match self {
            Response::LoadProgram(Err(e)) => Some(*e),
            Response::Step(Err(e)) => Some(*e),
            Response::RunError(e) => Some(*e),
            _ => None,
        }
    }
}

/// The view of a response that may be missing.
pub open spec fn answer_view(response: Option<Response>) -> Option<ResponseView> {
    match response {
        Some(r) => Some(r@),
        None => None,
    }
}

/// The views of a sequence of responses.
pub open spec fn response_views(responses: Seq<Response>) -> Seq<ResponseView> {
    responses.map_values(|response: Response| response@)
}

/// The position of the last display snapshot among `responses`, `None` if
/// there is none.
pub fn latest_display(responses: &Vec<Response>) -> (position: Option<usize>)
    ensures
        match position {
            Some(at) => at < responses.len() && responses[at as int]@ is Display && forall|
                later: int,
            |
                at < later < responses.len() ==> !(responses[later]@ is Display),
            None => forall|i: int| 0 <= i < responses.len() ==> !(responses[i]@ is Display),
        },
{
    let mut i = responses.len();
    while i > 0
        invariant
            i <= responses.len(),
            forall|later: int| i <= later < responses.len() ==> !(responses[later]@ is Display),
        decreases i,
    {
        i -= 1;
        match &responses[i] {
            Response::Display(_) => {
                return Some(i);
            },
            _ => {},
        }
    }
    None
}

/// The state of a host, as mathematical values.
#[verifier::ext_equal]
pub struct Host {
    pub machine: Machine,
    pub state: ProgramState,
    /// Instructions per second.
    pub speed: nat,
    /// Instructions that the last tick paid for and that were not executed yet.
    pub budget: nat,
}

impl Host {
    /// The host after `request`, and the response to it, if it has one.
    /// `random` is the byte that the random source delivers to a step.
    pub open spec fn handle(self, request: Request, random: u8) -> (Host, Option<ResponseView>) {
        match request {
            Request::LoadSettings(settings) => (
                Host { machine: Machine { settings, ..self.machine }, ..self },
                None,
            ),
            Request::LoadProgram(data) => if data@.len() <= MEMORY_SIZE - ROM_START_ADDR {
                (
                    Host {
                        machine: Machine::loaded(
                            self.machine.settings,
                            self.machine.keys,
                            data@,
                        ),
                        ..self
                    },
                    Some(ResponseView::LoadProgram(Ok(()))),
                )
            } else {
                (
                    self,
                    Some(
                        ResponseView::LoadProgram(
                            Err(EmulatorError::Loading(LoadingError::RomTooLarge)),
                        ),
                    ),
                )
            },
            Request::Step => (
                Host { machine: self.machine.step(random).0, ..self },
                Some(ResponseView::Step(self.machine.step(random).1)),
            ),
            Request::RunProgram(speed) => (
                Host { speed: speed@, state: ProgramState::Running, ..self },
                None,
            ),
            Request::Display => (self, Some(ResponseView::Display(self.machine.display))),
            Request::State => (self, Some(ResponseView::State(self.state))),
            Request::Stop => (Host { state: ProgramState::Stopped, ..self }, None),
            Request::TimerTick => (
                Host {
                    machine: self.machine.tick(),
                    budget: if self.state == ProgramState::Running {
                        tick_budget(self.speed)
                    } else {
                        self.budget
                    },
                    ..self
                },
                None,
            ),
            Request::SendKeys(keys) => (
                Host { machine: Machine { keys: keys@, ..self.machine }, ..self },
                None,
            ),
        }
    }

    /// The host after it has spent its budget. A running host steps the machine
    /// once for each byte of `randoms`, as `Machine::run` says, and has no budget
    /// left; a failure stops it and is handed back. A stopped host keeps its
    /// budget and does nothing.
    pub open spec fn drain(self, randoms: Seq<u8>) -> (Host, Option<EmulatorError>) {
        if self.state == ProgramState::Running {
            let (machine, failure) = self.machine.run(randoms);
            (
                Host {
                    machine,
                    budget: 0,
                    state: if failure is Some {
                        ProgramState::Stopped
                    } else {
                        ProgramState::Running
                    },
                    ..self
                },
                failure,
            )
        } else {
            (self, None)
        }
    }

    /// The host after `request` was handled and the budget that it may have
    /// brought was spent, and the responses in the order in which they are
    /// given: the response to the request, if it has one, then the report of the
    /// failure that ended the run, if one did.
    pub open spec fn process(self, request: Request, random: u8, randoms: Seq<u8>) -> (
        Host,
        Seq<ResponseView>,
    ) {
        let (handled, response) = self.handle(request, random);
        let (drained, failure) = handled.drain(randoms);
        (
            drained,
            match response {
                Some(r) => seq![r],
                None => Seq::<ResponseView>::empty(),
            } + match failure {
                Some(e) => seq![ResponseView::RunError(e)],
                None => Seq::<ResponseView>::empty(),
            },
        )
    }

    /// Whether the sound is on.
    pub open spec fn sound(self) -> bool {
        self.machine.sound_timer > 0
    }
}

/// What a host hands back after a request: the responses to send, in order,
/// and whether the sound is to play.
#[derive(Debug, PartialEq, Eq)]
pub struct Reaction {
    pub responses: Vec<Response>,
    pub sound: bool,
}

/// The host of a virtual machine. It owns the machine, takes requests one by
/// one and turns timer ticks into steps of the machine.
pub struct Executor {
    emulator: Processor,
    state: ProgramState,
    speed: Speed,
    instruction_account_balance: usize,
}

impl View for Executor {
    type V = Host;

    closed spec fn view(&self) -> Host {
        Host {
            machine: self.emulator@,
            state: self.state,
            speed: self.speed@,
            budget: self.instruction_account_balance as nat,
        }
    }
}

impl Executor {
    /// The machine of the host is well-formed.
    pub open spec fn wf(&self) -> bool {
        self@.machine.wf()
    }

    /// A stopped host with a fresh machine, the default speed and no budget.
    pub fn new() -> (executor: Executor)
        ensures
            executor.wf(),
            executor@ == (Host {
                machine: Machine::loaded(
                    InstructionSettings::spec_default(),
                    Set::empty(),
                    Seq::empty(),
                ),
                state: ProgramState::Stopped,
                speed: DEFAULT_INSTRUCTIONS_PER_SECOND as nat,
                budget: 0,
            }),
    {
        Executor {
            emulator: Processor::new(),
            state: ProgramState::Stopped,
            speed: Speed::new(DEFAULT_INSTRUCTIONS_PER_SECOND),
            instruction_account_balance: 0,
        }
    }

    /// Whether the host is running or stopped.
    pub fn state(&self) -> (state: ProgramState)
        ensures
            state == self@.state,
    {
        self.state
    }

    /// The number of instructions that are paid for and not executed yet.
    pub fn budget(&self) -> (budget: usize)
        ensures
            budget == self@.budget,
    {
        self.instruction_account_balance
    }

    /// Whether the sound is to play: the sound timer of the machine is not zero.
    pub fn sound(&self) -> (on: bool)
        ensures
            on == self@.sound(),
    {
        self.emulator.playing_sound()
    }

    /// Dispatch and handle one request. Returns the response to it, if it has
    /// one. A step is executed whether the host is running or not. Only a step
    /// that executes the instruction that asks for a random byte depends on the
    /// random source; what any other request does is fixed.
    pub fn handle(&mut self, msg: Request) -> (response: Option<Response>)
        requires
            old(self).wf(),
        ensures
            final(self).wf(),
            exists|random: u8|
                final(self)@ == (#[trigger] old(self)@.handle(msg, random)).0 && answer_view(
                    response,
                ) == old(self)@.handle(msg, random).1,
            !(msg is Step && old(self)@.machine.draws_random()) ==> forall|random: u8|
                final(self)@ == (#[trigger] old(self)@.handle(msg, random)).0 && answer_view(
                    response,
                ) == old(self)@.handle(msg, random).1,
    {
        let ghost before = self@;
        let ghost mut random: u8 = 0;
        let response = match msg {
            Request::LoadSettings(settings) => {
                self.emulator.load_settings(settings);
                None
            },
            Request::LoadProgram(data) => {
                let result = self.emulator.load_program(data);
                Some(Response::LoadProgram(result))
            },
            Request::Step => {
                let result = self.emulator.step();
                proof {
                    random = choose|random: u8|
                        result == (#[trigger] before.machine.step(random)).1 && self.emulator@
                            == before.machine.step(random).0;
                }
                Some(Response::Step(result))
            },
            Request::RunProgram(speed) => {
                self.speed = speed;
                self.state = ProgramState::Running;
                None
            },
            Request::Display => {
                let display = self.emulator.display();
                Some(Response::Display(display))
            },
            Request::State => Some(Response::State(self.state)),
            Request::Stop => {
                self.state = ProgramState::Stopped;
                None
            },
            Request::TimerTick => {
                if self.state == ProgramState::Running {
                    self.instruction_account_balance = instructions_per_tick(self.speed);
                }
                self.emulator.handle_timer_tick();
                None
            },
            Request::SendKeys(keys) => {
                self.emulator.handle_keys(keys);
                None
            },
        };
        proof {
            assert(self@ =~= before.handle(msg, random).0);
            assert(answer_view(response) =~= before.handle(msg, random).1);
            if !(msg is Step && before.machine.draws_random()) {
                assert forall|other: u8|
                    self@ == (#[trigger] before.handle(msg, other)).0 && answer_view(response)
                        == before.handle(msg, other).1 by {
                    assert(before.handle(msg, other) == before.handle(msg, random));
                }
            }
        }
        response
    }

    /// Spend the budget: while the host is running, step the machine until the
    /// budget is used up or a step fails. A failure uses up the budget, stops
    /// the host and is returned. A stopped host does nothing.
    pub fn run_budget(&mut self) -> (failure: Option<EmulatorError>)
        requires
            old(self).wf(),
        ensures
            final(self).wf(),
            exists|randoms: Seq<u8>|
                randoms.len() == old(self)@.budget && final(self)@ == (#[trigger] old(
                    self,
                )@.drain(randoms)).0 && failure == old(self)@.drain(randoms).1,
    {
        let ghost before = self@;
        let ghost mut used: Seq<u8> = Seq::empty();
        let mut failure: Option<EmulatorError> = None;
        if self.state == ProgramState::Running {
            while self.instruction_account_balance > 0
                invariant
                    self.wf(),
                    before.state == ProgramState::Running,
                    used.len() <= before.budget,
                    self@.speed == before.speed,
                    self@.machine == before.machine.run(used).0,
                    failure == before.machine.run(used).1,
                    failure is None ==> self@.state == ProgramState::Running && used.len()
                        + self@.budget == before.budget,
                    failure is Some ==> self@.state == ProgramState::Stopped && self@.budget == 0,
                decreases self.instruction_account_balance,
            {
                let ghost machine = self.emulator@;
                match self.emulator.step() {
                    Ok(_) => {
                        proof {
                            let random = choose|random: u8|
                                Ok::<(), EmulatorError>(()) == (#[trigger] machine.step(random)).1
                                    && self.emulator@ == machine.step(random).0;
                            lemma_run_push(before.machine, used, random);
                            used = used.push(random);
                        }
                        self.instruction_account_balance -= 1;
                    },
                    Err(e) => {
                        proof {
                            let random = choose|random: u8|
                                Err::<(), EmulatorError>(e) == (#[trigger] machine.step(random)).1
                                    && self.emulator@ == machine.step(random).0;
                            lemma_run_push(before.machine, used, random);
                            used = used.push(random);
                        }
                        self.state = ProgramState::Stopped;
                        self.instruction_account_balance = 0;
                        failure = Some(e);
                    },
                }
            }
        }
        proof {
            let rest = Seq::new((before.budget - used.len()) as nat, |i: int| 0u8);
            let randoms = used + rest;
            if failure is Some {
                lemma_run_ends_at_failure(before.machine, used, rest);
            } else if before.state == ProgramState::Running {
                assert(randoms =~= used);
            }
            assert(self@ =~= before.drain(randoms).0);
        }
        failure
    }

    /// Handle one request completely: dispatch it, spend the budget that it may
    /// have brought, and tell whether the sound is to play. The responses are
    /// the response to the request, if it has one, and then the report of the
    /// failure that ended the run, if one did.
    pub fn process(&mut self, msg: Request) -> (reaction: Reaction)
        requires
            old(self).wf(),
        ensures
            final(self).wf(),
            reaction.sound == final(self)@.sound(),
            exists|random: u8, randoms: Seq<u8>|
                randoms.len() == old(self)@.handle(msg, random).0.budget && final(self)@ == (
                #[trigger] old(self)@.process(msg, random, randoms)).0 && response_views(
                    reaction.responses@,
                ) == old(self)@.process(msg, random, randoms).1,
    {
        let ghost before = self@;
        let mut responses: Vec<Response> = Vec::new();
        let response = self.handle(msg);
        let ghost random = choose|random: u8|
            self@ == (#[trigger] before.handle(msg, random)).0 && answer_view(response)
                == before.handle(msg, random).1;
        let ghost handled = self@;
        if let Some(response) = response {
            responses.push(response);
        }
        let failure = self.run_budget();
        let ghost randoms = choose|randoms: Seq<u8>|
            randoms.len() == handled.budget && self@ == (#[trigger] handled.drain(randoms)).0
                && failure == handled.drain(randoms).1;
        if let Some(e) = failure {
            responses.push(Response::RunError(e));
        }
        proof {
            assert(response_views(responses@) =~= before.process(msg, random, randoms).1);
            assert(self@ == before.process(msg, random, randoms).0);
        }
        Reaction { responses, sound: self.sound() }
    }
}

} // verus!
