//! The loop of the dashboard as a state machine.
//!
//! One round draws a frame, drains the pending input, and takes one sample.
//! Drawing, polling and reading input are done by whoever owns the terminal;
//! this module decides what comes next and keeps everything else.

use crate::chart::MIB;
use crate::error::TelemetryError;
use crate::histograms::Histograms;
use crate::metric::Metric;
use crate::metric::Readings;
use crate::mibs::MIBs;
use crate::ring::MAX_WINDOW_CAPACITY;
use crate::snapshots::plot_points;
use crate::snapshots::Snapshots;
use crate::stress::BlockModel;
use crate::stress::StressBuffers;
use vstd::prelude::*;

verus! {

/// Number of samples each window retains.
pub const WINDOW_CAPACITY: usize = 512;

/// Frames drawn per second at most.
pub const FRAME_RATE: u64 = 60;

/// Longest wait for input within one frame, in milliseconds.
pub const POLL_BUDGET_MILLIS: u64 = 1000 / FRAME_RATE;

/// The key of a key press, as far as the loop tells keys apart.
#[derive(Clone, Copy, Debug, PartialEq, Eq, Structural)]
pub enum KeyCode {
    Char(char),
    Esc,
    Other,
}

/// A key press with the modifiers the loop looks at.
#[derive(Clone, Copy, Debug, PartialEq, Eq, Structural)]
pub struct KeyPress {
    pub code: KeyCode,
    pub shift: bool,
    pub control: bool,
}

/// An event of the terminal.
#[derive(Clone, Copy, Debug, PartialEq, Eq, Structural)]
pub enum InputEvent {
    Key(KeyPress),
    Mouse,
    Resize,
}

/// What an input event asks for.
#[derive(Clone, Copy, Debug, PartialEq, Eq, Structural)]
pub enum Command {
    /// Leave the loop.
    Quit,
    /// Push a block of `bytes` bytes, written with zero if `filled`.
    Grow { bytes: usize, filled: bool },
    /// Pop the youngest block.
    Shrink,
    /// Nothing.
    Ignore,
}

/// Where the loop stands.
#[derive(Clone, Copy, Debug, PartialEq, Eq, Structural)]
pub enum Phase {
    /// A frame is due.
    Draw,
    /// Input is drained until the poll budget passes without an event.
    Drain,
    /// The loop has ended.
    Stopped,
}

/// What happened outside since the last directive.
#[derive(Clone, Copy, Debug, PartialEq, Eq, Structural)]
pub enum LoopEvent {
    /// The frame was drawn.
    Rendered,
    /// The poll budget passed without an event.
    Idle,
    /// An event arrived within the poll budget.
    Input(InputEvent),
}

/// What is to be done outside next.
#[derive(Clone, Copy, Debug, PartialEq)]
pub enum Directive {
    /// Draw the current series, then report `Rendered`.
    Render,
    /// Wait for input for the poll budget at most, then report `Input` or
    /// `Idle`.
    Poll,
    /// Leave the loop: the user asked for it.
    Quit,
    /// Leave the loop with this error.
    Abort(TelemetryError),
}

/// The block size a digit key stands for, in MiB: ten times the digit, and
/// a hundred for zero.
pub open spec fn digit_mib(key: char) -> Option<nat> {
    if key == '1' {
        Some(10)
    } else if key == '2' {
        Some(20)
    } else if key == '3' {
        Some(30)
    } else if key == '4' {
        Some(40)
    } else if key == '5' {
        Some(50)
    } else if key == '6' {
        Some(60)
    } else if key == '7' {
        Some(70)
    } else if key == '8' {
        Some(80)
    } else if key == '9' {
        Some(90)
    } else if key == '0' {
        Some(100)
    } else {
        None
    }
}

/// What a key press asks for: `q` and escape quit, `p` pops, a digit pushes
/// a block of its size, doubled with shift and written with control.
pub open spec fn command_of_key(press: KeyPress) -> Command {
    match press.code {
        KeyCode::Esc => Command::Quit,
        KeyCode::Other => Command::Ignore,
        KeyCode::Char(key) => if key == 'q' {
            Command::Quit
        } else if key == 'p' {
            Command::Shrink
        } else {
            match digit_mib(key) {
                Some(size) => Command::Grow {
                    bytes: ((if press.shift {
                        2 * size
                    } else {
                        size
                    }) * MIB) as usize,
                    filled: press.control,
                },
                None => Command::Ignore,
            }
        },
    }
}

/// What an input event asks for. Only key presses ask for anything.
pub open spec fn command_of(event: InputEvent) -> Command {
    match event {
        InputEvent::Key(press) => command_of_key(press),
        InputEvent::Mouse => Command::Ignore,
        InputEvent::Resize => Command::Ignore,
    }
}

/// The directive a phase waits on.
pub open spec fn awaited(phase: Phase) -> Directive {
    match phase {
        Phase::Draw => Directive::Render,
        Phase::Drain => Directive::Poll,
        Phase::Stopped => Directive::Quit,
    }
}

/// No block a key can ask for is larger than two hundred MiB.
pub proof fn lemma_grow_is_bounded(event: InputEvent)
    ensures
        command_of(event) matches Command::Grow { bytes, filled } ==> 10 * MIB <= bytes <= 200 * MIB,
{
}

/// The block size a digit key stands for, in MiB.
fn digit_size(key: char) -> (size: Option<usize>)
    ensures
        size is Some <==> digit_mib(key) is Some,
        size matches Some(mib) ==> digit_mib(key) == Some(mib as nat),
{
    if key == '1' {
        Some(10)
    } else if key == '2' {
        Some(20)
    } else if key == '3' {
        Some(30)
    } else if key == '4' {
        Some(40)
    } else if key == '5' {
        Some(50)
    } else if key == '6' {
        Some(60)
    } else if key == '7' {
        Some(70)
    } else if key == '8' {
        Some(80)
    } else if key == '9' {
        Some(90)
    } else if key == '0' {
        Some(100)
    } else {
        None
    }
}

/// What an input event asks for.
pub fn interpret(event: InputEvent) -> (command: Command)
    ensures
        command == command_of(event),
{
    match event {
        InputEvent::Key(press) => match press.code {
            KeyCode::Esc => Command::Quit,
            KeyCode::Other => Command::Ignore,
            KeyCode::Char(key) => {
                if key == 'q' {
                    Command::Quit
                } else if key == 'p' {
                    Command::Shrink
                } else {
                    match digit_size(key) {
                        Some(size) => {
                            let size_mib: usize = if press.shift {
                                2 * size
                            } else {
                                size
                            };
                            Command::Grow { bytes: size_mib * MIB, filled: press.control }
                        },
                        None => Command::Ignore,
                    }
                }
            },
        },
        InputEvent::Mouse => Command::Ignore,
        InputEvent::Resize => Command::Ignore,
    }
}

/// Everything the loop keeps between two directives.
pub struct Session {
    phase: Phase,
    mibs: MIBs,
    histograms: Histograms,
    snapshots: Snapshots,
    allocs: StressBuffers,
}

impl Session {
    /// Where the loop stands.
    pub closed spec fn phase_of(&self) -> Phase {
        self.phase
    }

    /// The windows.
    pub closed spec fn store_of(&self) -> Histograms {
        self.histograms
    }

    /// The series of the frame.
    pub closed spec fn frame_of(&self) -> Snapshots {
        self.snapshots
    }

    /// The blocks held.
    pub closed spec fn blocks_of(&self) -> Seq<BlockModel> {
        self.allocs@
    }

    /// The windows and the block list are well formed, and the series are
    /// the plot of the windows.
    pub closed spec fn wf(&self) -> bool {
        &&& self.histograms.wf()
        &&& self.allocs.wf()
        &&& self.snapshots.depicts(&self.histograms)
    }

    /// The series of a well-formed session show what its windows hold.
    pub proof fn lemma_frame_is_current(&self)
        requires
            self.wf(),
        ensures
            self.store_of().wf(),
            self.frame_of().depicts(&self.store_of()),
    {
    }

    /// Whether this session differs from `before` in its phase at most.
    pub open spec fn keeps(&self, before: &Self) -> bool {
        &&& self.store_of().same_as(&before.store_of())
        &&& self.frame_of() == before.frame_of()
        &&& self.blocks_of() == before.blocks_of()
    }

    /// Whether this session is `before` after a tick that read `readings`:
    /// every window took its value and the series were rebuilt.
    pub open spec fn ticked(&self, before: &Self, readings: Readings) -> bool {
        &&& self.store_of().follows(&before.store_of(), readings)
        &&& self.frame_of().depicts(&self.store_of())
        &&& self.blocks_of() == before.blocks_of()
    }

    /// Resolves the handles and sets up empty windows of `WINDOW_CAPACITY`
    /// samples, empty series and an empty block list. The loop starts with a
    /// frame.
    pub fn new() -> (result: Result<Self, TelemetryError>)
        ensures
            result matches Ok(session) ==> {
                &&& session.wf()
                &&& session.phase_of() == Phase::Draw
                &&& session.store_of().limit() == WINDOW_CAPACITY
                &&& forall|metric: Metric| #[trigger]
                    session.store_of().window(metric) == Seq::<usize>::empty()
                &&& session.frame_of().is_blank()
                &&& session.blocks_of() == Seq::<BlockModel>::empty()
            },
            result matches Err(error) ==> error.failure is Resolution,
    {
        let mibs = match MIBs::new() {
            Ok(mibs) => mibs,
            Err(error) => {
                return Err(error);
            },
        };
        assert(WINDOW_CAPACITY <= MAX_WINDOW_CAPACITY);
        let histograms = match Histograms::with_capacity(WINDOW_CAPACITY) {
            Ok(histograms) => histograms,
            Err(error) => {
                return Err(error);
            },
        };
        let snapshots = Snapshots::new();
        let session = Session {
            phase: Phase::Draw,
            mibs,
            histograms,
            snapshots,
            allocs: StressBuffers::new(),
        };
        proof {
            assert forall|metric: Metric| #[trigger]
                session.snapshots.series(metric) == plot_points(
                    session.histograms.window(metric),
                ) by {
                assert(session.snapshots.series(metric).len() == 0);
                assert(session.histograms.window(metric) == Seq::<usize>::empty());
                assert(session.snapshots.series(metric) =~= plot_points(
                    session.histograms.window(metric),
                ));
            }
        }
        Ok(session)
    }

    /// Where the loop stands.
    pub fn phase(&self) -> (phase: Phase)
        ensures
            phase == self.phase_of(),
    {
        self.phase
    }

    /// What is to be done outside next.
    pub fn directive(&self) -> (directive: Directive)
        ensures
            directive == awaited(self.phase_of()),
    {
        match self.phase {
            Phase::Draw => Directive::Render,
            Phase::Drain => Directive::Poll,
            Phase::Stopped => Directive::Quit,
        }
    }

    /// The windows.
    pub fn histograms(&self) -> (histograms: &Histograms)
        ensures
            *histograms == self.store_of(),
    {
        &self.histograms
    }

    /// The series of the frame.
    pub fn snapshots(&self) -> (snapshots: &Snapshots)
        ensures
            *snapshots == self.frame_of(),
    {
        &self.snapshots
    }

    /// The blocks held.
    pub fn allocs(&self) -> (allocs: &StressBuffers)
        ensures
            allocs@ == self.blocks_of(),
            self.wf() ==> allocs.wf(),
    {
        &self.allocs
    }

    /// One tick: refreshes the statistics, samples every metric and rebuilds
    /// the series. A tick that fails at any point leaves the windows and the
    /// series as they were.
    pub fn update(&mut self) -> (result: Result<(), TelemetryError>)
        requires
            old(self).wf(),
        ensures
            final(self).wf(),
            final(self).phase_of() == old(self).phase_of(),
            result is Ok ==> exists|readings: Readings| #[trigger] final(self).ticked(old(self), readings),
            result matches Err(error) ==> {
                &&& error.failure is Refresh || error.failure is Read
                &&& final(self).keeps(old(self))
            },
    {
        match self.mibs.advance() {
            Ok(()) => {},
            Err(error) => {
                return Err(error);
            },
        }
        let ghost before = self.histograms;
        match self.histograms.sample(&self.mibs) {
            Ok(()) => {},
            Err(error) => {
                proof {
                    assert forall|metric: Metric| #[trigger]
                        self.snapshots.series(metric) == plot_points(
                            self.histograms.window(metric),
                        ) by {
                        assert(self.histograms.window(metric) == before.window(metric));
                    }
                }
                return Err(error);
            },
        }
        self.snapshots.snapshot_histograms(&self.histograms);
        proof {
            let readings = choose|readings: Readings| #[trigger]
                self.histograms.follows(&before, readings);
            assert(self.ticked(old(self), readings));
        }
        Ok(())
    }

    /// Ends the round whose tick gave `outcome`: after a tick that went well
    /// a frame is due, after one that failed the loop ends with its error.
    /// An outcome that arrives in another phase than `Drain` changes nothing.
    pub fn conclude(&mut self, outcome: Result<(), TelemetryError>) -> (directive: Directive)
        ensures
            final(self).store_of() == old(self).store_of(),
            final(self).frame_of() == old(self).frame_of(),
            final(self).blocks_of() == old(self).blocks_of(),
            final(self).wf() == old(self).wf(),
            old(self).phase_of() != Phase::Drain ==> {
                &&& final(self).phase_of() == old(self).phase_of()
                &&& directive == awaited(old(self).phase_of())
            },
            old(self).phase_of() == Phase::Drain ==> match outcome {
                Ok(()) => final(self).phase_of() == Phase::Draw && directive == Directive::Render,
                Err(error) => {
                    &&& final(self).phase_of() == Phase::Stopped
                    &&& directive == Directive::Abort(error)
                },
            },
    {
        match self.phase {
            Phase::Drain => match outcome {
                Ok(()) => {
                    self.phase = Phase::Draw;
                    Directive::Render
                },
                Err(error) => {
                    self.phase = Phase::Stopped;
                    Directive::Abort(error)
                },
            },
            Phase::Draw => Directive::Render,
            Phase::Stopped => Directive::Quit,
        }
    }

    /// Carries out what `command` asks for while input is drained: a block is
    /// pushed or popped, or the loop ends. In another phase nothing changes.
    pub fn obey(&mut self, command: Command) -> (directive: Directive)
        requires
            old(self).wf(),
        ensures
            final(self).wf(),
            final(self).store_of() == old(self).store_of(),
            final(self).frame_of() == old(self).frame_of(),
            old(self).phase_of() != Phase::Drain ==> {
                &&& final(self).phase_of() == old(self).phase_of()
                &&& final(self).blocks_of() == old(self).blocks_of()
                &&& directive == awaited(old(self).phase_of())
            },
            old(self).phase_of() == Phase::Drain ==> match command {
                Command::Quit => {
                    &&& final(self).phase_of() == Phase::Stopped
                    &&& final(self).blocks_of() == old(self).blocks_of()
                    &&& directive == Directive::Quit
                },
                Command::Grow { bytes, filled } => {
                    &&& final(self).phase_of() == Phase::Drain
                    &&& final(self).blocks_of() == StressBuffers::pushed(
                        old(self).blocks_of(),
                        bytes as nat,
                        filled,
                    )
                    &&& directive == Directive::Poll
                },
                Command::Shrink => {
                    &&& final(self).phase_of() == Phase::Drain
                    &&& final(self).blocks_of() == StressBuffers::popped(old(self).blocks_of())
                    &&& directive == Directive::Poll
                },
                Command::Ignore => {
                    &&& final(self).phase_of() == Phase::Drain
                    &&& final(self).blocks_of() == old(self).blocks_of()
                    &&& directive == Directive::Poll
                },
            },
    {
        match self.phase {
            Phase::Drain => match command {
                Command::Quit => {
                    self.phase = Phase::Stopped;
                    Directive::Quit
                },
                Command::Grow { bytes, filled } => {
                    self.allocs.push(bytes, filled);
                    Directive::Poll
                },
                Command::Shrink => {
                    self.allocs.pop();
                    Directive::Poll
                },
                Command::Ignore => Directive::Poll,
            },
            Phase::Draw => Directive::Render,
            Phase::Stopped => Directive::Quit,
        }
    }

    /// Takes what happened outside and says what is to be done next.
    ///
    /// After a frame, input is drained. Each event that arrives while input
    /// is drained is obeyed. Once the poll budget passes without an event
    /// one tick is taken: if it goes well a frame is due, if not the loop
    /// ends with the tick's error. An event that does not belong to the
    /// phase changes nothing, and the directive of the phase is given again.
    pub fn step(&mut self, event: LoopEvent) -> (directive: Directive)
        requires
            old(self).wf(),
        ensures
            final(self).wf(),
            match (old(self).phase_of(), event) {
                (Phase::Draw, LoopEvent::Rendered) => {
                    &&& final(self).phase_of() == Phase::Drain
                    &&& final(self).keeps(old(self))
                    &&& directive == Directive::Poll
                },
                (Phase::Drain, LoopEvent::Input(input)) => {
                    &&& final(self).store_of() == old(self).store_of()
                    &&& final(self).frame_of() == old(self).frame_of()
                    &&& match command_of(input) {
                        Command::Quit => {
                            &&& final(self).phase_of() == Phase::Stopped
                            &&& final(self).blocks_of() == old(self).blocks_of()
                            &&& directive == Directive::Quit
                        },
                        Command::Grow { bytes, filled } => {
                            &&& final(self).phase_of() == Phase::Drain
                            &&& final(self).blocks_of() == StressBuffers::pushed(
                                old(self).blocks_of(),
                                bytes as nat,
                                filled,
                            )
                            &&& directive == Directive::Poll
                        },
                        Command::Shrink => {
                            &&& final(self).phase_of() == Phase::Drain
                            &&& final(self).blocks_of() == StressBuffers::popped(
                                old(self).blocks_of(),
                            )
                            &&& directive == Directive::Poll
                        },
                        Command::Ignore => {
                            &&& final(self).phase_of() == Phase::Drain
                            &&& final(self).blocks_of() == old(self).blocks_of()
                            &&& directive == Directive::Poll
                        },
                    }
                },
                (Phase::Drain, LoopEvent::Idle) => match directive {
                    Directive::Render => {
                        &&& final(self).phase_of() == Phase::Draw
                        &&& exists|readings: Readings| #[trigger] final(self).ticked(old(self), readings)
                    },
                    Directive::Abort(error) => {
                        &&& final(self).phase_of() == Phase::Stopped
                        &&& error.failure is Refresh || error.failure is Read
                        &&& final(self).keeps(old(self))
                    },
                    _ => false,
                },
                _ => {
                    &&& final(self).phase_of() == old(self).phase_of()
                    &&& final(self).keeps(old(self))
                    &&& directive == awaited(old(self).phase_of())
                },
            },
    {
        match (self.phase, event) {
            (Phase::Draw, LoopEvent::Rendered) => {
                self.phase = Phase::Drain;
                Directive::Poll
            },
            (Phase::Drain, LoopEvent::Input(input)) => {
                let command = interpret(input);
                self.obey(command)
            },
            (Phase::Drain, LoopEvent::Idle) => {
                let outcome = self.update();
                let ghost sampled = *self;
                let directive = self.conclude(outcome);
                proof {
                    if outcome is Ok {
                        let readings = choose|readings: Readings| #[trigger]
                            sampled.ticked(old(self), readings);
                        assert(self.ticked(old(self), readings));
                    }
                }
                directive
            },
            _ => self.directive(),
        }
    }
}

} // verus!
