//! The bus-operation sequencer.
//!
//! Every high-level operation of the driver is a fixed conversation with the
//! device: register writes, combined select-and-read transactions and
//! waits, in an order the device firmware dictates. The sequencer
//! decides that order. It asks for one [`Action`] at a time; the caller
//! performs it on the bus or the delay provider, blocking or suspending as it
//! likes, and hands back the [`Event`] it produced. A transport error is the
//! caller's to return at once: the sequence is then abandoned.
use vstd::prelude::*;

use crate::regs::{self, Cntl2, Cntl3, RegisterAddress, RegisterDump, St1};
use crate::{is_measurement_of, self_test_passes, Measurement, Mode, SelfTestResult, WhoIAm,
    MODE_SET_WAIT_TIME_US};

verus! {

/// Poll interval used while waiting for the self-test measurement, in μs
pub const SELF_TEST_POLL_INTERVAL_US: u32 = 10;

/// A bus transaction or a wait, to be performed by the caller
#[derive(Copy, Clone, Debug, PartialEq, Eq, Structural)]
pub enum Action {
    /// Write `value` into `register`: the two bytes `[address, value]`
    WriteRegister { register: RegisterAddress, value: u8 },
    /// Select `register`, then read `len` bytes from it on, in one combined
    /// write-then-read transaction
    ReadRegisters { register: RegisterAddress, len: usize },
    /// Wait the given number of microseconds
    DelayUs(u32),
}

/// What came of an [`Action`]
#[derive(Debug)]
pub enum Event {
    /// A register write completed
    Written,
    /// A wait completed
    Waited,
    /// A read completed with these bytes
    Read(Vec<u8>),
}

/// The result of a completed operation
#[derive(Copy, Clone, Debug, PartialEq, Eq, Structural)]
pub enum Outcome {
    /// Identity registers read
    WhoIAm(WhoIAm),
    /// A measurement read
    Measurement(Measurement),
    /// No measurement was ready
    NoMeasurement,
    /// The mode was switched
    ModeSwitched,
    /// A self-test completed
    SelfTest(SelfTestResult),
    /// The soft reset completed
    ResetDone,
    /// Register dump read
    Dump(RegisterDump),
}

/// What the sequencer asks for next
#[derive(Copy, Clone, Debug, PartialEq, Eq, Structural)]
pub enum Step {
    /// Perform this action and report what came of it
    Perform(Action),
    /// The operation is complete
    Finished(Outcome),
}

/// Where an operation stands
#[allow(inconsistent_fields)]
#[derive(Copy, Clone, Debug, PartialEq, Eq, Structural)]
pub enum Phase {
    /// Awaiting the two identity bytes
    ReadingIdentity,
    /// Awaiting the sixteen bytes of a register dump
    ReadingDump,
    /// Awaiting the status-1 byte; with a poll interval, not-ready means
    /// wait and ask again, without one it means there is no measurement
    ReadingStatus { poll_interval_us: Option<u32>, self_test: bool },
    /// Awaiting the end of the wait between two status reads
    PollWaiting { poll_interval_us: u32, self_test: bool },
    /// Awaiting the 8-byte measurement block, read from the first axis
    /// register on
    ReadingData { st1: St1, self_test: bool },
    /// Awaiting the power-down write that precedes a mode switch
    PowerDownWritten { target: Mode, self_test: bool },
    /// Awaiting the end of the settling wait after power-down
    Settling { target: Mode, self_test: bool },
    /// Awaiting the write of the target mode
    TargetWritten { self_test: bool },
    /// Awaiting the write of the soft-reset request
    ResetWritten,
    /// Awaiting the end of the wait before reading control 3 back
    ResetSettling,
    /// Awaiting the control-3 byte read back
    ReadingReset,
    /// The operation is complete
    Done,
}

/// The bytes an event carries, if it is a read.
pub open spec fn read_bytes(event: Event) -> Seq<u8> {
    match event {
        Event::Read(b) => b@,
        _ => Seq::empty(),
    }
}

/// Whether `phase` awaits `event`: the completion of the action it asked
/// for, with as many bytes as it asked to read.
pub open spec fn accepts(phase: Phase, event: Event) -> bool {
    match phase {
        Phase::ReadingIdentity => event is Read && read_bytes(event).len() == 2,
        Phase::ReadingDump => event is Read && read_bytes(event).len() == 16,
        Phase::ReadingStatus { .. } => event is Read && read_bytes(event).len() == 1,
        Phase::PollWaiting { .. } => event is Waited,
        Phase::ReadingData { .. } => event is Read && read_bytes(event).len() == 8,
        Phase::PowerDownWritten { .. } => event is Written,
        Phase::Settling { .. } => event is Waited,
        Phase::TargetWritten { .. } => event is Written,
        Phase::ResetWritten => event is Written,
        Phase::ResetSettling => event is Waited,
        Phase::ReadingReset => event is Read && read_bytes(event).len() == 1,
        Phase::Done => false,
    }
}

/// The step that selects the first axis register and reads the 8-byte
/// measurement block from it on.
pub open spec fn read_data_step() -> Step {
    Step::Perform(Action::ReadRegisters { register: RegisterAddress::Hxl, len: 8 })
}

/// The step that selects status 1 and reads it.
pub open spec fn read_status_step() -> Step {
    Step::Perform(Action::ReadRegisters { register: RegisterAddress::St1, len: 1 })
}

/// Whether the sequencer, in `phase` and given an event that phase
/// accepts, goes on to `next` and asks for `step`.
pub open spec fn transition(phase: Phase, event: Event, next: Phase, step: Step) -> bool {
    let b = read_bytes(event);
    match phase {
        Phase::ReadingIdentity => next == Phase::Done && step == Step::Finished(
            Outcome::WhoIAm(WhoIAm { company_id: b[0], device_id: b[1] }),
        ),
        Phase::ReadingDump => next == Phase::Done && (step matches Step::Finished(
            Outcome::Dump(d),
        ) && regs::is_dump_of(d, b)),
        Phase::ReadingStatus { poll_interval_us, self_test } => if b[0] & St1::DRDY
            == St1::DRDY {
            &&& next matches Phase::ReadingData { st1, self_test: t } && st1@ == b[0]
                & St1::ALL_BITS && t == self_test
            &&& step == read_data_step()
        } else {
            match poll_interval_us {
                Some(i) => next == (Phase::PollWaiting { poll_interval_us: i, self_test })
                    && step == Step::Perform(Action::DelayUs(i)),
                None => next == Phase::Done && step == Step::Finished(Outcome::NoMeasurement),
            }
        },
        Phase::PollWaiting { poll_interval_us, self_test } => next == (Phase::ReadingStatus {
            poll_interval_us: Some(poll_interval_us),
            self_test,
        }) && step == read_status_step(),
        Phase::ReadingData { st1, self_test } => next == Phase::Done && if self_test {
            step matches Step::Finished(Outcome::SelfTest(res)) && is_measurement_of(
                res.measurement,
                st1@,
                b,
            ) && res.is_valid == self_test_passes(res.measurement)
        } else {
            step matches Step::Finished(Outcome::Measurement(m)) && is_measurement_of(m, st1@, b)
        },
        Phase::PowerDownWritten { target, self_test } => next == (Phase::Settling {
            target,
            self_test,
        }) && step == Step::Perform(Action::DelayUs(MODE_SET_WAIT_TIME_US)),
        Phase::Settling { target, self_test } => next == (Phase::TargetWritten { self_test })
            && step == Step::Perform(
            Action::WriteRegister { register: RegisterAddress::Cntl2, value: target.code() },
        ),
        Phase::TargetWritten { self_test } => if self_test {
            next == (Phase::ReadingStatus {
                poll_interval_us: Some(SELF_TEST_POLL_INTERVAL_US),
                self_test: true,
            }) && step == read_status_step()
        } else {
            next == Phase::Done && step == Step::Finished(Outcome::ModeSwitched)
        },
        Phase::ResetWritten => next == Phase::ResetSettling && step == Step::Perform(
            Action::DelayUs(MODE_SET_WAIT_TIME_US),
        ),
        Phase::ResetSettling => next == Phase::ReadingReset && step == Step::Perform(
            Action::ReadRegisters { register: RegisterAddress::Cntl3, len: 1 },
        ),
        Phase::ReadingReset => if b[0] & Cntl3::SRST == Cntl3::SRST {
            next == Phase::ResetSettling && step == Step::Perform(
                Action::DelayUs(MODE_SET_WAIT_TIME_US),
            )
        } else {
            next == Phase::Done && step == Step::Finished(Outcome::ResetDone)
        },
        Phase::Done => false,
    }
}

/// The first action of a mode switch: power down, whatever the target.
pub open spec fn power_down_action() -> Action {
    Action::WriteRegister { register: RegisterAddress::Cntl2, value: Mode::PowerDown.code() }
}

/// Drives one high-level operation through its bus transactions and waits
pub struct Sequencer {
    /// Where the operation stands
    pub phase: Phase,
}

impl Sequencer {
    /// Starts reading the identity registers: both bytes in one transaction.
    pub fn who_i_am() -> (r: (Sequencer, Action))
        ensures
            r.0.phase == Phase::ReadingIdentity,
            r.1 == (Action::ReadRegisters { register: RegisterAddress::Wia1, len: 2 }),
    {
        (
            Sequencer { phase: Phase::ReadingIdentity },
            Action::ReadRegisters { register: RegisterAddress::Wia1, len: 2 },
        )
    }

    /// Starts polling for a measurement: status 1 is read until it reports
    /// data ready, with a wait of `poll_interval_us` between reads.
    pub fn poll_measurement(poll_interval_us: u32) -> (r: (Sequencer, Action))
        ensures
            r.0.phase == (Phase::ReadingStatus {
                poll_interval_us: Some(poll_interval_us),
                self_test: false,
            }),
            Step::Perform(r.1) == read_status_step(),
    {
        (
            Sequencer {
                phase: Phase::ReadingStatus {
                    poll_interval_us: Some(poll_interval_us),
                    self_test: false,
                },
            },
            Action::ReadRegisters { register: RegisterAddress::St1, len: 1 },
        )
    }

    /// Starts a single non-blocking check for a measurement.
    pub fn read_measurement() -> (r: (Sequencer, Action))
        ensures
            r.0.phase == (Phase::ReadingStatus { poll_interval_us: None, self_test: false }),
            Step::Perform(r.1) == read_status_step(),
    {
        (
            Sequencer { phase: Phase::ReadingStatus { poll_interval_us: None, self_test: false } },
            Action::ReadRegisters { register: RegisterAddress::St1, len: 1 },
        )
    }

    /// Starts a switch to `target_mode`: power down first, always.
    pub fn switch_mode(target_mode: Mode) -> (r: (Sequencer, Action))
        ensures
            r.0.phase == (Phase::PowerDownWritten { target: target_mode, self_test: false }),
            r.1 == power_down_action(),
    {
        let value = Cntl2::from(Mode::PowerDown);
        (
            Sequencer { phase: Phase::PowerDownWritten { target: target_mode, self_test: false } },
            Action::WriteRegister { register: RegisterAddress::Cntl2, value: u8::from(value) },
        )
    }

    /// Starts a self-test: a switch to self-test mode, then a poll for the
    /// measurement at a short fixed interval.
    pub fn self_test() -> (r: (Sequencer, Action))
        ensures
            r.0.phase == (Phase::PowerDownWritten { target: Mode::SelfTest, self_test: true }),
            r.1 == power_down_action(),
    {
        let value = Cntl2::from(Mode::PowerDown);
        (
            Sequencer { phase: Phase::PowerDownWritten { target: Mode::SelfTest, self_test: true } },
            Action::WriteRegister { register: RegisterAddress::Cntl2, value: u8::from(value) },
        )
    }

    /// Starts a soft reset: request it, then read control 3 back until the
    /// device clears the request.
    pub fn soft_reset() -> (r: (Sequencer, Action))
        ensures
            r.0.phase == Phase::ResetWritten,
            r.1 == (Action::WriteRegister { register: RegisterAddress::Cntl3, value: Cntl3::SRST }),
    {
        (
            Sequencer { phase: Phase::ResetWritten },
            Action::WriteRegister { register: RegisterAddress::Cntl3, value: Cntl3::SRST },
        )
    }

    /// Starts a register dump: sixteen bytes from the first register on.
    pub fn dump_registers() -> (r: (Sequencer, Action))
        ensures
            r.0.phase == Phase::ReadingDump,
            r.1 == (Action::ReadRegisters { register: RegisterAddress::Wia1, len: 16 }),
    {
        (
            Sequencer { phase: Phase::ReadingDump },
            Action::ReadRegisters { register: RegisterAddress::Wia1, len: 16 },
        )
    }

    /// Whether the sequencer awaits `event` now.
    pub fn accepts(&self, event: &Event) -> (r: bool)
        ensures
            r == accepts(self.phase, *event),
    {
        let len: usize = match event {
            Event::Read(b) => b.len(),
            _ => 0,
        };
        match self.phase {
            Phase::ReadingIdentity => matches!(event, Event::Read(_)) && len == 2,
            Phase::ReadingDump => matches!(event, Event::Read(_)) && len == 16,
            Phase::ReadingStatus { .. } => matches!(event, Event::Read(_)) && len == 1,
            Phase::PollWaiting { .. } => matches!(event, Event::Waited),
            Phase::ReadingData { .. } => matches!(event, Event::Read(_)) && len == 8,
            Phase::PowerDownWritten { .. } => matches!(event, Event::Written),
            Phase::Settling { .. } => matches!(event, Event::Waited),
            Phase::TargetWritten { .. } => matches!(event, Event::Written),
            Phase::ResetWritten => matches!(event, Event::Written),
            Phase::ResetSettling => matches!(event, Event::Waited),
            Phase::ReadingReset => matches!(event, Event::Read(_)) && len == 1,
            Phase::Done => false,
        }
    }

    /// Takes what came of the last action and decides the next step.
    pub fn resume(&mut self, event: Event) -> (r: Step)
        requires
            accepts(old(self).phase, event),
        ensures
            transition(old(self).phase, event, final(self).phase, r),
    {
        let empty: Vec<u8> = Vec::new();
        let b = match event {
            Event::Read(b) => b,
            _ => empty,
        };
        match self.phase {
            Phase::ReadingIdentity => {
                self.phase = Phase::Done;
                Step::Finished(
                    Outcome::WhoIAm(
                        WhoIAm {
                            company_id: regs::Wia1(b[0]).0,
                            device_id: regs::Wia2(b[1]).0,
                        },
                    ),
                )
            },
            Phase::ReadingDump => {
                self.phase = Phase::Done;
                let buffer: [u8; 16] = [
                    b[0],
                    b[1],
                    b[2],
                    b[3],
                    b[4],
                    b[5],
                    b[6],
                    b[7],
                    b[8],
                    b[9],
                    b[10],
                    b[11],
                    b[12],
                    b[13],
                    b[14],
                    b[15],
                ];
                Step::Finished(Outcome::Dump(RegisterDump::from_raw_data(buffer)))
            },
            Phase::ReadingStatus { poll_interval_us, self_test } => {
                let st1 = St1::from_bits_truncate(b[0]);
                let s0 = b[0];
                assert((s0 & 0x03) & 0x01 == 0x01 <==> s0 & 0x01 == 0x01) by (bit_vector);
                if st1.contains(St1::DRDY) {
                    self.phase = Phase::ReadingData { st1, self_test };
                    Step::Perform(Action::ReadRegisters { register: RegisterAddress::Hxl, len: 8 })
                } else {
                    match poll_interval_us {
                        Some(i) => {
                            self.phase = Phase::PollWaiting { poll_interval_us: i, self_test };
                            Step::Perform(Action::DelayUs(i))
                        },
                        None => {
                            self.phase = Phase::Done;
                            Step::Finished(Outcome::NoMeasurement)
                        },
                    }
                }
            },
            Phase::PollWaiting { poll_interval_us, self_test } => {
                self.phase = Phase::ReadingStatus {
                    poll_interval_us: Some(poll_interval_us),
                    self_test,
                };
                Step::Perform(Action::ReadRegisters { register: RegisterAddress::St1, len: 1 })
            },
            Phase::ReadingData { st1, self_test } => {
                self.phase = Phase::Done;
                let buffer: [u8; 8] = [b[0], b[1], b[2], b[3], b[4], b[5], b[6], b[7]];
                let measurement = Measurement::from_raw_data(st1, buffer);
                if self_test {
                    Step::Finished(Outcome::SelfTest(SelfTestResult::from(measurement)))
                } else {
                    Step::Finished(Outcome::Measurement(measurement))
                }
            },
            Phase::PowerDownWritten { target, self_test } => {
                self.phase = Phase::Settling { target, self_test };
                Step::Perform(Action::DelayUs(MODE_SET_WAIT_TIME_US))
            },
            Phase::Settling { target, self_test } => {
                self.phase = Phase::TargetWritten { self_test };
                let value = Cntl2::from(target);
                Step::Perform(
                    Action::WriteRegister { register: RegisterAddress::Cntl2, value: u8::from(value) },
                )
            },
            Phase::TargetWritten { self_test } => {
                if self_test {
                    self.phase = Phase::ReadingStatus {
                        poll_interval_us: Some(SELF_TEST_POLL_INTERVAL_US),
                        self_test: true,
                    };
                    Step::Perform(Action::ReadRegisters { register: RegisterAddress::St1, len: 1 })
                } else {
                    self.phase = Phase::Done;
                    Step::Finished(Outcome::ModeSwitched)
                }
            },
            Phase::ResetWritten => {
                self.phase = Phase::ResetSettling;
                Step::Perform(Action::DelayUs(MODE_SET_WAIT_TIME_US))
            },
            Phase::ResetSettling => {
                self.phase = Phase::ReadingReset;
                Step::Perform(Action::ReadRegisters { register: RegisterAddress::Cntl3, len: 1 })
            },
            Phase::ReadingReset => {
                let cntl3 = Cntl3::from_bits_truncate(b[0]);
                let c0 = b[0];
                assert((c0 & 0x01) & 0x01 == 0x01 <==> c0 & 0x01 == 0x01) by (bit_vector);
                if cntl3.contains(Cntl3::SRST) {
                    self.phase = Phase::ResetSettling;
                    Step::Perform(Action::DelayUs(MODE_SET_WAIT_TIME_US))
                } else {
                    self.phase = Phase::Done;
                    Step::Finished(Outcome::ResetDone)
                }
            },
            Phase::Done => {
                // not reached: a finished sequencer accepts no event
                Step::Finished(Outcome::ResetDone)
            },
        }
    }
}

/// A mode switch is exactly two writes to the mode-control register, with
/// the settling wait strictly between them: power-down first, then the
/// target mode, for every target, power-down itself included. The switch
/// starts with the power-down write (see [`Sequencer::switch_mode`]); after
/// it, each completion leads to one next step only, and the third ends the
/// operation.
pub proof fn lemma_switch_mode_sequence(target: Mode)
    ensures
        power_down_action() == (Action::WriteRegister {
            register: RegisterAddress::Cntl2,
            value: 0,
        }),
        forall|next: Phase, step: Step|
            #[trigger] transition(
                Phase::PowerDownWritten { target, self_test: false },
                Event::Written,
                next,
                step,
            ) <==> (next == (Phase::Settling { target, self_test: false }) && step
                == Step::Perform(Action::DelayUs(MODE_SET_WAIT_TIME_US))),
        forall|next: Phase, step: Step|
            #[trigger] transition(
                Phase::Settling { target, self_test: false },
                Event::Waited,
                next,
                step,
            ) <==> (next == (Phase::TargetWritten { self_test: false }) && step == Step::Perform(
                Action::WriteRegister { register: RegisterAddress::Cntl2, value: target.code() },
            )),
        forall|next: Phase, step: Step|
            #[trigger] transition(
                Phase::TargetWritten { self_test: false },
                Event::Written,
                next,
                step,
            ) <==> (next == Phase::Done && step == Step::Finished(Outcome::ModeSwitched)),
        accepts(Phase::PowerDownWritten { target, self_test: false }, Event::Written),
        accepts(Phase::Settling { target, self_test: false }, Event::Waited),
        accepts(Phase::TargetWritten { self_test: false }, Event::Written),
        !accepts(Phase::Done, Event::Written),
{
}

} // verus!
