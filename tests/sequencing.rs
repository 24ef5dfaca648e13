use ak09916::regs::{ModeRegister, RegisterAddress};
use ak09916::sequencer::{Action, Event, Outcome, Sequencer, Step};
use ak09916::{Mode, WhoIAm};

const ALL_MODES: [Mode; 7] = [
    Mode::PowerDown,
    Mode::SingleMeasurement,
    Mode::Continuous10Hz,
    Mode::Continuous20Hz,
    Mode::Continuous50Hz,
    Mode::Continuous100Hz,
    Mode::SelfTest,
];

/// Runs a sequence against scripted answers to its reads, recording every
/// action it asks for.
fn run(start: (Sequencer, Action), mut reads: Vec<Vec<u8>>) -> (Vec<Action>, Outcome) {
    let (mut seq, mut action) = start;
    let mut actions = vec![action];
    loop {
        let event = match action {
            Action::WriteRegister { .. } => Event::Written,
            Action::DelayUs(_) => Event::Waited,
            Action::ReadRegisters { .. } => {
                Event::Read(reads.remove(0))
            }
        };
        assert!(seq.accepts(&event));
        match seq.resume(event) {
            Step::Perform(next) => {
                actions.push(next);
                action = next;
            }
            Step::Finished(outcome) => {
                assert!(reads.is_empty());
                return (actions, outcome);
            }
        }
    }
}

fn write_mode(value: u8) -> Action {
    Action::WriteRegister { register: RegisterAddress::Cntl2, value }
}

#[test]
fn switch_mode_writes_power_down_then_target() {
    for mode in ALL_MODES {
        let (actions, outcome) = run(Sequencer::switch_mode(mode), vec![]);
        assert_eq!(
            actions,
            vec![write_mode(0), Action::DelayUs(100), write_mode(u8::from(mode))]
        );
        assert_eq!(outcome, Outcome::ModeSwitched);
    }
}

#[test]
fn read_measurement_without_data() {
    let (actions, outcome) = run(Sequencer::read_measurement(), vec![vec![0x02]]);
    assert_eq!(actions, vec![Action::ReadRegisters { register: RegisterAddress::St1, len: 1 }]);
    assert_eq!(outcome, Outcome::NoMeasurement);
}

#[test]
fn read_measurement_with_data() {
    let data = vec![0x64, 0x00, 0xce, 0xff, 0xe0, 0xfc, 0x00, 0x08];
    let (actions, outcome) = run(Sequencer::read_measurement(), vec![vec![0x03], data]);
    assert_eq!(actions[1], Action::ReadRegisters { register: RegisterAddress::Hxl, len: 8 });
    match outcome {
        Outcome::Measurement(m) => {
            assert_eq!((m.hx, m.hy, m.hz), (100, -50, -800));
            assert!(m.overrun() && m.overflow());
        }
        other => panic!("unexpected outcome {:?}", other),
    }
}

#[test]
fn poll_waits_until_data_ready() {
    let data = vec![0x01, 0x00, 0x02, 0x00, 0x03, 0x00, 0x00, 0x00];
    let (actions, outcome) =
        run(Sequencer::poll_measurement(5000), vec![vec![0x00], vec![0x02], vec![0x01], data]);
    let status = Action::ReadRegisters { register: RegisterAddress::St1, len: 1 };
    assert_eq!(
        actions,
        vec![
            status,
            Action::DelayUs(5000),
            status,
            Action::DelayUs(5000),
            status,
            Action::ReadRegisters { register: RegisterAddress::Hxl, len: 8 },
        ]
    );
    match outcome {
        Outcome::Measurement(m) => {
            assert_eq!((m.hx, m.hy, m.hz), (1, 2, 3));
            assert!(!m.overrun() && !m.overflow());
        }
        other => panic!("unexpected outcome {:?}", other),
    }
}

#[test]
fn self_test_switches_mode_then_polls() {
    let data = vec![0x00, 0x00, 0x00, 0x00, 0x0c, 0xfe, 0x00, 0x00];
    let (actions, outcome) = run(Sequencer::self_test(), vec![vec![0x00], vec![0x01], data]);
    let status = Action::ReadRegisters { register: RegisterAddress::St1, len: 1 };
    assert_eq!(
        actions,
        vec![
            write_mode(0),
            Action::DelayUs(100),
            write_mode(0b10000),
            status,
            Action::DelayUs(10),
            status,
            Action::ReadRegisters { register: RegisterAddress::Hxl, len: 8 },
        ]
    );
    match outcome {
        Outcome::SelfTest(result) => {
            assert_eq!(result.measurement.hz, -500);
            assert!(result.is_valid);
        }
        other => panic!("unexpected outcome {:?}", other),
    }
}

#[test]
fn soft_reset_waits_for_bit_to_clear() {
    let (actions, outcome) = run(Sequencer::soft_reset(), vec![vec![0x01], vec![0xff], vec![0xfe]]);
    let check = Action::ReadRegisters { register: RegisterAddress::Cntl3, len: 1 };
    assert_eq!(
        actions,
        vec![
            Action::WriteRegister { register: RegisterAddress::Cntl3, value: 0x01 },
            Action::DelayUs(100),
            check,
            Action::DelayUs(100),
            check,
            Action::DelayUs(100),
            check,
        ]
    );
    assert_eq!(outcome, Outcome::ResetDone);
}

#[test]
fn who_i_am_reads_two_bytes() {
    let (actions, outcome) = run(Sequencer::who_i_am(), vec![vec![0x48, 0x09]]);
    assert_eq!(actions, vec![Action::ReadRegisters { register: RegisterAddress::Wia1, len: 2 }]);
    assert_eq!(outcome, Outcome::WhoIAm(WhoIAm::ak09916()));
}

#[test]
fn dump_reads_sixteen_bytes() {
    let mut data = vec![0u8; 16];
    data[0] = 0x48;
    data[1] = 0x09;
    data[14] = 0x1f;
    let (actions, outcome) = run(Sequencer::dump_registers(), vec![data]);
    assert_eq!(actions, vec![Action::ReadRegisters { register: RegisterAddress::Wia1, len: 16 }]);
    match outcome {
        Outcome::Dump(d) => {
            assert_eq!(d.company_id.0, 0x48);
            assert_eq!(d.mode, ModeRegister::Other(31));
        }
        other => panic!("unexpected outcome {:?}", other),
    }
}

#[test]
fn finished_sequencer_accepts_nothing() {
    let (mut seq, _) = Sequencer::switch_mode(Mode::PowerDown);
    assert!(!seq.accepts(&Event::Waited));
    assert!(!seq.accepts(&Event::Read(vec![0])));
    seq.resume(Event::Written);
    seq.resume(Event::Waited);
    seq.resume(Event::Written);
    assert!(!seq.accepts(&Event::Written));
}
