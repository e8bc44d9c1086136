use amg88xx::amg88xx::{
    pixel_address, thermistor_raw, AmbientRead, PixelFrame, PixelRead, Startup, FPS_10,
    INT_DISABLED, PCTL_NORMAL_MODE, PIXEL_STEPS_PER_DEGREE, REG_AVE, REG_FPSC, REG_INTC,
    REG_PCTL, REG_PIXEL_OFFSET, REG_RST, REG_SCLR, REG_STAT, REG_TTHH, REG_TTHL,
    RST_INITIAL_RESET, THERMISTOR_STEPS_PER_DEGREE,
};
use amg88xx::transfer::{BusOp, Step};

/// Runs the startup writes against a bus that answers write `k` with
/// `answer(k)`; gives the writes handed out and the outcome.
fn run_startup(answer: impl Fn(usize) -> Result<(), String>) -> (Vec<BusOp>, Result<(), String>) {
    let (mut script, first) = Startup::start();
    let mut ops = vec![first];
    loop {
        assert!(script.is_running());
        match script.resume(answer(ops.len() - 1)) {
            Step::Issue(op) => ops.push(op),
            Step::Done(result) => return (ops, result),
        }
    }
}

fn run_ambient(high: u8, low: u8) -> (Vec<BusOp>, Result<u16, String>) {
    let (mut script, first) = AmbientRead::start();
    let mut ops = vec![first];
    loop {
        assert!(script.is_running());
        let byte = if ops.len() == 1 { high } else { low };
        match script.resume::<String>(Ok(byte)) {
            Step::Issue(op) => ops.push(op),
            Step::Done(result) => return (ops, result),
        }
    }
}

/// Runs a pixel scan against a bus that answers read `k` with `answer(k)`.
fn run_pixels(answer: impl Fn(usize) -> Result<u16, String>) -> (Vec<BusOp>, Result<PixelFrame, String>) {
    let (mut script, first) = PixelRead::start();
    let mut ops = vec![first];
    loop {
        assert!(script.is_running());
        match script.resume(answer(ops.len() - 1)) {
            Step::Issue(op) => ops.push(op),
            Step::Done(result) => return (ops, result),
        }
    }
}

#[test]
fn test_iota() {
    assert_eq!(REG_PCTL, 0);
    assert_eq!(REG_RST, 1);
    assert_eq!(REG_FPSC, 2);
    assert_eq!(REG_INTC, 3);
    assert_eq!(REG_STAT, 4);
    assert_eq!(REG_SCLR, 5);
    assert_eq!(REG_AVE, 7);
}

#[test]
fn startup_writes_four_registers_in_order() {
    let (ops, result) = run_startup(|_| Ok(()));
    assert_eq!(result, Ok(()));
    assert_eq!(
        ops,
        vec![
            BusOp::WriteBlock { reg: REG_PCTL, value: PCTL_NORMAL_MODE },
            BusOp::WriteBlock { reg: REG_RST, value: RST_INITIAL_RESET },
            BusOp::WriteByte { reg: REG_INTC, value: INT_DISABLED },
            BusOp::WriteByte { reg: REG_FPSC, value: FPS_10 },
        ]
    );
}

#[test]
fn startup_stops_when_third_write_fails() {
    let (ops, result) = run_startup(|k| if k == 2 { Err("nack".to_string()) } else { Ok(()) });
    assert_eq!(result, Err("nack".to_string()));
    assert_eq!(ops.len(), 3);
    assert_eq!(ops[2], BusOp::WriteByte { reg: REG_INTC, value: INT_DISABLED });
}

#[test]
fn startup_stops_when_first_write_fails() {
    let (ops, result) = run_startup(|_| Err("no device".to_string()));
    assert_eq!(result, Err("no device".to_string()));
    assert_eq!(ops, vec![BusOp::WriteBlock { reg: REG_PCTL, value: PCTL_NORMAL_MODE }]);
}

#[test]
fn ambient_reads_high_then_low() {
    let (ops, result) = run_ambient(0x01, 0x90);
    assert_eq!(ops, vec![BusOp::ReadByte { reg: REG_TTHH }, BusOp::ReadByte { reg: REG_TTHL }]);
    assert_eq!(result, Ok(400));
    let celsius = result.unwrap() as f32 / THERMISTOR_STEPS_PER_DEGREE as f32;
    assert_eq!(celsius, 25.0);
}

#[test]
fn ambient_value_round_trips_through_bytes() {
    for r in [0u16, 1, 0x00FF, 0x0100, 0x0190, 0x7FFF, 0x8000, 0xABCD, 0xFFFF] {
        let (_, result) = run_ambient((r >> 8) as u8, (r & 0xFF) as u8);
        assert_eq!(result, Ok(r));
        assert_eq!(result.unwrap() as f32 / THERMISTOR_STEPS_PER_DEGREE as f32, r as f32 * 0.0625);
    }
}

#[test]
fn ambient_first_read_fails() {
    let (mut script, first) = AmbientRead::start();
    assert_eq!(first, BusOp::ReadByte { reg: REG_TTHH });
    assert_eq!(script.resume::<String>(Err("timeout".to_string())), Step::Done(Err("timeout".to_string())));
    assert!(!script.is_running());
}

#[test]
fn thermistor_bytes_join() {
    assert_eq!(thermistor_raw(0x01, 0x90), 400);
    assert_eq!(thermistor_raw(0xFF, 0xFF), 0xFFFF);
    assert_eq!(thermistor_raw(0x00, 0x00), 0);
    assert_eq!(thermistor_raw(0x12, 0x34), 0x1234);
}

#[test]
fn pixel_addresses() {
    assert_eq!(pixel_address(0), 0x80);
    assert_eq!(pixel_address(1), 0x82);
    assert_eq!(pixel_address(63), 0xFE);
}

#[test]
fn pixel_scan_reads_every_second_register() {
    let (ops, result) = run_pixels(|k| Ok(k as u16 * 3));
    assert_eq!(ops.len(), 64);
    for (k, op) in ops.iter().enumerate() {
        assert_eq!(*op, BusOp::ReadWord { reg: REG_PIXEL_OFFSET + 2 * k as u8 });
    }
    assert_eq!(ops[63], BusOp::ReadWord { reg: 0xFE });
    let frame = result.unwrap();
    assert_eq!(frame.rows.len(), 8);
    for row in 0..8 {
        assert_eq!(frame.rows[row].len(), 8);
        for col in 0..8 {
            assert_eq!(frame.rows[row][col], ((row * 8 + col) * 3) as u16);
        }
    }
}

#[test]
fn pixel_scenario_hundred_degrees() {
    let (_, result) = run_pixels(|_| Ok(0x0190));
    let frame = result.unwrap();
    assert_eq!(frame.rows[3][5], 400);
    assert_eq!(frame.rows[3][5] as f32 / PIXEL_STEPS_PER_DEGREE as f32, 100.0);
    for r in [0u16, 1, 0x0190, 0x0FFF, 0xFFFF] {
        let (_, result) = run_pixels(|_| Ok(r));
        let frame = result.unwrap();
        assert_eq!(frame.rows[7][7] as f32 / PIXEL_STEPS_PER_DEGREE as f32, r as f32 * 0.25);
    }
}

#[test]
fn pixel_scan_stops_at_failed_read() {
    let (ops, result) = run_pixels(|k| {
        assert!(k < 30, "read after the failed one");
        if k == 29 { Err("bus error".to_string()) } else { Ok(1) }
    });
    assert_eq!(result, Err("bus error".to_string()));
    assert_eq!(ops.len(), 30);
    assert_eq!(ops[29], BusOp::ReadWord { reg: 0x80 + 58 });
}
