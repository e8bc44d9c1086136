//! Register map and transaction scripts of the AMG88xx 8x8 infrared array
//! sensor.
//!
//! Each driver operation is a fixed script of SMBus transactions
//! (see `transfer`): powering up the sensor, reading its thermistor, and
//! scanning its 64 pixels. Readings come back as raw fixed-point values;
//! `THERMISTOR_STEPS_PER_DEGREE` and `PIXEL_STEPS_PER_DEGREE` give their
//! scale in degrees Celsius.
use vstd::prelude::*;
use crate::transfer::{
    BusOp, Step, Transfer, TransferModel, deliver, issued, ok_replies, run,
    lemma_transfer_complete, lemma_transfer_stops,
};

verus! {

// Control registers, at consecutive addresses.
pub const REG_PCTL: u8 = 0x00;
pub const REG_RST: u8 = 0x01;
pub const REG_FPSC: u8 = 0x02;
pub const REG_INTC: u8 = 0x03;
pub const REG_STAT: u8 = 0x04;
pub const REG_SCLR: u8 = 0x05;
pub const REG__RESERVED_: u8 = 0x06;
pub const REG_AVE: u8 = 0x07;
pub const REG_INTHL: u8 = 0x08;
pub const REG_INTHH: u8 = 0x09;
pub const REG_INTLL: u8 = 0x0A;
pub const REG_INTLH: u8 = 0x0B;
pub const REG_IHYSL: u8 = 0x0C;
pub const REG_IHYSH: u8 = 0x0D;
pub const REG_TTHL: u8 = 0x0E;
pub const REG_TTHH: u8 = 0x0F;

/// First of the 8 interrupt flag registers.
pub const REG_INT_OFFSET: u8 = 0x10;
/// First of the 128 pixel data registers, two per pixel.
pub const REG_PIXEL_OFFSET: u8 = 0x80;

/// Bus addresses of the sensor.
pub const SLAVE_ADDR_PRIMARY: u16 = 0x69;
pub const SLAVE_ADDR_ALT: u16 = 0x68;

/// Operation modes.
pub const PCTL_NORMAL_MODE: u8 = 0x00;
pub const PCTL_SLEEP_MODE: u8 = 0x10;
pub const PCTL_STAND_BY_60: u8 = 0x20;
pub const PCTL_STAND_BY_10: u8 = 0x21;

/// Software resets.
pub const RST_FLAG_RESET: u8 = 0x30;
pub const RST_INITIAL_RESET: u8 = 0x3F;

/// Frame rates.
pub const FPS_10: u8 = 0x00;
pub const FPS_1: u8 = 0x01;

/// Interrupt enables.
pub const INT_DISABLED: u8 = 0x00;
pub const INT_ENABLED: u8 = 0x01;

/// Interrupt modes.
pub const DIFFERENCE: u8 = 0x00;
pub const ABSOLUTE_VALUE: u8 = 0x01;

/// Pixel array size.
pub const PIXEL_ARRAY_WIDTH: usize = 8;
pub const PIXEL_ARRAY_HEIGHT: usize = 8;

/// A raw thermistor value counts sixteenths of a degree Celsius.
pub const THERMISTOR_STEPS_PER_DEGREE: u16 = 16;
/// A raw pixel value counts quarters of a degree Celsius.
pub const PIXEL_STEPS_PER_DEGREE: u16 = 4;

/// The writes that bring the sensor up: normal power mode, full reset,
/// interrupt off, 10 frames per second.
pub open spec fn startup_ops() -> Seq<BusOp> {
    seq![
        BusOp::WriteBlock { reg: REG_PCTL, value: PCTL_NORMAL_MODE },
        BusOp::WriteBlock { reg: REG_RST, value: RST_INITIAL_RESET },
        BusOp::WriteByte { reg: REG_INTC, value: INT_DISABLED },
        BusOp::WriteByte { reg: REG_FPSC, value: FPS_10 },
    ]
}

/// The reads of the thermistor: high byte, then low byte.
pub open spec fn ambient_ops() -> Seq<BusOp> {
    seq![BusOp::ReadByte { reg: REG_TTHH }, BusOp::ReadByte { reg: REG_TTHL }]
}

/// Address of the data of pixel `i` (row-major index).
pub open spec fn pixel_register(i: int) -> int {
    REG_PIXEL_OFFSET + 2 * i
}

/// One word read per pixel, in row-major order.
pub open spec fn pixel_ops() -> Seq<BusOp> {
    Seq::new(64, |i: int| BusOp::ReadWord { reg: pixel_register(i) as u8 })
}

/// The raw thermistor value made of its two register bytes.
pub open spec fn thermistor_value(high: u8, low: u8) -> int {
    high * 256 + low
}

/// 64 pixel words laid out as 8 rows of 8.
pub open spec fn frame_of(words: Seq<u16>) -> Seq<Seq<u16>> {
    Seq::new(8, |row: int| words.subrange(8 * row, 8 * row + 8))
}

/// Address of the data of pixel `i`.
pub fn pixel_address(i: usize) -> (r: u8)
    requires
        i < 64,
    ensures
        r == pixel_register(i as int),
{
    REG_PIXEL_OFFSET + ((i * 2) as u8)
}

/// Joins the thermistor's high and low register bytes. The value is read
/// as unsigned: no sign extension is applied.
pub fn thermistor_raw(high: u8, low: u8) -> (r: u16)
    ensures
        r == thermistor_value(high, low),
{
    (high as u16) * 256 + (low as u16)
}

/// An 8x8 grid of raw pixel values, row-major.
#[derive(Clone, Debug, PartialEq, Eq)]
pub struct PixelFrame {
    pub rows: Vec<Vec<u16>>,
}

impl View for PixelFrame {
    type V = Seq<Seq<u16>>;

    open spec fn view(&self) -> Seq<Seq<u16>> {
        self.rows@.map_values(|row: Vec<u16>| row@)
    }
}

/// Lays 64 pixel words out as 8 rows of 8.
pub fn pixel_frame(words: &Vec<u16>) -> (r: PixelFrame)
    requires
        words@.len() == 64,
    ensures
        r@ == frame_of(words@),
{
    let mut rows: Vec<Vec<u16>> = Vec::new();
    let mut row: usize = 0;
    while row < PIXEL_ARRAY_HEIGHT
        invariant
            row <= 8,
            words@.len() == 64,
            rows@.len() == row,
            forall|r: int| 0 <= r < row ==> #[trigger] rows@[r]@ == words@.subrange(8 * r, 8 * r + 8),
        decreases 8 - row,
    {
        let mut cells: Vec<u16> = Vec::new();
        let mut col: usize = 0;
        while col < PIXEL_ARRAY_WIDTH
            invariant
                row < 8,
                col <= 8,
                words@.len() == 64,
                cells@ == words@.subrange(8 * row, 8 * row + col),
            decreases 8 - col,
        {
            cells.push(words[row * PIXEL_ARRAY_WIDTH + col]);
            col = col + 1;
            assert(cells@ =~= words@.subrange(8 * row, 8 * row + col));
        }
        rows.push(cells);
        row = row + 1;
    }
    let r = PixelFrame { rows };
    assert(r@ =~= frame_of(words@));
    r
}

/// Brings the sensor up: the writes of `startup_ops`, in order.
pub struct Startup {
    transfer: Transfer<()>,
}

impl View for Startup {
    type V = TransferModel<()>;

    closed spec fn view(&self) -> TransferModel<()> {
        self.transfer@
    }
}

impl Startup {
    pub open spec fn wf(&self) -> bool {
        self@.wf() && self@.ops == startup_ops()
    }

    /// Starts the writes and hands out the first.
    pub fn start() -> (r: (Startup, BusOp))
        ensures
            r.0.wf(),
            r.0@ == TransferModel::<()>::started(startup_ops()),
            r.1 == startup_ops()[0],
    {
        let mut ops: Vec<BusOp> = Vec::new();
        ops.push(BusOp::WriteBlock { reg: REG_PCTL, value: PCTL_NORMAL_MODE });
        ops.push(BusOp::WriteBlock { reg: REG_RST, value: RST_INITIAL_RESET });
        ops.push(BusOp::WriteByte { reg: REG_INTC, value: INT_DISABLED });
        ops.push(BusOp::WriteByte { reg: REG_FPSC, value: FPS_10 });
        assert(ops@ =~= startup_ops());
        let (transfer, first) = Transfer::start(ops);
        (Startup { transfer }, first)
    }

    /// Whether a write is outstanding.
    pub fn is_running(&self) -> (r: bool)
        ensures
            r == self@.running(),
    {
        self.transfer.is_running()
    }

    /// Takes the outcome of the outstanding write and says what comes next:
    /// the following write, the first failure, or success after the last.
    pub fn resume<E>(&mut self, reply: Result<(), E>) -> (s: Step<(), E>)
        requires
            old(self).wf(),
            old(self)@.running(),
        ensures
            final(self).wf(),
            final(self)@ == old(self)@.advance(reply),
            s == old(self)@.answer(reply),
    {
        self.transfer.resume(reply)
    }
}

/// Reads the thermistor: the reads of `ambient_ops`, in order.
pub struct AmbientRead {
    transfer: Transfer<u8>,
}

impl View for AmbientRead {
    type V = TransferModel<u8>;

    closed spec fn view(&self) -> TransferModel<u8> {
        self.transfer@
    }
}

impl AmbientRead {
    pub open spec fn wf(&self) -> bool {
        self@.wf() && self@.ops == ambient_ops()
    }

    /// Starts the reads and hands out the first.
    pub fn start() -> (r: (AmbientRead, BusOp))
        ensures
            r.0.wf(),
            r.0@ == TransferModel::<u8>::started(ambient_ops()),
            r.1 == ambient_ops()[0],
    {
        let mut ops: Vec<BusOp> = Vec::new();
        ops.push(BusOp::ReadByte { reg: REG_TTHH });
        ops.push(BusOp::ReadByte { reg: REG_TTHL });
        assert(ops@ =~= ambient_ops());
        let (transfer, first) = Transfer::start(ops);
        (AmbientRead { transfer }, first)
    }

    /// Whether a read is outstanding.
    pub fn is_running(&self) -> (r: bool)
        ensures
            r == self@.running(),
    {
        self.transfer.is_running()
    }

    /// Takes the byte read (or the failure) and says what comes next. Once
    /// both bytes are in, the raw thermistor value: high byte, then low.
    pub fn resume<E>(&mut self, reply: Result<u8, E>) -> (s: Step<u16, E>)
        requires
            old(self).wf(),
            old(self)@.running(),
        ensures
            final(self).wf(),
            final(self)@ == old(self)@.advance(reply),
            s == deliver(
                old(self)@.answer(reply),
                thermistor_value(final(self)@.replies[0], final(self)@.replies[1]) as u16,
            ),
    {
        match self.transfer.resume(reply) {
            Step::Issue(op) => Step::Issue(op),
            Step::Done(Err(e)) => Step::Done(Err(e)),
            Step::Done(Ok(())) => {
                let bytes = self.transfer.replies();
                Step::Done(Ok(thermistor_raw(bytes[0], bytes[1])))
            },
        }
    }
}

/// Builds the word reads of `pixel_ops`.
fn pixel_script() -> (r: Vec<BusOp>)
    ensures
        r@ == pixel_ops(),
{
    let mut ops: Vec<BusOp> = Vec::new();
    let mut i: usize = 0;
    while i < 64
        invariant
            i <= 64,
            ops@ == pixel_ops().take(i as int),
        decreases 64 - i,
    {
        ops.push(BusOp::ReadWord { reg: pixel_address(i) });
        i = i + 1;
        assert(ops@ =~= pixel_ops().take(i as int));
    }
    assert(ops@ =~= pixel_ops());
    ops
}

/// Scans the pixel array: the reads of `pixel_ops`, in order.
pub struct PixelRead {
    transfer: Transfer<u16>,
}

impl View for PixelRead {
    type V = TransferModel<u16>;

    closed spec fn view(&self) -> TransferModel<u16> {
        self.transfer@
    }
}

impl PixelRead {
    pub open spec fn wf(&self) -> bool {
        self@.wf() && self@.ops == pixel_ops()
    }

    /// Starts the scan and hands out the first read.
    pub fn start() -> (r: (PixelRead, BusOp))
        ensures
            r.0.wf(),
            r.0@ == TransferModel::<u16>::started(pixel_ops()),
            r.1 == pixel_ops()[0],
    {
        let (transfer, first) = Transfer::start(pixel_script());
        (PixelRead { transfer }, first)
    }

    /// Whether a read is outstanding.
    pub fn is_running(&self) -> (r: bool)
        ensures
            r == self@.running(),
    {
        self.transfer.is_running()
    }

    /// Takes the word read (or the failure) and says what comes next. Once
    /// all 64 words are in, the frame that holds word `i` at row `i / 8`,
    /// column `i % 8`.
    pub fn resume<E>(&mut self, reply: Result<u16, E>) -> (s: Step<PixelFrame, E>)
        requires
            old(self).wf(),
            old(self)@.running(),
        ensures
            final(self).wf(),
            final(self)@ == old(self)@.advance(reply),
            match s {
                Step::Issue(op) => old(self)@.answer(reply) == Step::<(), E>::Issue(op),
                Step::Done(Err(e)) => old(self)@.answer(reply) == Step::<(), E>::Done(Err(e)),
                Step::Done(Ok(frame)) => old(self)@.answer(reply) == Step::<(), E>::Done(Ok(()))
                    && frame@ == frame_of(final(self)@.replies),
            },
    {
        match self.transfer.resume(reply) {
            Step::Issue(op) => Step::Issue(op),
            Step::Done(Err(e)) => Step::Done(Err(e)),
            Step::Done(Ok(())) => Step::Done(Ok(pixel_frame(self.transfer.replies()))),
        }
    }
}

/// Startup writes, in this order and no others: power control to normal
/// mode, software reset to initial reset, interrupt control to disabled,
/// frame rate to 10 per second; all four succeed and the sensor is up.
pub proof fn lemma_startup_writes<E>(later: Seq<Result<(), E>>)
    ensures
        issued(startup_ops(), ok_replies::<(), E>(seq![(), (), (), ()]) + later) == seq![
            BusOp::WriteBlock { reg: REG_PCTL, value: PCTL_NORMAL_MODE },
            BusOp::WriteBlock { reg: REG_RST, value: RST_INITIAL_RESET },
            BusOp::WriteByte { reg: REG_INTC, value: INT_DISABLED },
            BusOp::WriteByte { reg: REG_FPSC, value: FPS_10 },
        ],
        run(TransferModel::<()>::started(startup_ops()), ok_replies::<(), E>(seq![(), (), (), ()]) + later).0.complete(),
{
    lemma_transfer_complete(startup_ops(), seq![(), (), (), ()], later);
}

/// When the third startup write fails, startup ends with that error and
/// the fourth write is never handed out.
pub proof fn lemma_startup_third_write_fails<E>(e: E, later: Seq<Result<(), E>>)
    ensures
        issued(startup_ops(), ok_replies::<(), E>(seq![(), ()]) + seq![Err(e)] + later)
            == startup_ops().take(3),
        (TransferModel { ops: startup_ops(), replies: seq![(), ()], failed: false }).answer(Err::<(), E>(e))
            == Step::<(), E>::Done(Err(e)),
        !run(TransferModel::<()>::started(startup_ops()), ok_replies::<(), E>(seq![(), ()]) + seq![Err(e)] + later).0.running(),
{
    lemma_transfer_stops(startup_ops(), seq![(), ()], e, later);
}

/// A full pixel scan reads 64 words, at the pixel base address and each
/// second address after it, and puts the word read `i`-th at row `i / 8`,
/// column `i % 8` of the frame.
pub proof fn lemma_pixel_scan<E>(words: Seq<u16>, later: Seq<Result<u16, E>>)
    requires
        words.len() == 64,
    ensures
        issued(pixel_ops(), ok_replies::<u16, E>(words) + later).len() == 64,
        forall|i: int| 0 <= i < 64 ==> REG_PIXEL_OFFSET + 2 * i <= 0xFE
            && #[trigger] issued(pixel_ops(), ok_replies::<u16, E>(words) + later)[i]
                == (BusOp::ReadWord { reg: (REG_PIXEL_OFFSET + 2 * i) as u8 }),
        run(TransferModel::<u16>::started(pixel_ops()), ok_replies::<u16, E>(words) + later).0
            == (TransferModel { ops: pixel_ops(), replies: words, failed: false }),
        frame_of(words).len() == 8,
        forall|row: int| 0 <= row < 8 ==> (#[trigger] frame_of(words)[row]).len() == 8,
        forall|i: int| 0 <= i < 64 ==> #[trigger] frame_of(words)[i / 8][i % 8] == words[i],
{
    lemma_transfer_complete(pixel_ops(), words, later);
    assert forall|i: int| 0 <= i < 64 implies #[trigger] frame_of(words)[i / 8][i % 8] == words[i] by {
        assert(0 <= i / 8 < 8 && 8 * (i / 8) + i % 8 == i) by (nonlinear_arith)
            requires
                0 <= i < 64,
        ;
    }
}

/// When a pixel read fails after `words` came back, the scan ends with that
/// error, and no read after the failed one is handed out.
pub proof fn lemma_pixel_scan_stops<E>(words: Seq<u16>, e: E, later: Seq<Result<u16, E>>)
    requires
        words.len() < 64,
    ensures
        issued(pixel_ops(), ok_replies::<u16, E>(words) + seq![Err(e)] + later)
            == pixel_ops().take(words.len() + 1int),
        (TransferModel { ops: pixel_ops(), replies: words, failed: false }).answer(Err::<u16, E>(e))
            == Step::<(), E>::Done(Err(e)),
        !run(TransferModel::<u16>::started(pixel_ops()), ok_replies::<u16, E>(words) + seq![Err(e)] + later).0.running(),
{
    lemma_transfer_stops(pixel_ops(), words, e, later);
}

/// Any 16-bit raw thermistor value `r` comes back whole when the high-byte
/// read returns its upper byte and the low-byte read its lower byte.
pub proof fn lemma_thermistor_bytes<E>(r: u16, later: Seq<Result<u8, E>>)
    ensures
        thermistor_value((r >> 8u16) as u8, (r & 0xFFu16) as u8) == r,
        issued(ambient_ops(), ok_replies::<u8, E>(seq![(r >> 8u16) as u8, (r & 0xFFu16) as u8]) + later)
            == seq![BusOp::ReadByte { reg: REG_TTHH }, BusOp::ReadByte { reg: REG_TTHL }],
        run(
            TransferModel::<u8>::started(ambient_ops()),
            ok_replies::<u8, E>(seq![(r >> 8u16) as u8, (r & 0xFFu16) as u8]) + later,
        ).0.replies == seq![(r >> 8u16) as u8, (r & 0xFFu16) as u8],
{
    assert((r >> 8u16) as u8 == r / 256 && (r & 0xFFu16) as u8 == r % 256) by (bit_vector);
    lemma_transfer_complete(ambient_ops(), seq![(r >> 8u16) as u8, (r & 0xFFu16) as u8], later);
}

} // verus!
