//! Driver-side state for the AP33772 sink controller: the register map,
//! the last status read, and the decoded PDO table.
//!
//! Bus transactions stay outside the crate. The caller reads the raw
//! register bytes and hands them in; everything that interprets them —
//! decoding the 28-byte PDO block, deciding when it must be re-read,
//! scaling telemetry, encoding thresholds and framing the request write —
//! lives here.

use vstd::prelude::*;

use crate::regs::PDO;
use crate::regs::RDO;
use crate::regs::Status;
use crate::regs::decode_pdo;
use crate::regs::spec_decode_pdo;

verus! {

broadcast use vstd::array::group_array_axioms;

/// Fixed 7-bit bus address of the chip.
pub const BUS_ADDR: u8 = 0x51;

/// PDO block: seven 4-byte little-endian words, read-only.
pub const REG_PDOS: u8 = 0x00;

/// Number of valid PDOs, 1 byte, read-only.
pub const REG_NPDOS: u8 = 0x1c;

/// Status bitfield, 1 byte, read-only.
pub const REG_STATUS: u8 = 0x1d;

/// Interrupt mask, 1 byte, read/write.
pub const REG_IRQMASK: u8 = 0x1e;

/// Voltage telemetry, 1 byte, LSB 80 mV, read-only.
pub const REG_VOLTAGE: u8 = 0x20;

/// Current telemetry, 1 byte, LSB 24 mA, read-only.
pub const REG_CURRENT: u8 = 0x21;

/// Temperature telemetry, 1 byte, raw degrees, read-only.
pub const REG_TEMP: u8 = 0x22;

/// Over-current threshold, 1 byte, LSB 50 mA, read/write.
pub const REG_OCPTHR: u8 = 0x23;

/// Over-temperature threshold, 1 byte, raw, read/write.
pub const REG_OTPTHR: u8 = 0x24;

/// De-rating threshold, 1 byte, raw, read/write.
pub const REG_DRTHR: u8 = 0x25;

/// RDO request word, opcode byte followed by 4 little-endian bytes,
/// write-only.
pub const REG_RDO: u8 = 0x30;

/// The 32-bit word assembled from four little-endian bytes.
pub open spec fn spec_le_word(b0: u8, b1: u8, b2: u8, b3: u8) -> u32 {
    (b0 as u32) | (b1 as u32) << 8 | (b2 as u32) << 16 | (b3 as u32) << 24
}

/// The little-endian word of table slot `i` (0-based) within the 28-byte
/// PDO block.
pub open spec fn spec_slot_word(block: Seq<u8>, i: int) -> u32 {
    spec_le_word(block[4 * i], block[4 * i + 1], block[4 * i + 2], block[4 * i + 3])
}

/// Assemble a 32-bit register value from its little-endian bytes.
pub fn le_word(b0: u8, b1: u8, b2: u8, b3: u8) -> (w: u32)
    ensures
        w == spec_le_word(b0, b1, b2, b3),
{
    (b0 as u32) | (b1 as u32) << 8 | (b2 as u32) << 16 | (b3 as u32) << 24
}

/// Splitting a word into little-endian bytes and reassembling it gives
/// the word back.
pub proof fn lemma_le_word_round_trip(w: u32)
    ensures
        spec_le_word(
            (w & 0xff) as u8,
            ((w >> 8) & 0xff) as u8,
            ((w >> 16) & 0xff) as u8,
            ((w >> 24) & 0xff) as u8,
        ) == w,
{
    assert((((w & 0xff) as u8) as u32) | ((((w >> 8) & 0xff) as u8) as u32) << 8 | ((((w >> 16)
        & 0xff) as u8) as u32) << 16 | ((((w >> 24) & 0xff) as u8) as u32) << 24 == w)
        by (bit_vector);
}

/// Driver state for the chip: the status byte from the last update and
/// the decoded seven-slot PDO table.
pub struct AP33772 {
    pub status: Status,
    pub pdos: [Option<PDO>; 7],
}

impl AP33772 {
    /// Fresh driver state: status clear, every table slot empty.
    pub fn new() -> (r: AP33772)
        ensures
            r.status.0 == 0,
            forall|i: int| 0 <= i < 7 ==> r.pdos@[i] is None,
    {
        AP33772 { status: Status(0), pdos: [None, None, None, None, None, None, None] }
    }

    /// Record a freshly read status byte.
    ///
    /// Returns whether the PDO block must now be re-read and handed to
    /// [`AP33772::load_pdos`]: exactly when the new status has both
    /// `ready` and `newpdos` set. The table itself is untouched — it is
    /// only ever rewritten wholesale from a full block.
    pub fn update(&mut self, raw_status: u8) -> (refresh: bool)
        ensures
            final(self).status.0 == raw_status,
            final(self).pdos == old(self).pdos,
            refresh == (Status(raw_status).spec_ready() && Status(raw_status).spec_newpdos()),
    {
        self.status = Status(raw_status);
        self.status.ready() && self.status.newpdos()
    }

    /// Rewrite the whole PDO table from a freshly read 28-byte block:
    /// slot `i` holds the decoding of the i-th little-endian word.
    pub fn load_pdos(&mut self, block: &[u8; 28])
        ensures
            final(self).status == old(self).status,
            forall|i: int|
                0 <= i < 7 ==> final(self).pdos@[i] == spec_decode_pdo(
                    spec_slot_word(block@, i),
                ),
    {
        let mut i: usize = 0;
        while i < 7
            invariant
                i <= 7,
                self.status == old(self).status,
                forall|k: int|
                    0 <= k < i ==> self.pdos@[k] == spec_decode_pdo(spec_slot_word(block@, k)),
            decreases 7 - i,
        {
            let w: u32 = le_word(block[4 * i], block[4 * i + 1], block[4 * i + 2], block[4 * i
                + 3]);
            self.pdos[i] = decode_pdo(w);
            i += 1;
        }
    }
}

/// Convert the raw voltage telemetry byte to millivolts (LSB 80 mV).
/// This is the ADC scaling, distinct from the PDO voltage scaling.
pub fn scale_voltage(raw: u8) -> (r: u16)
    ensures
        r == raw * 80,
{
    (raw as u16) * 80
}

/// Convert the raw current telemetry byte to milliamps (LSB 24 mA).
/// This is the ADC scaling, distinct from the PDO current scaling.
pub fn scale_current(raw: u8) -> (r: u16)
    ensures
        r == raw * 24,
{
    (raw as u16) * 24
}

/// Encode an over-current threshold in milliamps as the register byte
/// (LSB 50 mA). Thresholds above 12750 mA do not fit the register and
/// are a programming error.
pub fn ocp_threshold_byte(thr: u16) -> (r: u8)
    requires
        thr <= 12750,
    ensures
        r == thr / 50,
{
    proof {
        assert(thr <= 12750 ==> thr / 50 <= 255) by (nonlinear_arith);
    }
    (thr / 50) as u8
}

/// The 5-byte bus frame that writes request `rdo`: the RDO opcode
/// followed by the request word in little-endian order.
pub fn rdo_frame(rdo: &RDO) -> (r: [u8; 5])
    ensures
        r@[0] == REG_RDO,
        r@[1] == (rdo.spec_reg() & 0xff) as u8,
        r@[2] == ((rdo.spec_reg() >> 8) & 0xff) as u8,
        r@[3] == ((rdo.spec_reg() >> 16) & 0xff) as u8,
        r@[4] == ((rdo.spec_reg() >> 24) & 0xff) as u8,
        spec_le_word(r@[1], r@[2], r@[3], r@[4]) == rdo.spec_reg(),
{
    let w: u32 = *rdo.reg();
    proof {
        lemma_le_word_round_trip(w);
    }
    [
        REG_RDO,
        (w & 0xff) as u8,
        ((w >> 8) & 0xff) as u8,
        ((w >> 16) & 0xff) as u8,
        ((w >> 24) & 0xff) as u8,
    ]
}

/// The 5-byte bus frame of the all-zero request, which the chip reads
/// as "request nothing": written to de-energize the output before
/// renegotiating or on a fatal fault.
pub fn reset_frame() -> (r: [u8; 5])
    ensures
        r@[0] == REG_RDO,
        forall|i: int| 1 <= i < 5 ==> r@[i] == 0,
{
    [REG_RDO, 0, 0, 0, 0]
}

} // verus!
