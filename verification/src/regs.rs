//! Register-level codec for the AP33772 sink controller.
//!
//! Every type in this module is a newtype over the raw register word, with
//! one accessor per bit field. Bit positions and scaling factors are
//! contractual with the chip and are spelled out next to each accessor.

use vstd::prelude::*;

verus! {

/// The 1-byte STATUS register (offset 0x1D).
///
/// Bit layout: `derating` 7, `otp` 6, `ocp` 5, `ovp` 4, `newpdos` 2,
/// `success` 1, `ready` 0; bit 3 is unused.
#[derive(Clone, Copy, Debug, PartialEq, Eq, Structural)]
pub struct Status(pub u8);

impl Status {
    /// Bit 7: thermal de-rating is active.
    pub open spec fn spec_derating(self) -> bool {
        self.0 & 0x80 != 0
    }

    /// Bit 6: over-temperature fault.
    pub open spec fn spec_otp(self) -> bool {
        self.0 & 0x40 != 0
    }

    /// Bit 5: over-current fault.
    pub open spec fn spec_ocp(self) -> bool {
        self.0 & 0x20 != 0
    }

    /// Bit 4: over-voltage fault.
    pub open spec fn spec_ovp(self) -> bool {
        self.0 & 0x10 != 0
    }

    /// Bit 2: the chip has renegotiated and advertises a fresh PDO table.
    pub open spec fn spec_newpdos(self) -> bool {
        self.0 & 0x04 != 0
    }

    /// Bit 1: the last request was accepted by the source.
    pub open spec fn spec_success(self) -> bool {
        self.0 & 0x02 != 0
    }

    /// Bit 0: the chip has finished booting; other bits are meaningful
    /// only once this one is set.
    pub open spec fn spec_ready(self) -> bool {
        self.0 & 0x01 != 0
    }

    /// Any of the three protection faults (`ovp`, `ocp`, `otp`).
    pub open spec fn spec_fault(self) -> bool {
        self.spec_ovp() || self.spec_ocp() || self.spec_otp()
    }

    pub fn derating(&self) -> (r: bool)
        ensures
            r == self.spec_derating(),
    {
        self.0 & 0x80 != 0
    }

    pub fn otp(&self) -> (r: bool)
        ensures
            r == self.spec_otp(),
    {
        self.0 & 0x40 != 0
    }

    pub fn ocp(&self) -> (r: bool)
        ensures
            r == self.spec_ocp(),
    {
        self.0 & 0x20 != 0
    }

    pub fn ovp(&self) -> (r: bool)
        ensures
            r == self.spec_ovp(),
    {
        self.0 & 0x10 != 0
    }

    pub fn newpdos(&self) -> (r: bool)
        ensures
            r == self.spec_newpdos(),
    {
        self.0 & 0x04 != 0
    }

    pub fn success(&self) -> (r: bool)
        ensures
            r == self.spec_success(),
    {
        self.0 & 0x02 != 0
    }

    pub fn ready(&self) -> (r: bool)
        ensures
            r == self.spec_ready(),
    {
        self.0 & 0x01 != 0
    }

    /// True iff one of the protection fault bits is set.
    pub fn fault(&self) -> (r: bool)
        ensures
            r == self.spec_fault(),
    {
        self.0 & 0x10 != 0 || self.0 & 0x20 != 0 || self.0 & 0x40 != 0
    }
}

/// The 1-byte interrupt mask register (offset 0x1E): one enable bit per
/// status event, at the same bit positions as [`Status`].
///
/// Bit layout: `derating` 7, `otp` 6, `ocp` 5, `ovp` 4, `newpdo` 2,
/// `success` 1, `ready` 0.
#[derive(Clone, Copy, Debug, PartialEq, Eq, Structural)]
pub struct IrqMask(pub u8);

/// `m` with bit `bit` (given as a one-hot mask) set to `v`.
pub open spec fn spec_set_flag(m: u8, bit: u8, v: bool) -> u8 {
    if v {
        m | bit
    } else {
        m & !bit
    }
}

impl IrqMask {
    /// Bit 7: de-rating interrupt enabled.
    pub open spec fn spec_derating(self) -> bool {
        self.0 & 0x80 != 0
    }

    /// Bit 6: over-temperature interrupt enabled.
    pub open spec fn spec_otp(self) -> bool {
        self.0 & 0x40 != 0
    }

    /// Bit 5: over-current interrupt enabled.
    pub open spec fn spec_ocp(self) -> bool {
        self.0 & 0x20 != 0
    }

    /// Bit 4: over-voltage interrupt enabled.
    pub open spec fn spec_ovp(self) -> bool {
        self.0 & 0x10 != 0
    }

    /// Bit 2: new-PDO interrupt enabled.
    pub open spec fn spec_newpdo(self) -> bool {
        self.0 & 0x04 != 0
    }

    /// Bit 1: success interrupt enabled.
    pub open spec fn spec_success(self) -> bool {
        self.0 & 0x02 != 0
    }

    /// Bit 0: ready interrupt enabled.
    pub open spec fn spec_ready(self) -> bool {
        self.0 & 0x01 != 0
    }

    pub fn derating(&self) -> (r: bool)
        ensures
            r == self.spec_derating(),
    {
        self.0 & 0x80 != 0
    }

    pub fn otp(&self) -> (r: bool)
        ensures
            r == self.spec_otp(),
    {
        self.0 & 0x40 != 0
    }

    pub fn ocp(&self) -> (r: bool)
        ensures
            r == self.spec_ocp(),
    {
        self.0 & 0x20 != 0
    }

    pub fn ovp(&self) -> (r: bool)
        ensures
            r == self.spec_ovp(),
    {
        self.0 & 0x10 != 0
    }

    pub fn newpdo(&self) -> (r: bool)
        ensures
            r == self.spec_newpdo(),
    {
        self.0 & 0x04 != 0
    }

    pub fn success(&self) -> (r: bool)
        ensures
            r == self.spec_success(),
    {
        self.0 & 0x02 != 0
    }

    pub fn ready(&self) -> (r: bool)
        ensures
            r == self.spec_ready(),
    {
        self.0 & 0x01 != 0
    }

    /// Enable or disable the de-rating interrupt, bit 7.
    pub fn enable_derating(&mut self, v: bool)
        ensures
            final(self).0 == spec_set_flag(old(self).0, 0x80, v),
    {
        self.0 = if v {
            self.0 | 0x80
        } else {
            self.0 & !0x80u8
        };
    }

    /// Enable or disable the over-temperature interrupt, bit 6.
    pub fn enable_otp(&mut self, v: bool)
        ensures
            final(self).0 == spec_set_flag(old(self).0, 0x40, v),
    {
        self.0 = if v {
            self.0 | 0x40
        } else {
            self.0 & !0x40u8
        };
    }

    /// Enable or disable the over-current interrupt, bit 5.
    pub fn enable_ocp(&mut self, v: bool)
        ensures
            final(self).0 == spec_set_flag(old(self).0, 0x20, v),
    {
        self.0 = if v {
            self.0 | 0x20
        } else {
            self.0 & !0x20u8
        };
    }

    /// Enable or disable the over-voltage interrupt, bit 4.
    pub fn enable_ovp(&mut self, v: bool)
        ensures
            final(self).0 == spec_set_flag(old(self).0, 0x10, v),
    {
        self.0 = if v {
            self.0 | 0x10
        } else {
            self.0 & !0x10u8
        };
    }

    /// Enable or disable the new-PDO interrupt, bit 2.
    pub fn enable_newpdo(&mut self, v: bool)
        ensures
            final(self).0 == spec_set_flag(old(self).0, 0x04, v),
    {
        self.0 = if v {
            self.0 | 0x04
        } else {
            self.0 & !0x04u8
        };
    }

    /// Enable or disable the success interrupt, bit 1.
    pub fn enable_success(&mut self, v: bool)
        ensures
            final(self).0 == spec_set_flag(old(self).0, 0x02, v),
    {
        self.0 = if v {
            self.0 | 0x02
        } else {
            self.0 & !0x02u8
        };
    }

    /// Enable or disable the ready interrupt, bit 0.
    pub fn enable_ready(&mut self, v: bool)
        ensures
            final(self).0 == spec_set_flag(old(self).0, 0x01, v),
    {
        self.0 = if v {
            self.0 | 0x01
        } else {
            self.0 & !0x01u8
        };
    }
}

/// A fixed-voltage power offer, as the chip reports it: a 32-bit word with
/// the voltage in bits[19:10] (LSB 50 mV) and the maximum current in
/// bits[9:0] (LSB 10 mA).
#[derive(Clone, Copy, Debug, PartialEq, Eq, Structural)]
pub struct FixedPDO(pub u32);

impl FixedPDO {
    /// Bits[19:10]: voltage, LSB 50 mV.
    pub open spec fn spec_v(self) -> u32 {
        (self.0 >> 10) & 0x3ff
    }

    /// Bits[9:0]: maximum current, LSB 10 mA.
    pub open spec fn spec_imax(self) -> u32 {
        self.0 & 0x3ff
    }

    pub fn v(&self) -> (r: u32)
        ensures
            r == self.spec_v(),
    {
        (self.0 >> 10) & 0x3ff
    }

    pub fn imax(&self) -> (r: u32)
        ensures
            r == self.spec_imax(),
    {
        self.0 & 0x3ff
    }
}

/// A programmable (PPS-style) power offer: a 32-bit word with the maximum
/// voltage in bits[24:17] (LSB 100 mV), the minimum voltage in bits[15:8]
/// (LSB 100 mV) and the maximum current in bits[6:0] (LSB 50 mA).
#[derive(Clone, Copy, Debug, PartialEq, Eq, Structural)]
pub struct APDO(pub u32);

impl APDO {
    /// Bits[24:17]: maximum voltage, LSB 100 mV.
    pub open spec fn spec_vmax(self) -> u32 {
        (self.0 >> 17) & 0xff
    }

    /// Bits[15:8]: minimum voltage, LSB 100 mV.
    pub open spec fn spec_vmin(self) -> u32 {
        (self.0 >> 8) & 0xff
    }

    /// Bits[6:0]: maximum current, LSB 50 mA.
    pub open spec fn spec_imax(self) -> u32 {
        self.0 & 0x7f
    }

    pub fn vmax(&self) -> (r: u32)
        ensures
            r == self.spec_vmax(),
    {
        (self.0 >> 17) & 0xff
    }

    pub fn vmin(&self) -> (r: u32)
        ensures
            r == self.spec_vmin(),
    {
        (self.0 >> 8) & 0xff
    }

    pub fn imax(&self) -> (r: u32)
        ensures
            r == self.spec_imax(),
    {
        self.0 & 0x7f
    }
}

/// A decoded power offer: one of the two PDO variants the core handles.
/// Words of any other shape are treated as absent slots, never fabricated.
#[derive(Clone, Copy, Debug, PartialEq, Eq, Structural)]
pub enum PDO {
    Fixed(FixedPDO),
    Programmable(APDO),
}

/// Raw bit fields sit below their masks; needed to scale them without
/// overflow.
proof fn lemma_field_bounds(w: u32)
    by (bit_vector)
    ensures
        (w >> 10) & 0x3ff <= 0x3ff,
        w & 0x3ff <= 0x3ff,
        (w >> 17) & 0xff <= 0xff,
        (w >> 8) & 0xff <= 0xff,
        w & 0x7f <= 0x7f,
{
}

impl PDO {
    /// Lowest voltage of the offer, in millivolts. A fixed offer has a
    /// single voltage, so its minimum and maximum coincide.
    pub open spec fn spec_vmin(self) -> int {
        match self {
            PDO::Fixed(pdo) => pdo.spec_v() * 50,
            PDO::Programmable(pdo) => pdo.spec_vmin() * 100,
        }
    }

    /// Highest voltage of the offer, in millivolts.
    pub open spec fn spec_vmax(self) -> int {
        match self {
            PDO::Fixed(pdo) => pdo.spec_v() * 50,
            PDO::Programmable(pdo) => pdo.spec_vmax() * 100,
        }
    }

    /// Maximum current of the offer, in milliamps.
    pub open spec fn spec_imax(self) -> int {
        match self {
            PDO::Fixed(pdo) => pdo.spec_imax() * 10,
            PDO::Programmable(pdo) => pdo.spec_imax() * 50,
        }
    }

    /// The offer's voltage range overlaps the caller's `[vmin, vmax]`
    /// envelope.
    pub open spec fn spec_vcomp(self, vmin: u32, vmax: u32) -> bool {
        vmin <= self.spec_vmax() && self.spec_vmin() <= vmax
    }

    /// The offer can supply at least `imin` milliamps.
    pub open spec fn spec_icomp(self, imin: u32) -> bool {
        imin <= self.spec_imax()
    }

    pub fn vmin(&self) -> (r: u32)
        ensures
            r == self.spec_vmin(),
    {
        match self {
            PDO::Fixed(pdo) => {
                proof {
                    lemma_field_bounds(pdo.0);
                }
                pdo.v() * 50
            },
            PDO::Programmable(pdo) => {
                proof {
                    lemma_field_bounds(pdo.0);
                }
                pdo.vmin() * 100
            },
        }
    }

    pub fn vmax(&self) -> (r: u32)
        ensures
            r == self.spec_vmax(),
    {
        match self {
            PDO::Fixed(pdo) => {
                proof {
                    lemma_field_bounds(pdo.0);
                }
                pdo.v() * 50
            },
            PDO::Programmable(pdo) => {
                proof {
                    lemma_field_bounds(pdo.0);
                }
                pdo.vmax() * 100
            },
        }
    }

    pub fn imax(&self) -> (r: u32)
        ensures
            r == self.spec_imax(),
    {
        match self {
            PDO::Fixed(pdo) => {
                proof {
                    lemma_field_bounds(pdo.0);
                }
                pdo.imax() * 10
            },
            PDO::Programmable(pdo) => {
                proof {
                    lemma_field_bounds(pdo.0);
                }
                pdo.imax() * 50
            },
        }
    }

    /// Voltage compatibility against the caller's envelope.
    pub fn vcomp(&self, vmin: u32, vmax: u32) -> (r: bool)
        ensures
            r == self.spec_vcomp(vmin, vmax),
    {
        (vmin <= self.vmax()) && (self.vmin() <= vmax)
    }

    /// Current compatibility against the caller's minimum.
    pub fn icomp(&self, imin: u32) -> (r: bool)
        ensures
            r == self.spec_icomp(imin),
    {
        imin <= self.imax()
    }
}

/// What a 32-bit PDO slot word decodes to. Checked in order: an all-zero
/// word is an empty slot; `0xC` in the top nibble marks a programmable
/// offer; a clear top bit pair marks a fixed offer; anything else is an
/// unknown PDO type and is ignored.
pub open spec fn spec_decode_pdo(w: u32) -> Option<PDO> {
    if w == 0 {
        None
    } else if w & 0xf000_0000 == 0xc000_0000 {
        Some(PDO::Programmable(APDO(w)))
    } else if w & 0xc000_0000 == 0 {
        Some(PDO::Fixed(FixedPDO(w)))
    } else {
        None
    }
}

/// Decode one PDO slot word.
///
/// The result is `None` exactly for the empty word and for bit patterns
/// that match neither the fixed nor the programmable layout.
pub fn decode_pdo(w: u32) -> (r: Option<PDO>)
    ensures
        r == spec_decode_pdo(w),
        r is None <==> (w == 0 || (w & 0xf000_0000 != 0xc000_0000 && w & 0xc000_0000 != 0)),
{
    if w == 0 {
        None
    } else if w & 0xf000_0000 == 0xc000_0000 {
        Some(PDO::Programmable(APDO(w)))
    } else if w & 0xc000_0000 == 0 {
        Some(PDO::Fixed(FixedPDO(w)))
    } else {
        None
    }
}

/// The 32-bit word of a fixed offer with raw voltage field `v` and raw
/// current field `i`: `v` in bits[19:10], `i` in bits[9:0], all other
/// bits clear.
pub open spec fn spec_fixed_word(v: u32, i: u32) -> u32 {
    (v << 10) | i
}

/// Build a fixed-offer word from its raw fields (`v`: LSB 50 mV,
/// `i`: LSB 10 mA).
pub fn encode_fixed(v: u32, i: u32) -> (w: u32)
    requires
        v <= 0x3ff,
        i <= 0x3ff,
    ensures
        w == spec_fixed_word(v, i),
{
    (v << 10) | i
}

/// A fixed-offer word built from in-range raw fields decodes back to the
/// same fields, except for the all-zero pair, whose word is the empty
/// slot.
pub proof fn lemma_fixed_round_trip(v: u32, i: u32)
    requires
        v <= 0x3ff,
        i <= 0x3ff,
        v != 0 || i != 0,
    ensures
        spec_decode_pdo(spec_fixed_word(v, i)) == Some(PDO::Fixed(FixedPDO(spec_fixed_word(v, i)))),
        FixedPDO(spec_fixed_word(v, i)).spec_v() == v,
        FixedPDO(spec_fixed_word(v, i)).spec_imax() == i,
{
    let w = spec_fixed_word(v, i);
    assert(v <= 0x3ff && i <= 0x3ff && (v != 0 || i != 0) ==> {
        &&& ((v << 10) | i) != 0
        &&& ((v << 10) | i) & 0xf000_0000 != 0xc000_0000
        &&& ((v << 10) | i) & 0xc000_0000 == 0
        &&& ((((v << 10) | i) >> 10) & 0x3ff) == v
        &&& (((v << 10) | i) & 0x3ff) == i
    }) by (bit_vector);
    assert(w == (v << 10) | i);
}

/// `w` with the PDO position field, bits[30:28], replaced by the low
/// three bits of `v`. Both request layouts carry the position there.
pub open spec fn spec_set_pos(w: u32, v: u32) -> u32 {
    (w & !0x7000_0000u32) | ((v & 0x7) << 28)
}

/// `w` with bits[19:10] replaced by the low ten bits of `v`.
pub open spec fn spec_set_bits_19_10(w: u32, v: u32) -> u32 {
    (w & !0x000f_fc00u32) | ((v & 0x3ff) << 10)
}

/// `w` with bits[9:0] replaced by the low ten bits of `v`.
pub open spec fn spec_set_bits_9_0(w: u32, v: u32) -> u32 {
    (w & !0x0000_03ffu32) | (v & 0x3ff)
}

/// `w` with bits[19:9] replaced by the low eleven bits of `v`.
pub open spec fn spec_set_bits_19_9(w: u32, v: u32) -> u32 {
    (w & !0x000f_fe00u32) | ((v & 0x7ff) << 9)
}

/// `w` with bits[6:0] replaced by the low seven bits of `v`.
pub open spec fn spec_set_bits_6_0(w: u32, v: u32) -> u32 {
    (w & !0x0000_007fu32) | (v & 0x7f)
}

/// The request word for a fixed offer: position in bits[30:28], the
/// operating current (LSB 10 mA) in bits[19:10] and, identically, in the
/// maximum-operating-current field bits[9:0].
pub open spec fn spec_fixed_rdo_word(pos: u32, i: u32) -> u32 {
    ((pos & 0x7) << 28) | ((i & 0x3ff) << 10) | (i & 0x3ff)
}

/// The request word for a programmable offer: position in bits[30:28],
/// the voltage (LSB 20 mV) in bits[19:9] and the current (LSB 50 mA) in
/// bits[6:0].
pub open spec fn spec_ardo_word(pos: u32, volt: u32, i: u32) -> u32 {
    ((pos & 0x7) << 28) | ((volt & 0x7ff) << 9) | (i & 0x7f)
}

/// A request for a fixed offer: position in bits[30:28], operating
/// current in bits[19:10] (LSB 10 mA), maximum operating current in
/// bits[9:0] (LSB 10 mA).
#[derive(Clone, Copy, Debug, PartialEq, Eq, Structural)]
pub struct FixedRDO(pub u32);

impl FixedRDO {
    /// Set the 1-based PDO position, bits[30:28].
    pub fn pos(&mut self, v: u32)
        ensures
            final(self).0 == spec_set_pos(old(self).0, v),
    {
        self.0 = (self.0 & !0x7000_0000u32) | ((v & 0x7) << 28);
    }

    /// Set the operating current, bits[19:10], LSB 10 mA.
    pub fn i(&mut self, v: u32)
        ensures
            final(self).0 == spec_set_bits_19_10(old(self).0, v),
    {
        self.0 = (self.0 & !0x000f_fc00u32) | ((v & 0x3ff) << 10);
    }

    /// Set the maximum operating current, bits[9:0], LSB 10 mA.
    pub fn imax(&mut self, v: u32)
        ensures
            final(self).0 == spec_set_bits_9_0(old(self).0, v),
    {
        self.0 = (self.0 & !0x0000_03ffu32) | (v & 0x3ff);
    }
}

/// A request for a programmable offer: position in bits[30:28], voltage
/// in bits[19:9] (LSB 20 mV), current in bits[6:0] (LSB 50 mA).
#[derive(Clone, Copy, Debug, PartialEq, Eq, Structural)]
pub struct ARDO(pub u32);

impl ARDO {
    /// Set the 1-based PDO position, bits[30:28].
    pub fn pos(&mut self, v: u32)
        ensures
            final(self).0 == spec_set_pos(old(self).0, v),
    {
        self.0 = (self.0 & !0x7000_0000u32) | ((v & 0x7) << 28);
    }

    /// Set the requested voltage, bits[19:9], LSB 20 mV.
    pub fn volt(&mut self, v: u32)
        ensures
            final(self).0 == spec_set_bits_19_9(old(self).0, v),
    {
        self.0 = (self.0 & !0x000f_fe00u32) | ((v & 0x7ff) << 9);
    }

    /// Set the requested current, bits[6:0], LSB 50 mA.
    pub fn i(&mut self, v: u32)
        ensures
            final(self).0 == spec_set_bits_6_0(old(self).0, v),
    {
        self.0 = (self.0 & !0x0000_007fu32) | (v & 0x7f);
    }
}

/// The request word written back to the chip, mirroring the two offer
/// variants.
#[derive(Clone, Copy, Debug, PartialEq, Eq, Structural)]
pub enum RDO {
    FixedRDO(FixedRDO),
    ARDO(ARDO),
}

impl RDO {
    /// The raw 32-bit register word of the request.
    pub open spec fn spec_reg(self) -> u32 {
        match self {
            RDO::FixedRDO(v) => v.0,
            RDO::ARDO(v) => v.0,
        }
    }

    pub fn reg(&self) -> (r: &u32)
        ensures
            *r == self.spec_reg(),
    {
        match self {
            RDO::FixedRDO(v) => &v.0,
            RDO::ARDO(v) => &v.0,
        }
    }
}

/// Setting position, current and maximum current on an all-zero word, in
/// that order, yields exactly the fixed request layout.
pub proof fn lemma_fixed_rdo_compose(pos: u32, i: u32)
    ensures
        spec_set_bits_9_0(spec_set_bits_19_10(spec_set_pos(0, pos), i), i) == spec_fixed_rdo_word(
            pos,
            i,
        ),
{
    assert(((((0u32 & !0x7000_0000u32) | ((pos & 0x7) << 28)) & !0x000f_fc00u32) | ((i & 0x3ff)
        << 10)) & !0x0000_03ffu32 | (i & 0x3ff) == ((pos & 0x7) << 28) | ((i & 0x3ff) << 10) | (i
        & 0x3ff)) by (bit_vector);
}

/// Setting position, voltage and current on an all-zero word, in that
/// order, yields exactly the programmable request layout.
pub proof fn lemma_ardo_compose(pos: u32, volt: u32, i: u32)
    ensures
        spec_set_bits_6_0(spec_set_bits_19_9(spec_set_pos(0, pos), volt), i) == spec_ardo_word(
            pos,
            volt,
            i,
        ),
{
    assert(((((0u32 & !0x7000_0000u32) | ((pos & 0x7) << 28)) & !0x000f_fe00u32) | ((volt & 0x7ff)
        << 9)) & !0x0000_007fu32 | (i & 0x7f) == ((pos & 0x7) << 28) | ((volt & 0x7ff) << 9) | (i
        & 0x7f)) by (bit_vector);
}

/// In-range fields read back exactly from a fixed request word.
pub proof fn lemma_fixed_rdo_fields(pos: u32, i: u32)
    requires
        pos <= 0x7,
        i <= 0x3ff,
    ensures
        (spec_fixed_rdo_word(pos, i) >> 28) & 0x7 == pos,
        (spec_fixed_rdo_word(pos, i) >> 10) & 0x3ff == i,
        spec_fixed_rdo_word(pos, i) & 0x3ff == i,
{
    assert(pos <= 0x7 && i <= 0x3ff ==> {
        let w = ((pos & 0x7) << 28) | ((i & 0x3ff) << 10) | (i & 0x3ff);
        &&& (w >> 28) & 0x7 == pos
        &&& (w >> 10) & 0x3ff == i
        &&& w & 0x3ff == i
    }) by (bit_vector);
}

/// In-range fields read back exactly from a programmable request word.
pub proof fn lemma_ardo_fields(pos: u32, volt: u32, i: u32)
    requires
        pos <= 0x7,
        volt <= 0x7ff,
        i <= 0x7f,
    ensures
        (spec_ardo_word(pos, volt, i) >> 28) & 0x7 == pos,
        (spec_ardo_word(pos, volt, i) >> 9) & 0x7ff == volt,
        spec_ardo_word(pos, volt, i) & 0x7f == i,
{
    assert(pos <= 0x7 && volt <= 0x7ff && i <= 0x7f ==> {
        let w = ((pos & 0x7) << 28) | ((volt & 0x7ff) << 9) | (i & 0x7f);
        &&& (w >> 28) & 0x7 == pos
        &&& (w >> 9) & 0x7ff == volt
        &&& w & 0x7f == i
    }) by (bit_vector);
}

} // verus!


