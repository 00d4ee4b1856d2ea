//! Domain field codecs: the nonlinear DPI encoding and the RGB color
//! encoding, each a 4-byte on-wire group of three value bytes and one
//! embedded checksum byte.
//!
//! The DPI mapping is the firmware's own: decode is
//! `((256 * dpi_ex / 0x44) + (x_dpi + 1)) * 50` and encode truncates in
//! the inverse direction, so the pair is not a perfect inverse on every
//! input; the round-trip lemma below states the exact domain on which it
//! is one.

use vstd::arithmetic::div_mod::{lemma_fundamental_div_mod, lemma_fundamental_div_mod_converse};
use vstd::prelude::*;

use crate::command::{header_is, Command, CommandDescriptor};
use crate::ids::{spec_eeprom_address_code, CommandId, EEPROMAddress};
use crate::Error;

verus! {

/// The per-group field checksum `0x55 - a - b - c`, wrapping to a byte.
pub open spec fn quad_checksum(a: u8, b: u8, c: u8) -> u8 {
    (((0x55 + 0x300) - a - b - c) % 0x100) as u8
}

/// `0x55 - a - b - c` wrapped to a byte, executably.
pub fn quad_checksum_byte(a: u8, b: u8, c: u8) -> (r: u8)
    ensures
        r == quad_checksum(a, b, c),
{
    (((0x55u16 + 0x300u16) - (a as u16) - (b as u16) - (c as u16)) % 0x100u16) as u8
}

/// A semantic DPI value, an integer number of dots per inch.
#[derive(Clone, Copy, Debug, PartialEq, Eq, Structural)]
pub struct Dpi(pub u16);

/// The DPI encoded by the bytes `x_dpi` and `dpi_ex`.
pub open spec fn spec_dpi_value(x: u8, e: u8) -> int {
    ((0x100 * e / 0x44) + (x + 1)) * 50
}

/// The 4-byte group that encodes the DPI `d`: the step byte twice, the
/// extension byte, and the field checksum.
pub open spec fn spec_dpi_encode(d: u16) -> Seq<u8> {
    let steps = d / 50 - 1;
    let x = (steps % 0x100) as u8;
    let e = (0x44 * steps / 0x100) as u8;
    seq![x, x, e, quad_checksum(x, x, e)]
}

/// Decode a 4-byte group into a DPI value; `None` on a wrong length or a
/// checksum mismatch.
pub open spec fn spec_dpi_decode(s: Seq<u8>) -> Option<u16> {
    if s.len() != 4 {
        None
    } else if s[3] != quad_checksum(s[0], s[1], s[2]) {
        None
    } else {
        Some(spec_dpi_value(s[0], s[2]) as u16)
    }
}

impl Default for Dpi {
    /// The factory DPI.
    fn default() -> (r: Self)
        ensures
            r.0 == 1600,
    {
        Dpi(1600)
    }
}

impl Dpi {
    pub fn new(dpi: u16) -> (r: Self)
        ensures
            r.0 == dpi,
    {
        Dpi(dpi)
    }

    pub fn dpi(&self) -> (r: u16)
        ensures
            r == self.0,
    {
        self.0
    }

    /// Decode a 4-byte on-wire group, validating the embedded checksum;
    /// a corrupted group is rejected, never silently accepted.
    pub fn try_from(data: &[u8]) -> (r: Result<Self, Error>)
        ensures
            data@.len() != 4 ==> r == Err::<Dpi, Error>(Error::LengthMismatch),
            data@.len() == 4 && data@[3] != quad_checksum(data@[0], data@[1], data@[2]) ==> r
                == Err::<Dpi, Error>(Error::ChecksumError),
            data@.len() == 4 && data@[3] == quad_checksum(data@[0], data@[1], data@[2]) ==> r
                == Ok::<Dpi, Error>(Dpi(spec_dpi_value(data@[0], data@[2]) as u16)),
    {
        if data.len() != 4 {
            return Err(Error::LengthMismatch);
        }
        let expected = quad_checksum_byte(data[0], data[1], data[2]);
        if expected != data[3] {
            return Err(Error::ChecksumError);
        }
        let x: u16 = data[0] as u16;
        let e: u16 = data[2] as u16;
        Ok(Dpi((0x100u16 * e / 0x44 + (x + 1)) * 50))
    }

    /// Encode into the 4-byte on-wire group. The firmware encoding is
    /// only defined for a DPI of at least one step whose step count fits
    /// the extension byte, which the preconditions state.
    pub fn to_bytes(&self) -> (r: [u8; 4])
        requires
            50 <= self.0,
            self.0 / 50 - 1 <= 963,
        ensures
            r@ == spec_dpi_encode(self.0),
    {
        let steps: u16 = self.0 / 50 - 1;
        let x: u8 = (steps % 0x100) as u8;
        let e: u8 = (0x44u16 * steps / 0x100) as u8;
        let ck = quad_checksum_byte(x, x, e);
        let r = [x, x, e, ck];
        proof {
            assert(r@ =~= spec_dpi_encode(self.0));
        }
        r
    }
}

/// Encoding then decoding a representable DPI returns it unchanged,
/// provided the step count's low byte is at most three; beyond that the
/// truncating inverse loses the extension bits, a known property of the
/// firmware's own mapping.
pub proof fn lemma_dpi_round_trip(d: u16)
    requires
        d % 50 == 0,
        50 <= d,
        d / 50 - 1 <= 963,
        (d / 50 - 1) % 0x100 <= 3,
    ensures
        spec_dpi_decode(spec_dpi_encode(d)) == Some(d),
{
    let steps = d / 50 - 1;
    let q = steps / 0x100;
    let r = steps % 0x100;
    lemma_fundamental_div_mod(steps, 0x100);
    // steps == 0x100 * q + r, 0 <= r <= 3
    assert(0x44 * steps == (0x44 * q) * 0x100 + 0x44 * r) by (nonlinear_arith)
        requires
            steps == 0x100 * q + r,
    ;
    assert(0 <= 0x44 * r < 0x100);
    lemma_fundamental_div_mod_converse(0x44 * steps, 0x100, 0x44 * q, 0x44 * r);
    let e = 0x44 * steps / 0x100;
    assert(e == 0x44 * q);
    assert(0 <= q <= 3) by (nonlinear_arith)
        requires
            steps == 0x100 * q + r,
            0 <= steps <= 963,
            0 <= r < 0x100,
    ;
    assert(0x100 * e == (0x100 * q) * 0x44 + 0) by (nonlinear_arith)
        requires
            e == 0x44 * q,
    ;
    lemma_fundamental_div_mod_converse(0x100 * e, 0x44, 0x100 * q, 0);
    assert(0x100 * e / 0x44 == 0x100 * q);
    let s = spec_dpi_encode(d);
    assert(s[0] == r as u8 && s[2] == e as u8);
    assert(spec_dpi_value(s[0], s[2]) == (0x100 * q + r + 1) * 50);
    lemma_fundamental_div_mod(d as int, 50);
    assert((0x100 * q + r + 1) * 50 == d) by (nonlinear_arith)
        requires
            steps == 0x100 * q + r,
            d == 50 * (steps + 1),
    ;
    assert(s[3] == quad_checksum(s[0], s[1], s[2]));
}

/// The DPI values whose step count the firmware encoding can carry
/// without panicking arithmetic: at least one step, and few enough steps
/// for the extension byte.
pub open spec fn spec_dpi_encodable(d: u16) -> bool {
    50 <= d && d / 50 - 1 <= 963
}

pub fn dpi_encodable(d: u16) -> (r: bool)
    ensures
        r == spec_dpi_encodable(d),
{
    50 <= d && d / 50 <= 964
}

/// The 4-byte group `g` stands at offset `off` of `s`.
pub open spec fn group_at(s: Seq<u8>, off: int, g: Seq<u8>) -> bool {
    s[off] == g[0] && s[off + 1] == g[1] && s[off + 2] == g[2] && s[off + 3] == g[3]
}

/// A semantic RGB color: three channel bytes.
#[derive(Clone, Copy, Debug, PartialEq, Eq, Structural)]
pub struct Color {
    pub red: u8,
    pub green: u8,
    pub blue: u8,
}

/// The 4-byte group that encodes a color: the three channels and the
/// field checksum.
pub open spec fn spec_color_encode(c: Color) -> Seq<u8> {
    seq![c.red, c.green, c.blue, quad_checksum(c.red, c.green, c.blue)]
}

/// Decode a 4-byte group into a color; `None` on a wrong length or a
/// checksum mismatch.
pub open spec fn spec_color_decode(s: Seq<u8>) -> Option<Color> {
    if s.len() != 4 {
        None
    } else if s[3] != quad_checksum(s[0], s[1], s[2]) {
        None
    } else {
        Some(Color { red: s[0], green: s[1], blue: s[2] })
    }
}

impl Default for Color {
    /// The factory color, full white.
    fn default() -> (r: Self)
        ensures
            r == (Color { red: 0xff, green: 0xff, blue: 0xff }),
    {
        Color { red: 0xff, green: 0xff, blue: 0xff }
    }
}

impl Color {
    pub fn new(red: u8, green: u8, blue: u8) -> (r: Self)
        ensures
            r == (Color { red, green, blue }),
    {
        Color { red, green, blue }
    }

    /// Decode a 4-byte on-wire group, validating the embedded checksum.
    pub fn try_from(data: &[u8]) -> (r: Result<Self, Error>)
        ensures
            data@.len() != 4 ==> r == Err::<Color, Error>(Error::LengthMismatch),
            data@.len() == 4 && data@[3] != quad_checksum(data@[0], data@[1], data@[2]) ==> r
                == Err::<Color, Error>(Error::ChecksumError),
            data@.len() == 4 && data@[3] == quad_checksum(data@[0], data@[1], data@[2]) ==> r
                == Ok::<Color, Error>(Color { red: data@[0], green: data@[1], blue: data@[2] }),
    {
        if data.len() != 4 {
            return Err(Error::LengthMismatch);
        }
        let expected = quad_checksum_byte(data[0], data[1], data[2]);
        if expected != data[3] {
            return Err(Error::ChecksumError);
        }
        Ok(Color { red: data[0], green: data[1], blue: data[2] })
    }

    /// Encode into the 4-byte on-wire group.
    pub fn to_bytes(&self) -> (r: [u8; 4])
        ensures
            r@ == spec_color_encode(*self),
    {
        let ck = quad_checksum_byte(self.red, self.green, self.blue);
        let r = [self.red, self.green, self.blue, ck];
        proof {
            assert(r@ =~= spec_color_encode(*self));
        }
        r
    }
}

/// Encoding then decoding any color returns it unchanged: the color
/// codec is lossless on all 24-bit colors.
pub proof fn lemma_color_round_trip(c: Color)
    ensures
        spec_color_decode(spec_color_encode(c)) == Some(c),
{
}

/// One of the four hardware DPI pairs into which the eight profile
/// slots fold.
#[derive(Clone, Copy, Debug, PartialEq, Eq, Structural)]
pub enum Pair {
    Pair1,
    Pair2,
    Pair3,
    Pair4,
}

/// EEPROM address of a pair's two DPI groups.
pub open spec fn spec_pair_dpi_address(p: Pair) -> EEPROMAddress {
    match p {
        Pair::Pair1 => EEPROMAddress::DpiPair1,
        Pair::Pair2 => EEPROMAddress::DpiPair3,
        Pair::Pair3 => EEPROMAddress::DpiPair5,
        Pair::Pair4 => EEPROMAddress::DpiPair7,
    }
}

/// EEPROM address of a pair's two color groups.
pub open spec fn spec_pair_color_address(p: Pair) -> EEPROMAddress {
    match p {
        Pair::Pair1 => EEPROMAddress::DpiPair1Color,
        Pair::Pair2 => EEPROMAddress::DpiPair3Color,
        Pair::Pair3 => EEPROMAddress::DpiPair5Color,
        Pair::Pair4 => EEPROMAddress::DpiPair7Color,
    }
}

/// The pair that a DPI or color EEPROM address belongs to, if any.
pub open spec fn spec_pair_of_address(a: EEPROMAddress) -> Option<Pair> {
    match a {
        EEPROMAddress::DpiPair1 => Some(Pair::Pair1),
        EEPROMAddress::DpiPair1Color => Some(Pair::Pair1),
        EEPROMAddress::DpiPair3 => Some(Pair::Pair2),
        EEPROMAddress::DpiPair3Color => Some(Pair::Pair2),
        EEPROMAddress::DpiPair5 => Some(Pair::Pair3),
        EEPROMAddress::DpiPair5Color => Some(Pair::Pair3),
        EEPROMAddress::DpiPair7 => Some(Pair::Pair4),
        EEPROMAddress::DpiPair7Color => Some(Pair::Pair4),
        _ => None,
    }
}

impl Default for Pair {
    fn default() -> (r: Self)
        ensures
            r == Pair::Pair1,
    {
        Pair::Pair1
    }
}

impl Pair {
    pub fn dpi_eeprom_address(&self) -> (r: EEPROMAddress)
        ensures
            r == spec_pair_dpi_address(*self),
    {
        match self {
            Pair::Pair1 => EEPROMAddress::DpiPair1,
            Pair::Pair2 => EEPROMAddress::DpiPair3,
            Pair::Pair3 => EEPROMAddress::DpiPair5,
            Pair::Pair4 => EEPROMAddress::DpiPair7,
        }
    }

    pub fn color_eeprom_address(&self) -> (r: EEPROMAddress)
        ensures
            r == spec_pair_color_address(*self),
    {
        match self {
            Pair::Pair1 => EEPROMAddress::DpiPair1Color,
            Pair::Pair2 => EEPROMAddress::DpiPair3Color,
            Pair::Pair3 => EEPROMAddress::DpiPair5Color,
            Pair::Pair4 => EEPROMAddress::DpiPair7Color,
        }
    }

    /// Recover the pair from a response's EEPROM address; an address
    /// outside the DPI pair space is a recoverable error.
    pub fn try_from(address: EEPROMAddress) -> (r: Result<Pair, Error>)
        ensures
            match r {
                Ok(p) => spec_pair_of_address(address) == Some(p),
                Err(e) => e == Error::InvalidEnumValue && spec_pair_of_address(address) is None,
            },
    {
        match address {
            EEPROMAddress::DpiPair1 => Ok(Pair::Pair1),
            EEPROMAddress::DpiPair1Color => Ok(Pair::Pair1),
            EEPROMAddress::DpiPair3 => Ok(Pair::Pair2),
            EEPROMAddress::DpiPair3Color => Ok(Pair::Pair2),
            EEPROMAddress::DpiPair5 => Ok(Pair::Pair3),
            EEPROMAddress::DpiPair5Color => Ok(Pair::Pair3),
            EEPROMAddress::DpiPair7 => Ok(Pair::Pair4),
            EEPROMAddress::DpiPair7Color => Ok(Pair::Pair4),
            _ => Err(Error::InvalidEnumValue),
        }
    }
}

/// One of the two slots of a hardware pair.
#[derive(Clone, Copy, Debug, PartialEq, Eq, Structural)]
pub enum Slot {
    First,
    Second,
}

/// Payload offset of a slot's 4-byte group within its pair.
pub open spec fn spec_slot_offset(s: Slot) -> usize {
    match s {
        Slot::First => 0,
        Slot::Second => 4,
    }
}

impl Slot {
    pub fn offset(&self) -> (r: usize)
        ensures
            r == spec_slot_offset(*self),
    {
        match self {
            Slot::First => 0,
            Slot::Second => 4,
        }
    }
}

/// One of the eight DPI profile slots presented to the user.
#[derive(Clone, Copy, Debug, PartialEq, Eq, Structural)]
pub enum Preset {
    Preset1,
    Preset2,
    Preset3,
    Preset4,
    Preset5,
    Preset6,
    Preset7,
    Preset8,
}

/// Zero-based index of a preset.
pub open spec fn spec_preset_index(p: Preset) -> u8 {
    match p {
        Preset::Preset1 => 0,
        Preset::Preset2 => 1,
        Preset::Preset3 => 2,
        Preset::Preset4 => 3,
        Preset::Preset5 => 4,
        Preset::Preset6 => 5,
        Preset::Preset7 => 6,
        Preset::Preset8 => 7,
    }
}

/// The hardware pair holding a preset: `pair = index / 2`.
pub open spec fn spec_preset_pair(p: Preset) -> Pair {
    match p {
        Preset::Preset1 => Pair::Pair1,
        Preset::Preset2 => Pair::Pair1,
        Preset::Preset3 => Pair::Pair2,
        Preset::Preset4 => Pair::Pair2,
        Preset::Preset5 => Pair::Pair3,
        Preset::Preset6 => Pair::Pair3,
        Preset::Preset7 => Pair::Pair4,
        Preset::Preset8 => Pair::Pair4,
    }
}

/// The slot holding a preset within its pair: `slot = index % 2`.
pub open spec fn spec_preset_slot(p: Preset) -> Slot {
    match p {
        Preset::Preset1 => Slot::First,
        Preset::Preset2 => Slot::Second,
        Preset::Preset3 => Slot::First,
        Preset::Preset4 => Slot::Second,
        Preset::Preset5 => Slot::First,
        Preset::Preset6 => Slot::Second,
        Preset::Preset7 => Slot::First,
        Preset::Preset8 => Slot::Second,
    }
}

/// The preset with the given zero-based index, if in range.
pub open spec fn spec_preset_from_index(v: u8) -> Option<Preset> {
    match v {
        0 => Some(Preset::Preset1),
        1 => Some(Preset::Preset2),
        2 => Some(Preset::Preset3),
        3 => Some(Preset::Preset4),
        4 => Some(Preset::Preset5),
        5 => Some(Preset::Preset6),
        6 => Some(Preset::Preset7),
        7 => Some(Preset::Preset8),
        _ => None,
    }
}

impl Preset {
    pub fn index(&self) -> (r: u8)
        ensures
            r == spec_preset_index(*self),
    {
        match self {
            Preset::Preset1 => 0,
            Preset::Preset2 => 1,
            Preset::Preset3 => 2,
            Preset::Preset4 => 3,
            Preset::Preset5 => 4,
            Preset::Preset6 => 5,
            Preset::Preset7 => 6,
            Preset::Preset8 => 7,
        }
    }

    /// The preset with the given zero-based index; out-of-range indices
    /// are a recoverable error.
    pub fn try_from(value: u8) -> (r: Result<Preset, Error>)
        ensures
            match r {
                Ok(p) => spec_preset_from_index(value) == Some(p) && spec_preset_index(p) == value,
                Err(e) => e == Error::InvalidEnumValue && spec_preset_from_index(value) is None,
            },
    {
        match value {
            0 => Ok(Preset::Preset1),
            1 => Ok(Preset::Preset2),
            2 => Ok(Preset::Preset3),
            3 => Ok(Preset::Preset4),
            4 => Ok(Preset::Preset5),
            5 => Ok(Preset::Preset6),
            6 => Ok(Preset::Preset7),
            7 => Ok(Preset::Preset8),
            _ => Err(Error::InvalidEnumValue),
        }
    }

    pub fn pair(&self) -> (r: Pair)
        ensures
            r == spec_preset_pair(*self),
    {
        match self {
            Preset::Preset1 => Pair::Pair1,
            Preset::Preset2 => Pair::Pair1,
            Preset::Preset3 => Pair::Pair2,
            Preset::Preset4 => Pair::Pair2,
            Preset::Preset5 => Pair::Pair3,
            Preset::Preset6 => Pair::Pair3,
            Preset::Preset7 => Pair::Pair4,
            Preset::Preset8 => Pair::Pair4,
        }
    }

    pub fn slot(&self) -> (r: Slot)
        ensures
            r == spec_preset_slot(*self),
    {
        match self {
            Preset::Preset1 => Slot::First,
            Preset::Preset2 => Slot::Second,
            Preset::Preset3 => Slot::First,
            Preset::Preset4 => Slot::Second,
            Preset::Preset5 => Slot::First,
            Preset::Preset6 => Slot::Second,
            Preset::Preset7 => Slot::First,
            Preset::Preset8 => Slot::Second,
        }
    }
}

/// A profile slot's full configuration: its DPI and its color.
#[derive(Clone, Copy, Debug, PartialEq, Eq, Structural)]
pub struct Gear {
    pub dpi: Dpi,
    pub color: Color,
}

impl Gear {
    pub fn new(dpi: Dpi, color: Color) -> (r: Self)
        ensures
            r == (Gear { dpi, color }),
    {
        Gear { dpi, color }
    }
}

/// Command kind that queries one hardware pair's two DPI groups.
pub struct DpiProfile;

impl CommandDescriptor for DpiProfile {
    open spec fn spec_base_offset() -> usize {
        0x5
    }

    open spec fn spec_report_id() -> u8 {
        0x8
    }

    open spec fn spec_cmd_len() -> usize {
        0x10
    }

    proof fn layout_properties() {
    }

    fn base_offset() -> usize {
        0x5
    }

    fn report_id() -> u8 {
        0x8
    }

    fn cmd_len() -> usize {
        0x10
    }
}

/// Command kind that queries one hardware pair's two color groups.
pub struct DpiColorProfile;

impl CommandDescriptor for DpiColorProfile {
    open spec fn spec_base_offset() -> usize {
        0x5
    }

    open spec fn spec_report_id() -> u8 {
        0x8
    }

    open spec fn spec_cmd_len() -> usize {
        0x10
    }

    proof fn layout_properties() {
    }

    fn base_offset() -> usize {
        0x5
    }

    fn report_id() -> u8 {
        0x8
    }

    fn cmd_len() -> usize {
        0x10
    }
}

impl Command<DpiProfile> {
    /// A GetEEPROM query for the pair's DPI groups, eight valid data
    /// bytes.
    pub fn query(pair: Pair) -> (c: Self)
        ensures
            c.wf(),
            c.checksum_ok(),
            header_is(
                c@,
                CommandId::GetEEPROM,
                spec_eeprom_address_code(spec_pair_dpi_address(pair)),
                0x8,
            ),
            forall|i: int| 0x5 <= i < 0xf ==> c@[i] == 0,
    {
        let mut instance = Command::<DpiProfile>::default();
        instance.set_id(CommandId::GetEEPROM);
        instance.set_eeprom_address(pair.dpi_eeprom_address());
        instance.set_valid_data_len(0x8);
        instance
    }

    /// The two 4-byte DPI groups held in the payload of a response,
    /// decoded and checksum-validated.
    pub fn dpis(&self) -> (r: Result<(Dpi, Dpi), Error>)
        requires
            self.wf(),
        ensures
            self@[0x4] < 8 ==> r == Err::<(Dpi, Dpi), Error>(Error::LengthMismatch),
            self@[0x4] >= 8 ==> match (
                spec_dpi_decode(self@.subrange(0x5, 0x9)),
                spec_dpi_decode(self@.subrange(0x9, 0xd)),
            ) {
                (Some(a), Some(b)) => r == Ok::<(Dpi, Dpi), Error>((Dpi(a), Dpi(b))),
                _ => r == Err::<(Dpi, Dpi), Error>(Error::ChecksumError),
            },
    {
        if self.valid_data_len() < 8 {
            return Err(Error::LengthMismatch);
        }
        let w = payload_window(self);
        let s = w.as_slice();
        let first = Dpi::try_from(&s[0..4]);
        let second = Dpi::try_from(&s[4..8]);
        proof {
            assert(s@.subrange(0, 4) =~= self@.subrange(0x5, 0x9));
            assert(s@.subrange(4, 8) =~= self@.subrange(0x9, 0xd));
        }
        match (first, second) {
            (Ok(a), Ok(b)) => Ok((a, b)),
            (Err(e), _) => Err(e),
            (_, Err(e)) => Err(e),
        }
    }
}

impl Command<DpiColorProfile> {
    /// A GetEEPROM query for the pair's color groups, eight valid data
    /// bytes.
    pub fn query(pair: Pair) -> (c: Self)
        ensures
            c.wf(),
            c.checksum_ok(),
            header_is(
                c@,
                CommandId::GetEEPROM,
                spec_eeprom_address_code(spec_pair_color_address(pair)),
                0x8,
            ),
            forall|i: int| 0x5 <= i < 0xf ==> c@[i] == 0,
    {
        let mut instance = Command::<DpiColorProfile>::default();
        instance.set_id(CommandId::GetEEPROM);
        instance.set_eeprom_address(pair.color_eeprom_address());
        instance.set_valid_data_len(0x8);
        instance
    }

    /// The two 4-byte color groups held in the payload of a response,
    /// decoded and checksum-validated.
    pub fn colors(&self) -> (r: Result<(Color, Color), Error>)
        requires
            self.wf(),
        ensures
            self@[0x4] < 8 ==> r == Err::<(Color, Color), Error>(Error::LengthMismatch),
            self@[0x4] >= 8 ==> match (
                spec_color_decode(self@.subrange(0x5, 0x9)),
                spec_color_decode(self@.subrange(0x9, 0xd)),
            ) {
                (Some(a), Some(b)) => r == Ok::<(Color, Color), Error>((a, b)),
                _ => r == Err::<(Color, Color), Error>(Error::ChecksumError),
            },
    {
        if self.valid_data_len() < 8 {
            return Err(Error::LengthMismatch);
        }
        let w = payload_window(self);
        let s = w.as_slice();
        let first = Color::try_from(&s[0..4]);
        let second = Color::try_from(&s[4..8]);
        proof {
            assert(s@.subrange(0, 4) =~= self@.subrange(0x5, 0x9));
            assert(s@.subrange(4, 8) =~= self@.subrange(0x9, 0xd));
        }
        match (first, second) {
            (Ok(a), Ok(b)) => Ok((a, b)),
            (Err(e), _) => Err(e),
            (_, Err(e)) => Err(e),
        }
    }
}

/// Copy the eight payload bytes that hold a pair's two 4-byte groups.
pub(crate) fn payload_window<T: CommandDescriptor>(c: &Command<T>) -> (r: Vec<u8>)
    requires
        c.wf(),
    ensures
        r@ =~= c@.subrange(0x5, 0xd),
{
    proof {
        T::layout_properties();
    }
    let mut buf: Vec<u8> = Vec::new();
    buf.push(c.data_byte(0));
    buf.push(c.data_byte(1));
    buf.push(c.data_byte(2));
    buf.push(c.data_byte(3));
    buf.push(c.data_byte(4));
    buf.push(c.data_byte(5));
    buf.push(c.data_byte(6));
    buf.push(c.data_byte(7));
    proof {
        assert(buf@ =~= c@.subrange(0x5, 0xd));
    }
    buf
}

} // verus!
