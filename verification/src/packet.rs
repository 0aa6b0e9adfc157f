//! Hardware-facing packet model: modulation descriptors, receive and
//! transmit packet structures, and the exact mappings between modulation
//! descriptors and their wire-protocol encodings.
//!
//! The radio front end reports signal strength and signal-to-noise ratio as
//! fractional values; this model carries them as plain integers, rounded by
//! the caller at the hardware boundary.

use vstd::prelude::*;
use crate::config::str_eq;

verus! {

/// Size of the fixed transmit buffer, in bytes.
pub const TX_BUFFER_SIZE: usize = 256;

#[derive(Copy, Clone, PartialEq, Eq, Structural, Debug)]
pub enum Modulation {
    LoRa,
    FSK,
    Undefined,
}

/// Data-rate descriptor: a LoRa spreading factor, or an FSK bitrate in
/// kilobits per second.
#[derive(Copy, Clone, PartialEq, Eq, Structural, Debug)]
pub enum DataRate {
    SF7,
    SF8,
    SF9,
    SF10,
    SF11,
    SF12,
    FSK(u32),
    Undefined,
}

#[derive(Copy, Clone, PartialEq, Eq, Structural, Debug)]
pub enum CodeRate {
    LoRa4_5,
    LoRa4_6,
    LoRa4_7,
    LoRa4_8,
    Undefined,
}

/// CRC outcome reported by the hardware for a received packet.
#[derive(Copy, Clone, PartialEq, Eq, Structural, Debug)]
pub enum Crc {
    Undefined,
    NoCrc,
    BadCrc,
    CrcOk,
}

/// Transmit timing discipline of a queued packet.
#[derive(Copy, Clone, PartialEq, Eq, Structural, Debug)]
pub enum TxMode {
    Immediate,
    Timestamped,
    OnGps,
}

/// The spreading factor a LoRa data rate encodes, if any: exactly one of
/// 7..=12.
pub open spec fn spec_spreading_factor(dr: DataRate) -> Option<u32> {
    match dr {
        DataRate::SF7 => Some(7u32),
        DataRate::SF8 => Some(8u32),
        DataRate::SF9 => Some(9u32),
        DataRate::SF10 => Some(10u32),
        DataRate::SF11 => Some(11u32),
        DataRate::SF12 => Some(12u32),
        DataRate::FSK(_) => None,
        DataRate::Undefined => None,
    }
}

pub fn spreading_factor_of(dr: DataRate) -> (r: Option<u32>)
    ensures
        r == spec_spreading_factor(dr),
{
    match dr {
        DataRate::SF7 => Some(7u32),
        DataRate::SF8 => Some(8u32),
        DataRate::SF9 => Some(9u32),
        DataRate::SF10 => Some(10u32),
        DataRate::SF11 => Some(11u32),
        DataRate::SF12 => Some(12u32),
        DataRate::FSK(_) => None,
        DataRate::Undefined => None,
    }
}

/// The LoRa data rate a wire-protocol spreading factor denotes: defined
/// exactly on 7..=12.
pub open spec fn spec_sf_data_rate(sf: u32) -> Option<DataRate> {
    if sf == 7 {
        Some(DataRate::SF7)
    } else if sf == 8 {
        Some(DataRate::SF8)
    } else if sf == 9 {
        Some(DataRate::SF9)
    } else if sf == 10 {
        Some(DataRate::SF10)
    } else if sf == 11 {
        Some(DataRate::SF11)
    } else if sf == 12 {
        Some(DataRate::SF12)
    } else {
        None
    }
}

pub fn sf_data_rate(sf: u32) -> (r: Option<DataRate>)
    ensures
        r == spec_sf_data_rate(sf),
{
    if sf == 7 {
        Some(DataRate::SF7)
    } else if sf == 8 {
        Some(DataRate::SF8)
    } else if sf == 9 {
        Some(DataRate::SF9)
    } else if sf == 10 {
        Some(DataRate::SF10)
    } else if sf == 11 {
        Some(DataRate::SF11)
    } else if sf == 12 {
        Some(DataRate::SF12)
    } else {
        None
    }
}

/// The wire-protocol label of a code rate; undefined encodes as the empty
/// string.
pub open spec fn spec_code_rate_label(cr: CodeRate) -> Seq<char> {
    match cr {
        CodeRate::LoRa4_5 => "4/5"@,
        CodeRate::LoRa4_6 => "4/6"@,
        CodeRate::LoRa4_7 => "4/7"@,
        CodeRate::LoRa4_8 => "4/8"@,
        CodeRate::Undefined => ""@,
    }
}

pub fn code_rate_label(cr: CodeRate) -> (r: &'static str)
    ensures
        r@ == spec_code_rate_label(cr),
{
    match cr {
        CodeRate::LoRa4_5 => "4/5",
        CodeRate::LoRa4_6 => "4/6",
        CodeRate::LoRa4_7 => "4/7",
        CodeRate::LoRa4_8 => "4/8",
        CodeRate::Undefined => "",
    }
}

/// The code rate a wire-protocol label denotes. Deliberately lenient: an
/// unrecognized label maps to `Undefined` rather than failing the packet —
/// an accepted asymmetry versus the uplink direction's strictness.
pub open spec fn spec_parse_code_rate(s: Seq<char>) -> CodeRate {
    if s == "4/5"@ {
        CodeRate::LoRa4_5
    } else if s == "4/6"@ {
        CodeRate::LoRa4_6
    } else if s == "4/7"@ {
        CodeRate::LoRa4_7
    } else if s == "4/8"@ {
        CodeRate::LoRa4_8
    } else {
        CodeRate::Undefined
    }
}

pub fn parse_code_rate(s: &str) -> (r: CodeRate)
    ensures
        r == spec_parse_code_rate(s@),
{
    if str_eq(s, "4/5") {
        CodeRate::LoRa4_5
    } else if str_eq(s, "4/6") {
        CodeRate::LoRa4_6
    } else if str_eq(s, "4/7") {
        CodeRate::LoRa4_7
    } else if str_eq(s, "4/8") {
        CodeRate::LoRa4_8
    } else {
        CodeRate::Undefined
    }
}

/// The four-byte big-endian encoding of a counter value.
pub open spec fn spec_be_bytes(x: u32) -> Seq<u8> {
    seq![
        (x >> 24) as u8,
        ((x >> 16) & 0xff) as u8,
        ((x >> 8) & 0xff) as u8,
        (x & 0xff) as u8,
    ]
}

/// The counter value a four-byte big-endian encoding denotes.
pub open spec fn spec_u32_of_be(b: Seq<u8>) -> u32
    recommends
        b.len() == 4,
{
    ((b[0] as u32) << 24) | ((b[1] as u32) << 16) | ((b[2] as u32) << 8) | (b[3] as u32)
}

pub fn be_bytes_of_u32(x: u32) -> (r: Vec<u8>)
    ensures
        r@ == spec_be_bytes(x),
{
    proof {
        assert(x >> 24 <= 0xff && (x >> 16) & 0xff <= 0xff && (x >> 8) & 0xff <= 0xff && x & 0xff
            <= 0xff) by (bit_vector);
    }
    let mut r: Vec<u8> = Vec::new();
    r.push((x >> 24) as u8);
    r.push(((x >> 16) & 0xff) as u8);
    r.push(((x >> 8) & 0xff) as u8);
    r.push((x & 0xff) as u8);
    proof {
        assert(r@ =~= spec_be_bytes(x));
    }
    r
}

pub fn u32_of_be_bytes(b: &[u8]) -> (r: u32)
    requires
        b@.len() == 4,
    ensures
        r == spec_u32_of_be(b@),
{
    let b0 = *vstd::slice::slice_index_get(b, 0);
    let b1 = *vstd::slice::slice_index_get(b, 1);
    let b2 = *vstd::slice::slice_index_get(b, 2);
    let b3 = *vstd::slice::slice_index_get(b, 3);
    ((b0 as u32) << 24) | ((b1 as u32) << 16) | ((b2 as u32) << 8) | (b3 as u32)
}

/// Law: decoding the big-endian encoding of any counter value yields the
/// value back.
pub proof fn lemma_be_bytes_round_trip(x: u32)
    ensures
        spec_u32_of_be(spec_be_bytes(x)) == x,
{
    let b0 = (x >> 24) as u8;
    let b1 = ((x >> 16) & 0xff) as u8;
    let b2 = ((x >> 8) & 0xff) as u8;
    let b3 = (x & 0xff) as u8;
    assert((((x >> 24) as u8 as u32) << 24) | ((((x >> 16) & 0xff) as u8 as u32) << 16) | ((((x
        >> 8) & 0xff) as u8 as u32) << 8) | ((x & 0xff) as u8 as u32) == x) by (bit_vector);
    assert(spec_be_bytes(x)[0] == b0 && spec_be_bytes(x)[1] == b1 && spec_be_bytes(x)[2] == b2
        && spec_be_bytes(x)[3] == b3);
}

/// A raw received packet as the hardware reports it: a fixed 256-byte
/// payload buffer of which the first `size` bytes are the message.
pub struct RxPacket {
    /// Centre frequency in Hz.
    pub freq_hz: u32,
    /// IF chain the packet was received on.
    pub if_chain: u8,
    /// CRC outcome.
    pub status: Crc,
    /// Counter value captured when the packet was received.
    pub count_us: u32,
    /// RF chain the packet was received on.
    pub rf_chain: u8,
    pub modulation: Modulation,
    /// Bandwidth in Hz.
    pub bandwidth: u32,
    pub datarate: DataRate,
    pub coderate: CodeRate,
    /// Received signal strength, dBm (rounded to an integer by the caller).
    pub rssi: i32,
    /// Signal-to-noise ratio, dB (rounded to an integer by the caller).
    pub snr: i32,
    /// Number of payload bytes actually received.
    pub size: u16,
    /// Fixed receive buffer; only the first `size` bytes are meaningful.
    pub payload: Vec<u8>,
}

impl RxPacket {
    pub open spec fn wf(self) -> bool {
        self.payload@.len() == TX_BUFFER_SIZE && self.size <= TX_BUFFER_SIZE
    }
}

/// A transmit packet in the hardware's shape: a fixed 256-byte payload
/// buffer of which the first `size` bytes are the message, zero-padded.
pub struct TxPacketData {
    /// Centre frequency in Hz.
    pub freq_hz: u32,
    pub tx_mode: TxMode,
    /// Target counter value for a timestamped transmission.
    pub count_us: u32,
    pub rf_chain: u8,
    /// Transmit power, dBm.
    pub rf_power: i8,
    pub modulation: Modulation,
    /// Bandwidth in Hz.
    pub bandwidth: u32,
    pub datarate: DataRate,
    pub coderate: CodeRate,
    /// Polarization inversion (LoRa downlinks).
    pub invert_pol: bool,
    /// FSK frequency deviation in kHz.
    pub f_dev: u8,
    pub preamble: u16,
    pub no_crc: bool,
    pub no_header: bool,
    /// Number of payload bytes to transmit.
    pub size: u16,
    /// Fixed transmit buffer; the first `size` bytes are the message, the
    /// rest is zero.
    pub payload: Vec<u8>,
}

impl TxPacketData {
    pub open spec fn wf(self) -> bool {
        &&& self.payload@.len() == TX_BUFFER_SIZE
        &&& self.size <= TX_BUFFER_SIZE
        &&& forall|i: int| self.size <= i < TX_BUFFER_SIZE ==> self.payload@[i] == 0u8
    }
}

} // verus!
