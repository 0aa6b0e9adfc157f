//! Wire-protocol message shapes, modelled with plain values: the uplink
//! envelope produced for the gateway bridge and the downlink request
//! consumed from it. The caller converts between these shapes and the
//! generated protocol-buffer types at the transport boundary.

use vstd::prelude::*;
use crate::packet::Crc;
use crate::timebase::{ProtoDuration, Timestamp};

verus! {

/// CRC status as reported in the uplink envelope.
#[derive(Copy, Clone, PartialEq, Eq, Structural, Debug)]
pub enum CrcStatus {
    NoCrc,
    BadCrc,
    CrcOk,
}

/// The envelope CRC status a hardware CRC outcome maps to: an undefined
/// outcome is reported as no CRC.
pub open spec fn spec_crc_status(c: Crc) -> CrcStatus {
    match c {
        Crc::Undefined => CrcStatus::NoCrc,
        Crc::NoCrc => CrcStatus::NoCrc,
        Crc::BadCrc => CrcStatus::BadCrc,
        Crc::CrcOk => CrcStatus::CrcOk,
    }
}

pub fn crc_status_of(c: Crc) -> (r: CrcStatus)
    ensures
        r == spec_crc_status(c),
{
    match c {
        Crc::Undefined => CrcStatus::NoCrc,
        Crc::NoCrc => CrcStatus::NoCrc,
        Crc::BadCrc => CrcStatus::BadCrc,
        Crc::CrcOk => CrcStatus::CrcOk,
    }
}

/// A GPS fix location. Coordinates are carried as micro-degrees and the
/// altitude as whole metres; the caller scales at the GPS boundary.
#[derive(Copy, Clone, PartialEq, Eq, Structural, Debug)]
pub struct Location {
    pub latitude_udeg: i64,
    pub longitude_udeg: i64,
    pub altitude_m: i32,
}

/// Modulation parameters of an uplink envelope.
#[derive(Debug)]
pub enum UplinkModulationInfo {
    Lora {
        /// Bandwidth in Hz.
        bandwidth: u32,
        /// Spreading factor, one of 7..=12.
        spreading_factor: u32,
        /// Code-rate label, empty when undefined.
        code_rate: String,
    },
    Fsk {
        /// Bit rate in bits per second.
        datarate: u32,
    },
}

/// Transmission parameters of an uplink envelope.
#[derive(Debug)]
pub struct UplinkTxInfo {
    /// Centre frequency in Hz.
    pub frequency: u32,
    pub modulation_info: UplinkModulationInfo,
}

/// Reception metadata of an uplink envelope.
#[derive(Debug)]
pub struct UplinkRxInfo {
    /// Fresh correlation id of this uplink, 16 bytes.
    pub uplink_id: Vec<u8>,
    /// Counter snapshot of the reception, big-endian, for later Delay-mode
    /// downlinks.
    pub context: Vec<u8>,
    pub gateway_id: Vec<u8>,
    /// Received signal strength, dBm.
    pub rssi: i32,
    /// Signal-to-noise ratio, dB.
    pub lora_snr: i32,
    pub channel: u32,
    pub rf_chain: u32,
    pub board: u32,
    pub antenna: u32,
    pub crc_status: CrcStatus,
    /// Absolute timestamp; present iff computable.
    pub time: Option<Timestamp>,
    /// Duration since the GPS epoch; present iff computable.
    pub time_since_gps_epoch: Option<ProtoDuration>,
    /// Present iff the GPS collaborator reports a fix.
    pub location: Option<Location>,
}

/// The uplink envelope handed to the gateway bridge.
#[derive(Debug)]
pub struct UplinkFrame {
    pub phy_payload: Vec<u8>,
    pub tx_info: UplinkTxInfo,
    pub rx_info: UplinkRxInfo,
}

/// Transmit timing of a downlink request: a tagged mode with its
/// mode-specific payload.
#[derive(Debug)]
pub enum DownlinkTiming {
    Immediately,
    Delay {
        /// Delay after the context's counter snapshot; absent is an error.
        delay: Option<ProtoDuration>,
    },
    GpsEpoch {
        /// Target instant relative to the GPS epoch; absent is an error.
        time_since_gps_epoch: Option<ProtoDuration>,
    },
}

/// Modulation parameters of a downlink request.
#[derive(Debug)]
pub enum DownlinkModulationInfo {
    Lora {
        /// Bandwidth in Hz.
        bandwidth: u32,
        /// Requested spreading factor; only 7..=12 are valid.
        spreading_factor: u32,
        /// Code-rate label; an unrecognized label maps to undefined.
        code_rate: String,
        polarization_inversion: bool,
    },
    Fsk {
        /// Bit rate in bits per second.
        datarate: u32,
        /// Frequency deviation in Hz.
        frequency_deviation: u32,
    },
}

/// Transmission descriptor of a downlink request.
#[derive(Debug)]
pub struct DownlinkTxInfo {
    /// Centre frequency in Hz.
    pub frequency: u32,
    /// Transmit power, dBm.
    pub power: i32,
    pub timing: DownlinkTiming,
    /// For Delay mode: the counter snapshot of the matching uplink,
    /// big-endian, exactly 4 bytes.
    pub context: Vec<u8>,
    pub modulation_info: Option<DownlinkModulationInfo>,
}

/// One downlink request item as received from the gateway bridge.
#[derive(Debug)]
pub struct DownlinkFrameItem {
    pub phy_payload: Vec<u8>,
    /// The transmission descriptor; absence fails the request.
    pub tx_info: Option<DownlinkTxInfo>,
}

} // verus!
