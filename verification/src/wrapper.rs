//! Bidirectional packet translation: hardware receive packets to uplink
//! envelopes, downlink requests to hardware transmit packets, and the
//! transmit handle consumed by the external scheduling queue.
//!
//! The GPS collaborator's conversions enter as plain values: the caller
//! obtains them (or their absence) and passes them in, so every decision
//! taken on them is verified. The correlation id is the one outside value
//! produced here, through the uuid crate.

use vstd::prelude::*;
use vstd::arithmetic::div_mod::{lemma_add_mod_noop, lemma_mod_twice, lemma_mul_mod_noop_left};
use vstd::slice::{slice_subrange, slice_to_vec};
use crate::config::TimeStampMethod;
use crate::packet::{
    be_bytes_of_u32, code_rate_label, parse_code_rate, sf_data_rate, spec_be_bytes,
    spec_code_rate_label, spec_parse_code_rate, spec_sf_data_rate, spec_spreading_factor,
    spec_u32_of_be, spreading_factor_of, u32_of_be_bytes, CodeRate, DataRate, Modulation, RxPacket,
    TxMode, TxPacketData, TX_BUFFER_SIZE,
};
use crate::proto::{
    crc_status_of, spec_crc_status, DownlinkFrameItem, DownlinkModulationInfo, DownlinkTiming,
    DownlinkTxInfo, Location, UplinkFrame, UplinkModulationInfo, UplinkRxInfo, UplinkTxInfo,
};
use crate::timebase::{duration_of_us, timestamp_of_us, ProtoDuration, TimeBase, Timestamp};
use crate::{TimeError, ValidationError};

verus! {

#[verifier::external_type_specification]
#[verifier::external_body]
pub struct ExUuid(uuid::Uuid);

/// Relies on uuid::Uuid::new_v4: a freshly generated random (version 4)
/// identifier. The value is random, so nothing is promised of it.
#[verifier::external_body]
fn new_correlation_id() -> (r: uuid::Uuid) {
    uuid::Uuid::new_v4()
}

/// Relies on uuid::Uuid::as_bytes: the identifier's 16-byte representation.
#[verifier::external_body]
fn correlation_id_bytes(id: &uuid::Uuid) -> (r: Vec<u8>)
    ensures
        r@.len() == 16,
{
    id.as_bytes().to_vec()
}

/// Relies on uuid::Uuid's Display implementation: the hyphenated lower-case
/// hexadecimal form, which is always 36 characters.
#[verifier::external_body]
fn correlation_id_text(id: &uuid::Uuid) -> (r: String)
    ensures
        r@.len() == 36,
{
    id.to_string()
}

/// Whether an uplink packet's modulation descriptor can be translated at
/// all: LoRa with a spreading factor of exactly 7..=12, or FSK with an FSK
/// bit rate.
pub open spec fn spec_uplink_translatable(p: RxPacket) -> bool {
    match p.modulation {
        Modulation::LoRa => spec_spreading_factor(p.datarate) is Some,
        Modulation::FSK => p.datarate is FSK,
        Modulation::Undefined => false,
    }
}

/// The FSK bit rate in bits per second: the hardware's kilobit rate times
/// one thousand.
pub open spec fn spec_fsk_bps(dr: DataRate) -> int {
    match dr {
        DataRate::FSK(v) => v * 1000,
        _ => 0,
    }
}

/// Translates a raw received packet into the uplink envelope.
///
/// The GPS collaborator's conversions for the packet's counter value are
/// passed in: `gps_time` and `gps_epoch` are its counter-to-time and
/// counter-to-epoch results (`None` meaning no fix), consulted only under
/// the GPS clock source; `gps_location` is its current fix, attached
/// verbatim. A failed timestamp or epoch conversion is non-fatal: the field
/// is omitted and the rest of the packet is still translated. A fresh
/// correlation id is generated on every call.
pub fn uplink_to_proto(
    gateway_id: &[u8],
    packet: &RxPacket,
    tb: &TimeBase,
    gps_time: Option<Timestamp>,
    gps_epoch: Option<ProtoDuration>,
    gps_location: Option<Location>,
) -> (r: Result<UplinkFrame, ValidationError>)
    requires
        packet.wf(),
        tb.wf(),
        tb.method == TimeStampMethod::Systemtime ==> tb.timestamp_in_range(packet.count_us)
            && tb.epoch_in_range(packet.count_us),
        (match packet.datarate {
            DataRate::FSK(v) => v <= u32::MAX / 1000,
            _ => true,
        }),
    ensures
        packet.modulation == Modulation::Undefined ==> r == Err::<UplinkFrame, ValidationError>(
            ValidationError::UnsupportedModulation,
        ),
        packet.modulation == Modulation::LoRa && spec_spreading_factor(packet.datarate) is None
            ==> r == Err::<UplinkFrame, ValidationError>(ValidationError::InvalidSpreadingFactor),
        packet.modulation == Modulation::FSK && !(packet.datarate is FSK) ==> r == Err::<
            UplinkFrame,
            ValidationError,
        >(ValidationError::InvalidDataRate),
        r is Ok <==> spec_uplink_translatable(*packet),
        r is Ok ==> ({
            let f = r->Ok_0;
            &&& f.phy_payload@ == packet.payload@.subrange(0, packet.size as int)
            &&& f.tx_info.frequency == packet.freq_hz
            &&& (match f.tx_info.modulation_info {
                UplinkModulationInfo::Lora { bandwidth, spreading_factor, code_rate } => {
                    &&& packet.modulation == Modulation::LoRa
                    &&& bandwidth == packet.bandwidth
                    &&& Some(spreading_factor) == spec_spreading_factor(packet.datarate)
                    &&& code_rate@ == spec_code_rate_label(packet.coderate)
                },
                UplinkModulationInfo::Fsk { datarate } => {
                    &&& packet.modulation == Modulation::FSK
                    &&& datarate == spec_fsk_bps(packet.datarate)
                },
            })
            &&& f.rx_info.uplink_id@.len() == 16
            &&& f.rx_info.context@ == spec_be_bytes(packet.count_us)
            &&& f.rx_info.gateway_id@ == gateway_id@
            &&& f.rx_info.rssi == packet.rssi
            &&& f.rx_info.lora_snr == packet.snr
            &&& f.rx_info.channel == packet.if_chain as u32
            &&& f.rx_info.rf_chain == packet.rf_chain as u32
            &&& f.rx_info.board == 0
            &&& f.rx_info.antenna == 0
            &&& f.rx_info.crc_status == spec_crc_status(packet.status)
            &&& f.rx_info.time == (match tb.method {
                TimeStampMethod::Systemtime => Some(
                    timestamp_of_us(tb.local_total_us(packet.count_us)),
                ),
                TimeStampMethod::GPS => gps_time,
            })
            &&& f.rx_info.time_since_gps_epoch == (match tb.method {
                TimeStampMethod::Systemtime => Some(
                    duration_of_us(tb.epoch_total_us(packet.count_us)),
                ),
                TimeStampMethod::GPS => gps_epoch,
            })
            &&& f.rx_info.location == gps_location
        }),
{
    let modulation_info: UplinkModulationInfo = match packet.modulation {
        Modulation::LoRa => {
            let sf = match spreading_factor_of(packet.datarate) {
                Some(sf) => sf,
                None => { return Err(ValidationError::InvalidSpreadingFactor); },
            };
            UplinkModulationInfo::Lora {
                bandwidth: packet.bandwidth,
                spreading_factor: sf,
                code_rate: String::from_str(code_rate_label(packet.coderate)),
            }
        },
        Modulation::FSK => {
            let v = match packet.datarate {
                DataRate::FSK(v) => v,
                _ => { return Err(ValidationError::InvalidDataRate); },
            };
            UplinkModulationInfo::Fsk { datarate: v * 1000 }
        },
        Modulation::Undefined => { return Err(ValidationError::UnsupportedModulation); },
    };

    let uid = new_correlation_id();
    let uplink_id = correlation_id_bytes(&uid);
    let context = be_bytes_of_u32(packet.count_us);

    let time = match tb.calculate_timestamp(packet.count_us, gps_time) {
        Ok(t) => Some(t),
        Err(_) => None,
    };
    let time_since_gps_epoch = match tb.calculate_epochtime(packet.count_us, gps_epoch) {
        Ok(d) => Some(d),
        Err(_) => None,
    };

    let phy_payload = slice_to_vec(
        slice_subrange(packet.payload.as_slice(), 0, packet.size as usize),
    );

    Ok(
        UplinkFrame {
            phy_payload,
            tx_info: UplinkTxInfo { frequency: packet.freq_hz, modulation_info },
            rx_info: UplinkRxInfo {
                uplink_id,
                context,
                gateway_id: slice_to_vec(gateway_id),
                rssi: packet.rssi,
                lora_snr: packet.snr,
                channel: packet.if_chain as u32,
                rf_chain: packet.rf_chain as u32,
                board: 0,
                antenna: 0,
                crc_status: crc_status_of(packet.status),
                time,
                time_since_gps_epoch,
                location: gps_location,
            },
        },
    )
}

/// The validation outcome of a downlink request's timing descriptor, in
/// check order: a Delay context of other than exactly 4 bytes, then a
/// missing Delay or GPS-epoch payload.
pub open spec fn spec_timing_error(ti: DownlinkTxInfo) -> Option<ValidationError> {
    match ti.timing {
        DownlinkTiming::Immediately => None,
        DownlinkTiming::Delay { delay } => if ti.context@.len() != 4 {
            Some(ValidationError::InvalidContext)
        } else if delay is None {
            Some(ValidationError::MissingField)
        } else {
            None
        },
        DownlinkTiming::GpsEpoch { time_since_gps_epoch } => if time_since_gps_epoch is None {
            Some(ValidationError::MissingField)
        } else {
            None
        },
    }
}

/// The validation outcome of a downlink request's modulation descriptor: a
/// LoRa spreading factor outside 7..=12 is rejected. The code rate is
/// deliberately not validated here (an unrecognized label maps to
/// undefined), and an absent descriptor is accepted.
pub open spec fn spec_modulation_error(mi: Option<DownlinkModulationInfo>) -> Option<
    ValidationError,
> {
    match mi {
        Some(DownlinkModulationInfo::Lora { spreading_factor, .. }) => if spec_sf_data_rate(
            spreading_factor,
        ) is None {
            Some(ValidationError::InvalidSpreadingFactor)
        } else {
            None
        },
        _ => None,
    }
}

/// The validation outcome of a whole downlink request, in check order:
/// missing transmission descriptor, oversize payload, timing, modulation.
pub open spec fn spec_downlink_error(df: DownlinkFrameItem) -> Option<ValidationError> {
    match df.tx_info {
        None => Some(ValidationError::MissingField),
        Some(ti) => if df.phy_payload@.len() > TX_BUFFER_SIZE {
            Some(ValidationError::PayloadTooLarge)
        } else if spec_timing_error(ti) is Some {
            spec_timing_error(ti)
        } else {
            spec_modulation_error(ti.modulation_info)
        },
    }
}

/// A delay rendered in whole microseconds.
pub open spec fn spec_delay_micros(d: ProtoDuration) -> int {
    d.seconds * 1_000_000 + d.nanos / 1000
}

/// The Delay-mode target counter: the context's counter snapshot advanced by
/// the delay in microseconds, with unsigned modular (wraparound-tolerant)
/// addition.
pub open spec fn spec_delay_target(ctx: Seq<u8>, d: ProtoDuration) -> u32 {
    (((spec_u32_of_be(ctx) + spec_delay_micros(d)) % 0x1_0000_0000)) as u32
}

/// Computes the Delay-mode target counter.
#[verifier::rlimit(50)]
fn delay_target(ctx: &[u8], d: ProtoDuration) -> (r: u32)
    requires
        ctx@.len() == 4,
        0 <= d.seconds,
        0 <= d.nanos,
    ensures
        r == spec_delay_target(ctx@, d),
{
    let base = u32_of_be_bytes(ctx);
    let secs = d.seconds as u64;
    let nanos = d.nanos as u64;
    let micros_mod: u64 = ((secs % 0x1_0000_0000) * 1_000_000 + nanos / 1000) % 0x1_0000_0000;
    let target: u64 = ((base as u64) + micros_mod) % 0x1_0000_0000;
    proof {
        let m = 0x1_0000_0000int;
        let nq = d.nanos / 1000;
        lemma_mul_mod_noop_left(d.seconds as int, 1_000_000, m);
        lemma_add_mod_noop((d.seconds as int) * 1_000_000, nq, m);
        lemma_mod_twice((d.seconds as int) * 1_000_000 + nq, m);
        lemma_add_mod_noop(base as int, (d.seconds as int) * 1_000_000 + nq, m);
        assert((base + micros_mod) % m == (base + spec_delay_micros(d)) % m);
    }
    target as u32
}

/// Law: a Delay-mode downlink whose context is the context an uplink
/// envelope carries targets exactly the uplink's counter snapshot advanced
/// by the delay, modulo one counter period.
pub proof fn lemma_context_round_trip(count_us: u32, d: ProtoDuration)
    ensures
        spec_delay_target(spec_be_bytes(count_us), d) == (((count_us + spec_delay_micros(d))
            % 0x1_0000_0000)) as u32,
{
    crate::packet::lemma_be_bytes_round_trip(count_us);
}

/// The transmit timing mode a downlink timing descriptor selects: both
/// Delay and GPS-epoch timing target a counter value.
pub open spec fn spec_tx_mode(t: DownlinkTiming) -> TxMode {
    match t {
        DownlinkTiming::Immediately => TxMode::Immediate,
        DownlinkTiming::Delay { .. } => TxMode::Timestamped,
        DownlinkTiming::GpsEpoch { .. } => TxMode::Timestamped,
    }
}

/// The target counter a validated downlink request carries before the GPS
/// collaborator is consulted: the Delay-mode computation, or zero.
pub open spec fn spec_downlink_count_us(ti: DownlinkTxInfo) -> u32 {
    match ti.timing {
        DownlinkTiming::Delay { delay: Some(d) } => spec_delay_target(ti.context@, d),
        _ => 0,
    }
}

/// The GPS-epoch instant a validated downlink request still needs mapped to
/// a counter value, if any.
pub open spec fn spec_pending_epoch(t: DownlinkTiming) -> Option<ProtoDuration> {
    match t {
        DownlinkTiming::GpsEpoch { time_since_gps_epoch: Some(d) } => Some(d),
        _ => None,
    }
}

/// How a downlink modulation descriptor is applied to the transmit packet:
/// an absent descriptor leaves the modulation undefined.
pub open spec fn spec_modulation_applied(
    mi: Option<DownlinkModulationInfo>,
    p: TxPacketData,
) -> bool {
    match mi {
        None => {
            &&& p.modulation == Modulation::Undefined
            &&& p.bandwidth == 0
            &&& p.datarate == DataRate::Undefined
            &&& p.coderate == CodeRate::Undefined
            &&& p.invert_pol == false
            &&& p.f_dev == 0
        },
        Some(
            DownlinkModulationInfo::Lora {
                bandwidth,
                spreading_factor,
                code_rate,
                polarization_inversion,
            },
        ) => {
            &&& p.modulation == Modulation::LoRa
            &&& p.bandwidth == bandwidth
            &&& Some(p.datarate) == spec_sf_data_rate(spreading_factor)
            &&& p.coderate == spec_parse_code_rate(code_rate@)
            &&& p.invert_pol == polarization_inversion
            &&& p.f_dev == 0
        },
        Some(DownlinkModulationInfo::Fsk { datarate, frequency_deviation }) => {
            &&& p.modulation == Modulation::FSK
            &&& p.bandwidth == 0
            &&& p.datarate == DataRate::FSK(datarate)
            &&& p.coderate == CodeRate::Undefined
            &&& p.invert_pol == false
            &&& p.f_dev == ((frequency_deviation / 1000) % 256) as u8
        },
    }
}

/// A validated downlink translation: the transmit packet, plus the
/// GPS-epoch instant still to be mapped to a target counter by the GPS
/// collaborator, if the request used GPS-epoch timing.
pub struct DownlinkPlan {
    pub packet: TxPacketData,
    pub pending_epoch: Option<ProtoDuration>,
}

/// Translates one downlink request into a transmit packet plan.
///
/// A malformed request rejects only this packet: the error cases and their
/// precedence are exactly [`spec_downlink_error`]. An oversize payload is an
/// error, never silently truncated. A Delay-mode request needs a context of
/// exactly 4 bytes (the counter snapshot of the matching uplink); its delay
/// must be a non-negative duration, which the caller checks at the protocol
/// boundary. GPS-epoch timing is completed by [`finish_downlink`] once the
/// caller has asked the GPS collaborator for the target counter.
pub fn downlink_from_proto(df: &DownlinkFrameItem) -> (r: Result<DownlinkPlan, ValidationError>)
    requires
        (match df.tx_info {
            Some(ti) => match ti.timing {
                DownlinkTiming::Delay { delay: Some(d) } => 0 <= d.seconds && 0 <= d.nanos,
                _ => true,
            },
            None => true,
        }),
    ensures
        spec_downlink_error(*df) is Some ==> r == Err::<DownlinkPlan, ValidationError>(
            spec_downlink_error(*df)->0,
        ),
        r is Ok <==> spec_downlink_error(*df) is None,
        r is Ok ==> ({
            let plan = r->Ok_0;
            let ti = df.tx_info->0;
            &&& plan.packet.wf()
            &&& plan.packet.freq_hz == ti.frequency
            &&& plan.packet.rf_chain == 0
            &&& plan.packet.rf_power == ti.power as i8
            &&& plan.packet.preamble == 0
            &&& plan.packet.no_crc == false
            &&& plan.packet.no_header == false
            &&& plan.packet.size == df.phy_payload@.len()
            &&& plan.packet.payload@.subrange(0, df.phy_payload@.len() as int)
                == df.phy_payload@
            &&& plan.packet.tx_mode == spec_tx_mode(ti.timing)
            &&& plan.packet.count_us == spec_downlink_count_us(ti)
            &&& spec_modulation_applied(ti.modulation_info, plan.packet)
            &&& plan.pending_epoch == spec_pending_epoch(ti.timing)
        }),
{
    let ti = match &df.tx_info {
        Some(ti) => ti,
        None => { return Err(ValidationError::MissingField); },
    };
    if df.phy_payload.len() > TX_BUFFER_SIZE {
        return Err(ValidationError::PayloadTooLarge);
    }

    let mut count_us: u32 = 0;
    let mut pending_epoch: Option<ProtoDuration> = None;
    let tx_mode: TxMode = match &ti.timing {
        DownlinkTiming::Immediately => TxMode::Immediate,
        DownlinkTiming::Delay { delay } => {
            if ti.context.len() != 4 {
                return Err(ValidationError::InvalidContext);
            }
            match delay {
                Some(d) => {
                    count_us = delay_target(ti.context.as_slice(), *d);
                    TxMode::Timestamped
                },
                None => { return Err(ValidationError::MissingField); },
            }
        },
        DownlinkTiming::GpsEpoch { time_since_gps_epoch } => {
            match time_since_gps_epoch {
                Some(d) => {
                    pending_epoch = Some(*d);
                    TxMode::Timestamped
                },
                None => { return Err(ValidationError::MissingField); },
            }
        },
    };

    let (modulation, bandwidth, datarate, coderate, invert_pol, f_dev): (
        Modulation,
        u32,
        DataRate,
        CodeRate,
        bool,
        u8,
    ) = match &ti.modulation_info {
        None => (Modulation::Undefined, 0, DataRate::Undefined, CodeRate::Undefined, false, 0),
        Some(
            DownlinkModulationInfo::Lora {
                bandwidth,
                spreading_factor,
                code_rate,
                polarization_inversion,
            },
        ) => {
            let dr = match sf_data_rate(*spreading_factor) {
                Some(dr) => dr,
                None => { return Err(ValidationError::InvalidSpreadingFactor); },
            };
            (
                Modulation::LoRa,
                *bandwidth,
                dr,
                parse_code_rate(code_rate.as_str()),
                *polarization_inversion,
                0,
            )
        },
        Some(DownlinkModulationInfo::Fsk { datarate, frequency_deviation }) => {
            (
                Modulation::FSK,
                0,
                DataRate::FSK(*datarate),
                CodeRate::Undefined,
                false,
                ((*frequency_deviation / 1000) % 256) as u8,
            )
        },
    };

    let mut payload: Vec<u8> = Vec::new();
    let mut i: usize = 0;
    while i < df.phy_payload.len()
        invariant
            i <= df.phy_payload@.len(),
            payload@.len() == i,
            forall|j: int| 0 <= j < i ==> payload@[j] == df.phy_payload@[j],
        decreases df.phy_payload@.len() - i,
    {
        payload.push(df.phy_payload[i]);
        i = i + 1;
    }
    while payload.len() < TX_BUFFER_SIZE
        invariant
            df.phy_payload@.len() <= payload@.len() <= TX_BUFFER_SIZE,
            forall|j: int| 0 <= j < df.phy_payload@.len() ==> payload@[j] == df.phy_payload@[j],
            forall|j: int| df.phy_payload@.len() <= j < payload@.len() ==> payload@[j] == 0u8,
        decreases TX_BUFFER_SIZE - payload@.len(),
    {
        payload.push(0u8);
    }

    let size: u16 = df.phy_payload.len() as u16;
    let rf_power: i8 = #[verifier::truncate] (ti.power as i8);

    let packet = TxPacketData {
        freq_hz: ti.frequency,
        tx_mode,
        count_us,
        rf_chain: 0,
        rf_power,
        modulation,
        bandwidth,
        datarate,
        coderate,
        invert_pol,
        f_dev,
        preamble: 0,
        no_crc: false,
        no_header: false,
        size,
        payload,
    };
    proof {
        assert(packet.payload@.subrange(0, df.phy_payload@.len() as int) =~= df.phy_payload@);
    }
    Ok(DownlinkPlan { packet, pending_epoch })
}

/// Completes a downlink plan with the GPS collaborator's answer.
///
/// For a plan without GPS-epoch timing the packet is returned as it is and
/// the answer is ignored. For a GPS-epoch plan, `gps_counter` is the
/// collaborator's epoch-to-counter result: it becomes the packet's target
/// counter, and its absence (no epoch reference available) fails the
/// request.
pub fn finish_downlink(plan: DownlinkPlan, gps_counter: Option<u32>) -> (r: Result<
    TxPacketData,
    TimeError,
>)
    ensures
        plan.pending_epoch is None ==> r == Ok::<TxPacketData, TimeError>(plan.packet),
        plan.pending_epoch is Some ==> r == (match gps_counter {
            Some(c) => Ok::<TxPacketData, TimeError>(TxPacketData { count_us: c, ..plan.packet }),
            None => Err::<TxPacketData, TimeError>(TimeError::TimeUnavailable),
        }),
{
    match plan.pending_epoch {
        None => Ok(plan.packet),
        Some(_) => match gps_counter {
            Some(c) => {
                let mut packet = plan.packet;
                packet.count_us = c;
                Ok(packet)
            },
            None => Err(TimeError::TimeUnavailable),
        },
    }
}

/// A translated transmit packet wrapped with its stable correlation id, as
/// consumed by the external scheduling queue. The id is assigned once and is
/// immutable for the handle's lifetime; the scheduler mutates the timing
/// mode and target counter as it assigns final transmit timing.
pub struct TxPacket {
    pub packet: TxPacketData,
    pub id: uuid::Uuid,
}

impl TxPacket {
    pub fn new(id: uuid::Uuid, tx_packet: TxPacketData) -> (r: TxPacket)
        ensures
            r.id == id,
            r.packet == tx_packet,
    {
        TxPacket { packet: tx_packet, id }
    }

    /// The wrapped transmit packet.
    pub fn tx_packet(&self) -> (r: &TxPacketData)
        ensures
            *r == self.packet,
    {
        &self.packet
    }

    pub fn get_tx_mode(&self) -> (r: TxMode)
        ensures
            r == self.packet.tx_mode,
    {
        self.packet.tx_mode
    }

    pub fn set_tx_mode(&mut self, tx_mode: TxMode)
        ensures
            *final(self) == (TxPacket {
                packet: TxPacketData { tx_mode, ..old(self).packet },
                ..*old(self)
            }),
    {
        self.packet.tx_mode = tx_mode;
    }

    pub fn get_count_us(&self) -> (r: u32)
        ensures
            r == self.packet.count_us,
    {
        self.packet.count_us
    }

    pub fn set_count_us(&mut self, count_us: u32)
        ensures
            *final(self) == (TxPacket {
                packet: TxPacketData { count_us, ..old(self).packet },
                ..*old(self)
            }),
    {
        self.packet.count_us = count_us;
    }

    /// The stable string form of the correlation id, for logging and
    /// cross-referencing: always 36 characters.
    pub fn get_id(&self) -> (r: String)
        ensures
            r@.len() == 36,
    {
        correlation_id_text(&self.id)
    }
}

} // verus!
