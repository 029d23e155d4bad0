//! Bit-exact advertisement payload encoding, and the tuning parameters of
//! the two advertising modes.
//!
//! Peers parse the payload, so its layout is fixed: a sequence of
//! length-prefixed, type-tagged elements — flags, a 16-bit service
//! identifier in little-endian order, and a UTF-8 device name — within the
//! legacy advertising-data size limit of 31 bytes.

use vstd::prelude::*;

verus! {

/// Element type tag for the flags byte.
pub const AD_TYPE_FLAGS: u8 = 0x01;

/// Element type tag for a complete list of 16-bit service identifiers.
pub const AD_TYPE_SERVICE_IDS: u8 = 0x03;

/// Element type tag for the complete device name.
pub const AD_TYPE_NAME: u8 = 0x09;

/// Legacy advertising-data size limit, in bytes.
pub const LEGACY_ADV_LIMIT: usize = 31;

/// The longest device name that fits beside the flags and service
/// elements under the legacy limit: 31 - 3 - 4 - 2 bytes.
pub const MAX_NAME_LEN: usize = 22;

/// The flags element: `[len][type][flags byte]`.
pub open spec fn flags_element(flags: u8) -> Seq<u8> {
    seq![2u8, AD_TYPE_FLAGS, flags]
}

/// The service element: `[len][type]` then the 16-bit identifier in
/// little-endian order.
pub open spec fn service_element(service_id: u16) -> Seq<u8> {
    seq![3u8, AD_TYPE_SERVICE_IDS, (service_id & 0xff) as u8, (service_id >> 8) as u8]
}

/// The name element: `[len][type]` then the UTF-8 name bytes. Meaningful
/// for names of at most `MAX_NAME_LEN` bytes.
pub open spec fn name_element(name: Seq<u8>) -> Seq<u8> {
    seq![(name.len() + 1) as u8, AD_TYPE_NAME] + name
}

/// The full connectable advertisement payload: flags, service identifier,
/// then device name.
pub open spec fn adv_payload(flags: u8, service_id: u16, name: Seq<u8>) -> Seq<u8> {
    flags_element(flags) + service_element(service_id) + name_element(name)
}

/// Whether a payload parses as a sequence of length-prefixed elements:
/// each element's leading byte counts the bytes after it, is at least 1
/// (the type tag), and the elements exactly cover the payload. Peers
/// parse advertisements this way, so every payload built here must
/// satisfy it.
pub open spec fn elements_well_formed(p: Seq<u8>) -> bool
    decreases p.len(),
{
    if p.len() == 0 {
        true
    } else {
        &&& 1 <= p[0]
        &&& p[0] + 1 <= p.len()
        &&& elements_well_formed(p.skip(p[0] + 1))
    }
}

/// The connectable advertisement payload parses as exactly three
/// length-prefixed elements: flags, service identifier, device name.
pub proof fn lemma_adv_payload_parses(flags: u8, service_id: u16, name: Seq<u8>)
    requires
        name.len() <= MAX_NAME_LEN,
    ensures
        elements_well_formed(adv_payload(flags, service_id, name)),
{
    let p = adv_payload(flags, service_id, name);
    let q = service_element(service_id) + name_element(name);
    let r = name_element(name);
    assert(r[0] == name.len() + 1);
    assert(elements_well_formed(Seq::<u8>::empty()));
    assert(r.skip(r[0] + 1) =~= Seq::<u8>::empty());
    assert(elements_well_formed(r));
    assert(q.skip(q[0] + 1) =~= r);
    assert(elements_well_formed(q));
    assert(p.skip(p[0] + 1) =~= q);
    assert(elements_well_formed(p));
}

/// The scan-response payload parses as the one service element.
pub proof fn lemma_scan_response_parses(service_id: u16)
    ensures
        elements_well_formed(service_element(service_id)),
{
    let q = service_element(service_id);
    assert(elements_well_formed(Seq::<u8>::empty()));
    assert(q.skip(q[0] + 1) =~= Seq::<u8>::empty());
}

/// Builds the connectable advertisement payload, or `None` exactly when
/// the name would push the payload past the legacy size limit.
pub fn build_adv_payload(flags: u8, service_id: u16, name: &Vec<u8>) -> (r: Option<Vec<u8>>)
    ensures
        r is Some <==> name@.len() <= MAX_NAME_LEN,
        r matches Some(p) ==> p@ == adv_payload(flags, service_id, name@),
        r matches Some(p) ==> p@.len() == 9 + name@.len() && p@.len() <= LEGACY_ADV_LIMIT,
{
    if name.len() > MAX_NAME_LEN {
        return None;
    }
    let mut out: Vec<u8> = Vec::new();
    out.push(2u8);
    out.push(AD_TYPE_FLAGS);
    out.push(flags);
    out.push(3u8);
    out.push(AD_TYPE_SERVICE_IDS);
    out.push((service_id & 0xff) as u8);
    out.push((service_id >> 8) as u8);
    out.push((name.len() + 1) as u8);
    out.push(AD_TYPE_NAME);
    assert(out@ =~= flags_element(flags) + service_element(service_id) + seq![
        (name@.len() + 1) as u8,
        AD_TYPE_NAME,
    ]);
    let mut i: usize = 0;
    while i < name.len()
        invariant
            i <= name.len(),
            out@ == flags_element(flags) + service_element(service_id) + seq![
                (name@.len() + 1) as u8,
                AD_TYPE_NAME,
            ] + name@.take(i as int),
        decreases name.len() - i,
    {
        out.push(name[i]);
        assert(name@.take(i + 1) =~= name@.take(i as int).push(name@[i as int]));
        i = i + 1;
    }
    assert(name@.take(name@.len() as int) =~= name@);
    assert(out@ =~= adv_payload(flags, service_id, name@));
    Some(out)
}

/// Builds the scan-response payload: the service element alone.
pub fn build_scan_response(service_id: u16) -> (r: Vec<u8>)
    ensures
        r@ == service_element(service_id),
{
    let mut out: Vec<u8> = Vec::new();
    out.push(3u8);
    out.push(AD_TYPE_SERVICE_IDS);
    out.push((service_id & 0xff) as u8);
    out.push((service_id >> 8) as u8);
    assert(out@ =~= service_element(service_id));
    out
}

/// The advertising mode of one attempt.
#[derive(Clone, Copy, PartialEq, Eq, Structural, Debug)]
pub enum AdvertisingMode {
    /// A peer may scan and connect; used while racing the deadline.
    ConnectableScannable,
    /// The fallback burst: non-connectable, non-scannable, capped event
    /// count, so the operation terminates on its own.
    NonConnectableBurst,
}

/// Tuning parameters of one advertising attempt, constructed fresh for the
/// attempt and read-only for its duration.
#[derive(Clone, Copy, PartialEq, Eq, Structural, Debug)]
pub struct AdvParams {
    /// The advertising mode.
    pub mode: AdvertisingMode,
    /// Cap on the number of advertising events; 0 means uncapped.
    pub max_events: u32,
    /// Transmit power, in dBm.
    pub tx_power_dbm: i8,
    /// Whether the reduced-rate physical layer is used.
    pub reduced_rate_phy: bool,
}

/// A self-terminating attempt: its event count is capped.
pub open spec fn self_terminating(p: AdvParams) -> bool {
    p.max_events >= 1
}

impl AdvParams {
    /// Parameters of a connectable/scannable attempt at the given power:
    /// uncapped (it ends by being accepted or abandoned) on the standard
    /// physical layer.
    pub fn connectable(tx_power_dbm: i8) -> (r: AdvParams)
        ensures
            r.mode is ConnectableScannable,
            r.max_events == 0,
            !r.reduced_rate_phy,
            r.tx_power_dbm == tx_power_dbm,
    {
        AdvParams {
            mode: AdvertisingMode::ConnectableScannable,
            max_events: 0,
            tx_power_dbm,
            reduced_rate_phy: false,
        }
    }

    /// Parameters of the fallback burst at the given elevated power:
    /// exactly one advertising event on the reduced-rate physical layer,
    /// so the attempt is self-terminating, never a suspend-forever wait.
    pub fn burst(tx_power_dbm: i8) -> (r: AdvParams)
        ensures
            r.mode is NonConnectableBurst,
            r.max_events == 1,
            self_terminating(r),
            r.reduced_rate_phy,
            r.tx_power_dbm == tx_power_dbm,
    {
        AdvParams {
            mode: AdvertisingMode::NonConnectableBurst,
            max_events: 1,
            tx_power_dbm,
            reduced_rate_phy: true,
        }
    }
}

} // verus!
