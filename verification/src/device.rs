//! The discovery engine: this device's identity record and the registry of
//! peers that multicast datagrams feed.
//!
//! The listen loop outside the crate receives each datagram, attempts to
//! parse it, and hands the outcome here as an [`Arrival`]; `handle_datagram`
//! is the whole decision: drop this device's own datagrams, answer
//! announcements, and add genuinely new addresses — never a duplicate — to
//! the registry, publishing a snapshot when it grew. The laws at the end
//! state what holds of every datagram sequence.

use vstd::prelude::*;

use crate::models::{DeviceInfo, DeviceResponse, Ipv4, LocalSendDevice};
use crate::utils::{last_ip_segment, suffix_after_last_dot};
use crate::{DEVICE_MODEL, DEVICE_TYPE};

verus! {

/// One received datagram, after the listen loop's parse attempt.
#[derive(Clone, Debug)]
pub struct Arrival {
    /// The parsed envelope, or nothing when the payload was malformed or
    /// oversized. A malformed datagram is dropped, never a crash.
    pub payload: Option<DeviceResponse>,
    /// The UDP source address, the only address ever trusted.
    pub src_ip: String,
    pub src_port: u16,
}

/// What the listen loop must do after one datagram is handled.
pub struct ListenActions {
    /// Send the unicast reply envelope back towards the sender.
    pub reply: bool,
    /// The fresh registry snapshot to publish to subscribers, present exactly
    /// when the arrival added an entry.
    pub publish: Option<Vec<DeviceInfo>>,
}

/// The registry invariant: no two entries share an address.
pub open spec fn registry_wf(devs: Seq<DeviceInfo>) -> bool {
    forall|i: int, j: int| 0 <= i < j < devs.len() ==> devs[i].ip@ != devs[j].ip@
}

/// Whether some entry already carries this address.
pub open spec fn knows_address(devs: Seq<DeviceInfo>, ip: Seq<char>) -> bool {
    exists|i: int| 0 <= i < devs.len() && devs[i].ip@ == ip
}

/// The registry reduced to what its invariant is about: the addresses, in
/// registry order.
pub open spec fn registry_ips(devs: Seq<DeviceInfo>) -> Seq<Seq<char>> {
    devs.map_values(|d: DeviceInfo| d.ip@)
}

/// No address occurs twice.
pub open spec fn unique_ips(ips: Seq<Seq<char>>) -> bool {
    forall|i: int, j: int| 0 <= i < j < ips.len() ==> ips[i] != ips[j]
}

/// A datagram this device sent itself: it carries this device's fingerprint.
pub open spec fn is_self_arrival(fp: Seq<char>, a: Arrival) -> bool {
    a.payload is Some && a.payload.unwrap().fingerprint@ == fp
}

/// Whether an arrival makes it into the registry: it parsed, it is not this
/// device's own, and its source address is new.
pub open spec fn arrival_accepted(ips: Seq<Seq<char>>, fp: Seq<char>, a: Arrival) -> bool {
    &&& a.payload is Some
    &&& a.payload.unwrap().fingerprint@ != fp
    &&& !ips.contains(a.src_ip@)
}

/// The registry's addresses after one arrival.
pub open spec fn step_ips(ips: Seq<Seq<char>>, fp: Seq<char>, a: Arrival) -> Seq<Seq<char>> {
    if arrival_accepted(ips, fp, a) {
        ips.push(a.src_ip@)
    } else {
        ips
    }
}

/// The registry's addresses after a whole sequence of arrivals, in arrival
/// order.
pub open spec fn run_ips(ips: Seq<Seq<char>>, fp: Seq<char>, arrivals: Seq<Arrival>) -> Seq<
    Seq<char>,
>
    decreases arrivals.len(),
{
    if arrivals.len() == 0 {
        ips
    } else {
        run_ips(step_ips(ips, fp, arrivals[0]), fp, arrivals.drop_first())
    }
}

/// The registry invariant is exactly uniqueness of the address model.
pub proof fn lemma_registry_wf_iff_unique_ips(devs: Seq<DeviceInfo>)
    ensures
        registry_wf(devs) <==> unique_ips(registry_ips(devs)),
{
    assert(registry_ips(devs).len() == devs.len());
    assert forall|i: int| 0 <= i < devs.len() implies registry_ips(devs)[i] == devs[i].ip@ by {}
    if registry_wf(devs) {
        assert forall|i: int, j: int|
            0 <= i < j < registry_ips(devs).len() implies registry_ips(devs)[i] != registry_ips(
            devs,
        )[j] by {
            assert(devs[i].ip@ != devs[j].ip@);
        }
    }
    if unique_ips(registry_ips(devs)) {
        assert forall|i: int, j: int| 0 <= i < j < devs.len() implies devs[i].ip@ != devs[j].ip@ by {
            assert(registry_ips(devs)[i] != registry_ips(devs)[j]);
        }
    }
}

/// Relies on uuid::Uuid::new_v4 and its display form: a fresh random
/// version-4 identifier, rendered hyphenated as 36 characters. The value is
/// random, so nothing but its length is promised.
#[verifier::external_body]
fn fresh_fingerprint() -> (r: String)
    ensures
        r@.len() == 36,
{
    uuid::Uuid::new_v4().to_string()
}

impl LocalSendDevice {
    /// The discovery engine's invariant: the registry never holds two entries
    /// with the same address.
    pub open spec fn wf(self) -> bool {
        registry_wf(self.devices@)
    }

    /// A fresh device: an empty registry and a self-identity record carrying
    /// a fresh fingerprint, this machine's advertised address (all zeroes
    /// when none could be found) with its display suffix, and the multicast
    /// configuration.
    pub fn new(
        device_alias: String,
        interface_addr: Ipv4,
        multicast_addr: Ipv4,
        multicast_port: u16,
    ) -> (r: Self)
        ensures
            r.wf(),
            r.devices@ =~= Seq::<DeviceInfo>::empty(),
            r.interface_addr == interface_addr,
            r.multicast_addr == multicast_addr,
            r.multicast_port == multicast_port,
            r.this_device.announcement == true,
            r.this_device.fingerprint@.len() == 36,
            r.this_device.device_info.alias == device_alias,
            r.this_device.device_info.device_type@ == DEVICE_TYPE@,
            r.this_device.device_info.device_model is Some,
            r.this_device.device_info.device_model.unwrap()@ == DEVICE_MODEL@,
            r.this_device.device_info.port == multicast_port,
            r.this_device.device_info.ip_ending is Some,
            r.this_device.device_info.ip_ending.unwrap()@ == suffix_after_last_dot(
                r.this_device.device_info.ip@,
            ),
    {
        let fingerprint = fresh_fingerprint();
        let ip_addr = match crate::utils::get_device_ip_addr() {
            Some(ip) => ip,
            None => "0.0.0.0".to_owned(),
        };
        let seg = last_ip_segment(ip_addr.as_str());
        let device_info = DeviceInfo {
            alias: device_alias,
            device_type: DEVICE_TYPE.to_owned(),
            device_model: Some(DEVICE_MODEL.to_owned()),
            ip: ip_addr,
            port: multicast_port,
            ip_ending: Some(seg),
        };
        let this_device = DeviceResponse { device_info, announcement: true, fingerprint };
        LocalSendDevice {
            this_device,
            devices: Vec::new(),
            interface_addr,
            multicast_addr,
            multicast_port,
        }
    }

    /// Whether the registry already holds an entry with this address.
    pub fn contains_address(&self, ip: &String) -> (r: bool)
        ensures
            r == knows_address(self.devices@, ip@),
    {
        let n = self.devices.len();
        let mut i: usize = 0;
        while i < n
            invariant
                n == self.devices@.len(),
                i <= n,
                forall|m: int| 0 <= m < i as int ==> self.devices@[m].ip@ != ip@,
            decreases n - i,
        {
            if self.devices[i].ip == *ip {
                return true;
            }
            i += 1;
        }
        false
    }

    /// An immutable copy of the full registry, as published to subscribers.
    pub fn snapshot(&self) -> (r: Vec<DeviceInfo>)
        ensures
            r@ == self.devices@,
    {
        let n = self.devices.len();
        let mut out: Vec<DeviceInfo> = Vec::new();
        let mut i: usize = 0;
        while i < n
            invariant
                n == self.devices@.len(),
                i <= n,
                out@ =~= self.devices@.subrange(0, i as int),
            decreases n - i,
        {
            out.push(self.devices[i].duplicate());
            i += 1;
        }
        proof {
            assert(self.devices@.subrange(0, n as int) =~= self.devices@);
        }
        out
    }

    /// Handles one received datagram.
    ///
    /// A payload that did not parse is dropped. A payload carrying this
    /// device's own fingerprint is dropped (the self-loopback filter). Any
    /// other announcement is answered with a unicast reply. The record —
    /// with its address and port overwritten from the UDP envelope, never
    /// taken from the payload, and its display suffix computed from the
    /// source address — joins the registry only when its address is new, and
    /// only then is a snapshot published.
    pub fn handle_datagram(&mut self, arrival: Arrival) -> (act: ListenActions)
        requires
            old(self).wf(),
        ensures
            final(self).wf(),
            final(self).this_device == old(self).this_device,
            final(self).interface_addr == old(self).interface_addr,
            final(self).multicast_addr == old(self).multicast_addr,
            final(self).multicast_port == old(self).multicast_port,
            registry_ips(final(self).devices@) == step_ips(
                registry_ips(old(self).devices@),
                old(self).this_device.fingerprint@,
                arrival,
            ),
            arrival.payload is None ==> final(self).devices@ == old(self).devices@
                && !act.reply && act.publish is None,
            is_self_arrival(old(self).this_device.fingerprint@, arrival) ==> final(self).devices@
                == old(self).devices@ && !act.reply && act.publish is None,
            (arrival.payload is Some && !is_self_arrival(
                old(self).this_device.fingerprint@,
                arrival,
            )) ==> act.reply == arrival.payload.unwrap().announcement,
            (arrival.payload is Some && !is_self_arrival(
                old(self).this_device.fingerprint@,
                arrival,
            ) && knows_address(old(self).devices@, arrival.src_ip@)) ==> final(self).devices@
                == old(self).devices@ && act.publish is None,
            (arrival.payload is Some && !is_self_arrival(
                old(self).this_device.fingerprint@,
                arrival,
            ) && !knows_address(old(self).devices@, arrival.src_ip@)) ==> ({
                &&& final(self).devices@.len() == old(self).devices@.len() + 1
                &&& final(self).devices@.drop_last() == old(self).devices@
                &&& ({
                    let e = final(self).devices@.last();
                    &&& e.alias == arrival.payload.unwrap().device_info.alias
                    &&& e.device_type == arrival.payload.unwrap().device_info.device_type
                    &&& e.device_model == arrival.payload.unwrap().device_info.device_model
                    &&& e.ip == arrival.src_ip
                    &&& e.port == arrival.src_port
                    &&& e.ip_ending is Some
                    &&& e.ip_ending.unwrap()@ == suffix_after_last_dot(arrival.src_ip@)
                })
                &&& act.publish is Some
                &&& act.publish.unwrap()@ == final(self).devices@
            }),
    {
        proof {
            lemma_registry_wf_iff_unique_ips(old(self).devices@);
        }
        let Arrival { payload, src_ip, src_port } = arrival;
        match payload {
            None => ListenActions { reply: false, publish: None },
            Some(resp) => {
                if resp.fingerprint == self.this_device.fingerprint {
                    return ListenActions { reply: false, publish: None };
                }
                let reply = resp.announcement;
                if self.contains_address(&src_ip) {
                    proof {
                        let w = choose|i: int|
                            0 <= i < self.devices@.len() && self.devices@[i].ip@ == src_ip@;
                        assert(registry_ips(self.devices@)[w] == src_ip@);
                        assert(registry_ips(self.devices@).contains(src_ip@));
                    }
                    ListenActions { reply, publish: None }
                } else {
                    proof {
                        assert forall|i: int|
                            0 <= i < registry_ips(self.devices@).len() implies registry_ips(
                            self.devices@,
                        )[i] != src_ip@ by {
                            assert(registry_ips(self.devices@)[i] == self.devices@[i].ip@);
                        }
                        assert(!registry_ips(self.devices@).contains(src_ip@));
                    }
                    let seg = last_ip_segment(src_ip.as_str());
                    let mut info = resp.device_info;
                    info.ip = src_ip;
                    info.port = src_port;
                    info.ip_ending = Some(seg);
                    self.devices.push(info);
                    proof {
                        assert(registry_ips(self.devices@) =~= registry_ips(
                            old(self).devices@,
                        ).push(arrival.src_ip@));
                        lemma_registry_wf_iff_unique_ips(self.devices@);
                        assert(self.devices@.drop_last() =~= old(self).devices@);
                    }
                    let snap = self.snapshot();
                    ListenActions { reply, publish: Some(snap) }
                }
            },
        }
    }
}

/// Law: whatever sequence of discovery datagrams arrives, one handling step
/// keeps the registry's addresses unique.
pub proof fn lemma_step_preserves_uniqueness(ips: Seq<Seq<char>>, fp: Seq<char>, a: Arrival)
    requires
        unique_ips(ips),
    ensures
        unique_ips(step_ips(ips, fp, a)),
{
    if arrival_accepted(ips, fp, a) {
        let out = ips.push(a.src_ip@);
        assert forall|i: int, j: int| 0 <= i < j < out.len() implies out[i] != out[j] by {
            if j == ips.len() as int {
                assert(ips[i] != a.src_ip@);
            }
        }
    }
}

/// Law: for every sequence of discovery datagrams, the registry never comes
/// to hold two entries with equal address — uniqueness of the addresses is
/// preserved by the whole run.
pub proof fn lemma_discovery_preserves_uniqueness(
    ips: Seq<Seq<char>>,
    fp: Seq<char>,
    arrivals: Seq<Arrival>,
)
    requires
        unique_ips(ips),
    ensures
        unique_ips(run_ips(ips, fp, arrivals)),
    decreases arrivals.len(),
{
    if arrivals.len() > 0 {
        lemma_step_preserves_uniqueness(ips, fp, arrivals[0]);
        lemma_discovery_preserves_uniqueness(
            step_ips(ips, fp, arrivals[0]),
            fp,
            arrivals.drop_first(),
        );
    }
}

/// Law: a device never adds itself to its own registry — a run made only of
/// datagrams carrying this device's own fingerprint, announcements and
/// replies alike, leaves the registry exactly as it was.
pub proof fn lemma_self_arrivals_never_added(
    ips: Seq<Seq<char>>,
    fp: Seq<char>,
    arrivals: Seq<Arrival>,
)
    requires
        forall|k: int| 0 <= k < arrivals.len() ==> is_self_arrival(fp, arrivals[k]),
    ensures
        run_ips(ips, fp, arrivals) == ips,
    decreases arrivals.len(),
{
    if arrivals.len() > 0 {
        assert(step_ips(ips, fp, arrivals[0]) == ips);
        lemma_self_arrivals_never_added(ips, fp, arrivals.drop_first());
    }
}

/// Law: re-announcing an already-known address never duplicates the entry —
/// the step leaves the addresses exactly as they were.
pub proof fn lemma_known_address_not_duplicated(ips: Seq<Seq<char>>, fp: Seq<char>, a: Arrival)
    requires
        ips.contains(a.src_ip@),
    ensures
        step_ips(ips, fp, a) == ips,
{
}

/// Law: a datagram whose payload did not parse is dropped, and the rest of
/// the stream is handled exactly as if it had never arrived — in particular
/// the next valid datagram is still processed.
pub proof fn lemma_malformed_dropped(
    ips: Seq<Seq<char>>,
    fp: Seq<char>,
    bad: Arrival,
    rest: Seq<Arrival>,
)
    requires
        bad.payload is None,
    ensures
        run_ips(ips, fp, seq![bad] + rest) == run_ips(ips, fp, rest),
{
    assert(step_ips(ips, fp, bad) == ips);
    assert((seq![bad] + rest)[0] == bad);
    assert((seq![bad] + rest).drop_first() =~= rest);
}

} // verus!
