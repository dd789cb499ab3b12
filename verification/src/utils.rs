//! Address utilities for the discovery engine: cutting an address down to its
//! display suffix, and choosing this device's own address from the machine's
//! interface list. The interface list itself comes from the operating system
//! through one trusted call; everything done with it is verified.

use vstd::prelude::*;
use vstd::string::StrSliceExecFns;

use network_interface::NetworkInterfaceConfig;

verus! {

/// The characters of `s` after the last `'.'`; all of `s` when it holds no
/// dot. This is how a dotted-quad address is cut down to its last octet for
/// display.
pub open spec fn suffix_after_last_dot(s: Seq<char>) -> Seq<char>
    decreases s.len(),
{
    if s.len() == 0 {
        s
    } else if s[s.len() - 1] == '.' {
        Seq::empty()
    } else {
        suffix_after_last_dot(s.drop_last()).push(s.last())
    }
}

/// When everything from position `j` on is dot-free and `j` sits just after a
/// dot (or at the start), the suffix after the last dot is exactly the tail
/// from `j`.
proof fn lemma_suffix_after_last_dot(s: Seq<char>, j: int)
    requires
        0 <= j <= s.len(),
        j == 0 || s[j - 1] == '.',
        forall|k: int| j <= k < s.len() ==> s[k] != '.',
    ensures
        suffix_after_last_dot(s) == s.subrange(j, s.len() as int),
    decreases s.len(),
{
    if s.len() == j {
        if j == 0 {
            assert(s.subrange(0, 0) =~= s);
        } else {
            assert(suffix_after_last_dot(s) =~= s.subrange(j, j));
        }
    } else {
        lemma_suffix_after_last_dot(s.drop_last(), j);
        assert(suffix_after_last_dot(s.drop_last()).push(s.last()) =~= s.subrange(
            j,
            s.len() as int,
        ));
    }
}

/// The text after the last `'.'` of `ip` — for a dotted-quad address, its
/// last octet; for text without dots, the whole text.
pub fn last_ip_segment(ip: &str) -> (r: String)
    ensures
        r@ == suffix_after_last_dot(ip@),
{
    let n = ip.unicode_len();
    let mut i: usize = n;
    let mut j: usize = 0;
    let mut found = false;
    while i > 0 && !found
        invariant
            ip@.len() == n as nat,
            i <= n,
            !found ==> j == 0 && (forall|k: int| i as int <= k < n as int ==> ip@[k] != '.'),
            found ==> 1 <= j <= n && ip@[j - 1] == '.' && (forall|k: int|
                j as int <= k < n as int ==> ip@[k] != '.'),
        decreases i,
    {
        i -= 1;
        if ip.get_char(i) == '.' {
            j = i + 1;
            found = true;
        }
    }
    proof {
        lemma_suffix_after_last_dot(ip@, j as int);
    }
    let seg = ip.substring_char(j, n);
    seg.to_owned()
}

/// One address of a network interface, reduced to what the discovery engine
/// reads: its text form and the two properties the address-picking rules test.
#[derive(Clone, Debug)]
pub struct IfaceAddr {
    pub ip: String,
    pub is_ipv4: bool,
    pub is_loopback: bool,
}

/// One network interface: its addresses, in the order the system reports them.
#[derive(Clone, Debug)]
pub struct Interface {
    pub addrs: Vec<IfaceAddr>,
}

/// Relies on network_interface::NetworkInterfaceConfig::show: the machine's
/// network interfaces with their addresses. The value depends on the machine,
/// so nothing is promised of it; an enumeration failure reads as no
/// interfaces.
#[verifier::external_body]
fn list_interfaces() -> (r: Vec<Interface>) {
    let mut out: Vec<Interface> = Vec::new();
    for ni in network_interface::NetworkInterface::show().unwrap_or_default() {
        let mut addrs: Vec<IfaceAddr> = Vec::new();
        for a in ni.addr {
            let ip = a.ip();
            addrs.push(IfaceAddr {
                ip: ip.to_string(),
                is_ipv4: ip.is_ipv4(),
                is_loopback: ip.is_loopback(),
            });
        }
        out.push(Interface { addrs });
    }
    out
}

/// The address the device advertises under the picking rules: walk the
/// interfaces in order; one with no address, or whose first address is a
/// loopback, is skipped; the first address of the first remaining interface
/// wins.
pub open spec fn first_advertised_addr(ifaces: Seq<Interface>) -> Option<IfaceAddr>
    decreases ifaces.len(),
{
    if ifaces.len() == 0 {
        None
    } else if ifaces[0].addrs@.len() > 0 && !ifaces[0].addrs@[0].is_loopback {
        Some(ifaces[0].addrs@[0])
    } else {
        first_advertised_addr(ifaces.drop_first())
    }
}

/// Applies the address-picking rules of `first_advertised_addr` to a concrete
/// interface list.
pub fn pick_device_ip(ifaces: &Vec<Interface>) -> (r: Option<String>)
    ensures
        r is Some <==> first_advertised_addr(ifaces@) is Some,
        r is Some ==> r.unwrap() == first_advertised_addr(ifaces@).unwrap().ip,
{
    let n = ifaces.len();
    let mut i: usize = 0;
    proof {
        assert(ifaces@.subrange(0, n as int) =~= ifaces@);
    }
    while i < n
        invariant
            n == ifaces@.len(),
            i <= n,
            first_advertised_addr(ifaces@) == first_advertised_addr(ifaces@.subrange(
                i as int,
                n as int,
            )),
        decreases n - i,
    {
        proof {
            assert(ifaces@.subrange(i as int, n as int)[0] == ifaces@[i as int]);
            assert(ifaces@.subrange(i as int, n as int).drop_first() =~= ifaces@.subrange(
                i as int + 1,
                n as int,
            ));
        }
        let iface = &ifaces[i];
        if iface.addrs.len() > 0 {
            let first = &iface.addrs[0];
            if !first.is_loopback {
                return Some(first.ip.clone());
            }
        }
        i += 1;
    }
    proof {
        assert(ifaces@.subrange(n as int, n as int) =~= Seq::<Interface>::empty());
    }
    None
}

/// This device's advertised address, read from the operating system's
/// interface list and chosen by the verified picking rules.
pub fn get_device_ip_addr() -> Option<String> {
    let ifaces = list_interfaces();
    pick_device_ip(&ifaces)
}

/// An address worth reporting among this machine's own: IPv4 and not a
/// loopback.
pub open spec fn usable_addr(a: IfaceAddr) -> bool {
    a.is_ipv4 && !a.is_loopback
}

/// The usable addresses of one interface, in order.
pub open spec fn usable_of_addrs(addrs: Seq<IfaceAddr>) -> Seq<String>
    decreases addrs.len(),
{
    if addrs.len() == 0 {
        Seq::empty()
    } else {
        let rest = usable_of_addrs(addrs.drop_last());
        if usable_addr(addrs.last()) {
            rest.push(addrs.last().ip)
        } else {
            rest
        }
    }
}

/// The usable addresses of an interface list, interface by interface.
pub open spec fn usable_ips(ifaces: Seq<Interface>) -> Seq<String>
    decreases ifaces.len(),
{
    if ifaces.len() == 0 {
        Seq::empty()
    } else {
        usable_ips(ifaces.drop_last()) + usable_of_addrs(ifaces.last().addrs@)
    }
}

/// Collects every usable (IPv4, non-loopback) address of the given interfaces.
pub fn collect_usable_ips(ifaces: &Vec<Interface>) -> (r: Vec<String>)
    ensures
        r@ == usable_ips(ifaces@),
{
    let mut out: Vec<String> = Vec::new();
    let n = ifaces.len();
    let mut i: usize = 0;
    while i < n
        invariant
            n == ifaces@.len(),
            i <= n,
            out@ == usable_ips(ifaces@.subrange(0, i as int)),
        decreases n - i,
    {
        let addrs = &ifaces[i].addrs;
        let m = addrs.len();
        let mut j: usize = 0;
        while j < m
            invariant
                n == ifaces@.len(),
                i < n,
                m == addrs@.len(),
                addrs@ == ifaces@[i as int].addrs@,
                j <= m,
                out@ == usable_ips(ifaces@.subrange(0, i as int)) + usable_of_addrs(
                    addrs@.subrange(0, j as int),
                ),
            decreases m - j,
        {
            proof {
                assert(addrs@.subrange(0, j as int + 1).drop_last() =~= addrs@.subrange(
                    0,
                    j as int,
                ));
                assert(addrs@.subrange(0, j as int + 1).last() == addrs@[j as int]);
            }
            let a = &addrs[j];
            if a.is_ipv4 && !a.is_loopback {
                out.push(a.ip.clone());
            }
            j += 1;
        }
        proof {
            assert(addrs@.subrange(0, m as int) =~= addrs@);
            assert(ifaces@.subrange(0, i as int + 1).drop_last() =~= ifaces@.subrange(
                0,
                i as int,
            ));
            assert(ifaces@.subrange(0, i as int + 1).last() == ifaces@[i as int]);
        }
        i += 1;
    }
    proof {
        assert(ifaces@.subrange(0, n as int) =~= ifaces@);
    }
    out
}

/// Every IPv4, non-loopback address this machine currently has, read from the
/// operating system's interface list and filtered by the verified rules.
pub fn get_current_device_ips() -> Vec<String> {
    let ifaces = list_interfaces();
    collect_usable_ips(&ifaces)
}

} // verus!
