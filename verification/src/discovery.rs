//! Bookkeeping of the Alpaca discovery protocol: grouping the addresses of network
//! interfaces, choosing where discovery requests go, and collecting the servers that
//! answered.
//!
//! Addresses are held as numbers: an IPv4 address as the `u32` and an IPv6 address as the
//! `u128` of its octets in network order.

use vstd::prelude::*;

verus! {

/// `ff12::a1:9aca`, the IPv6 multicast group for discovery as per the Alpaca specification.
pub const DISCOVERY_ADDR_V6: u128 = 0xff12_0000_0000_0000_0000_0000_00a1_9aca;

/// `::1`, the IPv6 loopback address.
pub const LOCALHOST_V6: u128 = 1;

/// The default discovery port.
pub const DEFAULT_DISCOVERY_PORT: u16 = 32227;

/// The IPv4-mapped IPv6 address `::ffff:a.b.c.d` of an IPv4 address.
pub open spec fn ipv4_mapped(v4: u32) -> u128 {
    (0xffff_0000_0000u128 + v4 as u128) as u128
}

/// The broadcast address of an IPv4 network: the address with every host bit set.
pub open spec fn broadcast_of(addr: u32, netmask: u32) -> u32 {
    addr | !netmask
}

/// One address of a network interface as the operating system lists it.
#[derive(Debug, Clone, Copy, PartialEq, Eq, Structural)]
pub enum InterfaceAddr {
    /// An IPv4 address with its netmask.
    V4(Ipv4Info),
    /// An IPv6 address.
    V6(u128),
}

/// An entry of the operating system's list of interface addresses.
#[derive(Debug)]
pub struct InterfaceEntry {
    /// Interface name.
    pub name: String,
    /// Interface index, if the system reports one.
    pub index: Option<u32>,
    /// Whether the interface is operationally up.
    pub is_oper_up: bool,
    /// Whether the interface is a loopback interface.
    pub is_loopback: bool,
    /// The address.
    pub addr: InterfaceAddr,
}

/// IPv4 address information of a network interface.
#[derive(Debug, Clone, Copy, PartialEq, Eq, Structural)]
pub struct Ipv4Info {
    /// The address.
    pub addr: u32,
    /// The netmask.
    pub netmask: u32,
}

/// A network interface with all its IPv4 and IPv6 addresses grouped together.
#[derive(Debug)]
pub struct GroupedInterface {
    /// Interface name.
    pub name: String,
    /// Interface index (`0` when the system reports none).
    pub index: u32,
    /// Whether the interface is a loopback interface.
    pub is_loopback: bool,
    /// IPv4 addresses in the order they were listed.
    pub ipv4: Vec<Ipv4Info>,
    /// IPv6 addresses in the order they were listed.
    pub ipv6: Vec<u128>,
}

/// The content of a grouped interface.
pub struct GroupModel {
    /// Interface name.
    pub name: Seq<char>,
    /// Interface index.
    pub index: u32,
    /// Whether the interface is a loopback interface.
    pub is_loopback: bool,
    /// IPv4 addresses.
    pub ipv4: Seq<Ipv4Info>,
    /// IPv6 addresses.
    pub ipv6: Seq<u128>,
}

/// The content of an interface entry.
pub struct EntryModel {
    /// Interface name.
    pub name: Seq<char>,
    /// Interface index.
    pub index: Option<u32>,
    /// Whether the interface is up.
    pub is_oper_up: bool,
    /// Whether the interface is a loopback interface.
    pub is_loopback: bool,
    /// The address.
    pub addr: InterfaceAddr,
}

impl View for InterfaceEntry {
    type V = EntryModel;

    open spec fn view(&self) -> EntryModel {
        EntryModel {
            name: self.name@,
            index: self.index,
            is_oper_up: self.is_oper_up,
            is_loopback: self.is_loopback,
            addr: self.addr,
        }
    }
}

impl View for GroupedInterface {
    type V = GroupModel;

    open spec fn view(&self) -> GroupModel {
        GroupModel {
            name: self.name@,
            index: self.index,
            is_loopback: self.is_loopback,
            ipv4: self.ipv4@,
            ipv6: self.ipv6@,
        }
    }
}

/// The position of the first group named `name` among `groups[..n]`, if any.
pub open spec fn find_group(groups: Seq<GroupModel>, name: Seq<char>, n: int) -> Option<int>
    decreases n,
{
    if n <= 0 {
        None
    } else {
        match find_group(groups, name, n - 1) {
            Some(i) => Some(i),
            None => if groups[n - 1].name == name {
                Some(n - 1)
            } else {
                None
            },
        }
    }
}

/// `group` with the address of `entry` appended to its IPv4 or IPv6 list.
pub open spec fn add_addr(group: GroupModel, addr: InterfaceAddr) -> GroupModel {
    match addr {
        InterfaceAddr::V4(info) => GroupModel { ipv4: group.ipv4.push(info), ..group },
        InterfaceAddr::V6(ip) => GroupModel { ipv6: group.ipv6.push(ip), ..group },
    }
}

/// A new group for the interface of `entry`, holding no address yet.
pub open spec fn new_group(entry: EntryModel) -> GroupModel {
    GroupModel {
        name: entry.name,
        index: match entry.index {
            Some(i) => i,
            None => 0,
        },
        is_loopback: entry.is_loopback,
        ipv4: Seq::empty(),
        ipv6: Seq::empty(),
    }
}

/// The groups after taking in one more entry: an entry of an interface that is down is
/// skipped; otherwise its address joins the first group of the same name, or a new group
/// at the end.
pub open spec fn take_in(groups: Seq<GroupModel>, entry: EntryModel) -> Seq<GroupModel> {
    if !entry.is_oper_up {
        groups
    } else {
        match find_group(groups, entry.name, groups.len() as int) {
            Some(i) => groups.update(i, add_addr(groups[i], entry.addr)),
            None => groups.push(add_addr(new_group(entry), entry.addr)),
        }
    }
}

/// The interfaces that the entries `entries` describe, grouped by name in the order their
/// names first appear.
pub open spec fn group_entries(entries: Seq<EntryModel>) -> Seq<GroupModel>
    decreases entries.len(),
{
    if entries.len() == 0 {
        Seq::empty()
    } else {
        take_in(group_entries(entries.drop_last()), entries.last())
    }
}

/// The contents of a list of grouped interfaces.
pub open spec fn group_models(groups: Seq<GroupedInterface>) -> Seq<GroupModel> {
    groups.map_values(|g: GroupedInterface| g@)
}

/// The contents of a list of interface entries.
pub open spec fn entry_models(entries: Seq<InterfaceEntry>) -> Seq<EntryModel> {
    entries.map_values(|e: InterfaceEntry| e@)
}

/// Whether no two groups share a name.
pub open spec fn names_distinct(groups: Seq<GroupModel>) -> bool {
    forall|i: int, j: int|
        0 <= i < groups.len() && 0 <= j < groups.len() && i != j ==> groups[i].name != groups[j].name
}

proof fn lemma_find_group(groups: Seq<GroupModel>, name: Seq<char>, n: int)
    requires
        0 <= n <= groups.len(),
    ensures
        find_group(groups, name, n) matches Some(i) ==> 0 <= i < n && groups[i].name == name,
        find_group(groups, name, n) is None ==> forall|j: int| 0 <= j < n ==> groups[j].name != name,
    decreases n,
{
    if n > 0 {
        lemma_find_group(groups, name, n - 1);
    }
}

proof fn lemma_find_group_stable(groups: Seq<GroupModel>, name: Seq<char>, n: int, m: int)
    requires
        0 <= n <= m,
        find_group(groups, name, n) is Some,
    ensures
        find_group(groups, name, m) == find_group(groups, name, n),
    decreases m - n,
{
    if m > n {
        lemma_find_group_stable(groups, name, n, m - 1);
    }
}

fn find_group_exec(groups: &Vec<GroupedInterface>, name: &String) -> (r: Option<usize>)
    ensures
        r == (match find_group(group_models(groups@), name@, groups@.len() as int) {
            Some(i) => Some(i as usize),
            None => None::<usize>,
        }),
{
    let ghost models = group_models(groups@);
    let mut i: usize = 0;
    while i < groups.len()
        invariant
            i <= groups@.len(),
            models == group_models(groups@),
            find_group(models, name@, i as int) is None,
        decreases groups@.len() - i,
    {
        if groups[i].name == *name {
            assert(models[i as int].name == name@);
            proof {
                lemma_find_group_stable(models, name@, i + 1, groups@.len() as int);
            }
            return Some(i);
        }
        i = i + 1;
    }
    None
}

fn add_addr_exec(group: &mut GroupedInterface, addr: InterfaceAddr)
    ensures
        final(group)@ == add_addr(old(group)@, addr),
{
    match addr {
        InterfaceAddr::V4(info) => {
            group.ipv4.push(info);
        },
        InterfaceAddr::V6(ip) => {
            group.ipv6.push(ip);
        },
    }
}

/// Groups the addresses of the interfaces that are up by interface name, keeping the
/// order in which names first appear and the order of each interface's addresses.
pub fn group_interfaces(entries: &[InterfaceEntry]) -> (r: Vec<GroupedInterface>)
    ensures
        group_models(r@) == group_entries(entry_models(entries@)),
        names_distinct(group_models(r@)),
{
    let ghost input = entry_models(entries@);
    let mut groups: Vec<GroupedInterface> = Vec::new();
    let mut k: usize = 0;
    while k < entries.len()
        invariant
            k <= entries@.len(),
            input == entry_models(entries@),
            group_models(groups@) == group_entries(input.take(k as int)),
            names_distinct(group_models(groups@)),
        decreases entries@.len() - k,
    {
        let entry = &entries[k];
        let ghost before = group_models(groups@);
        assert(input.take(k + 1).drop_last() =~= input.take(k as int));
        assert(input.take(k + 1).last() == entry@);
        assert(group_entries(input.take(k + 1)) == take_in(before, entry@));
        if entry.is_oper_up {
            proof {
                lemma_find_group(before, entry.name@, before.len() as int);
            }
            match find_group_exec(&groups, &entry.name) {
                Some(i) => {
                    let mut g = groups.remove(i);
                    add_addr_exec(&mut g, entry.addr);
                    groups.insert(i, g);
                    assert(group_models(groups@) =~= before.update(
                        i as int,
                        add_addr(before[i as int], entry.addr),
                    ));
                    assert(names_distinct(group_models(groups@))) by {
                        let after = group_models(groups@);
                        assert forall|a: int| 0 <= a < after.len() implies #[trigger] after[a].name
                            == before[a].name by {}
                    }
                    assert(take_in(before, entry@) == group_models(groups@));
                },
                None => {
                    let mut g = GroupedInterface {
                        name: entry.name.clone(),
                        index: match entry.index {
                            Some(i) => i,
                            None => 0,
                        },
                        is_loopback: entry.is_loopback,
                        ipv4: Vec::new(),
                        ipv6: Vec::new(),
                    };
                    add_addr_exec(&mut g, entry.addr);
                    groups.push(g);
                    assert(group_models(groups@) =~= before.push(
                        add_addr(new_group(entry@), entry.addr),
                    ));
                    assert(names_distinct(group_models(groups@))) by {
                        let after = group_models(groups@);
                        assert forall|a: int| 0 <= a < before.len() implies #[trigger] after[a].name
                            == before[a].name by {}
                        assert(after[before.len() as int].name == entry.name@);
                    }
                    assert(take_in(before, entry@) == group_models(groups@));
                },
            }
        }
        k = k + 1;
    }
    assert(input.take(entries@.len() as int) =~= input);
    groups
}

/// Whether an IPv6 address is a multicast address (`ff00::/8`).
pub open spec fn is_multicast_v6(addr: u128) -> bool {
    addr >> 120u128 == 0xffu128
}

/// Where one discovery request goes.
#[derive(Debug, Clone, Copy, PartialEq, Eq, Structural)]
pub struct DiscoveryTarget {
    /// The IPv6 address to send to (IPv4 addresses in their IPv4-mapped form).
    pub addr: u128,
    /// The index of the interface to send through.
    pub interface_index: u32,
    /// Whether the address is a multicast group, so that the outgoing multicast interface
    /// must be set to the interface first.
    pub multicast: bool,
}

/// The request that goes to `addr` through the interface with index `index`.
pub open spec fn target_for(addr: u128, index: u32) -> DiscoveryTarget {
    DiscoveryTarget { addr, interface_index: index, multicast: is_multicast_v6(addr) }
}

/// The broadcast request for one IPv4 network of an interface.
pub open spec fn broadcast_target(net: Ipv4Info, index: u32) -> DiscoveryTarget {
    target_for(ipv4_mapped(broadcast_of(net.addr, net.netmask)), index)
}

/// The requests for the IPv4 networks `nets` of an interface, in order.
pub open spec fn broadcast_targets(nets: Seq<Ipv4Info>, index: u32) -> Seq<DiscoveryTarget>
    decreases nets.len(),
{
    if nets.len() == 0 {
        Seq::empty()
    } else {
        broadcast_targets(nets.drop_last(), index).push(broadcast_target(nets.last(), index))
    }
}

/// The discovery requests for one interface: a broadcast to each of its IPv4 networks,
/// then, if it has an IPv6 address, one request to the discovery multicast group (to
/// `::1` on a loopback interface, which cannot take part in multicast).
pub open spec fn interface_targets(g: GroupModel) -> Seq<DiscoveryTarget> {
    broadcast_targets(g.ipv4, g.index) + if g.ipv6.len() > 0 {
        seq![target_for(if g.is_loopback { LOCALHOST_V6 } else { DISCOVERY_ADDR_V6 }, g.index)]
    } else {
        Seq::empty()
    }
}

/// The discovery requests for the interfaces `groups`, interface by interface.
pub open spec fn all_targets(groups: Seq<GroupModel>) -> Seq<DiscoveryTarget>
    decreases groups.len(),
{
    if groups.len() == 0 {
        Seq::empty()
    } else {
        all_targets(groups.drop_last()) + interface_targets(groups.last())
    }
}

fn multicast_target(addr: u128, index: u32) -> (r: DiscoveryTarget)
    ensures
        r == target_for(addr, index),
{
    DiscoveryTarget { addr, interface_index: index, multicast: addr >> 120u128 == 0xffu128 }
}

/// The discovery requests to send through the interfaces `interfaces`, interface by
/// interface.
pub fn discovery_targets(interfaces: &Vec<GroupedInterface>) -> (r: Vec<DiscoveryTarget>)
    ensures
        r@ == all_targets(group_models(interfaces@)),
{
    let ghost models = group_models(interfaces@);
    let mut out: Vec<DiscoveryTarget> = Vec::new();
    let mut k: usize = 0;
    while k < interfaces.len()
        invariant
            k <= interfaces@.len(),
            models == group_models(interfaces@),
            out@ == all_targets(models.take(k as int)),
        decreases interfaces@.len() - k,
    {
        let g = &interfaces[k];
        let ghost before = out@;
        assert(models[k as int] == g@);
        let mut i: usize = 0;
        while i < g.ipv4.len()
            invariant
                i <= g.ipv4@.len(),
                out@ == before + broadcast_targets(g.ipv4@.take(i as int), g.index),
            decreases g.ipv4@.len() - i,
        {
            let net = g.ipv4[i];
            let broadcast: u32 = net.addr | !net.netmask;
            let mapped: u128 = 0xffff_0000_0000u128 + broadcast as u128;
            out.push(multicast_target(mapped, g.index));
            assert(g.ipv4@.take(i + 1).drop_last() =~= g.ipv4@.take(i as int));
            assert(out@ =~= before + broadcast_targets(g.ipv4@.take(i + 1), g.index));
            i = i + 1;
        }
        assert(g.ipv4@.take(g.ipv4@.len() as int) =~= g.ipv4@);
        if g.ipv6.len() > 0 {
            let addr = if g.is_loopback { LOCALHOST_V6 } else { DISCOVERY_ADDR_V6 };
            out.push(multicast_target(addr, g.index));
        }
        assert(models.take(k + 1).drop_last() =~= models.take(k as int));
        assert(out@ =~= all_targets(models.take(k as int)) + interface_targets(g@));
        k = k + 1;
    }
    assert(models.take(interfaces@.len() as int) =~= models);
    out
}

/// The address of a server that answered a discovery request.
#[derive(Debug, Clone, Copy, PartialEq, Eq, Structural)]
pub enum PeerAddr {
    /// An IPv4 address and a port.
    V4(u32, u16),
    /// An IPv6 address and a port.
    V6(u128, u16),
}

/// The address of a server that answered from IPv6 address `ip` and announced `port`:
/// an IPv4-mapped address (`::ffff:a.b.c.d`) stands for the IPv4 address it holds.
pub open spec fn spec_peer_addr(ip: u128, port: u16) -> PeerAddr {
    if ip >> 32u128 == 0xffffu128 {
        PeerAddr::V4((ip % 0x1_0000_0000u128) as u32, port)
    } else {
        PeerAddr::V6(ip, port)
    }
}

/// The address of a server that answered from IPv6 address `ip` and announced `port`:
/// an IPv4-mapped address (`::ffff:a.b.c.d`) stands for the IPv4 address it holds.
pub fn peer_addr(ip: u128, port: u16) -> (r: PeerAddr)
    ensures
        r == spec_peer_addr(ip, port),
{
    if ip >> 32u128 == 0xffffu128 {
        let low: u128 = ip % 0x1_0000_0000u128;
        PeerAddr::V4(low as u32, port)
    } else {
        PeerAddr::V6(ip, port)
    }
}

/// A server that answers through the IPv4-mapped form of its IPv4 address is reported
/// under that IPv4 address.
pub proof fn lemma_mapped_peer_is_v4(v4: u32, port: u16)
    ensures
        spec_peer_addr(ipv4_mapped(v4), port) == PeerAddr::V4(v4, port),
{
    let m = ipv4_mapped(v4);
    assert(m >> 32u128 == 0xffffu128 && m % 0x1_0000_0000u128 == v4 as u128) by (bit_vector)
        requires
            m == 0xffff_0000_0000u128 + v4 as u128,
    ;
}

/// What happened while discovering servers.
#[derive(Debug, Clone, Copy, PartialEq, Eq, Structural)]
pub enum DiscoveryEvent {
    /// Discovery starts.
    Start,
    /// No answer came within the waiting time.
    TimedOut,
    /// A server answered from this address.
    Received(PeerAddr),
    /// An answer could not be received or read.
    ReceiveFailed,
}

/// What to do next while discovering servers.
#[derive(Debug, Clone, Copy, PartialEq, Eq, Structural)]
pub enum DiscoveryAction {
    /// Send a round of discovery requests, then wait for answers.
    SendRequests,
    /// Report this newly discovered server, then wait for more answers.
    Emit(PeerAddr),
    /// Wait for more answers.
    Listen,
    /// Discovery is over.
    Finish,
}

/// A discovery in progress: how many rounds of requests it sends, how many it has sent,
/// and the servers reported so far.
pub struct DiscoveryRun {
    num_requests: usize,
    rounds_sent: usize,
    seen: Vec<PeerAddr>,
}

/// Whether no address occurs twice in `s`.
pub open spec fn all_distinct(s: Seq<PeerAddr>) -> bool {
    forall|i: int, j: int| 0 <= i < s.len() && 0 <= j < s.len() && i != j ==> s[i] != s[j]
}

impl DiscoveryRun {
    /// The number of rounds of requests the discovery sends.
    pub closed spec fn num_requests(&self) -> nat {
        self.num_requests as nat
    }

    /// The number of rounds of requests sent so far.
    pub closed spec fn rounds_sent(&self) -> nat {
        self.rounds_sent as nat
    }

    /// The servers reported so far, in the order they were reported.
    pub closed spec fn seen(&self) -> Seq<PeerAddr> {
        self.seen@
    }

    #[verifier::type_invariant]
    closed spec fn inv(self) -> bool {
        &&& self.rounds_sent <= self.num_requests
        &&& all_distinct(self.seen@)
    }

    /// A discovery that sends `num_requests` rounds of requests.
    pub fn new(num_requests: usize) -> (r: Self)
        ensures
            r.num_requests() == num_requests,
            r.rounds_sent() == 0,
            r.seen() == Seq::<PeerAddr>::empty(),
    {
        DiscoveryRun { num_requests, rounds_sent: 0, seen: Vec::new() }
    }

    fn has_seen(&self, addr: PeerAddr) -> (r: bool)
        ensures
            r == self.seen().contains(addr),
    {
        let mut i: usize = 0;
        while i < self.seen.len()
            invariant
                i <= self.seen@.len(),
                forall|j: int| 0 <= j < i ==> self.seen@[j] != addr,
            decreases self.seen@.len() - i,
        {
            if self.seen[i] == addr {
                assert(self.seen@[i as int] == addr);
                return true;
            }
            i = i + 1;
        }
        false
    }

    /// The next thing to do after `event`.
    ///
    /// Discovery starts over on `Start` (forgetting the servers reported before) with a
    /// first round of requests, and then sends one more round each time the wait for
    /// answers runs out, until all rounds are sent. An answer from a server not reported
    /// yet is reported; any other answer, or a failed one, only leads to more waiting.
    /// No server is reported twice.
    pub fn step(&mut self, event: DiscoveryEvent) -> (action: DiscoveryAction)
        ensures
            final(self).num_requests() == old(self).num_requests(),
            all_distinct(final(self).seen()),
            match event {
                DiscoveryEvent::Start => {
                    &&& final(self).seen() == Seq::<PeerAddr>::empty()
                    &&& if old(self).num_requests() == 0 {
                        action == DiscoveryAction::Finish && final(self).rounds_sent() == 0
                    } else {
                        action == DiscoveryAction::SendRequests && final(self).rounds_sent() == 1
                    }
                },
                DiscoveryEvent::TimedOut => {
                    &&& final(self).seen() == old(self).seen()
                    &&& if old(self).rounds_sent() < old(self).num_requests() {
                        action == DiscoveryAction::SendRequests && final(self).rounds_sent()
                            == old(self).rounds_sent() + 1
                    } else {
                        action == DiscoveryAction::Finish && final(self).rounds_sent()
                            == old(self).rounds_sent()
                    }
                },
                DiscoveryEvent::Received(addr) => {
                    &&& final(self).rounds_sent() == old(self).rounds_sent()
                    &&& if old(self).seen().contains(addr) {
                        action == DiscoveryAction::Listen && final(self).seen() == old(self).seen()
                    } else {
                        action == DiscoveryAction::Emit(addr) && final(self).seen() == old(
                            self,
                        ).seen().push(addr)
                    }
                },
                DiscoveryEvent::ReceiveFailed => {
                    &&& action == DiscoveryAction::Listen
                    &&& final(self).seen() == old(self).seen()
                    &&& final(self).rounds_sent() == old(self).rounds_sent()
                },
            },
    {
        proof {
            use_type_invariant(&*self);
        }
        match event {
            DiscoveryEvent::Start => {
                self.seen = Vec::new();
                if self.num_requests == 0 {
                    self.rounds_sent = 0;
                    DiscoveryAction::Finish
                } else {
                    self.rounds_sent = 1;
                    DiscoveryAction::SendRequests
                }
            },
            DiscoveryEvent::TimedOut => {
                if self.rounds_sent < self.num_requests {
                    self.rounds_sent = self.rounds_sent + 1;
                    DiscoveryAction::SendRequests
                } else {
                    DiscoveryAction::Finish
                }
            },
            DiscoveryEvent::Received(addr) => {
                if self.has_seen(addr) {
                    DiscoveryAction::Listen
                } else {
                    let mut seen: Vec<PeerAddr> = Vec::new();
                    std::mem::swap(&mut seen, &mut self.seen);
                    seen.push(addr);
                    self.seen = seen;
                    DiscoveryAction::Emit(addr)
                }
            },
            DiscoveryEvent::ReceiveFailed => DiscoveryAction::Listen,
        }
    }
}

/// The broadcast request for an IPv4 network goes, through the interface it was asked for
/// and without multicast, to the IPv4-mapped form (`::ffff:a.b.c.d`) of the network's
/// broadcast address: the address that lies in the same network as the interface's
/// address and has every host bit (every bit outside the netmask) set, whatever the
/// netmask.
pub proof fn lemma_broadcast_target_sets_host_bits(net: Ipv4Info, index: u32)
    ensures
        0xffff_0000_0000u128 <= broadcast_target(net, index).addr < 0x1_0000_0000_0000u128,
        ((broadcast_target(net, index).addr - 0xffff_0000_0000u128) as u32) & net.netmask
            == net.addr & net.netmask,
        ((broadcast_target(net, index).addr - 0xffff_0000_0000u128) as u32) | net.netmask
            == 0xffff_ffffu32,
        broadcast_target(net, index).interface_index == index,
        !broadcast_target(net, index).multicast,
{
    let a = net.addr;
    let m = net.netmask;
    let b = broadcast_of(a, m);
    assert(b & m == a & m) by (bit_vector)
        requires
            b == a | !m,
    ;
    assert(b | m == 0xffff_ffffu32) by (bit_vector)
        requires
            b == a | !m,
    ;
    let t = broadcast_target(net, index);
    assert(t.addr == 0xffff_0000_0000u128 + b as u128);
    assert((t.addr - 0xffff_0000_0000u128) as u32 == b);
    let x = t.addr;
    assert(x >> 120u128 != 0xffu128) by (bit_vector)
        requires
            x < 0x1_0000_0000_0000u128,
    ;
}

/// Discovery over IPv6 goes to the Alpaca multicast group `ff12::a1:9aca` (eight 16-bit
/// groups `ff12, 0, 0, 0, 0, 0, a1, 9aca`), which is a multicast address, on port 32227;
/// a loopback interface is asked at `::1` instead, which is no multicast address.
pub proof fn lemma_discovery_addresses()
    ensures
        DISCOVERY_ADDR_V6 >> 112u128 == 0xff12u128,
        (DISCOVERY_ADDR_V6 >> 32u128) & 0xffff_ffff_ffff_ffff_ffffu128 == 0,
        (DISCOVERY_ADDR_V6 >> 16u128) & 0xffffu128 == 0xa1u128,
        DISCOVERY_ADDR_V6 & 0xffffu128 == 0x9acau128,
        is_multicast_v6(DISCOVERY_ADDR_V6),
        LOCALHOST_V6 == 1,
        !is_multicast_v6(LOCALHOST_V6),
        DEFAULT_DISCOVERY_PORT == 32227,
{
    let a = DISCOVERY_ADDR_V6;
    assert(a >> 112u128 == 0xff12u128 && (a >> 32u128) & 0xffff_ffff_ffff_ffff_ffffu128 == 0
        && (a >> 16u128) & 0xffffu128 == 0xa1u128 && a & 0xffffu128 == 0x9acau128
        && a >> 120u128 == 0xffu128) by (bit_vector)
        requires
            a == 0xff12_0000_0000_0000_0000_0000_00a1_9acau128,
    ;
    let l = LOCALHOST_V6;
    assert(l >> 120u128 != 0xffu128) by (bit_vector)
        requires
            l == 1u128,
    ;
}

} // verus!
