//! Back-end identities and the shared health map.

use vstd::prelude::*;
use vstd::string::StringExecFns;
use crate::adapters::{AdapterState, ProtocolAdapter};

verus! {

/// The back-ends the front-end can route to.
#[derive(Debug, Clone, Copy, PartialEq, Eq, Hash, Structural)]
pub enum Protocol {
    Tor,
    I2p,
    Nym,
    Lokinet,
    Ipfs,
    ZeroNet,
    Freenet,
    GnuNet,
    RetroShare,
    Tribler,
}

/// The lower-case tag by which the control surface names a back-end.
pub open spec fn tag_of(p: Protocol) -> Seq<char> {
    match p {
        Protocol::Tor => "tor"@,
        Protocol::I2p => "i2p"@,
        Protocol::Nym => "nym"@,
        Protocol::Lokinet => "lokinet"@,
        Protocol::Ipfs => "ipfs"@,
        Protocol::ZeroNet => "zeronet"@,
        Protocol::Freenet => "freenet"@,
        Protocol::GnuNet => "gnunet"@,
        Protocol::RetroShare => "retroshare"@,
        Protocol::Tribler => "tribler"@,
    }
}

/// The back-end that `tag` names, if it names one.
pub open spec fn protocol_of_tag(tag: Seq<char>) -> Option<Protocol> {
    if tag == "tor"@ {
        Some(Protocol::Tor)
    } else if tag == "i2p"@ {
        Some(Protocol::I2p)
    } else if tag == "nym"@ {
        Some(Protocol::Nym)
    } else if tag == "lokinet"@ {
        Some(Protocol::Lokinet)
    } else if tag == "ipfs"@ {
        Some(Protocol::Ipfs)
    } else if tag == "zeronet"@ {
        Some(Protocol::ZeroNet)
    } else if tag == "freenet"@ {
        Some(Protocol::Freenet)
    } else if tag == "retroshare"@ {
        Some(Protocol::RetroShare)
    } else if tag == "gnunet"@ {
        Some(Protocol::GnuNet)
    } else if tag == "tribler"@ {
        Some(Protocol::Tribler)
    } else {
        None
    }
}

/// All ten back-ends, in the order in which status reports list them.
pub open spec fn all_protocols() -> Seq<Protocol> {
    seq![
        Protocol::Tor,
        Protocol::I2p,
        Protocol::Nym,
        Protocol::Lokinet,
        Protocol::Ipfs,
        Protocol::ZeroNet,
        Protocol::Freenet,
        Protocol::GnuNet,
        Protocol::RetroShare,
        Protocol::Tribler,
    ]
}

fn same_text(a: &str, b: &str) -> (r: bool)
    ensures
        r == (a@ == b@),
{
    let x = String::from_str(a);
    let y = String::from_str(b);
    x == y
}

impl Protocol {
    /// The tag of this back-end.
    pub fn tag(self) -> (r: &'static str)
        ensures
            r@ == tag_of(self),
    {
        match self {
            Protocol::Tor => "tor",
            Protocol::I2p => "i2p",
            Protocol::Nym => "nym",
            Protocol::Lokinet => "lokinet",
            Protocol::Ipfs => "ipfs",
            Protocol::ZeroNet => "zeronet",
            Protocol::Freenet => "freenet",
            Protocol::GnuNet => "gnunet",
            Protocol::RetroShare => "retroshare",
            Protocol::Tribler => "tribler",
        }
    }

    /// Reads a tag. Tags are matched exactly; anything else names no back-end.
    pub fn from_tag(tag: &str) -> (r: Option<Protocol>)
        ensures
            r == protocol_of_tag(tag@),
    {
        if same_text(tag, "tor") {
            Some(Protocol::Tor)
        } else if same_text(tag, "i2p") {
            Some(Protocol::I2p)
        } else if same_text(tag, "nym") {
            Some(Protocol::Nym)
        } else if same_text(tag, "lokinet") {
            Some(Protocol::Lokinet)
        } else if same_text(tag, "ipfs") {
            Some(Protocol::Ipfs)
        } else if same_text(tag, "zeronet") {
            Some(Protocol::ZeroNet)
        } else if same_text(tag, "freenet") {
            Some(Protocol::Freenet)
        } else if same_text(tag, "retroshare") {
            Some(Protocol::RetroShare)
        } else if same_text(tag, "gnunet") {
            Some(Protocol::GnuNet)
        } else if same_text(tag, "tribler") {
            Some(Protocol::Tribler)
        } else {
            None
        }
    }

    /// All ten back-ends in report order.
    pub fn all() -> (r: Vec<Protocol>)
        ensures
            r@ == all_protocols(),
    {
        let r = vec![
            Protocol::Tor,
            Protocol::I2p,
            Protocol::Nym,
            Protocol::Lokinet,
            Protocol::Ipfs,
            Protocol::ZeroNet,
            Protocol::Freenet,
            Protocol::GnuNet,
            Protocol::RetroShare,
            Protocol::Tribler,
        ];
        assert(r@ =~= all_protocols());
        r
    }
}

/// Every tag reads back as the back-end it was taken from.
pub proof fn tag_round_trip(p: Protocol)
    ensures
        protocol_of_tag(tag_of(p)) == Some(p),
{
    reveal_strlit("tor");
    reveal_strlit("i2p");
    reveal_strlit("nym");
    reveal_strlit("lokinet");
    reveal_strlit("ipfs");
    reveal_strlit("zeronet");
    reveal_strlit("freenet");
    reveal_strlit("gnunet");
    reveal_strlit("retroshare");
    reveal_strlit("tribler");
    let t = tag_of(p);
    match p {
        Protocol::Tor => {},
        Protocol::I2p => {
            assert(t[0] == 'i');
        },
        Protocol::Nym => {
            assert(t[0] == 'n');
        },
        Protocol::Lokinet => {
            assert(t[0] == 'l');
        },
        Protocol::Ipfs => {
            assert(t[0] == 'i' && t[1] == 'p');
        },
        Protocol::ZeroNet => {
            assert(t[0] == 'z');
        },
        Protocol::Freenet => {
            assert(t[0] == 'f');
        },
        Protocol::GnuNet => {
            assert(t[0] == 'g');
        },
        Protocol::RetroShare => {
            assert(t[0] == 'r');
        },
        Protocol::Tribler => {
            assert(t[0] == 't' && t[1] == 'r');
        },
    }
}

/// One value of type `T` for each back-end.
pub struct PerProtocol<T> {
    pub tor: T,
    pub i2p: T,
    pub nym: T,
    pub lokinet: T,
    pub ipfs: T,
    pub zeronet: T,
    pub freenet: T,
    pub gnunet: T,
    pub retroshare: T,
    pub tribler: T,
}

impl<T> PerProtocol<T> {
    /// The value held for `p`.
    pub open spec fn at(self, p: Protocol) -> T {
        match p {
            Protocol::Tor => self.tor,
            Protocol::I2p => self.i2p,
            Protocol::Nym => self.nym,
            Protocol::Lokinet => self.lokinet,
            Protocol::Ipfs => self.ipfs,
            Protocol::ZeroNet => self.zeronet,
            Protocol::Freenet => self.freenet,
            Protocol::GnuNet => self.gnunet,
            Protocol::RetroShare => self.retroshare,
            Protocol::Tribler => self.tribler,
        }
    }

    /// Borrows the value held for `p`.
    pub fn get(&self, p: Protocol) -> (r: &T)
        ensures
            *r == self.at(p),
    {
        match p {
            Protocol::Tor => &self.tor,
            Protocol::I2p => &self.i2p,
            Protocol::Nym => &self.nym,
            Protocol::Lokinet => &self.lokinet,
            Protocol::Ipfs => &self.ipfs,
            Protocol::ZeroNet => &self.zeronet,
            Protocol::Freenet => &self.freenet,
            Protocol::GnuNet => &self.gnunet,
            Protocol::RetroShare => &self.retroshare,
            Protocol::Tribler => &self.tribler,
        }
    }

    /// Replaces the value held for `p` and leaves the others alone.
    pub fn set(&mut self, p: Protocol, value: T)
        ensures
            final(self).at(p) == value,
            forall|q: Protocol| q != p ==> final(self).at(q) == old(self).at(q),
    {
        match p {
            Protocol::Tor => {
                self.tor = value;
            },
            Protocol::I2p => {
                self.i2p = value;
            },
            Protocol::Nym => {
                self.nym = value;
            },
            Protocol::Lokinet => {
                self.lokinet = value;
            },
            Protocol::Ipfs => {
                self.ipfs = value;
            },
            Protocol::ZeroNet => {
                self.zeronet = value;
            },
            Protocol::Freenet => {
                self.freenet = value;
            },
            Protocol::GnuNet => {
                self.gnunet = value;
            },
            Protocol::RetroShare => {
                self.retroshare = value;
            },
            Protocol::Tribler => {
                self.tribler = value;
            },
        }
    }
}

/// A set of back-ends.
pub struct ProtocolSet {
    members: PerProtocol<bool>,
}

impl View for ProtocolSet {
    type V = Set<Protocol>;

    closed spec fn view(&self) -> Set<Protocol> {
        Set::new(|p: Protocol| self.members.at(p))
    }
}

impl ProtocolSet {
    /// The empty set.
    pub fn new() -> (r: ProtocolSet)
        ensures
            r@ == Set::<Protocol>::empty(),
    {
        let r = ProtocolSet {
            members: PerProtocol {
                tor: false,
                i2p: false,
                nym: false,
                lokinet: false,
                ipfs: false,
                zeronet: false,
                freenet: false,
                gnunet: false,
                retroshare: false,
                tribler: false,
            },
        };
        assert(r@ =~= Set::<Protocol>::empty());
        r
    }

    /// Adds `p`; returns whether it was new.
    pub fn insert(&mut self, p: Protocol) -> (fresh: bool)
        ensures
            final(self)@ == old(self)@.insert(p),
            fresh == !old(self)@.contains(p),
    {
        let fresh = !*self.members.get(p);
        self.members.set(p, true);
        assert(self@ =~= old(self)@.insert(p));
        fresh
    }

    /// Whether `p` is in the set.
    pub fn contains(&self, p: Protocol) -> (r: bool)
        ensures
            r == self@.contains(p),
    {
        *self.members.get(p)
    }

    /// Reads a list of tags into a set. Tags that name no back-end are
    /// passed over.
    pub fn from_tags(tags: &Vec<String>) -> (r: ProtocolSet)
        ensures
            r@ == tagged(tags@, tags@.len() as int),
    {
        let mut r = ProtocolSet::new();
        let mut i: usize = 0;
        while i < tags.len()
            invariant
                i <= tags.len(),
                r@ == tagged(tags@, i as int),
            decreases tags.len() - i,
        {
            match Protocol::from_tag(tags[i].as_str()) {
                Some(p) => {
                    r.insert(p);
                },
                None => {},
            }
            i = i + 1;
        }
        r
    }
}

/// The back-ends named by the first `n` of `tags`.
pub open spec fn tagged(tags: Seq<String>, n: int) -> Set<Protocol>
    decreases n,
{
    if n <= 0 {
        Set::empty()
    } else {
        match protocol_of_tag(tags[n - 1]@) {
            Some(p) => tagged(tags, n - 1).insert(p),
            None => tagged(tags, n - 1),
        }
    }
}

/// A back-end is selected by a list of tags exactly when one of the tags
/// names it.
pub proof fn tagged_membership(tags: Seq<String>, n: int, p: Protocol)
    requires
        0 <= n <= tags.len(),
    ensures
        tagged(tags, n).contains(p) <==> exists|i: int|
            0 <= i < n && protocol_of_tag(#[trigger] tags[i]@) == Some(p),
    decreases n,
{
    if n > 0 {
        tagged_membership(tags, n - 1, p);
        if tagged(tags, n).contains(p) {
            if protocol_of_tag(tags[n - 1]@) == Some(p) {
            } else {
                assert(tagged(tags, n - 1).contains(p));
                let i = choose|i: int|
                    0 <= i < n - 1 && protocol_of_tag(#[trigger] tags[i]@) == Some(p);
                assert(0 <= i < n && protocol_of_tag(tags[i]@) == Some(p));
            }
        }
        if exists|i: int| 0 <= i < n && protocol_of_tag(#[trigger] tags[i]@) == Some(p) {
            let i = choose|i: int| 0 <= i < n && protocol_of_tag(#[trigger] tags[i]@) == Some(p);
            if i < n - 1 {
                assert(tagged(tags, n - 1).contains(p));
            }
        }
    }
}

/// The shared health map: for each back-end that has an entry, whether its
/// adapter was healthy when it was last asked.
pub struct HealthState {
    entries: PerProtocol<Option<bool>>,
}

impl View for HealthState {
    type V = Map<Protocol, bool>;

    closed spec fn view(&self) -> Map<Protocol, bool> {
        Map::new(
            |p: Protocol| self.entries.at(p) is Some,
            |p: Protocol| self.entries.at(p)->Some_0,
        )
    }
}

/// What a map says of a back-end: its entry, and `false` where it has
/// none.
pub open spec fn reported(health: Map<Protocol, bool>, p: Protocol) -> bool {
    health.dom().contains(p) && health[p]
}

/// How the health of a back-end moved between two probes.
#[derive(Debug, Clone, Copy, PartialEq, Eq, Structural)]
pub enum HealthChange {
    /// As before.
    Steady,
    /// From unhealthy to healthy; worth a note at debug level.
    Recovered,
    /// From healthy to unhealthy; worth a warning.
    Lost,
}

/// The change from `before` to `now`.
pub open spec fn change_between(before: bool, now: bool) -> HealthChange {
    if before == now {
        HealthChange::Steady
    } else if now {
        HealthChange::Recovered
    } else {
        HealthChange::Lost
    }
}

impl HealthState {
    /// The entry of `p`, if it has one.
    pub fn get(&self, p: Protocol) -> (r: Option<bool>)
        ensures
            r == if self@.dom().contains(p) {
                Some(self@[p])
            } else {
                None
            },
    {
        *self.entries.get(p)
    }

    /// Whether `p` was healthy when last asked; `false` without an entry.
    pub fn is_healthy(&self, p: Protocol) -> (r: bool)
        ensures
            r == reported(self@, p),
    {
        match self.entries.get(p) {
            Some(h) => *h,
            None => false,
        }
    }

    /// Writes the entry of `p`; returns how it moved.
    pub fn record(&mut self, p: Protocol, healthy: bool) -> (change: HealthChange)
        ensures
            final(self)@ == old(self)@.insert(p, healthy),
            change == change_between(reported(old(self)@, p), healthy),
    {
        let before = self.is_healthy(p);
        self.entries.set(p, Some(healthy));
        assert(self@ =~= old(self)@.insert(p, healthy));
        if before == healthy {
            HealthChange::Steady
        } else if healthy {
            HealthChange::Recovered
        } else {
            HealthChange::Lost
        }
    }

    /// Removes every entry.
    pub fn clear(&mut self)
        ensures
            final(self)@ == Map::<Protocol, bool>::empty(),
    {
        self.entries = PerProtocol {
            tor: None,
            i2p: None,
            nym: None,
            lokinet: None,
            ipfs: None,
            zeronet: None,
            freenet: None,
            gnunet: None,
            retroshare: None,
            tribler: None,
        };
        assert(self@ =~= Map::<Protocol, bool>::empty());
    }
}

/// A health map in which every back-end has an entry and none is healthy.
pub fn new_health_state() -> (r: HealthState)
    ensures
        r@ == Map::<Protocol, bool>::total(|p: Protocol| false),
{
    let r = HealthState {
        entries: PerProtocol {
            tor: Some(false),
            i2p: Some(false),
            nym: Some(false),
            lokinet: Some(false),
            ipfs: Some(false),
            zeronet: Some(false),
            freenet: Some(false),
            gnunet: Some(false),
            retroshare: Some(false),
            tribler: Some(false),
        },
    };
    assert(r@ =~= Map::<Protocol, bool>::total(|p: Protocol| false));
    r
}

/// One tick of the health monitor of `protocol`: asks the adapter, writes
/// the answer into the map and tells how the entry moved. The embedding
/// program calls this once per probe interval.
pub fn run_health_monitor<T: ProtocolAdapter>(
    protocol: Protocol,
    adapter: &T,
    state: &mut HealthState,
) -> (change: HealthChange)
    ensures
        final(state)@ == old(state)@.insert(protocol, adapter.state() == AdapterState::Running),
        change == change_between(
            reported(old(state)@, protocol),
            adapter.state() == AdapterState::Running,
        ),
{
    let healthy = adapter.is_healthy();
    state.record(protocol, healthy)
}

/// The map after a run of probes, each a back-end and what its adapter
/// answered, written into `start` in order.
pub open spec fn after_probes(start: Map<Protocol, bool>, probes: Seq<(Protocol, bool)>) -> Map<
    Protocol,
    bool,
>
    decreases probes.len(),
{
    if probes.len() == 0 {
        start
    } else {
        after_probes(start, probes.drop_last()).insert(probes.last().0, probes.last().1)
    }
}

/// `i` is the place of the latest probe of `p` in `probes`.
pub open spec fn latest_probe(probes: Seq<(Protocol, bool)>, p: Protocol, i: int) -> bool {
    &&& 0 <= i < probes.len()
    &&& probes[i].0 == p
    &&& forall|j: int| i < j < probes.len() ==> (#[trigger] probes[j]).0 != p
}

/// After any run of probes the map holds, for each back-end that was
/// probed, the answer of its latest probe; every other entry is as it was.
pub proof fn map_holds_latest_answers(
    start: Map<Protocol, bool>,
    probes: Seq<(Protocol, bool)>,
    p: Protocol,
)
    ensures
        forall|i: int|
            latest_probe(probes, p, i) ==> reported(after_probes(start, probes), p)
                == (#[trigger] probes[i]).1,
        (forall|j: int| 0 <= j < probes.len() ==> (#[trigger] probes[j]).0 != p) ==> reported(
            after_probes(start, probes),
            p,
        ) == reported(start, p),
    decreases probes.len(),
{
    if probes.len() > 0 {
        let front = probes.drop_last();
        map_holds_latest_answers(start, front, p);
        if probes.last().0 == p {
            assert forall|i: int| latest_probe(probes, p, i) implies reported(
                after_probes(start, probes),
                p,
            ) == (#[trigger] probes[i]).1 by {
                if i < probes.len() - 1 {
                    assert(probes[probes.len() - 1].0 != p);
                }
            }
            assert(probes[probes.len() - 1].0 == p);
        } else {
            assert forall|i: int| latest_probe(probes, p, i) implies reported(
                after_probes(start, probes),
                p,
            ) == (#[trigger] probes[i]).1 by {
                assert(i < probes.len() - 1);
                assert(front[i] == probes[i]);
                assert forall|j: int| i < j < front.len() implies (#[trigger] front[j]).0
                    != p by {
                    assert(front[j] == probes[j]);
                }
                assert(latest_probe(front, p, i));
            }
            if forall|j: int| 0 <= j < probes.len() ==> (#[trigger] probes[j]).0 != p {
                assert forall|j: int| 0 <= j < front.len() implies (#[trigger] front[j]).0
                    != p by {
                    assert(front[j] == probes[j]);
                }
            }
        }
    }
}

/// A back-end is reported healthy only if its adapter answered `true` the
/// last time it was asked: starting from a map in which nothing is healthy,
/// a healthy entry after any run of probes has a latest probe, and that
/// probe's answer was `true`.
pub proof fn healthy_means_latest_probe_was_healthy(
    start: Map<Protocol, bool>,
    probes: Seq<(Protocol, bool)>,
    p: Protocol,
)
    requires
        !reported(start, p),
        reported(after_probes(start, probes), p),
    ensures
        exists|i: int| latest_probe(probes, p, i) && (#[trigger] probes[i]).1,
    decreases probes.len(),
{
    if probes.len() == 0 {
    } else {
        let front = probes.drop_last();
        let last = probes.len() - 1;
        if probes.last().0 == p {
            assert(latest_probe(probes, p, last));
            assert(probes[last].1);
        } else {
            assert(reported(after_probes(start, front), p));
            healthy_means_latest_probe_was_healthy(start, front, p);
            let i = choose|i: int| latest_probe(front, p, i) && (#[trigger] front[i]).1;
            assert(front[i] == probes[i]);
            assert forall|j: int| i < j < probes.len() implies (#[trigger] probes[j]).0 != p by {
                if j < last {
                    assert(front[j] == probes[j]);
                }
            }
            assert(latest_probe(probes, p, i) && probes[i].1);
        }
    }
}

} // verus!
