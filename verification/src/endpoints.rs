//! The addresses that the daemon binds, made from ports that the operating
//! system handed out just before the launch.

use crate::text::{decimal, decimal_string, lemma_decimal_injective};
use vstd::prelude::*;
use vstd::string::StringExecFns;

verus! {

/// The address on all interfaces at `port`: `0.0.0.0:` and the port's
/// numeral.
pub open spec fn bind_address_spec(port: u16) -> Seq<char> {
    "0.0.0.0:"@ + decimal(port as nat)
}

/// The address on all interfaces at `port`.
pub fn bind_address(port: u16) -> (address: String)
    ensures
        address@ == bind_address_spec(port),
{
    let mut address = String::from_str("0.0.0.0:");
    let numeral = decimal_string(port);
    address.append(numeral.as_str());
    address
}

/// Different ports give different addresses.
pub proof fn lemma_bind_address_injective(a: u16, b: u16)
    requires
        a != b,
    ensures
        bind_address_spec(a) != bind_address_spec(b),
{
    if bind_address_spec(a) == bind_address_spec(b) {
        let prefix = "0.0.0.0:"@;
        let left = prefix + decimal(a as nat);
        let right = prefix + decimal(b as nat);
        assert(left.subrange(prefix.len() as int, left.len() as int) =~= decimal(a as nat));
        assert(right.subrange(prefix.len() as int, right.len() as int) =~= decimal(b as nat));
        lemma_decimal_injective(a as nat, b as nat);
    }
}

/// The ports of one launch.
#[derive(Debug, Clone, Copy, PartialEq, Eq, Structural)]
pub struct Ports {
    /// Where the Electrum protocol is served.
    pub electrum: u16,
    /// Where the monitoring endpoint is served.
    pub monitoring: u16,
    /// Where HTTP is served, if the daemon serves it.
    pub http: Option<u16>,
}

impl Ports {
    /// The ports as a set.
    pub open spec fn as_set(self) -> Set<u16> {
        match self.http {
            Some(http) => set![self.electrum, self.monitoring, http],
            None => set![self.electrum, self.monitoring],
        }
    }
}

/// The addresses that one daemon binds.
#[derive(Debug, Clone, PartialEq, Eq)]
pub struct EndpointSet {
    /// The address of the Electrum protocol.
    pub electrum_url: String,
    /// The address of the monitoring endpoint.
    pub monitoring_url: String,
    /// The address of the HTTP endpoint, where the daemon serves one.
    pub esplora_url: Option<String>,
}

/// The mathematical content of an [`EndpointSet`].
pub struct EndpointSetView {
    pub electrum_url: Seq<char>,
    pub monitoring_url: Seq<char>,
    pub esplora_url: Option<Seq<char>>,
}

impl EndpointSetView {
    /// The addresses as a set.
    pub open spec fn addresses(self) -> Set<Seq<char>> {
        match self.esplora_url {
            Some(esplora) => set![self.electrum_url, self.monitoring_url, esplora],
            None => set![self.electrum_url, self.monitoring_url],
        }
    }
}

impl View for EndpointSet {
    type V = EndpointSetView;

    open spec fn view(&self) -> EndpointSetView {
        EndpointSetView {
            electrum_url: self.electrum_url@,
            monitoring_url: self.monitoring_url@,
            esplora_url: match self.esplora_url {
                Some(url) => Some(url@),
                None => None,
            },
        }
    }
}

/// The addresses bound at the given ports.
pub open spec fn endpoints_at(ports: Ports) -> EndpointSetView {
    EndpointSetView {
        electrum_url: bind_address_spec(ports.electrum),
        monitoring_url: bind_address_spec(ports.monitoring),
        esplora_url: match ports.http {
            Some(port) => Some(bind_address_spec(port)),
            None => None,
        },
    }
}

impl EndpointSet {
    /// The addresses bound at the given ports.
    pub fn at(ports: Ports) -> (endpoints: EndpointSet)
        ensures
            endpoints@ == endpoints_at(ports),
    {
        EndpointSet {
            electrum_url: bind_address(ports.electrum),
            monitoring_url: bind_address(ports.monitoring),
            esplora_url: match ports.http {
                Some(port) => Some(bind_address(port)),
                None => None,
            },
        }
    }
}

/// Two daemons whose ports differ share no address.
pub proof fn lemma_disjoint_ports_disjoint_endpoints(first: Ports, second: Ports)
    requires
        first.as_set().disjoint(second.as_set()),
    ensures
        endpoints_at(first).addresses().disjoint(endpoints_at(second).addresses()),
{
    let left = endpoints_at(first).addresses();
    let right = endpoints_at(second).addresses();
    assert forall|address: Seq<char>| !(left.contains(address) && right.contains(address)) by {
        if left.contains(address) && right.contains(address) {
            lemma_address_has_port(first, address);
            lemma_address_has_port(second, address);
            let a = choose|a: u16| first.as_set().contains(a) && bind_address_spec(a) == address;
            let b = choose|b: u16| second.as_set().contains(b) && bind_address_spec(b) == address;
            lemma_bind_address_injective(a, b);
        }
    }
}

/// Each address of a daemon belongs to one of its ports.
proof fn lemma_address_has_port(ports: Ports, address: Seq<char>)
    requires
        endpoints_at(ports).addresses().contains(address),
    ensures
        exists|p: u16| ports.as_set().contains(p) && bind_address_spec(p) == address,
{
    if address != bind_address_spec(ports.electrum) && address != bind_address_spec(
        ports.monitoring,
    ) {
        assert(ports.as_set().contains(ports.http->0));
    }
}

} // verus!
