//! The BGP peer descriptor: routing-relevant fields extracted from a
//! peer's generic key/value properties.

use vstd::prelude::*;
use vstd::string::StringSliceAdditionalSpecFns;
use crate::addr::{is_addr_text, Addr};
use crate::text::{bytes_eq, is_uint_text, parse_uint, uint_val};

verus! {

/// Property key holding a peer's BGP endpoint address.
pub open spec fn key_endpoint() -> Seq<u8> {
    "bgp_endpoint".spec_bytes()
}

/// Property key holding a peer's optional BGP endpoint port.
pub open spec fn key_endpoint_port() -> Seq<u8> {
    "bgp_endpoint_port".spec_bytes()
}

/// Property key holding a peer's BGP neighbor AS number.
pub open spec fn key_neighbor_as() -> Seq<u8> {
    "bgp_neighbor_as".spec_bytes()
}

/// First value bound to `key` in an association list, if any.
pub open spec fn lookup_entries(entries: Seq<(Vec<u8>, Vec<u8>)>, key: Seq<u8>) -> Option<Seq<u8>>
    decreases entries.len(),
{
    if entries.len() == 0 {
        None
    } else if entries[0].0@ == key {
        Some(entries[0].1@)
    } else {
        lookup_entries(entries.drop_first(), key)
    }
}

/// A peer's generic properties: string keys bound to string values, as
/// bytes. Keys are expected to be unique; lookup takes the first match.
#[derive(Debug, Clone, PartialEq, Eq)]
pub struct PeerProps {
    pub entries: Vec<(Vec<u8>, Vec<u8>)>,
}

impl PeerProps {
    /// The value bound to `key`, if any.
    pub open spec fn lookup(&self, key: Seq<u8>) -> Option<Seq<u8>> {
        lookup_entries(self.entries@, key)
    }

    pub fn new() -> (r: PeerProps)
        ensures
            r.entries@.len() == 0,
    {
        PeerProps { entries: Vec::new() }
    }

    /// Look up a property by key.
    pub fn get(&self, key: &[u8]) -> (r: Option<&Vec<u8>>)
        ensures
            (match r {
                Some(v) => self.lookup(key@) == Some(v@),
                None => self.lookup(key@) is None,
            }),
    {
        let n = self.entries.len();
        let mut i: usize = 0;
        proof {
            assert(self.entries@.skip(0) =~= self.entries@);
        }
        while i < n
            invariant
                0 <= i <= n,
                n == self.entries@.len(),
                lookup_entries(self.entries@, key@) == lookup_entries(
                    self.entries@.skip(i as int),
                    key@,
                ),
            decreases n - i,
        {
            let e = &self.entries[i];
            let ghost rest = self.entries@.skip(i as int);
            proof {
                assert(rest[0] == self.entries@[i as int]);
                assert(rest.drop_first() =~= self.entries@.skip(i as int + 1));
            }
            if bytes_eq(e.0.as_slice(), key) {
                return Some(&e.1);
            }
            i = i + 1;
        }
        proof {
            assert(self.entries@.skip(n as int).len() == 0);
        }
        None
    }
}

/// Why a descriptor could not be built from a peer's properties.
#[derive(Debug, Clone, Copy, PartialEq, Eq, Structural)]
pub enum ExtractError {
    /// The endpoint-address property is absent.
    EndpointMissing,
    /// The endpoint-address property does not parse as a network address.
    EndpointInvalid,
    /// The endpoint-port property is present but does not parse as an
    /// unsigned 16-bit integer.
    PortInvalid,
    /// The neighbor-AS property is absent.
    AsMissing,
    /// The neighbor-AS property does not parse as an unsigned 32-bit
    /// integer.
    AsInvalid,
}

/// The mathematical image of a successfully extracted descriptor.
pub ghost struct DescSpec {
    pub endpoint: Seq<u8>,
    pub endpoint_port: Option<u16>,
    pub neighbor_as: u32,
}

/// What descriptor extraction yields on a given property map: the
/// endpoint address is required and must satisfy the address grammar;
/// the port is optional but must parse as a `u16` when present; the
/// neighbor AS is required and must parse as a `u32`. The first failing
/// field, in that order, names the error.
pub open spec fn extract_spec(props: PeerProps) -> Result<DescSpec, ExtractError> {
    match props.lookup(key_endpoint()) {
        Option::None => Result::Err(ExtractError::EndpointMissing),
        Option::Some(ep) => {
            if !is_addr_text(ep) {
                Result::Err(ExtractError::EndpointInvalid)
            } else {
                let port_ok = match props.lookup(key_endpoint_port()) {
                    Option::None => true,
                    Option::Some(p) => is_uint_text(p) && uint_val(p) <= 65535,
                };
                if !port_ok {
                    Result::Err(ExtractError::PortInvalid)
                } else {
                    let port = match props.lookup(key_endpoint_port()) {
                        Option::None => Option::None,
                        Option::Some(p) => Option::Some((uint_val(p) as u16)),
                    };
                    match props.lookup(key_neighbor_as()) {
                        Option::None => Result::Err(ExtractError::AsMissing),
                        Option::Some(a) => {
                            if !(is_uint_text(a) && uint_val(a) <= u32::MAX) {
                                Result::Err(ExtractError::AsInvalid)
                            } else {
                                Result::Ok(
                                    DescSpec {
                                        endpoint: ep,
                                        endpoint_port: port,
                                        neighbor_as: uint_val(a) as u32,
                                    },
                                )
                            }
                        },
                    }
                }
            }
        },
    }
}

/// A peer's routing descriptor: endpoint address, optional transport
/// port, and neighbor AS number.
#[derive(Debug, Clone, PartialEq, Eq, Hash)]
pub struct BIRDConfig {
    pub endpoint: Addr,
    pub endpoint_port: Option<u16>,
    pub neighbor_as: u32,
}

impl BIRDConfig {
    /// Whether this descriptor is the image of `props` under extraction.
    pub open spec fn extracted_from(&self, props: PeerProps) -> bool {
        match extract_spec(props) {
            Result::Ok(d) => self.endpoint@ == d.endpoint && self.endpoint.wf()
                && self.endpoint_port == d.endpoint_port && self.neighbor_as == d.neighbor_as,
            Result::Err(_) => false,
        }
    }

    /// Build a descriptor from a peer's properties, or report the first
    /// missing or unparseable required field. Pure: no side effects.
    pub fn new(props: &PeerProps) -> (r: Result<BIRDConfig, ExtractError>)
        ensures
            (match r {
                Result::Ok(c) => c.extracted_from(*props),
                Result::Err(e) => extract_spec(*props) == Result::<DescSpec, ExtractError>::Err(e),
            }),
    {
        let ep = match props.get("bgp_endpoint".as_bytes()) {
            Option::None => {
                return Result::Err(ExtractError::EndpointMissing);
            },
            Option::Some(v) => v,
        };
        let endpoint = match Addr::parse(ep.as_slice()) {
            Option::None => {
                return Result::Err(ExtractError::EndpointInvalid);
            },
            Option::Some(a) => a,
        };
        let endpoint_port: Option<u16> = match props.get("bgp_endpoint_port".as_bytes()) {
            Option::None => Option::None,
            Option::Some(p) => {
                match parse_uint(p.as_slice(), 65535) {
                    Option::None => {
                        return Result::Err(ExtractError::PortInvalid);
                    },
                    Option::Some(v) => Option::Some(v as u16),
                }
            },
        };
        let neighbor_as: u32 = match props.get("bgp_neighbor_as".as_bytes()) {
            Option::None => {
                return Result::Err(ExtractError::AsMissing);
            },
            Option::Some(a) => {
                match parse_uint(a.as_slice(), u32::MAX as u64) {
                    Option::None => {
                        return Result::Err(ExtractError::AsInvalid);
                    },
                    Option::Some(v) => v as u32,
                }
            },
        };
        Result::Ok(BIRDConfig { endpoint, endpoint_port, neighbor_as })
    }
}

} // verus!
