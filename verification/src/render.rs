//! The configuration renderer: walks a snapshot of the zone/peer roster
//! and produces the routing daemon's configuration text, or signals that
//! rendering must be deferred because a zone's peer collection was
//! locked, or fails on the first peer whose required properties do not
//! extract.

use vstd::prelude::*;
use vstd::string::StringSliceAdditionalSpecFns;
use crate::bird::{extract_spec, BIRDConfig, ExtractError, PeerProps};
use crate::text::{dec_digits, push_dec};

verus! {

/// The generator header comment: always the first line of the artifact.
pub open spec fn header() -> Seq<u8> {
    "# generated by peerd".spec_bytes()
}

/// Zone-level routing settings: the prefix put before each peer's name
/// and the template a peer's protocol statement derives from.
#[derive(Debug, Clone)]
pub struct ZoneBirdConf {
    pub protocol_prefix: Vec<u8>,
    pub bgp_template: Vec<u8>,
}

/// Which routing-protocol variant a peer's route holds. Only the BGP
/// variant contributes to the rendered configuration.
#[derive(Debug, Clone, Copy, PartialEq, Eq, Structural)]
pub enum RouteKind {
    Bird,
    Other,
}

/// One peer as the renderer sees it: its name, which route variant it
/// carries, its raw properties, and the tunnel interface name if it
/// could be resolved at snapshot time (best effort; `None` is not an
/// error and merely omits the interface clause).
#[derive(Debug, Clone)]
pub struct Peer {
    pub name: Vec<u8>,
    pub route: RouteKind,
    pub props: PeerProps,
    pub ifname: Option<Vec<u8>>,
}

/// The outcome of the non-blocking probe of a zone's peer collection:
/// either the peers as they stood, or the collection was held by a
/// concurrent operation.
#[derive(Debug, Clone)]
pub enum PeersProbe {
    Available(Vec<Peer>),
    Locked,
}

/// One zone as the renderer sees it: its routing settings, if routing
/// is enabled for the zone, and the probe of its peer collection.
#[derive(Debug, Clone)]
pub struct ZoneSnapshot {
    pub bird: Option<ZoneBirdConf>,
    pub peers: PeersProbe,
}

/// The optional port clause of a neighbor statement.
pub open spec fn port_clause(port: Option<u16>) -> Seq<u8> {
    match port {
        Option::None => Seq::empty(),
        Option::Some(p) => " port ".spec_bytes() + dec_digits(p as nat) + " ".spec_bytes(),
    }
}

/// The optional interface-binding clause of a protocol statement.
pub open spec fn iface_clause(ifname: Option<Seq<u8>>) -> Seq<u8> {
    match ifname {
        Option::None => Seq::empty(),
        Option::Some(n) => "interface '".spec_bytes() + n + "';".spec_bytes(),
    }
}

/// One protocol statement line (without the joining newline).
pub open spec fn line_text(
    prefix: Seq<u8>,
    name: Seq<u8>,
    template: Seq<u8>,
    endpoint: Seq<u8>,
    port: Option<u16>,
    neighbor_as: u32,
    ifname: Option<Seq<u8>>,
) -> Seq<u8> {
    "protocol bgp ".spec_bytes() + prefix + name + " from ".spec_bytes() + template
        + " { neighbor ".spec_bytes() + endpoint + " ".spec_bytes() + port_clause(port)
        + " as ".spec_bytes() + dec_digits(neighbor_as as nat) + "; ".spec_bytes() + iface_clause(
        ifname,
    ) + " };".spec_bytes()
}

/// The view of an optional byte string.
pub open spec fn opt_bytes(o: Option<Vec<u8>>) -> Option<Seq<u8>> {
    match o {
        Option::None => Option::None,
        Option::Some(v) => Option::Some(v@),
    }
}

/// The newline-prefixed lines contributed by a zone's peers, in roster
/// order: one line per peer whose route is the BGP variant, built from
/// the descriptor extracted from the peer's current properties; the
/// first peer whose extraction fails aborts the whole render with its
/// error; peers with other route variants contribute nothing.
pub open spec fn peers_lines(zc: ZoneBirdConf, peers: Seq<Peer>) -> Result<Seq<u8>, ExtractError>
    decreases peers.len(),
{
    if peers.len() == 0 {
        Result::Ok(Seq::empty())
    } else {
        let p = peers[0];
        match p.route {
            RouteKind::Other => peers_lines(zc, peers.drop_first()),
            RouteKind::Bird => match extract_spec(p.props) {
                Result::Err(e) => Result::Err(e),
                Result::Ok(d) => match peers_lines(zc, peers.drop_first()) {
                    Result::Err(e) => Result::Err(e),
                    Result::Ok(rest) => Result::Ok(
                        "\n".spec_bytes() + line_text(
                            zc.protocol_prefix@,
                            p.name@,
                            zc.bgp_template@,
                            d.endpoint,
                            d.endpoint_port,
                            d.neighbor_as,
                            opt_bytes(p.ifname),
                        ) + rest,
                    ),
                },
            },
        }
    }
}

/// What a render of a roster yields, at the mathematical level.
pub ghost enum RosterRender {
    Text(Seq<u8>),
    Defer,
    Fail(ExtractError),
}

/// The body (everything after the header) contributed by the zones, in
/// roster order: a zone with routing disabled contributes nothing; the
/// first zone whose peer collection was locked defers the whole render;
/// the first failing peer fails it.
pub open spec fn zones_render(zones: Seq<ZoneSnapshot>) -> RosterRender
    decreases zones.len(),
{
    if zones.len() == 0 {
        RosterRender::Text(Seq::empty())
    } else {
        let z = zones[0];
        match z.bird {
            Option::None => zones_render(zones.drop_first()),
            Option::Some(zc) => match z.peers {
                PeersProbe::Locked => RosterRender::Defer,
                PeersProbe::Available(ps) => match peers_lines(zc, ps@) {
                    Result::Err(e) => RosterRender::Fail(e),
                    Result::Ok(t) => match zones_render(zones.drop_first()) {
                        RosterRender::Text(rest) => RosterRender::Text(t + rest),
                        RosterRender::Defer => RosterRender::Defer,
                        RosterRender::Fail(e) => RosterRender::Fail(e),
                    },
                },
            },
        }
    }
}

/// The full render of a roster: the header followed by every zone's
/// lines, or a deferral, or the first extraction error.
pub open spec fn render_spec(zones: Seq<ZoneSnapshot>) -> RosterRender {
    match zones_render(zones) {
        RosterRender::Text(t) => RosterRender::Text(header() + t),
        RosterRender::Defer => RosterRender::Defer,
        RosterRender::Fail(e) => RosterRender::Fail(e),
    }
}

/// The renderer's executable outcome.
#[derive(Debug)]
pub enum RenderOutcome {
    /// The full artifact, ready to be written wholesale.
    Rendered(Vec<u8>),
    /// A zone's peer collection was locked: write nothing, retry later.
    Deferred,
    /// A peer's required properties were missing or unparseable.
    Failed(ExtractError),
}

/// The mathematical value of an executable outcome.
pub open spec fn outcome_abs(r: RenderOutcome) -> RosterRender {
    match r {
        RenderOutcome::Rendered(v) => RosterRender::Text(v@),
        RenderOutcome::Deferred => RosterRender::Defer,
        RenderOutcome::Failed(e) => RosterRender::Fail(e),
    }
}

/// A zone the renderer passes through without deferring or failing:
/// either routing is disabled for it, or its peers were available and
/// every eligible peer's properties extract.
pub open spec fn zone_clean(z: ZoneSnapshot) -> bool {
    match z.bird {
        Option::None => true,
        Option::Some(zc) => match z.peers {
            PeersProbe::Available(ps) => peers_lines(zc, ps@) is Ok,
            PeersProbe::Locked => false,
        },
    }
}

/// Contention deferral: if some routing-enabled zone's peer collection
/// was locked, and every zone before it in roster order passes cleanly,
/// the whole render defers — nothing is written.
pub proof fn lemma_contention_defers(zones: Seq<ZoneSnapshot>, i: int)
    requires
        0 <= i < zones.len(),
        forall|j: int| 0 <= j < i ==> zone_clean(#[trigger] zones[j]),
        zones[i].bird is Some,
        zones[i].peers is Locked,
    ensures
        render_spec(zones) is Defer,
    decreases i,
{
    if i == 0 {
        assert(zones_render(zones) is Defer);
    } else {
        let rest = zones.drop_first();
        assert(zone_clean(zones[0]));
        assert forall|j: int| 0 <= j < i - 1 implies zone_clean(#[trigger] rest[j]) by {
            assert(rest[j] == zones[j + 1]);
        }
        assert(rest[i - 1] == zones[i]);
        lemma_contention_defers(rest, i - 1);
        assert(zones_render(rest) is Defer);
        assert(zones_render(zones) is Defer);
    }
}

/// Rendering idempotence: the renderer is a pure function of the roster
/// snapshot, so two renders of an unchanged roster agree — and when they
/// produce an artifact, the artifacts are byte-identical.
pub proof fn lemma_render_deterministic(
    zones: Seq<ZoneSnapshot>,
    r1: RenderOutcome,
    r2: RenderOutcome,
)
    requires
        outcome_abs(r1) == render_spec(zones),
        outcome_abs(r2) == render_spec(zones),
    ensures
        r1 is Rendered <==> r2 is Rendered,
        r1 is Deferred <==> r2 is Deferred,
        (r1 is Rendered && r2 is Rendered) ==> r1->Rendered_0@ == r2->Rendered_0@,
        (r1 is Failed && r2 is Failed) ==> r1->Failed_0 == r2->Failed_0,
{
}

/// Append one protocol statement line, preceded by its joining newline.
#[verifier::rlimit(60)]
fn push_line(
    out: &mut Vec<u8>,
    zc: &ZoneBirdConf,
    name: &Vec<u8>,
    c: &BIRDConfig,
    ifname: &Option<Vec<u8>>,
)
    ensures
        final(out)@ == old(out)@ + "\n".spec_bytes() + line_text(
            zc.protocol_prefix@,
            name@,
            zc.bgp_template@,
            c.endpoint@,
            c.endpoint_port,
            c.neighbor_as,
            opt_bytes(*ifname),
        ),
{
    out.extend_from_slice("\n".as_bytes());
    out.extend_from_slice("protocol bgp ".as_bytes());
    out.extend_from_slice(zc.protocol_prefix.as_slice());
    out.extend_from_slice(name.as_slice());
    out.extend_from_slice(" from ".as_bytes());
    out.extend_from_slice(zc.bgp_template.as_slice());
    out.extend_from_slice(" { neighbor ".as_bytes());
    out.extend_from_slice(c.endpoint.bytes());
    out.extend_from_slice(" ".as_bytes());
    match c.endpoint_port {
        Option::Some(p) => {
            out.extend_from_slice(" port ".as_bytes());
            push_dec(out, p as u64);
            out.extend_from_slice(" ".as_bytes());
        },
        Option::None => {},
    }
    proof {
        assert(out@ =~= old(out)@ + "\n".spec_bytes() + ("protocol bgp ".spec_bytes()
            + zc.protocol_prefix@ + name@ + " from ".spec_bytes() + zc.bgp_template@
            + " { neighbor ".spec_bytes() + c.endpoint@ + " ".spec_bytes() + port_clause(
            c.endpoint_port,
        )));
    }
    out.extend_from_slice(" as ".as_bytes());
    push_dec(out, c.neighbor_as as u64);
    out.extend_from_slice("; ".as_bytes());
    match ifname {
        Option::Some(n) => {
            out.extend_from_slice("interface '".as_bytes());
            out.extend_from_slice(n.as_slice());
            out.extend_from_slice("';".as_bytes());
        },
        Option::None => {},
    }
    out.extend_from_slice(" };".as_bytes());
    proof {
        assert(out@ =~= old(out)@ + "\n".spec_bytes() + line_text(
            zc.protocol_prefix@,
            name@,
            zc.bgp_template@,
            c.endpoint@,
            c.endpoint_port,
            c.neighbor_as,
            opt_bytes(*ifname),
        ));
    }
}

/// Render the full configuration text from a roster snapshot: the
/// header line, then one protocol statement per eligible peer of every
/// routing-enabled zone, newline-joined. A locked zone defers the whole
/// render; a failing peer aborts it with the extraction error.
pub fn render_roster(zones: &Vec<ZoneSnapshot>) -> (r: RenderOutcome)
    ensures
        outcome_abs(r) == render_spec(zones@),
{
    let mut out: Vec<u8> = Vec::new();
    out.extend_from_slice("# generated by peerd".as_bytes());
    let ghost mut acc: Seq<u8> = Seq::empty();
    proof {
        assert(out@ =~= header() + acc);
        assert(zones@.skip(0) =~= zones@);
    }
    let n = zones.len();
    let mut i: usize = 0;
    while i < n
        invariant
            0 <= i <= n,
            n == zones@.len(),
            out@ == header() + acc,
            (match zones_render(zones@.skip(i as int)) {
                RosterRender::Text(rest) => zones_render(zones@) == RosterRender::Text(acc + rest),
                RosterRender::Defer => zones_render(zones@) == RosterRender::Defer,
                RosterRender::Fail(e) => zones_render(zones@) == RosterRender::Fail(e),
            }),
        decreases n - i,
    {
        let ghost zrest = zones@.skip(i as int);
        proof {
            assert(zrest[0] == zones@[i as int]);
            assert(zrest.drop_first() =~= zones@.skip(i as int + 1));
        }
        let z = &zones[i];
        match &z.bird {
            Option::None => {},
            Option::Some(zc) => {
                match &z.peers {
                    PeersProbe::Locked => {
                        return RenderOutcome::Deferred;
                    },
                    PeersProbe::Available(ps) => {
                        let ghost zacc_base = acc;
                        let ghost mut zlines: Seq<u8> = Seq::empty();
                        let m = ps.len();
                        let mut j: usize = 0;
                        proof {
                            assert(ps@.skip(0) =~= ps@);
                            assert(zlines + Seq::<u8>::empty() =~= zlines);
                        }
                        while j < m
                            invariant
                                0 <= j <= m,
                                m == ps@.len(),
                                acc == zacc_base + zlines,
                                out@ == header() + acc,
                                zones@.skip(i as int)[0] == zones@[i as int],
                                0 <= i < zones@.len(),
                                zones@[i as int].bird == Option::Some(*zc),
                                zones@[i as int].peers == PeersProbe::Available(*ps),
                                (match peers_lines(*zc, ps@.skip(j as int)) {
                                    Result::Ok(rest) => peers_lines(*zc, ps@) == Result::<
                                        Seq<u8>,
                                        ExtractError,
                                    >::Ok(zlines + rest),
                                    Result::Err(e) => peers_lines(*zc, ps@) == Result::<
                                        Seq<u8>,
                                        ExtractError,
                                    >::Err(e),
                                }),
                                (match zones_render(zones@.skip(i as int)) {
                                    RosterRender::Text(rest) => zones_render(zones@)
                                        == RosterRender::Text(zacc_base + rest),
                                    RosterRender::Defer => zones_render(zones@)
                                        == RosterRender::Defer,
                                    RosterRender::Fail(e) => zones_render(zones@)
                                        == RosterRender::Fail(e),
                                }),
                            decreases m - j,
                        {
                            let ghost prest = ps@.skip(j as int);
                            proof {
                                assert(prest[0] == ps@[j as int]);
                                assert(prest.drop_first() =~= ps@.skip(j as int + 1));
                            }
                            let p = &ps[j];
                            match p.route {
                                RouteKind::Other => {},
                                RouteKind::Bird => {
                                    match BIRDConfig::new(&p.props) {
                                        Result::Err(e) => {
                                            proof {
                                                assert(peers_lines(*zc, prest) == Result::<
                                                    Seq<u8>,
                                                    ExtractError,
                                                >::Err(e));
                                                assert(zones_render(zones@.skip(i as int))
                                                    == RosterRender::Fail(e));
                                            }
                                            return RenderOutcome::Failed(e);
                                        },
                                        Result::Ok(c) => {
                                            let ghost line = line_text(
                                                zc.protocol_prefix@,
                                                p.name@,
                                                zc.bgp_template@,
                                                c.endpoint@,
                                                c.endpoint_port,
                                                c.neighbor_as,
                                                opt_bytes(p.ifname),
                                            );
                                            push_line(&mut out, zc, &p.name, &c, &p.ifname);
                                            proof {
                                                let d = extract_spec(p.props)->Ok_0;
                                                assert(line == line_text(
                                                    zc.protocol_prefix@,
                                                    p.name@,
                                                    zc.bgp_template@,
                                                    d.endpoint,
                                                    d.endpoint_port,
                                                    d.neighbor_as,
                                                    opt_bytes(p.ifname),
                                                ));
                                                let prev = zlines;
                                                zlines = zlines + "\n".spec_bytes() + line;
                                                acc = acc + "\n".spec_bytes() + line;
                                                assert(acc =~= zacc_base + zlines);
                                                assert(out@ =~= header() + acc);
                                                if let Result::Ok(r2) = peers_lines(
                                                    *zc,
                                                    ps@.skip(j as int + 1),
                                                ) {
                                                    assert(peers_lines(*zc, prest) == Result::<
                                                        Seq<u8>,
                                                        ExtractError,
                                                    >::Ok("\n".spec_bytes() + line + r2));
                                                    assert(prev + ("\n".spec_bytes() + line + r2)
                                                        =~= zlines + r2);
                                                }
                                            }
                                        },
                                    }
                                },
                            }
                            j = j + 1;
                        }
                        proof {
                            assert(ps@.skip(m as int).len() == 0);
                            assert(peers_lines(*zc, ps@) == Result::<Seq<u8>, ExtractError>::Ok(
                                zlines + Seq::<u8>::empty(),
                            ));
                            assert(zlines + Seq::<u8>::empty() =~= zlines);
                            let tail = zones@.skip(i as int + 1);
                            assert(zones@.skip(i as int).drop_first() =~= tail);
                            if let RosterRender::Text(r2) = zones_render(tail) {
                                assert(zones_render(zones@.skip(i as int)) == RosterRender::Text(
                                    zlines + r2,
                                ));
                                assert(zacc_base + (zlines + r2) =~= acc + r2);
                            }
                        }
                    },
                }
            },
        }
        i = i + 1;
    }
    proof {
        assert(zones@.skip(n as int).len() == 0);
        assert(acc + Seq::<u8>::empty() =~= acc);
        assert(zones_render(zones@) == RosterRender::Text(acc));
    }
    RenderOutcome::Rendered(out)
}

} // verus!
