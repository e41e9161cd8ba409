//! Network topology builder: a pure function over current agent positions
//! and a communication range. For every unordered pair within range it emits
//! one edge carrying a link quality that falls off linearly with distance
//! and a round-trip-time estimate proportional to distance; each node counts
//! every agent within its range. The graph is rebuilt from scratch every
//! tick.

use vstd::prelude::*;

use crate::geom::{
    diff, dist2_u64, in_lim, isqrt64, isqrt_spec, lemma_mul_le, lemma_square_le, mul_div, norm2,
    Vec3,
};
use crate::{MAX_AGENTS, WORLD_LIMIT};

verus! {

/// The default communication range (80 units).
pub const COMM_RANGE: i64 = 80_000;

/// Largest accepted communication range (1000 units).
pub const MAX_COMM_RANGE: i64 = 1_000_000;

/// One agent's entry in the network graph.
#[derive(Clone, Copy, Debug, PartialEq, Eq, Structural)]
pub struct NetworkNode {
    pub id: u64,
    pub position: Vec3,
    pub neighbor_count: usize,
}

/// One link between two in-range agents, stored once per unordered pair.
#[derive(Clone, Copy, Debug, PartialEq, Eq, Structural)]
pub struct NetworkEdge {
    pub from: u64,
    pub to: u64,
    pub link_quality: i64,
    pub rtt_ms: u32,
}

/// The per-tick network snapshot.
#[derive(Clone, Debug)]
pub struct NetworkTopology {
    pub nodes: Vec<NetworkNode>,
    pub edges: Vec<NetworkEdge>,
}

/// Two positions are network-connected: distance strictly below the range.
pub open spec fn within_range(p: Vec3, q: Vec3, range: int) -> bool {
    norm2(diff(p, q)) < range * range
}

/// Link quality in milli: `1 - distance / range`, on the integer distance.
pub open spec fn lq_of(n2: int, range: int) -> int {
    1000 - (isqrt_spec(n2) * 1000) / range
}

/// Round-trip estimate in ms: half the distance in units.
pub open spec fn rtt_of(n2: int) -> int {
    isqrt_spec(n2) / 2000
}

/// A well-formed edge of the graph over positions `s`: endpoints ordered and
/// in bounds, within range, quality and latency exact.
pub open spec fn edge_ok(e: NetworkEdge, s: Seq<Vec3>, range: int) -> bool {
    &&& 0 <= e.from < e.to < s.len()
    &&& within_range(s[e.from as int], s[e.to as int], range)
    &&& e.link_quality == lq_of(norm2(diff(s[e.from as int], s[e.to as int])), range)
    &&& e.rtt_ms == rtt_of(norm2(diff(s[e.from as int], s[e.to as int])))
}

/// The pair `(i, j)` has an edge in the list.
pub open spec fn edge_present(edges: Seq<NetworkEdge>, i: int, j: int) -> bool {
    exists|k: int| 0 <= k < edges.len() && (#[trigger] edges[k]).from == i && edges[k].to == j
}

/// Edges come in strictly increasing lexicographic order of their endpoints.
pub open spec fn edges_lex_sorted(edges: Seq<NetworkEdge>) -> bool {
    forall|k1: int, k2: int|
        0 <= k1 < k2 < edges.len() ==> ((#[trigger] edges[k1]).from < (#[trigger] edges[k2]).from
            || (edges[k1].from == edges[k2].from && edges[k1].to < edges[k2].to))
}

/// How many agents other than `i`, from index `j` on, are within range of
/// it: counted from 0 this is the node's full symmetric degree.
pub open spec fn count_in_range_from(s: Seq<Vec3>, i: int, j: int, range: int) -> int
    decreases s.len() - j,
{
    if j < 0 || j >= s.len() || i < 0 || i >= s.len() {
        0
    } else {
        (if j != i && within_range(s[i], s[j], range) {
            1int
        } else {
            0int
        }) + count_in_range_from(s, i, j + 1, range)
    }
}

/// Law: link quality is in `(0, 1000]` for every in-range distance, and it
/// never increases with distance.
pub proof fn lemma_link_quality(n2a: int, n2b: int, range: int)
    requires
        0 <= n2a <= n2b,
        1 <= range,
        n2b < range * range,
    ensures
        0 < lq_of(n2b, range) <= lq_of(n2a, range) <= 1000,
{
    let da = isqrt_spec(n2a);
    let db = isqrt_spec(n2b);
    lemma_isqrt_le(n2a, n2b);
    lemma_isqrt_spec_bounds(n2b);
    assert(0 <= da * 1000 <= db * 1000 && db * 1000 < range * 1000) by (nonlinear_arith)
        requires
            0 <= da <= db,
            db * db <= n2b < range * range,
            1 <= range,
    ;
    assert((da * 1000) / range <= (db * 1000) / range && (db * 1000) / range < 1000 && 0 <= (da
        * 1000) / range) by (nonlinear_arith)
        requires
            0 <= da * 1000 <= db * 1000,
            db * 1000 < range * 1000,
            1 <= range,
    ;
}

/// Law: link quality falls strictly once the distance grows by at least one
/// thousandth of the range (the resolution of the milli quality scale; two
/// distances inside the same thousandth share a quality value).
pub proof fn lemma_link_quality_strict(n2a: int, n2b: int, range: int)
    requires
        0 <= n2a <= n2b,
        1 <= range,
        n2b < range * range,
        1000 * isqrt_spec(n2a) + range <= 1000 * isqrt_spec(n2b),
    ensures
        lq_of(n2b, range) < lq_of(n2a, range),
{
    let da = isqrt_spec(n2a);
    let db = isqrt_spec(n2b);
    lemma_isqrt_spec_bounds(n2a);
    lemma_isqrt_spec_bounds(n2b);
    assert((da * 1000) / range + 1 <= (db * 1000) / range) by (nonlinear_arith)
        requires
            0 <= da,
            0 <= db,
            1 <= range,
            da * 1000 + range <= db * 1000,
    ;
}

/// The integer square root is monotone.
pub proof fn lemma_isqrt_le(a: int, b: int)
    requires
        0 <= a <= b,
    ensures
        0 <= isqrt_spec(a) <= isqrt_spec(b),
        isqrt_spec(a) * isqrt_spec(a) <= a,
        b < (isqrt_spec(b) + 1) * (isqrt_spec(b) + 1),
{
    let ra = isqrt_spec(a);
    let rb = isqrt_spec(b);
    lemma_isqrt_spec_bounds(a);
    lemma_isqrt_spec_bounds(b);
    assert(ra <= rb) by (nonlinear_arith)
        requires
            0 <= ra,
            0 <= rb,
            ra * ra <= a <= b,
            b < (rb + 1) * (rb + 1),
    ;
}

/// The spec-level integer square root brackets its argument.
pub proof fn lemma_isqrt_spec_bounds(n: int)
    requires
        0 <= n,
    ensures
        0 <= isqrt_spec(n),
        isqrt_spec(n) * isqrt_spec(n) <= n,
        n < (isqrt_spec(n) + 1) * (isqrt_spec(n) + 1),
{
    lemma_isqrt_from_bounds(n, 0);
}

proof fn lemma_isqrt_from_bounds(n: int, c: int)
    requires
        0 <= c,
        c * c <= n,
    ensures
        c <= crate::geom::isqrt_from(n, c),
        crate::geom::isqrt_from(n, c) * crate::geom::isqrt_from(n, c) <= n,
        n < (crate::geom::isqrt_from(n, c) + 1) * (crate::geom::isqrt_from(n, c) + 1),
    decreases (if n - c * c > 0 {
        n - c * c
    } else {
        0
    }),
{
    if (c + 1) * (c + 1) <= n {
        assert((if n - (c + 1) * (c + 1) > 0 {
            n - (c + 1) * (c + 1)
        } else {
            0
        }) < n - c * c) by (nonlinear_arith)
            requires
                0 <= c,
                (c + 1) * (c + 1) <= n,
        ;
        lemma_isqrt_from_bounds(n, c + 1);
    }
}

/// The whole graph contract over positions `s`: one node per agent with its
/// symmetric neighbor count, every edge well-formed, every in-range pair
/// present, and the edge list duplicate-free (lexicographically sorted).
pub open spec fn topology_ok(t: NetworkTopology, s: Seq<Vec3>, range: int) -> bool {
    &&& t.nodes@.len() == s.len()
    &&& forall|i: int|
        0 <= i < s.len() ==> {
            let nd = #[trigger] t.nodes@[i];
            nd.id == i && nd.position == s[i] && nd.neighbor_count == count_in_range_from(
                s,
                i,
                0,
                range,
            )
        }
    &&& forall|k: int| 0 <= k < t.edges@.len() ==> edge_ok(#[trigger] t.edges@[k], s, range)
    &&& forall|i: int, j: int|
        #![trigger s[i], s[j]]
        0 <= i < j < s.len() && within_range(s[i], s[j], range) ==> edge_present(t.edges@, i, j)
    &&& edges_lex_sorted(t.edges@)
}

/// Appending an edge keeps every present pair present, and makes the new
/// edge's own pair present.
proof fn lemma_present_push(edges: Seq<NetworkEdge>, e: NetworkEdge)
    ensures
        forall|ii: int, jj: int|
            #[trigger] edge_present(edges, ii, jj) ==> edge_present(edges.push(e), ii, jj),
        edge_present(edges.push(e), e.from as int, e.to as int),
{
    assert forall|ii: int, jj: int| #[trigger] edge_present(edges, ii, jj) implies edge_present(
        edges.push(e),
        ii,
        jj,
    ) by {
        let k = choose|k: int|
            0 <= k < edges.len() && (#[trigger] edges[k]).from == ii && edges[k].to == jj;
        assert(edges.push(e)[k] == edges[k]);
    }
    assert(edges.push(e)[edges.len() as int] == e);
}

impl NetworkTopology {
    /// An empty graph.
    pub fn new() -> (r: Self)
        ensures
            r.nodes@.len() == 0,
            r.edges@.len() == 0,
    {
        NetworkTopology { nodes: Vec::new(), edges: Vec::new() }
    }
}

/// Rebuild the graph over the given positions: one node per agent carrying
/// its full neighbor count, and exactly one edge per unordered pair strictly
/// within range.
pub fn build_topology(positions: &Vec<Vec3>, range: i64) -> (t: NetworkTopology)
    requires
        0 < range <= MAX_COMM_RANGE,
        positions@.len() <= MAX_AGENTS,
        forall|i: int| 0 <= i < positions@.len() ==> in_lim(#[trigger] positions@[i], WORLD_LIMIT as int),
    ensures
        t.nodes@.len() == positions@.len(),
        forall|i: int|
            0 <= i < positions@.len() ==> {
                let nd = #[trigger] t.nodes@[i];
                nd.id == i && nd.position == positions@[i] && nd.neighbor_count
                    == count_in_range_from(positions@, i, 0, range as int)
            },
        forall|k: int| 0 <= k < t.edges@.len() ==> edge_ok(#[trigger] t.edges@[k], positions@, range as int),
        forall|i: int, j: int|
            #![trigger positions@[i], positions@[j]]
            0 <= i < j < positions@.len() && within_range(
                positions@[i],
                positions@[j],
                range as int,
            ) ==> edge_present(t.edges@, i, j),
        edges_lex_sorted(t.edges@),
        topology_ok(t, positions@, range as int),
{
    let n = positions.len();
    let mut nodes: Vec<NetworkNode> = Vec::new();
    let mut edges: Vec<NetworkEdge> = Vec::new();
    proof {
        lemma_mul_le(range as int, range as int, MAX_COMM_RANGE as int, MAX_COMM_RANGE as int);
    }
    let rr: u64 = (range as u64) * (range as u64);
    let mut i: usize = 0;
    while i < n
        invariant
            0 <= i <= n,
            n == positions@.len() <= MAX_AGENTS,
            0 < range <= MAX_COMM_RANGE,
            rr == range * range,
            forall|ii: int|
                0 <= ii < n ==> in_lim(#[trigger] positions@[ii], WORLD_LIMIT as int),
            nodes@.len() == i,
            forall|ii: int|
                0 <= ii < i ==> {
                    let nd = #[trigger] nodes@[ii];
                    nd.id == ii && nd.position == positions@[ii] && nd.neighbor_count
                        == count_in_range_from(positions@, ii, 0, range as int)
                },
            forall|k: int| 0 <= k < edges@.len() ==> edge_ok(
                #[trigger] edges@[k],
                positions@,
                range as int,
            ),
            forall|k: int| 0 <= k < edges@.len() ==> (#[trigger] edges@[k]).from < i,
            forall|ii: int, jj: int|
                #![trigger positions@[ii], positions@[jj]]
                0 <= ii < i && ii < jj < n && within_range(
                    positions@[ii],
                    positions@[jj],
                    range as int,
                ) ==> edge_present(edges@, ii, jj),
            edges_lex_sorted(edges@),
        decreases n - i,
    {
        let mut cnt: usize = 0;
        let mut j: usize = 0;
        while j < n
            invariant
                0 <= j <= n,
                0 <= cnt <= j,
                0 <= i < n,
                n == positions@.len() <= MAX_AGENTS,
                0 < range <= MAX_COMM_RANGE,
                rr == range * range,
                forall|ii: int|
                    0 <= ii < n ==> in_lim(#[trigger] positions@[ii], WORLD_LIMIT as int),
                cnt + count_in_range_from(positions@, i as int, j as int, range as int)
                    == count_in_range_from(positions@, i as int, 0, range as int),
                0 <= cnt <= n,
                forall|k: int| 0 <= k < edges@.len() ==> edge_ok(
                    #[trigger] edges@[k],
                    positions@,
                    range as int,
                ),
                forall|k: int| 0 <= k < edges@.len() ==> ((#[trigger] edges@[k]).from < i || (
                edges@[k].from == i && edges@[k].to < j)),
                forall|ii: int, jj: int|
                    #![trigger positions@[ii], positions@[jj]]
                    0 <= ii < i && ii < jj < n && within_range(
                        positions@[ii],
                        positions@[jj],
                        range as int,
                    ) ==> edge_present(edges@, ii, jj),
                forall|jj: int|
                    #![trigger positions@[jj]]
                    i < jj < j && within_range(
                        positions@[i as int],
                        positions@[jj],
                        range as int,
                    ) ==> edge_present(edges@, i as int, jj),
                edges_lex_sorted(edges@),
            decreases n - j,
        {
            if j != i {
                let d2: u64 = dist2_u64(positions[i], positions[j]);
                if d2 < rr {
                    cnt = cnt + 1;
                    if j > i {
                        let d: u64 = isqrt64(d2);
                        proof {
                            lemma_mul_le(range as int, range as int, MAX_COMM_RANGE as int,
                                MAX_COMM_RANGE as int);
                            lemma_square_le(d as int, MAX_COMM_RANGE as int);
                        }
                        let lq: i64 = 1000 - mul_div(d as i64, 1000, range);
                        let rtt: u32 = (d / 2000) as u32;
                        let e = NetworkEdge {
                            from: i as u64,
                            to: j as u64,
                            link_quality: lq,
                            rtt_ms: rtt,
                        };
                        let ghost epre = edges@;
                        edges.push(e);
                        proof {
                            lemma_present_push(epre, e);
                            assert(edges@ == epre.push(e));
                            assert(edge_present(edges@, i as int, j as int));
                        }
                    }
                }
            }
            j = j + 1;
        }
        nodes.push(
            NetworkNode { id: i as u64, position: positions[i], neighbor_count: cnt },
        );
        i = i + 1;
    }
    NetworkTopology { nodes, edges }
}

} // verus!
