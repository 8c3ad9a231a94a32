//! The entity chain as a directed graph, and breadth-first reachability over it.
//!
//! The chain runs across the overview columns:
//! Products → Features → Gain creators / Pain reliefs → Gains / Pains → Jobs → Segments.
//! A forward graph follows the chain and a backward graph reverses it, so that
//! a search in each direction from a hovered entity never crosses back through
//! a shared node to unrelated entities on the same side.

use std::collections::HashSet;
use vstd::prelude::*;

use crate::ids::EntityId;
use crate::idset::{contains_id, to_hash_set};
use crate::model::{App, Link, ValueAnnotation};

verus! {

broadcast use vstd::std_specs::hash::group_hash_axioms;

/// A directed graph given by its edges `(from, to)`, in insertion order. The
/// neighbours of a node are the targets of its edges in that order.
pub struct Adjacency {
    pub edges: Vec<Link>,
}

/// The edges of a table, reversed.
pub open spec fn reversed(edges: Seq<Link>) -> Seq<Link> {
    edges.map_values(|e: Link| (e.1, e.0))
}

/// The edge from the solution to the need of each annotation.
pub open spec fn annotation_edges(anns: Seq<ValueAnnotation>) -> Seq<Link> {
    anns.map_values(|a: ValueAnnotation| (a.reliever_or_creator_id, a.pain_or_gain_id))
}

/// Every edge of the forward chain, in the order the tables are read.
pub open spec fn chain_edges(app: &App) -> Seq<Link> {
    let vp = app.valueprop_page;
    let cs = app.customer_segment_page;
    vp.product_feature_links@ + vp.feature_gain_creator_links@ + vp.feature_pain_relief_links@
        + annotation_edges(vp.gain_creator_annotations@) + annotation_edges(
        vp.pain_relief_annotations@,
    ) + cs.job_gain_links@ + cs.job_pain_links@ + cs.segment_job_links@
}

/// `p` follows edges of the graph from its first node to its last.
pub open spec fn is_path(edges: Seq<Link>, p: Seq<EntityId>) -> bool {
    forall|i: int| 0 <= i < p.len() - 1 ==> #[trigger] edges.contains((p[i], p[i + 1]))
}

/// `p` is a path from `s` to `t` (a single node is a path from itself to itself).
pub open spec fn path_from_to(edges: Seq<Link>, p: Seq<EntityId>, s: EntityId, t: EntityId) -> bool {
    &&& p.len() >= 1
    &&& p[0] == s
    &&& p[p.len() - 1] == t
    &&& is_path(edges, p)
}

/// Some path leads from `s` to `t`.
pub open spec fn reaches(edges: Seq<Link>, s: EntityId, t: EntityId) -> bool {
    exists|p: Seq<EntityId>| #[trigger] path_from_to(edges, p, s, t)
}

/// The nodes other than `s` that a path from `s` reaches.
pub open spec fn reachable_from(edges: Seq<Link>, s: EntityId) -> Set<EntityId> {
    Set::new(|t: EntityId| t != s && reaches(edges, s, t))
}

/// The targets of all edges.
pub open spec fn edge_targets(edges: Seq<Link>) -> Seq<EntityId> {
    edges.map_values(|e: Link| e.1)
}

/// Appends the edges of `links` to `fwd` and their reverses to `bwd`.
fn push_edges(fwd: &mut Vec<Link>, bwd: &mut Vec<Link>, links: &Vec<Link>)
    ensures
        final(fwd)@ == old(fwd)@ + links@,
        final(bwd)@ == old(bwd)@ + reversed(links@),
{
    let ghost f0 = fwd@;
    let ghost b0 = bwd@;
    let mut i: usize = 0;
    while i < links.len()
        invariant
            i <= links@.len(),
            fwd@ == f0 + links@.take(i as int),
            bwd@ == b0 + reversed(links@.take(i as int)),
        decreases links@.len() - i,
    {
        let (a, b) = links[i];
        fwd.push((a, b));
        bwd.push((b, a));
        proof {
            assert(links@.take(i + 1) == links@.take(i as int).push(links@[i as int]));
            assert(reversed(links@.take(i + 1)) =~= reversed(links@.take(i as int)).push((b, a)));
            assert(fwd@ =~= f0 + links@.take(i + 1));
            assert(bwd@ =~= b0 + reversed(links@.take(i + 1)));
        }
        i = i + 1;
    }
    proof {
        assert(links@.take(links@.len() as int) == links@);
    }
}

/// Appends the solution-to-need edge of each annotation to `fwd` and its
/// reverse to `bwd`.
fn push_annotation_edges(fwd: &mut Vec<Link>, bwd: &mut Vec<Link>, anns: &Vec<ValueAnnotation>)
    ensures
        final(fwd)@ == old(fwd)@ + annotation_edges(anns@),
        final(bwd)@ == old(bwd)@ + reversed(annotation_edges(anns@)),
{
    let ghost f0 = fwd@;
    let ghost b0 = bwd@;
    let mut i: usize = 0;
    while i < anns.len()
        invariant
            i <= anns@.len(),
            fwd@ == f0 + annotation_edges(anns@.take(i as int)),
            bwd@ == b0 + reversed(annotation_edges(anns@.take(i as int))),
        decreases anns@.len() - i,
    {
        let a = anns[i].reliever_or_creator_id;
        let b = anns[i].pain_or_gain_id;
        fwd.push((a, b));
        bwd.push((b, a));
        proof {
            assert(anns@.take(i + 1) == anns@.take(i as int).push(anns@[i as int]));
            assert(annotation_edges(anns@.take(i + 1)) =~= annotation_edges(
                anns@.take(i as int),
            ).push((a, b)));
            assert(reversed(annotation_edges(anns@.take(i + 1))) =~= reversed(
                annotation_edges(anns@.take(i as int)),
            ).push((b, a)));
            assert(fwd@ =~= f0 + annotation_edges(anns@.take(i + 1)));
            assert(bwd@ =~= b0 + reversed(annotation_edges(anns@.take(i + 1))));
        }
        i = i + 1;
    }
    proof {
        assert(anns@.take(anns@.len() as int) == anns@);
    }
}

/// The edge from the solution to the need of each annotation.
pub fn annotation_edge_list(anns: &Vec<ValueAnnotation>) -> (r: Vec<Link>)
    ensures
        r@ == annotation_edges(anns@),
{
    let mut r: Vec<Link> = Vec::new();
    let mut i: usize = 0;
    while i < anns.len()
        invariant
            i <= anns@.len(),
            r@ == annotation_edges(anns@.take(i as int)),
        decreases anns@.len() - i,
    {
        r.push((anns[i].reliever_or_creator_id, anns[i].pain_or_gain_id));
        proof {
            assert(anns@.take(i + 1) == anns@.take(i as int).push(anns@[i as int]));
            assert(r@ =~= annotation_edges(anns@.take(i + 1)));
        }
        i = i + 1;
    }
    proof {
        assert(anns@.take(anns@.len() as int) == anns@);
    }
    r
}

/// The edges of a table, reversed, in the same order.
pub fn reverse_links(links: &Vec<Link>) -> (r: Vec<Link>)
    ensures
        r@ == reversed(links@),
{
    let mut r: Vec<Link> = Vec::new();
    let mut i: usize = 0;
    while i < links.len()
        invariant
            i <= links@.len(),
            r@ == reversed(links@.take(i as int)),
        decreases links@.len() - i,
    {
        let (a, b) = links[i];
        r.push((b, a));
        proof {
            assert(links@.take(i + 1) == links@.take(i as int).push(links@[i as int]));
            assert(r@ =~= reversed(links@.take(i + 1)));
        }
        i = i + 1;
    }
    proof {
        assert(links@.take(links@.len() as int) == links@);
    }
    r
}

/// Builds the forward graph (following the chain) and the backward graph
/// (reversing it) from every link table and annotation list.
pub fn build_directed_adj(app: &App) -> (r: (Adjacency, Adjacency))
    ensures
        r.0.edges@ == chain_edges(app),
        r.1.edges@ == reversed(chain_edges(app)),
{
    let vp = &app.valueprop_page;
    let cs = &app.customer_segment_page;
    let mut fwd: Vec<Link> = Vec::new();
    let mut bwd: Vec<Link> = Vec::new();
    // Product → Feature
    push_edges(&mut fwd, &mut bwd, &vp.product_feature_links);
    // Feature → GainCreator
    push_edges(&mut fwd, &mut bwd, &vp.feature_gain_creator_links);
    // Feature → PainRelief
    push_edges(&mut fwd, &mut bwd, &vp.feature_pain_relief_links);
    // GainCreator → Gain
    push_annotation_edges(&mut fwd, &mut bwd, &vp.gain_creator_annotations);
    // PainRelief → Pain
    push_annotation_edges(&mut fwd, &mut bwd, &vp.pain_relief_annotations);
    // Gain → Job
    push_edges(&mut fwd, &mut bwd, &cs.job_gain_links);
    // Pain → Job
    push_edges(&mut fwd, &mut bwd, &cs.job_pain_links);
    // Job → Segment
    push_edges(&mut fwd, &mut bwd, &cs.segment_job_links);
    proof {
        let e = chain_edges(app);
        assert(fwd@ =~= e);
        let r1 = reversed(vp.product_feature_links@);
        assert(reversed(e) =~= reversed(vp.product_feature_links@) + reversed(
            vp.feature_gain_creator_links@,
        ) + reversed(vp.feature_pain_relief_links@) + reversed(
            annotation_edges(vp.gain_creator_annotations@),
        ) + reversed(annotation_edges(vp.pain_relief_annotations@)) + reversed(cs.job_gain_links@)
            + reversed(cs.job_pain_links@) + reversed(cs.segment_job_links@));
        assert(bwd@ =~= reversed(e));
    }
    (Adjacency { edges: fwd }, Adjacency { edges: bwd })
}

/// A duplicate-free list of nodes, each `start` or the target of an edge, is
/// no longer than the edge list plus one.
proof fn lemma_distinct_nodes_bounded(s: Seq<EntityId>, start: EntityId, edges: Seq<Link>)
    requires
        s.no_duplicates(),
        forall|k: int| 0 <= k < s.len() ==> s[k] == start || edge_targets(edges).contains(s[k]),
    ensures
        s.len() <= edges.len() + 1,
{
    broadcast use vstd::seq_lib::seq_to_set_is_finite;

    let t = edge_targets(edges);
    let u = t.to_set().insert(start);
    s.unique_seq_to_set();
    t.lemma_cardinality_of_set();
    assert(s.to_set().subset_of(u)) by {
        assert forall|x: EntityId| s.to_set().contains(x) implies u.contains(x) by {
            let k = choose|k: int| 0 <= k < s.len() && s[k] == x;
        }
    }
    vstd::set_lib::lemma_len_subset(s.to_set(), u);
}

/// A node set that holds `start` and is closed under the edges holds every
/// node a path from `start` reaches.
proof fn lemma_closed_holds_reachable(
    edges: Seq<Link>,
    nodes: Seq<EntityId>,
    start: EntityId,
    p: Seq<EntityId>,
    t: EntityId,
)
    requires
        nodes.contains(start),
        forall|e: Link| #[trigger] edges.contains(e) && nodes.contains(e.0) ==> nodes.contains(e.1),
        path_from_to(edges, p, start, t),
    ensures
        nodes.contains(t),
    decreases p.len(),
{
    if p.len() > 1 {
        let q = p.drop_last();
        let prev = q[q.len() - 1];
        assert(is_path(edges, q)) by {
            assert forall|i: int| 0 <= i < q.len() - 1 implies #[trigger] edges.contains(
                (q[i], q[i + 1]),
            ) by {
                assert(edges.contains((p[i], p[i + 1])));
            }
        }
        lemma_closed_holds_reachable(edges, nodes, start, q, prev);
        let i = p.len() - 2;
        assert(edges.contains((p[i], p[i + 1])));
        assert(q[q.len() - 1] == p[i]);
    }
}

/// Extends a path to `node` by the edge `(node, next)`.
proof fn lemma_path_extend(
    edges: Seq<Link>,
    start: EntityId,
    node: EntityId,
    next: EntityId,
)
    requires
        reaches(edges, start, node),
        edges.contains((node, next)),
    ensures
        reaches(edges, start, next),
{
    let p = choose|p: Seq<EntityId>| #[trigger] path_from_to(edges, p, start, node);
    let q = p.push(next);
    assert(is_path(edges, q)) by {
        assert forall|i: int| 0 <= i < q.len() - 1 implies #[trigger] edges.contains(
            (q[i], q[i + 1]),
        ) by {
            if i < p.len() - 1 {
                assert(edges.contains((p[i], p[i + 1])));
            }
        }
    }
    assert(path_from_to(edges, q, start, next));
}

/// Breadth-first order of the nodes reachable from `start`, starting with
/// `start` itself; each node appears once.
fn bfs_order(start: EntityId, edges: &Vec<Link>) -> (order: Vec<EntityId>)
    ensures
        order@.len() >= 1,
        order@[0] == start,
        order@.no_duplicates(),
        forall|t: EntityId| order@.contains(t) <==> reaches(edges@, start, t),
{
    let mut order: Vec<EntityId> = Vec::new();
    order.push(start);
    proof {
        assert(path_from_to(edges@, seq![start], start, start));
    }
    let mut head: usize = 0;
    while head < order.len()
        invariant
            order@.len() >= 1,
            order@[0] == start,
            head <= order@.len(),
            order@.len() <= edges@.len() + 1,
            order@.no_duplicates(),
            forall|k: int| 0 <= k < order@.len() ==> reaches(edges@, start, #[trigger] order@[k]),
            forall|k: int|
                0 <= k < order@.len() ==> #[trigger] order@[k] == start || edge_targets(
                    edges@,
                ).contains(order@[k]),
            forall|k: int, e: Link|
                0 <= k < head && #[trigger] edges@.contains(e) && e.0 == #[trigger] order@[k]
                    ==> order@.contains(e.1),
        decreases edges@.len() + 1 - head,
    {
        let node = order[head];
        let mut j: usize = 0;
        while j < edges.len()
            invariant
                order@.len() >= 1,
                order@[0] == start,
                head < order@.len(),
                node == order@[head as int],
                order@.no_duplicates(),
                forall|k: int| 0 <= k < order@.len() ==> reaches(edges@, start, #[trigger] order@[k]),
                forall|k: int|
                    0 <= k < order@.len() ==> #[trigger] order@[k] == start || edge_targets(
                        edges@,
                    ).contains(order@[k]),
                forall|k: int, e: Link|
                    0 <= k < head && #[trigger] edges@.contains(e) && e.0 == #[trigger] order@[k]
                        ==> order@.contains(e.1),
                j <= edges@.len(),
                forall|jj: int| 0 <= jj < j && #[trigger] edges@[jj].0 == node ==> order@.contains(
                    edges@[jj].1,
                ),
            decreases edges@.len() - j,
        {
            let (a, b) = edges[j];
            if a == node && !contains_id(&order, b) {
                let ghost before = order@;
                proof {
                    assert(edges@.contains((node, b))) by {
                        assert(edges@[j as int] == (node, b));
                    }
                    lemma_path_extend(edges@, start, node, b);
                    assert(edge_targets(edges@)[j as int] == b);
                }
                order.push(b);
                proof {
                    assert forall|x: EntityId| before.contains(x) implies order@.contains(x) by {
                        let k = choose|k: int| 0 <= k < before.len() && before[k] == x;
                        assert(order@[k] == x);
                    }
                    assert(order@[order@.len() - 1] == b);
                    assert forall|k: int| 0 <= k < order@.len() implies reaches(
                        edges@,
                        start,
                        #[trigger] order@[k],
                    ) by {
                        if k < before.len() {
                            assert(order@[k] == before[k]);
                        }
                    }
                }
            }
            j = j + 1;
        }
        proof {
            assert forall|k: int, e: Link|
                0 <= k < head + 1 && #[trigger] edges@.contains(e) && e.0 == #[trigger] order@[k]
                    implies order@.contains(e.1) by {
                if k == head {
                    let jj = choose|jj: int| 0 <= jj < edges@.len() && edges@[jj] == e;
                    assert(edges@[jj].0 == node);
                }
            }
            lemma_distinct_nodes_bounded(order@, start, edges@);
        }
        head = head + 1;
    }
    proof {
        assert forall|t: EntityId| reaches(edges@, start, t) implies order@.contains(t) by {
            let p = choose|p: Seq<EntityId>| #[trigger] path_from_to(edges@, p, start, t);
            assert(order@[0] == start);
            assert forall|e: Link| #[trigger] edges@.contains(e) && order@.contains(e.0) implies order@.contains(
                e.1,
            ) by {
                let k = choose|k: int| 0 <= k < order@.len() && order@[k] == e.0;
            }
            lemma_closed_holds_reachable(edges@, order@, start, p, t);
        }
        assert forall|t: EntityId| order@.contains(t) implies reaches(edges@, start, t) by {
            let k = choose|k: int| 0 <= k < order@.len() && order@[k] == t;
        }
    }
    order
}

/// Every node reachable from `start` by following the graph's edges, without
/// `start` itself, each once, in breadth-first order.
pub fn reachable_list(start: EntityId, adj: &Adjacency) -> (r: Vec<EntityId>)
    ensures
        r@.no_duplicates(),
        r@.to_set() == reachable_from(adj.edges@, start),
{
    let order = bfs_order(start, &adj.edges);
    let mut rest: Vec<EntityId> = Vec::new();
    let mut i: usize = 1;
    while i < order.len()
        invariant
            1 <= i <= order@.len(),
            rest@ == order@.subrange(1, i as int),
        decreases order@.len() - i,
    {
        rest.push(order[i]);
        proof {
            assert(rest@ =~= order@.subrange(1, i + 1));
        }
        i = i + 1;
    }
    proof {
        assert(rest@.no_duplicates()) by {
            assert forall|a: int, b: int| 0 <= a < rest@.len() && 0 <= b < rest@.len() && a != b implies rest@[a] != rest@[b] by {
                assert(rest@[a] == order@[a + 1]);
                assert(rest@[b] == order@[b + 1]);
            }
        }
        assert(rest@.to_set() =~= reachable_from(adj.edges@, start)) by {
            assert forall|t: EntityId| rest@.to_set().contains(t) implies reachable_from(adj.edges@, start).contains(t) by {
                let k = choose|k: int| 0 <= k < rest@.len() && rest@[k] == t;
                assert(order@[k + 1] == t);
                assert(order@.contains(t));
                assert(order@[0] == start);
            }
            assert forall|t: EntityId| reachable_from(adj.edges@, start).contains(t) implies rest@.to_set().contains(t) by {
                assert(order@.contains(t));
                let k = choose|k: int| 0 <= k < order@.len() && order@[k] == t;
                assert(k != 0);
                assert(rest@[k - 1] == t);
                assert(rest@.contains(t));
            }
        }
    }
    rest
}

/// Every node reachable from `start` by following the graph's edges, without
/// `start` itself.
pub fn bfs(start: EntityId, adj: &Adjacency) -> (r: HashSet<EntityId>)
    ensures
        r@ == reachable_from(adj.edges@, start),
{
    let rest = reachable_list(start, adj);
    to_hash_set(&rest)
}

} // verus!
