//! The resource-ownership graph and its cascading close.
//!
//! One worker session owns a tree of resources: routers under the
//! session, transports under routers, producers and consumers under
//! transports. A consumer is additionally bound to the producer it
//! consumes. Each node carries its own closed flag; closing is
//! idempotent and terminal. Closing a node closes every node that hangs
//! from it, through parent links and producer bindings, and the events
//! of the closed descendants fire before the node's own closed event.
//! Only the node the close was asked for sends a close request upstream,
//! and only on a local, first-party close: resources closed by cascade
//! or by the remote side are already gone remotely.
//!
//! Nodes are created children-after-parents, so every parent link and
//! producer binding points at a smaller index. The cascade therefore
//! marks in one ascending pass and emits events in one descending pass,
//! which yields exactly the children-before-parent event order.

use vstd::prelude::*;

verus! {

/// What kind of resource a node stands for.
#[derive(Debug, Copy, Clone, PartialEq, Eq, Structural)]
pub enum ResourceKind {
    /// A router under the worker session.
    Router,
    /// A transport under a router.
    Transport,
    /// A media producer under a transport.
    Producer,
    /// A media consumer under a transport, bound to a producer.
    Consumer,
    /// A data producer under a transport.
    DataProducer,
    /// A data consumer under a transport, bound to a data producer.
    DataConsumer,
}

/// One resource in the ownership graph.
#[derive(Debug, Copy, Clone, PartialEq, Eq, Structural)]
pub struct ResourceNode {
    /// The resource's identifier value.
    pub id: u128,
    /// What the resource is.
    pub kind: ResourceKind,
    /// Index of the owning resource; `None` for a router, whose owner
    /// is the session itself.
    pub parent: Option<usize>,
    /// Index of the producer this consumer is bound to; `None` for
    /// anything that is not a consumer.
    pub peer: Option<usize>,
    /// Whether the resource has been closed. Terminal: never reset.
    pub closed: bool,
}

/// What started a close.
#[derive(Debug, Copy, Clone, PartialEq, Eq, Structural)]
pub enum CloseTrigger {
    /// First-party: an explicit close call or the drop of the last
    /// owning handle. The remote object still exists, so a close
    /// request goes upstream.
    Local,
    /// The remote side already removed the object: a server-initiated
    /// closed notification or the death of the subprocess. Nothing is
    /// sent upstream.
    Remote,
}

/// One observable step of a close, in the order the steps happen.
#[derive(Debug, Copy, Clone, PartialEq, Eq, Structural)]
pub enum CloseAction {
    /// The node's parent chain closed; its own single-fire
    /// parent-closed event fires.
    ParentCloseEvent(usize),
    /// The producer the node is bound to closed; its single-fire
    /// producer-closed event fires.
    PeerCloseEvent(usize),
    /// The node's own single-fire closed event fires.
    ClosedEvent(usize),
    /// A best-effort close request for the node goes to the subprocess.
    CloseRequest(usize),
}

/// The ownership graph of one worker session.
#[derive(Debug, Clone)]
pub struct Graph {
    /// All resources ever created in the session, in creation order.
    pub nodes: Vec<ResourceNode>,
}

/// Parent links and producer bindings always point at earlier nodes.
pub open spec fn graph_well_formed(nodes: Seq<ResourceNode>) -> bool {
    forall|j: int|
        0 <= j < nodes.len() ==> ((#[trigger] nodes[j]).parent matches Some(p) ==> p < j) && (
        nodes[j].peer matches Some(q) ==> q < j)
}

/// Whether closing `root` reaches node `j`: the root itself if it is
/// still open, and every open node whose parent or bound producer is
/// reached.
pub open spec fn affected(nodes: Seq<ResourceNode>, root: int, j: int) -> bool
    decreases j when 0 <= j
{
    if j == root {
        0 <= j < nodes.len() && !nodes[j].closed
    } else if j < 0 || j <= root || j >= nodes.len() || nodes[j].closed {
        false
    } else {
        let by_parent = match nodes[j].parent {
            Some(p) => 0 <= p < j && affected(nodes, root, p as int),
            None => false,
        };
        let by_peer = match nodes[j].peer {
            Some(q) => 0 <= q < j && affected(nodes, root, q as int),
            None => false,
        };
        by_parent || by_peer
    }
}

/// The nodes after closing `root`: every reached node is closed, and
/// nothing else about any node changes.
pub open spec fn closed_after(nodes: Seq<ResourceNode>, root: int) -> Seq<ResourceNode> {
    Seq::new(
        nodes.len(),
        |j: int|
            ResourceNode {
                closed: nodes[j].closed || affected(nodes, root, j),
                ..nodes[j]
            },
    )
}

/// The cascade event a reached node owes its close to: the parent chain
/// where the parent is reached, else the producer binding.
pub open spec fn cause_event(nodes: Seq<ResourceNode>, root: int, j: int) -> CloseAction {
    let by_parent = match nodes[j].parent {
        Some(p) => 0 <= p < j && affected(nodes, root, p as int),
        None => false,
    };
    if by_parent {
        CloseAction::ParentCloseEvent(j as usize)
    } else {
        CloseAction::PeerCloseEvent(j as usize)
    }
}

/// The cascade actions for the nodes above `root` up to index `j`, in
/// descending index order: each reached node fires the event naming why
/// it closes and then its own closed event.
pub open spec fn actions_down(nodes: Seq<ResourceNode>, root: int, j: int) -> Seq<CloseAction>
    decreases j - root when root <= j
{
    if j <= root {
        Seq::empty()
    } else {
        (if affected(nodes, root, j) {
            seq![cause_event(nodes, root, j), CloseAction::ClosedEvent(j as usize)]
        } else {
            Seq::empty()
        }) + actions_down(nodes, root, j - 1)
    }
}

/// Everything a close of `root` does, in order: the cascade above it,
/// children before parents; then the root's own closed event; then, on
/// a local close only, the upstream close request. A close of an
/// already closed node does nothing at all.
pub open spec fn close_actions(
    nodes: Seq<ResourceNode>,
    root: int,
    trigger: CloseTrigger,
) -> Seq<CloseAction> {
    if nodes[root].closed {
        Seq::empty()
    } else {
        actions_down(nodes, root, nodes.len() - 1) + seq![
            CloseAction::ClosedEvent(root as usize),
        ] + if trigger == CloseTrigger::Local {
            seq![CloseAction::CloseRequest(root as usize)]
        } else {
            Seq::empty()
        }
    }
}

/// How many times the closed event of node `i` appears in a run of
/// actions.
pub open spec fn count_closed_events(s: Seq<CloseAction>, i: usize) -> nat
    decreases s.len(),
{
    if s.len() == 0 {
        0
    } else {
        count_closed_events(s.drop_last(), i) + if s.last() == CloseAction::ClosedEvent(i) {
            1nat
        } else {
            0nat
        }
    }
}

/// Whether a run of actions sends a close request for node `i`.
pub open spec fn has_close_request(s: Seq<CloseAction>, i: usize) -> bool
    decreases s.len(),
{
    if s.len() == 0 {
        false
    } else {
        has_close_request(s.drop_last(), i) || s.last() == CloseAction::CloseRequest(i)
    }
}

/// Counting and request detection over the empty run and short runs.
proof fn lemma_count_empty(i: usize)
    ensures
        count_closed_events(Seq::<CloseAction>::empty(), i) == 0,
        !has_close_request(Seq::<CloseAction>::empty(), i),
{
}

/// Counting and request detection over a one-action run.
proof fn lemma_count_one(a: CloseAction, i: usize)
    ensures
        count_closed_events(seq![a], i) == if a == CloseAction::ClosedEvent(i) {
            1nat
        } else {
            0nat
        },
        has_close_request(seq![a], i) == (a == CloseAction::CloseRequest(i)),
{
    lemma_count_empty(i);
    assert(seq![a].drop_last() =~= Seq::<CloseAction>::empty());
    assert(seq![a].last() == a);
}

/// Counting and request detection over a two-action run.
proof fn lemma_count_two(a: CloseAction, b: CloseAction, i: usize)
    ensures
        count_closed_events(seq![a, b], i) == (if a == CloseAction::ClosedEvent(i) {
            1nat
        } else {
            0nat
        }) + (if b == CloseAction::ClosedEvent(i) {
            1nat
        } else {
            0nat
        }),
        has_close_request(seq![a, b], i) == (a == CloseAction::CloseRequest(i) || b
            == CloseAction::CloseRequest(i)),
{
    lemma_count_one(a, i);
    assert(seq![a, b].drop_last() =~= seq![a]);
    assert(seq![a, b].last() == b);
}

/// Counting closed events distributes over concatenation.
proof fn lemma_count_concat(a: Seq<CloseAction>, b: Seq<CloseAction>, i: usize)
    ensures
        count_closed_events(a + b, i) == count_closed_events(a, i) + count_closed_events(b, i),
    decreases b.len(),
{
    if b.len() == 0 {
        assert(a + b =~= a);
    } else {
        lemma_count_concat(a, b.drop_last(), i);
        assert((a + b).drop_last() =~= a + b.drop_last());
        assert((a + b).last() == b.last());
    }
}

/// Close-request detection distributes over concatenation.
proof fn lemma_request_concat(a: Seq<CloseAction>, b: Seq<CloseAction>, i: usize)
    ensures
        has_close_request(a + b, i) == (has_close_request(a, i) || has_close_request(b, i)),
    decreases b.len(),
{
    if b.len() == 0 {
        assert(a + b =~= a);
    } else {
        lemma_request_concat(a, b.drop_last(), i);
        assert((a + b).drop_last() =~= a + b.drop_last());
        assert((a + b).last() == b.last());
    }
}

/// The cascade above the root fires the closed event of a node exactly
/// once if the cascade reaches it, never otherwise, and it never sends
/// any close request.
proof fn lemma_actions_down_facts(nodes: Seq<ResourceNode>, root: int, j: int, c: usize)
    requires
        0 <= root <= j,
        nodes.len() <= usize::MAX,
    ensures
        count_closed_events(actions_down(nodes, root, j), c) == if root < c <= j && affected(
            nodes,
            root,
            c as int,
        ) {
            1nat
        } else {
            0nat
        },
        !has_close_request(actions_down(nodes, root, j), c),
    decreases j - root,
{
    if j <= root {
        lemma_count_empty(c);
    } else {
        lemma_actions_down_facts(nodes, root, j - 1, c);
        let head = if affected(nodes, root, j) {
            seq![cause_event(nodes, root, j), CloseAction::ClosedEvent(j as usize)]
        } else {
            Seq::<CloseAction>::empty()
        };
        lemma_count_concat(head, actions_down(nodes, root, j - 1), c);
        lemma_request_concat(head, actions_down(nodes, root, j - 1), c);
        if affected(nodes, root, j) {
            assert(j < nodes.len());
            assert(0 <= j <= usize::MAX);
            assert((j as usize) as int == j);
            lemma_count_two(cause_event(nodes, root, j), CloseAction::ClosedEvent(j as usize), c);
            assert(count_closed_events(head, c) == if c == j {
                1nat
            } else {
                0nat
            });
            assert(!has_close_request(head, c));
        } else {
            lemma_count_empty(c);
        }
    }
}

/// Once the root is closed, no node is reached by closing it again.
proof fn lemma_affected_root_closed(nodes: Seq<ResourceNode>, root: int, j: int)
    requires
        0 <= j,
        0 <= root < nodes.len() ==> nodes[root].closed,
    ensures
        !affected(nodes, root, j),
    decreases j,
{
    if j == root {
    } else if j < 0 || j <= root || j >= nodes.len() || nodes[j].closed {
    } else {
        match nodes[j].parent {
            Some(p) => {
                if 0 <= p < j {
                    lemma_affected_root_closed(nodes, root, p as int);
                }
            },
            None => {},
        }
        match nodes[j].peer {
            Some(q) => {
                if 0 <= q < j {
                    lemma_affected_root_closed(nodes, root, q as int);
                }
            },
            None => {},
        }
    }
}

impl Graph {
    /// An empty session graph.
    pub fn new() -> (r: Graph)
        ensures
            graph_well_formed(r.nodes@),
            r.nodes@.len() == 0,
    {
        Graph { nodes: Vec::new() }
    }

    /// Creates a resource under its parent (and, for a consumer, bound
    /// to its producer) and returns its index. The links model the
    /// single-fire cascade callbacks the resource registers with the
    /// resources it hangs from.
    pub fn add_node(
        &mut self,
        id: u128,
        kind: ResourceKind,
        parent: Option<usize>,
        peer: Option<usize>,
    ) -> (idx: usize)
        requires
            graph_well_formed(old(self).nodes@),
            parent matches Some(p) ==> p < old(self).nodes@.len(),
            peer matches Some(q) ==> q < old(self).nodes@.len(),
            old(self).nodes@.len() < usize::MAX,
        ensures
            graph_well_formed(final(self).nodes@),
            idx == old(self).nodes@.len(),
            final(self).nodes@ == old(self).nodes@.push(
                ResourceNode { id, kind, parent, peer, closed: false },
            ),
    {
        let idx = self.nodes.len();
        self.nodes.push(ResourceNode { id, kind, parent, peer, closed: false });
        idx
    }

    /// Whether the node at `i` is closed.
    pub fn is_closed(&self, i: usize) -> (r: bool)
        requires
            i < self.nodes@.len(),
        ensures
            r == self.nodes@[i as int].closed,
    {
        self.nodes[i].closed
    }

    /// Closes the node at `root` and cascades: every open resource
    /// hanging from it through parent links or producer bindings is
    /// closed too. The returned actions happen in order: cascade events
    /// children-before-parents, then the root's own closed event, then,
    /// on a local close only, the upstream close request. Closing an
    /// already closed node changes nothing and fires nothing.
    pub fn close(&mut self, root: usize, trigger: CloseTrigger) -> (acts: Vec<CloseAction>)
        requires
            graph_well_formed(old(self).nodes@),
            root < old(self).nodes@.len(),
        ensures
            graph_well_formed(final(self).nodes@),
            final(self).nodes@ == closed_after(old(self).nodes@, root as int),
            acts@ == close_actions(old(self).nodes@, root as int, trigger),
            old(self).nodes@[root as int].closed ==> final(self).nodes@ == old(self).nodes@
                && acts@.len() == 0,
    {
        let ghost nodes0 = self.nodes@;
        let n = self.nodes.len();
        if self.nodes[root].closed {
            proof {
                assert forall|j: int| 0 <= j < nodes0.len() implies !affected(
                    nodes0,
                    root as int,
                    j,
                ) by {
                    lemma_affected_root_closed(nodes0, root as int, j);
                }
                assert(closed_after(nodes0, root as int) =~= nodes0);
            }
            return Vec::new();
        }

        let mut flags: Vec<bool> = Vec::new();
        let mut j: usize = 0;
        while j < n
            invariant
                n == self.nodes@.len(),
                n == nodes0.len(),
                j <= n,
                root < n,
                flags@.len() == j,
                graph_well_formed(nodes0),
                !nodes0[root as int].closed,
                forall|k: int| 0 <= k < j ==> flags@[k] == affected(nodes0, root as int, k),
                forall|k: int|
                    0 <= k < j ==> self.nodes@[k] == (ResourceNode {
                        closed: nodes0[k].closed || affected(nodes0, root as int, k),
                        ..nodes0[k]
                    }),
                forall|k: int| j <= k < n ==> self.nodes@[k] == nodes0[k],
            decreases n - j,
        {
            let node = self.nodes[j];
            let flag: bool;
            if j == root {
                flag = true;
            } else if j < root || node.closed {
                flag = false;
            } else {
                let by_parent: bool = match node.parent {
                    Some(p) => flags[p],
                    None => false,
                };
                let by_peer: bool = match node.peer {
                    Some(q) => flags[q],
                    None => false,
                };
                flag = by_parent || by_peer;
            }
            proof {
                assert(flag == affected(nodes0, root as int, j as int));
            }
            flags.push(flag);
            if flag {
                let mut updated = node;
                updated.closed = true;
                self.nodes.set(j, updated);
            }
            j = j + 1;
        }

        let mut acts: Vec<CloseAction> = Vec::new();
        let mut k: usize = n;
        while k > root + 1
            invariant
                n == nodes0.len(),
                root < n,
                root + 1 <= k <= n,
                flags@.len() == n,
                graph_well_formed(nodes0),
                forall|m: int| 0 <= m < n ==> flags@[m] == affected(nodes0, root as int, m),
                actions_down(nodes0, root as int, n - 1) == acts@ + actions_down(
                    nodes0,
                    root as int,
                    k - 1,
                ),
                self.nodes@ == closed_after(nodes0, root as int),
            decreases k,
        {
            k = k - 1;
            if flags[k] {
                let cause: CloseAction = match self.nodes[k].parent {
                    Some(p) => {
                        if flags[p] {
                            CloseAction::ParentCloseEvent(k)
                        } else {
                            CloseAction::PeerCloseEvent(k)
                        }
                    },
                    None => CloseAction::PeerCloseEvent(k),
                };
                proof {
                    assert(self.nodes@[k as int].parent == nodes0[k as int].parent);
                    assert(cause == cause_event(nodes0, root as int, k as int));
                }
                acts.push(cause);
                acts.push(CloseAction::ClosedEvent(k));
                proof {
                    assert(actions_down(nodes0, root as int, k as int) == seq![
                        cause_event(nodes0, root as int, k as int),
                        CloseAction::ClosedEvent(k),
                    ] + actions_down(nodes0, root as int, k - 1));
                    assert(acts@ + actions_down(nodes0, root as int, k - 1) =~= actions_down(
                        nodes0,
                        root as int,
                        n - 1,
                    ));
                }
            } else {
                proof {
                    assert(actions_down(nodes0, root as int, k as int) == actions_down(
                        nodes0,
                        root as int,
                        k - 1,
                    ));
                }
            }
        }
        proof {
            assert(actions_down(nodes0, root as int, (root + 1) - 1) =~= Seq::<
                CloseAction,
            >::empty());
            assert(acts@ =~= actions_down(nodes0, root as int, n - 1));
        }
        acts.push(CloseAction::ClosedEvent(root));
        if trigger == CloseTrigger::Local {
            acts.push(CloseAction::CloseRequest(root));
        }
        proof {
            assert(acts@ =~= close_actions(nodes0, root as int, trigger));
        }
        acts
    }
}

/// Every node after the subprocess died: all closed, nothing else
/// changed.
pub open spec fn all_closed(nodes: Seq<ResourceNode>) -> Seq<ResourceNode> {
    Seq::new(nodes.len(), |j: int| ResourceNode { closed: true, ..nodes[j] })
}

/// The events of a forced close of every resource up to index `j`, in
/// descending index order: each node still open fires its closed event,
/// and nothing is sent upstream because the remote side is gone.
pub open spec fn close_all_actions(nodes: Seq<ResourceNode>, j: int) -> Seq<CloseAction>
    decreases j + 1 when -1 <= j
{
    if j < 0 {
        Seq::empty()
    } else {
        (if !nodes[j].closed {
            seq![CloseAction::ClosedEvent(j as usize)]
        } else {
            Seq::empty()
        }) + close_all_actions(nodes, j - 1)
    }
}

impl Graph {
    /// Forcibly closes every resource of the session: the subprocess
    /// died, so every remote object is already gone. Each node still
    /// open fires its closed event, children before parents, and no
    /// close request goes upstream.
    pub fn close_all(&mut self) -> (acts: Vec<CloseAction>)
        requires
            graph_well_formed(old(self).nodes@),
        ensures
            graph_well_formed(final(self).nodes@),
            final(self).nodes@ == all_closed(old(self).nodes@),
            acts@ == close_all_actions(old(self).nodes@, old(self).nodes@.len() - 1),
    {
        let ghost nodes0 = self.nodes@;
        let n = self.nodes.len();
        let mut acts: Vec<CloseAction> = Vec::new();
        let mut k: usize = n;
        while k > 0
            invariant
                n == nodes0.len(),
                k <= n,
                graph_well_formed(nodes0),
                self.nodes@.len() == n,
                forall|m: int| 0 <= m < k ==> self.nodes@[m] == nodes0[m],
                forall|m: int|
                    k <= m < n ==> self.nodes@[m] == (ResourceNode {
                        closed: true,
                        ..nodes0[m]
                    }),
                close_all_actions(nodes0, n - 1) == acts@ + close_all_actions(nodes0, k - 1),
            decreases k,
        {
            k = k - 1;
            let node = self.nodes[k];
            if !node.closed {
                acts.push(CloseAction::ClosedEvent(k));
                proof {
                    assert(acts@ + close_all_actions(nodes0, k - 1) =~= close_all_actions(
                        nodes0,
                        n - 1,
                    ));
                }
                let mut updated = node;
                updated.closed = true;
                self.nodes.set(k, updated);
            } else {
                proof {
                    assert(self.nodes@[k as int] == (ResourceNode { closed: true, ..nodes0[k as int] }));
                }
            }
        }
        proof {
            assert(self.nodes@ =~= all_closed(nodes0));
            assert(acts@ + close_all_actions(nodes0, -1) =~= acts@);
        }
        acts
    }
}

/// Idempotence of close: the first close of an open node fires its
/// closed event exactly once; any further close of the same node, from
/// any trigger, changes no node and fires nothing. Concurrent close
/// calls race on an atomic flag, so they order as some sequence of
/// these transitions: one winner, and silence after it.
pub proof fn lemma_close_idempotent(
    nodes: Seq<ResourceNode>,
    root: int,
    t1: CloseTrigger,
    t2: CloseTrigger,
)
    requires
        graph_well_formed(nodes),
        0 <= root < nodes.len(),
        nodes.len() <= usize::MAX,
    ensures
        count_closed_events(close_actions(nodes, root, t1), root as usize) == if nodes[root].closed {
            0nat
        } else {
            1nat
        },
        closed_after(closed_after(nodes, root), root) =~= closed_after(nodes, root),
        close_actions(closed_after(nodes, root), root, t2) =~= Seq::<CloseAction>::empty(),
{
    let after = closed_after(nodes, root);
    lemma_count_empty(root as usize);
    if nodes[root].closed {
        assert(close_actions(nodes, root, t1) =~= Seq::<CloseAction>::empty());
    } else {
        let down = actions_down(nodes, root, nodes.len() - 1);
        let tail = if t1 == CloseTrigger::Local {
            seq![CloseAction::CloseRequest(root as usize)]
        } else {
            Seq::<CloseAction>::empty()
        };
        lemma_actions_down_facts(nodes, root, nodes.len() - 1, root as usize);
        lemma_count_concat(down, seq![CloseAction::ClosedEvent(root as usize)], root as usize);
        lemma_count_concat(
            down + seq![CloseAction::ClosedEvent(root as usize)],
            tail,
            root as usize,
        );
        lemma_count_one(CloseAction::ClosedEvent(root as usize), root as usize);
        if t1 == CloseTrigger::Local {
            lemma_count_one(CloseAction::CloseRequest(root as usize), root as usize);
        }
    }
    assert(after[root].closed);
    assert forall|j: int| 0 <= j < after.len() implies !affected(after, root, j) by {
        lemma_affected_root_closed(after, root, j);
    }
    assert(closed_after(after, root) =~= after);
    assert(close_actions(after, root, t2) =~= Seq::<CloseAction>::empty());
}

/// Close ordering law: everything a close cascades into fires before
/// the closed node's own closed event, and the upstream close request,
/// sent only on a local close, comes last of all. Cascade-closed
/// descendants therefore reach their closed state before the node
/// reports itself closed.
pub proof fn lemma_cascade_precedes_own_closed_event(
    nodes: Seq<ResourceNode>,
    root: int,
    trigger: CloseTrigger,
)
    requires
        graph_well_formed(nodes),
        0 <= root < nodes.len(),
        !nodes[root].closed,
    ensures
        ({
            let acts = close_actions(nodes, root, trigger);
            let cascade = actions_down(nodes, root, nodes.len() - 1);
            &&& acts.len() == cascade.len() + (if trigger == CloseTrigger::Local {
                2int
            } else {
                1int
            })
            &&& forall|i: int| 0 <= i < cascade.len() ==> acts[i] == cascade[i]
            &&& acts[cascade.len() as int] == CloseAction::ClosedEvent(root as usize)
            &&& trigger == CloseTrigger::Local ==> acts[cascade.len() as int + 1]
                == CloseAction::CloseRequest(root as usize)
        }),
{
    let acts = close_actions(nodes, root, trigger);
    let cascade = actions_down(nodes, root, nodes.len() - 1);
    let tail = if trigger == CloseTrigger::Local {
        seq![CloseAction::CloseRequest(root as usize)]
    } else {
        Seq::<CloseAction>::empty()
    };
    assert(acts =~= cascade + seq![CloseAction::ClosedEvent(root as usize)] + tail);
}

/// Cascade law for a parent and a child that was never closed on its
/// own: closing the parent closes the child too, the child's closed
/// event fires locally exactly once, and no close request for the child
/// ever goes upstream — only the parent's own request does, and only on
/// a local close.
pub proof fn lemma_parent_close_reaches_child(
    nodes: Seq<ResourceNode>,
    root: int,
    child: int,
    trigger: CloseTrigger,
)
    requires
        graph_well_formed(nodes),
        0 <= root < nodes.len(),
        0 <= child < nodes.len(),
        nodes.len() <= usize::MAX,
        nodes[child].parent == Some(root as usize),
        !nodes[root].closed,
        !nodes[child].closed,
    ensures
        closed_after(nodes, root)[child].closed,
        count_closed_events(close_actions(nodes, root, trigger), child as usize) == 1,
        !has_close_request(close_actions(nodes, root, trigger), child as usize),
{
    assert(root < child);
    assert(affected(nodes, root, child)) by {
        assert(affected(nodes, root, root));
    }
    let down = actions_down(nodes, root, nodes.len() - 1);
    let tail = if trigger == CloseTrigger::Local {
        seq![CloseAction::CloseRequest(root as usize)]
    } else {
        Seq::<CloseAction>::empty()
    };
    lemma_actions_down_facts(nodes, root, nodes.len() - 1, child as usize);
    lemma_count_concat(down, seq![CloseAction::ClosedEvent(root as usize)], child as usize);
    lemma_count_concat(down + seq![CloseAction::ClosedEvent(root as usize)], tail, child as usize);
    lemma_request_concat(down, seq![CloseAction::ClosedEvent(root as usize)], child as usize);
    lemma_request_concat(
        down + seq![CloseAction::ClosedEvent(root as usize)],
        tail,
        child as usize,
    );
    lemma_count_empty(child as usize);
    lemma_count_one(CloseAction::ClosedEvent(root as usize), child as usize);
    if trigger == CloseTrigger::Local {
        lemma_count_one(CloseAction::CloseRequest(root as usize), child as usize);
    }
}

/// Cascade law for a producer and a consumer bound to it: closing the
/// producer closes the bound consumer too, the consumer's closed event
/// fires locally exactly once, and no close request for the consumer
/// ever goes upstream.
pub proof fn lemma_producer_close_reaches_bound_consumer(
    nodes: Seq<ResourceNode>,
    producer: int,
    consumer: int,
    trigger: CloseTrigger,
)
    requires
        graph_well_formed(nodes),
        0 <= producer < nodes.len(),
        0 <= consumer < nodes.len(),
        nodes.len() <= usize::MAX,
        nodes[consumer].peer == Some(producer as usize),
        !nodes[producer].closed,
        !nodes[consumer].closed,
    ensures
        closed_after(nodes, producer)[consumer].closed,
        count_closed_events(close_actions(nodes, producer, trigger), consumer as usize) == 1,
        !has_close_request(close_actions(nodes, producer, trigger), consumer as usize),
{
    assert(producer < consumer);
    assert(affected(nodes, producer, consumer)) by {
        assert(affected(nodes, producer, producer));
    }
    let down = actions_down(nodes, producer, nodes.len() - 1);
    let tail = if trigger == CloseTrigger::Local {
        seq![CloseAction::CloseRequest(producer as usize)]
    } else {
        Seq::<CloseAction>::empty()
    };
    lemma_actions_down_facts(nodes, producer, nodes.len() - 1, consumer as usize);
    lemma_count_concat(down, seq![CloseAction::ClosedEvent(producer as usize)], consumer as usize);
    lemma_count_concat(
        down + seq![CloseAction::ClosedEvent(producer as usize)],
        tail,
        consumer as usize,
    );
    lemma_request_concat(
        down,
        seq![CloseAction::ClosedEvent(producer as usize)],
        consumer as usize,
    );
    lemma_request_concat(
        down + seq![CloseAction::ClosedEvent(producer as usize)],
        tail,
        consumer as usize,
    );
    lemma_count_empty(consumer as usize);
    lemma_count_one(CloseAction::ClosedEvent(producer as usize), consumer as usize);
    if trigger == CloseTrigger::Local {
        lemma_count_one(CloseAction::CloseRequest(producer as usize), consumer as usize);
    }
}

} // verus!
