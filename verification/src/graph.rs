//! The execution graph: owns the store and a record of node/edge topology
//! over key identities, and runs one task at a time against the store.
//!
//! The topology lives in a `petgraph` directed graph whose node weights are
//! key identities.  The graph is kept behind a small set of trusted wrappers;
//! its node weights, in insertion order, and its edge count are named by the
//! two specification functions below, and every wrapper's contract is stated
//! over those names, as `petgraph`'s source shows.

use vstd::prelude::*;
use crate::store::{DataBase, DbKey};
use crate::task::{self_persisting, Task, TaskInput, TaskOutput};

verus! {

broadcast use
    vstd::seq_lib::lemma_seq_contains_after_push,
    vstd::seq_lib::lemma_seq_concat_contains_all_elements,
    vstd::seq_lib::lemma_seq_take_contains,
    vstd::seq_lib::lemma_seq_empty_contains_nothing;

/// A dependency-graph misconfiguration, found while a task is registered or
/// executed.  Both violations are programmer errors: the registration entry
/// points treat them as unrecoverable, and the checked variant reports them.
#[derive(Clone, Copy, Debug, PartialEq, Eq, Structural)]
pub enum GraphError {
    /// A key identity declared as an input dependency carries no node.
    MissingDependency(u64),
    /// A key identity declared as a downstream output is already a node.
    DuplicateOutputClaim(u64),
}

/// Every key identity of `deps` is already carried by some node of `nodes`.
pub open spec fn deps_satisfied(nodes: Seq<u64>, deps: Seq<u64>) -> bool {
    forall|i: int| 0 <= i < deps.len() ==> nodes.contains(#[trigger] deps[i])
}

/// No key identity of `outs` is carried by a node of `nodes` already, nor
/// claimed twice within `outs` itself.
pub open spec fn outputs_unclaimed(nodes: Seq<u64>, outs: Seq<u64>) -> bool {
    forall|k: int| 0 <= k < outs.len() ==> !(nodes + #[trigger] outs.take(k)).contains(outs[k])
}

#[verifier::external_type_specification]
#[verifier::external_body]
pub struct ExDirected(petgraph::Directed);

#[verifier::external_type_specification]
#[verifier::external_body]
#[verifier::reject_recursive_types(N)]
#[verifier::reject_recursive_types(E)]
#[verifier::reject_recursive_types(Ty)]
#[verifier::reject_recursive_types(Ix)]
pub struct ExGraph<N, E, Ty, Ix>(petgraph::graph::Graph<N, E, Ty, Ix>);

/// The node weights of the topology graph, in the order the nodes were added.
pub uninterp spec fn graph_nodes(g: petgraph::graph::DiGraph<u64, ()>) -> Seq<u64>;

/// How many edges the topology graph holds.
pub uninterp spec fn graph_edge_count(g: petgraph::graph::DiGraph<u64, ()>) -> int;

/// Relies on `petgraph::graph::Graph::new`: the new graph has no node and no
/// edge.
#[verifier::external_body]
fn graph_new() -> (g: petgraph::graph::DiGraph<u64, ()>)
    ensures
        graph_nodes(g) == Seq::<u64>::empty(),
        graph_edge_count(g) == 0,
{
    petgraph::graph::DiGraph::new()
}

/// Relies on `petgraph::graph::Graph::node_count`: the number of nodes.
#[verifier::external_body]
fn graph_node_count(g: &petgraph::graph::DiGraph<u64, ()>) -> (r: usize)
    ensures
        r == graph_nodes(*g).len(),
{
    g.node_count()
}

/// Relies on `petgraph`'s `Index` impl for `Graph`: the weight of the node
/// with index `i`; node indices count up from zero in insertion order.
#[verifier::external_body]
fn graph_node_weight(g: &petgraph::graph::DiGraph<u64, ()>, i: usize) -> (r: u64)
    requires
        i < graph_nodes(*g).len(),
    ensures
        r == graph_nodes(*g)[i as int],
{
    g[petgraph::graph::NodeIndex::new(i)]
}

/// Relies on `petgraph::graph::Graph::add_node`: appends a node with the
/// given weight and returns its index, the old node count.  It panics only
/// when the node count has reached the index type's maximum, which the
/// precondition rules out.
#[verifier::external_body]
fn graph_add_node(g: &mut petgraph::graph::DiGraph<u64, ()>, w: u64) -> (r: usize)
    requires
        graph_nodes(*old(g)).len() < 0xFFFF_FFFF,
    ensures
        graph_nodes(*final(g)) == graph_nodes(*old(g)).push(w),
        graph_edge_count(*final(g)) == graph_edge_count(*old(g)),
        r == graph_nodes(*old(g)).len(),
{
    g.add_node(w).index()
}

/// Relies on `petgraph::graph::Graph::add_edge`: adds one directed edge from
/// node `a` to node `b` and leaves the nodes as they were.  It panics only on
/// an endpoint out of bounds or when the edge count has reached the index
/// type's maximum, which the preconditions rule out.
#[verifier::external_body]
fn graph_add_edge(g: &mut petgraph::graph::DiGraph<u64, ()>, a: usize, b: usize)
    requires
        a < graph_nodes(*old(g)).len(),
        b < graph_nodes(*old(g)).len(),
        graph_edge_count(*old(g)) < 0xFFFF_FFFF,
    ensures
        graph_nodes(*final(g)) == graph_nodes(*old(g)),
        graph_edge_count(*final(g)) == graph_edge_count(*old(g)) + 1,
{
    g.add_edge(
        petgraph::graph::NodeIndex::new(a),
        petgraph::graph::NodeIndex::new(b),
        (),
    );
}

/// Whether `v[..upto]` holds `x`.
fn prefix_has(v: &Vec<u64>, upto: usize, x: u64) -> (r: bool)
    requires
        upto <= v@.len(),
    ensures
        r == v@.take(upto as int).contains(x),
{
    let mut j: usize = 0;
    while j < upto
        invariant
            j <= upto,
            upto <= v@.len(),
            forall|l: int| 0 <= l < j ==> v@[l] != x,
        decreases upto - j,
    {
        if v[j] == x {
            proof {
                assert(v@.take(upto as int)[j as int] == x);
            }
            return true;
        }
        j += 1;
    }
    false
}

/// A frozen dependency topology together with the store it executes against.
pub struct ExecutionGraph<Db: DataBase> {
    tasks: petgraph::graph::DiGraph<u64, ()>,
    db: Db,
}

impl<Db: DataBase> ExecutionGraph<Db> {
    /// The key identities registered as nodes, in the order they were added.
    pub closed spec fn nodes(&self) -> Seq<u64> {
        graph_nodes(self.tasks)
    }

    /// How many dependency edges have been recorded.
    pub closed spec fn edge_count(&self) -> int {
        graph_edge_count(self.tasks)
    }

    /// The contents of the owned store.
    pub closed spec fn db_model(&self) -> Map<u64, Db::Erased> {
        self.db.model()
    }

    /// Creates a graph with no topology over the given store.
    pub fn new(db: Db) -> (r: Self)
        ensures
            r.nodes() == Seq::<u64>::empty(),
            r.edge_count() == 0,
            r.db_model() == db.model(),
    {
        ExecutionGraph { db, tasks: graph_new() }
    }

    /// A read-only view of the owned store.
    pub fn db(&self) -> (r: &Db)
        ensures
            r.model() == self.db_model(),
    {
        &self.db
    }

    /// Looks for a node carrying the key identity `ty`; returns the index of
    /// the first one.
    pub(crate) fn contains_node(&self, ty: u64) -> (r: Option<usize>)
        ensures
            r is Some <==> self.nodes().contains(ty),
            r matches Some(i) ==> i < self.nodes().len() && self.nodes()[i as int] == ty,
    {
        let n = graph_node_count(&self.tasks);
        let mut i: usize = 0;
        while i < n
            invariant
                n == self.nodes().len(),
                i <= n,
                forall|j: int| 0 <= j < i ==> self.nodes()[j] != ty,
            decreases n - i,
        {
            if graph_node_weight(&self.tasks, i) == ty {
                return Some(i);
            }
            i += 1;
        }
        None
    }

    /// Runs one task against the store: re-checks that every key identity the
    /// task's input depends on is present as a node of the frozen topology,
    /// reconstructs the input from the store, applies the task's pure mapping,
    /// persists the output into the store, and returns it.
    ///
    /// A missing dependency is a programmer error and aborts the caller, so
    /// the precondition rules it out; the topology is never changed.
    pub fn execute<T: Task<Db>>(&mut self) -> (r: T::Output)
        requires
            forall|i: int| 0 <= i < T::Input::spec_deps().len()
                ==> old(self).nodes().contains(#[trigger] T::Input::spec_deps()[i]),
            T::Input::reconstructible(old(self).db_model()),
        ensures
            final(self).nodes() == old(self).nodes(),
            final(self).edge_count() == old(self).edge_count(),
            r == T::spec_execute(T::Input::reconstruct(old(self).db_model())),
            final(self).db_model() == T::Output::persist_effect(old(self).db_model(), r),
    {
        let deps = T::Input::dep_types();
        let n = deps.len();
        let mut i: usize = 0;
        while i < n
            invariant
                deps@ == T::Input::spec_deps(),
                n == deps@.len(),
                i <= n,
                *self == *old(self),
                forall|k: int| 0 <= k < T::Input::spec_deps().len()
                    ==> self.nodes().contains(#[trigger] T::Input::spec_deps()[k]),
            decreases n - i,
        {
            match self.contains_node(deps[i]) {
                Some(_) => {}
                None => {
                    return vstd::pervasive::unreached();
                }
            }
            i += 1;
        }
        let input = T::Input::from_db(&self.db);
        let output = T::execute(input);
        output.to_db(&mut self.db);
        output
    }
}

/// Executing a task whose output persists itself leaves that output readable
/// back: `execute` changes the store so that, under the output's key
/// identity, it holds exactly the value `execute` returned.
pub proof fn lemma_execute_then_get<Db: DataBase, T: Task<Db>>(m: Map<u64, Db::Erased>) where
    T::Output: DbKey<Db::Erased, Value = T::Output>,
    requires
        self_persisting::<Db, T::Output>(),
    ensures
        ({
            let out = T::spec_execute(T::Input::reconstruct(m));
            let post = T::Output::persist_effect(m, out);
            &&& post.contains_key(T::Output::spec_id())
            &&& T::Output::unwrap_spec(post[T::Output::spec_id()]) == Some(out)
        }),
{
    let out = T::spec_execute(T::Input::reconstruct(m));
    T::Output::lemma_wrap_round_trip(out);
}

/// Accumulates seed inputs and task registrations over a store, enforcing
/// that every declared input dependency is already wired and that no
/// downstream output identity is claimed twice, then freezes into an
/// [`ExecutionGraph`].
pub struct ExecutionGraphBuilder<Db: DataBase> {
    graph: ExecutionGraph<Db>,
}

impl<Db: DataBase> ExecutionGraphBuilder<Db> {
    /// The key identities registered as nodes so far, in order.
    pub closed spec fn nodes(&self) -> Seq<u64> {
        self.graph.nodes()
    }

    /// How many dependency edges have been recorded so far.
    pub closed spec fn edge_count(&self) -> int {
        self.graph.edge_count()
    }

    /// The contents of the store being seeded.
    pub closed spec fn db_model(&self) -> Map<u64, Db::Erased> {
        self.graph.db_model()
    }

    /// Starts building over the given store, with no topology yet.
    pub fn new(db: Db) -> (r: Self)
        ensures
            r.nodes() == Seq::<u64>::empty(),
            r.edge_count() == 0,
            r.db_model() == db.model(),
    {
        ExecutionGraphBuilder { graph: ExecutionGraph::new(db) }
    }

    /// Seeds the store with `value` under `T`'s key identity.  No topology
    /// effect.
    pub fn add_input<T: DbKey<Db::Erased>>(&mut self, value: T::Value) -> (r: &mut Self)
        ensures
            r.db_model() == old(self).db_model().insert(T::spec_id(), T::wrap_spec(value)),
            r.nodes() == old(self).nodes(),
            r.edge_count() == old(self).edge_count(),
            *final(self) == *final(r),
    {
        self.graph.db.put::<T>(value);
        self
    }

    /// Registers a task: adds a node for its input's key identity, an edge to
    /// it from the node of each identity the input depends on, a node for its
    /// output's key identity, and a fresh node (with an edge from the output
    /// node) for each identity the output declares as a downstream
    /// expectation.  The store is not touched.
    ///
    /// A missing dependency or an already-claimed downstream identity is a
    /// programmer error and aborts the caller, so the preconditions rule both
    /// out; the recorded edges are never traversed by execution.  The length
    /// bounds are what the topology's index type forces.
    pub fn add_task<T: Task<Db>>(&mut self) -> (r: &mut Self)
        requires
            deps_satisfied(
                old(self).nodes().push(T::Input::spec_id()),
                T::Input::spec_deps(),
            ),
            outputs_unclaimed(
                old(self).nodes().push(T::Input::spec_id()).push(T::Output::spec_id()),
                T::Output::spec_outs(),
            ),
            old(self).nodes().len() + T::Output::spec_outs().len() + 2 <= 0xFFFF_FFFF,
            old(self).edge_count() + T::Input::spec_deps().len()
                + T::Output::spec_outs().len() <= 0xFFFF_FFFF,
        ensures
            r.nodes() == old(self).nodes().push(T::Input::spec_id()).push(T::Output::spec_id())
                + T::Output::spec_outs(),
            r.edge_count() == old(self).edge_count() + T::Input::spec_deps().len()
                + T::Output::spec_outs().len(),
            r.db_model() == old(self).db_model(),
            *final(self) == *final(r),
    {
        let in_node = graph_add_node(&mut self.graph.tasks, T::Input::key_id());
        let deps = T::Input::dep_types();
        let n = deps.len();
        let mut i: usize = 0;
        while i < n
            invariant
                deps@ == T::Input::spec_deps(),
                n == deps@.len(),
                i <= n,
                self.graph.nodes() == old(self).nodes().push(T::Input::spec_id()),
                in_node < self.graph.nodes().len(),
                self.graph.edge_count() == old(self).edge_count() + i,
                self.graph.db_model() == old(self).db_model(),
                deps_satisfied(self.graph.nodes(), T::Input::spec_deps()),
                old(self).edge_count() + T::Input::spec_deps().len()
                    + T::Output::spec_outs().len() <= 0xFFFF_FFFF,
            decreases n - i,
        {
            match self.graph.contains_node(deps[i]) {
                Some(dep_node) => {
                    graph_add_edge(&mut self.graph.tasks, dep_node, in_node);
                }
                None => {
                    return vstd::pervasive::unreached();
                }
            }
            i += 1;
        }
        let out_node = graph_add_node(&mut self.graph.tasks, T::Output::key_id());
        let ghost base = old(self).nodes().push(T::Input::spec_id()).push(T::Output::spec_id());
        let outs = T::Output::out_types();
        let m = outs.len();
        let mut k: usize = 0;
        while k < m
            invariant
                outs@ == T::Output::spec_outs(),
                m == outs@.len(),
                k <= m,
                self.graph.nodes() == base + outs@.take(k as int),
                base == old(self).nodes().push(T::Input::spec_id()).push(T::Output::spec_id()),
                out_node < base.len(),
                self.graph.edge_count() == old(self).edge_count()
                    + T::Input::spec_deps().len() + k,
                self.graph.db_model() == old(self).db_model(),
                outputs_unclaimed(base, outs@),
                base.len() + outs@.len() <= 0xFFFF_FFFF,
                old(self).edge_count() + T::Input::spec_deps().len()
                    + T::Output::spec_outs().len() <= 0xFFFF_FFFF,
            decreases m - k,
        {
            proof {
                assert(outs@.take(k as int).push(outs@[k as int]) =~= outs@.take(k as int + 1));
            }
            match self.graph.contains_node(outs[k]) {
                Some(_) => {
                    return vstd::pervasive::unreached();
                }
                None => {
                    let out_ty_node = graph_add_node(&mut self.graph.tasks, outs[k]);
                    graph_add_edge(&mut self.graph.tasks, out_node, out_ty_node);
                }
            }
            k += 1;
        }
        proof {
            assert(outs@.take(m as int) =~= outs@);
        }
        self
    }

    /// As [`Self::add_task`], but reports a violated registration invariant
    /// as a value instead of treating it as a programmer error: exactly when
    /// some declared input dependency carries no node, the task is not
    /// registered and the violation comes back as
    /// [`GraphError::MissingDependency`]; exactly when the dependencies are
    /// wired but some declared downstream identity is already claimed, as
    /// [`GraphError::DuplicateOutputClaim`].  On a violation the builder is
    /// left untouched.
    pub fn try_add_task<T: Task<Db>>(&mut self) -> (r: Result<(), GraphError>)
        requires
            old(self).nodes().len() + T::Output::spec_outs().len() + 2 <= 0xFFFF_FFFF,
            old(self).edge_count() + T::Input::spec_deps().len()
                + T::Output::spec_outs().len() <= 0xFFFF_FFFF,
        ensures
            r is Ok <==> {
                &&& deps_satisfied(
                    old(self).nodes().push(T::Input::spec_id()),
                    T::Input::spec_deps(),
                )
                &&& outputs_unclaimed(
                    old(self).nodes().push(T::Input::spec_id()).push(T::Output::spec_id()),
                    T::Output::spec_outs(),
                )
            },
            r is Ok ==> final(self).nodes() == old(self).nodes().push(T::Input::spec_id())
                .push(T::Output::spec_id()) + T::Output::spec_outs()
                && final(self).edge_count() == old(self).edge_count()
                    + T::Input::spec_deps().len() + T::Output::spec_outs().len()
                && final(self).db_model() == old(self).db_model(),
            r matches Err(e) ==> *final(self) == *old(self) && match e {
                GraphError::MissingDependency(d) => T::Input::spec_deps().contains(d)
                    && !old(self).nodes().push(T::Input::spec_id()).contains(d),
                GraphError::DuplicateOutputClaim(t) => deps_satisfied(
                    old(self).nodes().push(T::Input::spec_id()),
                    T::Input::spec_deps(),
                ) && exists|k: int| 0 <= k < T::Output::spec_outs().len()
                    && #[trigger] T::Output::spec_outs()[k] == t
                    && (old(self).nodes().push(T::Input::spec_id()).push(T::Output::spec_id())
                        + T::Output::spec_outs().take(k)).contains(t),
            },
    {
        let in_key = T::Input::key_id();
        let out_key = T::Output::key_id();
        let deps = T::Input::dep_types();
        let n = deps.len();
        let mut i: usize = 0;
        while i < n
            invariant
                deps@ == T::Input::spec_deps(),
                n == deps@.len(),
                i <= n,
                *self == *old(self),
                in_key == T::Input::spec_id(),
                forall|l: int| 0 <= l < i ==> old(self).nodes().push(T::Input::spec_id())
                    .contains(#[trigger] deps@[l]),
            decreases n - i,
        {
            let d = deps[i];
            let mut found = d == in_key;
            if !found {
                found = self.graph.contains_node(d).is_some();
            }
            if !found {
                return Err(GraphError::MissingDependency(d));
            }
            i += 1;
        }
        let outs = T::Output::out_types();
        let m = outs.len();
        let ghost base = old(self).nodes().push(T::Input::spec_id())
            .push(T::Output::spec_id());
        let mut k: usize = 0;
        while k < m
            invariant
                outs@ == T::Output::spec_outs(),
                m == outs@.len(),
                k <= m,
                *self == *old(self),
                in_key == T::Input::spec_id(),
                out_key == T::Output::spec_id(),
                base == old(self).nodes().push(T::Input::spec_id())
                    .push(T::Output::spec_id()),
                deps_satisfied(
                    old(self).nodes().push(T::Input::spec_id()),
                    T::Input::spec_deps(),
                ),
                forall|l: int| 0 <= l < k
                    ==> !(base + T::Output::spec_outs().take(l))
                        .contains(#[trigger] outs@[l]),
            decreases m - k,
        {
            let t = outs[k];
            let mut claimed = t == in_key || t == out_key;
            if !claimed {
                claimed = self.graph.contains_node(t).is_some();
            }
            if !claimed {
                claimed = prefix_has(&outs, k, t);
            }
            if claimed {
                proof {
                    assert((base + T::Output::spec_outs().take(k as int)).contains(t));
                }
                return Err(GraphError::DuplicateOutputClaim(t));
            }
            k += 1;
        }
        proof {
            assert(outputs_unclaimed(base, T::Output::spec_outs()));
        }
        self.add_task::<T>();
        Ok(())
    }

    /// Freezes the accumulated topology and hands over the store.
    pub fn build(self) -> (r: ExecutionGraph<Db>)
        ensures
            r.nodes() == self.nodes(),
            r.edge_count() == self.edge_count(),
            r.db_model() == self.db_model(),
    {
        self.graph
    }
}

} // verus!
