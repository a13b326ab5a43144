//! The capability traits a domain type implements to take part in a task: as
//! the input a task reads or as the output it produces, and the task itself —
//! a pure mapping from its input type to its output type.

use vstd::prelude::*;
use crate::store::{DataBase, DbKey};

verus! {

/// A task input: a value that can be reconstructed purely from the store, and
/// that declares the key identities it depends on.
pub trait TaskInput<Db: DataBase>: DbKey<Db::Erased> {
    /// On which store contents `from_db` is defined.
    spec fn reconstructible(m: Map<u64, Db::Erased>) -> bool;

    /// The input value a given store reconstructs to: `from_db` reads the
    /// store and nothing else.
    spec fn reconstruct(m: Map<u64, Db::Erased>) -> Self;

    /// The key identities this input depends on.
    spec fn spec_deps() -> Seq<u64>;

    /// Reconstructs the input from the store.
    fn from_db(db: &Db) -> (r: Self)
        requires
            Self::reconstructible(db.model()),
        ensures
            r == Self::reconstruct(db.model()),
    ;

    /// The key identities this input depends on.
    fn dep_types() -> (r: Vec<u64>)
        ensures
            r@ == Self::spec_deps(),
    ;
}

/// A task output: a value that knows how to persist itself into the store,
/// and that declares the key identities it expects to exist downstream.
pub trait TaskOutput<Db: DataBase>: DbKey<Db::Erased> {
    /// What persisting a value of this type does to the store contents: the
    /// whole effect of `to_db` on the store.
    spec fn persist_effect(m: Map<u64, Db::Erased>, value: Self) -> Map<u64, Db::Erased>;

    /// The key identities this output expects to exist downstream.
    spec fn spec_outs() -> Seq<u64>;

    /// Persists the value into the store.
    fn to_db(&self, db: &mut Db)
        ensures
            final(db).model() == Self::persist_effect(old(db).model(), *self),
    ;

    /// The key identities this output expects to exist downstream.
    fn out_types() -> (r: Vec<u64>)
        ensures
            r@ == Self::spec_outs(),
    ;
}

/// A task: a pure mapping from one input-capable type to one output-capable
/// type.  Store interaction happens exclusively through the input's
/// reconstruction and the output's persistence, never in the mapping itself.
pub trait Task<Db: DataBase>: Sized {
    type Input: TaskInput<Db>;
    type Output: TaskOutput<Db>;

    /// The mapping the task computes.
    spec fn spec_execute(input: Self::Input) -> Self::Output;

    /// Computes the task's output from its input alone.
    fn execute(input: Self::Input) -> (r: Self::Output)
        ensures
            r == Self::spec_execute(input),
    ;
}

/// A task output persists itself the canonical way: its whole effect on the
/// store is one write of itself under its own key identity.
pub open spec fn self_persisting<Db: DataBase, O: TaskOutput<Db> + DbKey<Db::Erased, Value = O>>() -> bool {
    forall|m: Map<u64, Db::Erased>, v: O| #[trigger] O::persist_effect(m, v)
        == m.insert(O::spec_id(), O::wrap_spec(v))
}

/// The trivial "no value" input: needs nothing from the store and depends on
/// no key identity.
impl<Db: DataBase> TaskInput<Db> for () {
    open spec fn reconstructible(m: Map<u64, Db::Erased>) -> bool {
        true
    }

    open spec fn reconstruct(m: Map<u64, Db::Erased>) -> () {
        ()
    }

    open spec fn spec_deps() -> Seq<u64> {
        Seq::empty()
    }

    fn from_db(_db: &Db) -> () {
        ()
    }

    fn dep_types() -> Vec<u64> {
        Vec::new()
    }
}

/// The trivial "no value" output: leaves the store unchanged and expects no
/// downstream key identity.
impl<Db: DataBase> TaskOutput<Db> for () {
    open spec fn persist_effect(m: Map<u64, Db::Erased>, value: ()) -> Map<u64, Db::Erased> {
        m
    }

    open spec fn spec_outs() -> Seq<u64> {
        Seq::empty()
    }

    fn to_db(&self, _db: &mut Db) {
    }

    fn out_types() -> Vec<u64> {
        Vec::new()
    }
}

} // verus!
