use vstd::prelude::*;

use crate::db::{
    removal_leaves_the_others, HandlerDatabase, HandlerDatabaseView, MailboxView,
};

verus! {

/// Has the shutdown come to its end?
#[derive(Debug, Clone, Copy, PartialEq, Eq, Structural)]
pub enum ShutdownState {
    /// All handlers are gone.
    Ready,

    /// There still are handlers; ask again.
    Pending,
}

/// Graceful shutdown for EMS
///
/// Relies on registered handlers in [`HandlerDatabase`], so you must ensure, that all handlers are
/// removed correctly using [`remove_handler`].
///
/// [`remove_handler`]: HandlerDatabase::remove_handler
pub struct Shutdown<'d> {
    /// Database, whose handlers have to end.
    pub database: &'d HandlerDatabase,
}

impl<'d> Shutdown<'d> {
    /// Check if the shutdown is over, which it is as soon as there is no handler in the database.
    pub fn poll(&self) -> (state: ShutdownState)
        ensures
            state == ShutdownState::Ready <==> self.database@.handlers == (Map::<u128, MailboxView>::empty()),
    {
        if self.database.is_empty() {
            ShutdownState::Ready
        } else {
            ShutdownState::Pending
        }
    }
}

impl<'d> From<&'d HandlerDatabase> for Shutdown<'d> {
    fn from(database: &'d HandlerDatabase) -> (shutdown: Self) {
        Shutdown { database }
    }
}

impl<'d> vstd::std_specs::convert::FromSpecImpl<&'d HandlerDatabase> for Shutdown<'d> {
    open spec fn obeys_from_spec() -> bool {
        true
    }

    open spec fn from_spec(database: &'d HandlerDatabase) -> Self {
        Shutdown { database }
    }
}

/// A shutdown waits for all handlers, and for nothing else: it is over as soon as every handler of
/// the database was removed, and not before.
pub proof fn shutdown_waits_for_all_handlers(database: HandlerDatabaseView, removed: Seq<u128>)
    ensures
        database.without_handlers(removed).handlers == (Map::<u128, MailboxView>::empty())
            <==> forall|id: u128| #[trigger]
            database.handlers.contains_key(id) ==> removed.contains(id),
{
    removal_leaves_the_others(database, removed);
    let left = database.without_handlers(removed).handlers;
    if forall|id: u128| #[trigger] database.handlers.contains_key(id) ==> removed.contains(id) {
        assert forall|id: u128| !left.contains_key(id) by {
            assert(left.contains_key(id) <==> database.handlers.contains_key(id)
                && !removed.contains(id));
        }
        assert(left =~= Map::empty());
    }
    if left == Map::<u128, MailboxView>::empty() {
        assert forall|id: u128| #[trigger]
            database.handlers.contains_key(id) implies removed.contains(id) by {
            assert(!left.contains_key(id));
        }
    }
}

} // verus!
