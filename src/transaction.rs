//! The transaction policy: a failed unit of work is rolled back or
//! committed according to the disposition its error carries.

use vstd::prelude::*;
use crate::errors::ErrorResponder;
use crate::store::Store;

verus! {

/// Whether this outcome of a unit of work discards its writes.
pub open spec fn rolls_back<T>(res: Result<T, ErrorResponder>) -> bool {
    res is Err && res->Err_0.body().rollback
}

/// Ends a unit of work that began when the store was `snapshot`: on an error
/// that asks for it, the store goes back to `snapshot`; otherwise the writes
/// stay. The outcome is handed back as it is.
pub fn finish_transaction<T>(conn: &mut Store, snapshot: Store, res: Result<T, ErrorResponder>) -> (r:
    Result<T, ErrorResponder>)
    ensures
        r == res,
        rolls_back(res) ==> final(conn)@ == snapshot@,
        !rolls_back(res) ==> final(conn)@ == old(conn)@,
{
    let rollback = match &res {
        Ok(_) => false,
        Err(e) => e.do_rollback(),
    };
    if rollback {
        *conn = snapshot;
    }
    res
}

/// Runs the unit of work `f` on the store as one transaction and returns
/// what `f` returned: its writes are discarded when it fails with an error
/// that asks for a rollback, and kept otherwise (on success, and on a failure
/// that commits).
pub fn err_transaction<T, F>(conn: &mut Store, f: F) -> (r: Result<T, ErrorResponder>) where
    F: FnOnce(&mut Store) -> Result<T, ErrorResponder>,

    requires
        forall|s: &mut Store| #[trigger] f.requires((s,)),
    ensures
        rolls_back(r) ==> final(conn)@ == old(conn)@,
        exists|s: &mut Store|
            #[trigger] f.ensures((s,), r) && (*s)@ == old(conn)@ && (!rolls_back(r) ==> (*final(s))@ == final(conn)@),
{
    let snapshot = conn.snapshot();
    let res = f(conn);
    finish_transaction(conn, snapshot, res)
}

}
