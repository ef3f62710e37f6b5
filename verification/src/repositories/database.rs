//! Reading what the database answers: a page of rows, or the first row that
//! failed to read; where the next page starts; and a counter that may be
//! absent. Running the statements is the caller's.
use crate::errors::RepositoryResult;
use crate::models::user::{CleannedUserModel, PaginatedUsersModel};
use vstd::prelude::*;

verus! {

/// Whether a paged query has more pages after the one read, and from where
/// the next one starts, if the driver gives that as bytes.
#[derive(Debug)]
pub enum PageFlow {
    Finished,
    More(Option<Vec<u8>>),
}

/// The rows read, in order, or the error of the first row that failed.
pub fn collect_rows<T, E>(rows: Vec<Result<T, E>>) -> (res: Result<Vec<T>, E>)
    ensures
        res is Ok <==> forall|i: int| 0 <= i < rows@.len() ==> rows@[i] is Ok,
        res matches Ok(v) ==> v@.len() == rows@.len() && forall|i: int|
            0 <= i < rows@.len() ==> rows@[i] == Ok::<T, E>(#[trigger] v@[i]),
        res matches Err(e) ==> exists|k: int|
            0 <= k < rows@.len() && rows@[k] == Err::<T, E>(e) && forall|i: int|
                0 <= i < k ==> (#[trigger] rows@[i]) is Ok,
{
    let ghost all = rows@;
    let mut rest = rows;
    let mut out: Vec<T> = Vec::new();
    while rest.len() > 0
        invariant
            all == rows@,
            out@.len() + rest@.len() == all.len(),
            rest@ == all.skip(out@.len() as int),
            forall|i: int| 0 <= i < out@.len() ==> all[i] == Ok::<T, E>(#[trigger] out@[i]),
        decreases rest@.len(),
    {
        let ghost k = out@.len() as int;
        let r = rest.remove(0);
        assert(all[k] == r);
        match r {
            Ok(v) => {
                out.push(v);
                assert(rest@ =~= all.skip(out@.len() as int));
            },
            Err(e) => {
                assert(0 <= k < all.len() && all[k] == Err::<T, E>(e));
                assert(!(all[k] is Ok));
                assert(forall|i: int| 0 <= i < k ==> (#[trigger] all[i]) is Ok) by {
                    assert forall|i: int| 0 <= i < k implies (#[trigger] all[i]) is Ok by {
                        assert(all[i] == Ok::<T, E>(out@[i]));
                    }
                }
                return Err(e);
            },
        }
    }
    assert forall|i: int| 0 <= i < all.len() implies all[i] is Ok by {
        assert(all[i] == Ok::<T, E>(out@[i]));
    }
    Ok(out)
}

/// Where the next page starts: nowhere once the query is finished,
/// otherwise the bytes the driver gave, if any.
pub fn next_page_state(flow: PageFlow) -> (res: Option<Vec<u8>>)
    ensures
        match flow {
            PageFlow::Finished => res is None,
            PageFlow::More(state) => res == state,
        },
{
    match flow {
        PageFlow::Finished => None,
        PageFlow::More(state) => state,
    }
}

/// A counter, or 0 where it has no row yet.
pub fn count_or_zero(found: Option<i64>) -> (res: i64)
    ensures
        res == match found {
            Some(c) => c,
            None => 0,
        },
{
    match found {
        Some(c) => c,
        None => 0,
    }
}

/// A page of users: the rows read, or the first row's error, and where the
/// next page starts.
pub fn users_page(rows: Vec<RepositoryResult<CleannedUserModel>>, flow: PageFlow) -> (res: RepositoryResult<PaginatedUsersModel>)
    ensures
        res is Ok <==> forall|i: int| 0 <= i < rows@.len() ==> rows@[i] is Ok,
        res matches Ok(p) ==> {
            &&& p.users@.len() == rows@.len()
            &&& forall|i: int|
                0 <= i < rows@.len() ==> rows@[i] == Ok::<CleannedUserModel, crate::errors::RepositoryError>(
                    #[trigger] p.users@[i],
                )
            &&& match flow {
                PageFlow::Finished => p.paging_state is None,
                PageFlow::More(state) => p.paging_state == state,
            }
        },
        res matches Err(e) ==> exists|k: int|
            0 <= k < rows@.len() && rows@[k] == Err::<CleannedUserModel, crate::errors::RepositoryError>(e),
{
    let users = match collect_rows(rows) {
        Ok(users) => users,
        Err(e) => return Err(e),
    };
    Ok(PaginatedUsersModel { users, paging_state: next_page_state(flow) })
}

} // verus!
