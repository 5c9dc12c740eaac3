//! The joins between repositories that the accessors of the entities are
//! made of: from an entity to the one entity that it names, and from an
//! entity to each of the entities that it names.

use vstd::prelude::*;
use crate::entity::Entity;
use crate::id::GuildId;
use crate::repository::{is_guild_listing, Repository};

verus! {

/// The entities that the ids name, in the order of the ids. An id that names
/// nothing in `entries` is passed over.
pub open spec fn resolved<M: Entity>(entries: Map<M::Id, M>, ids: Seq<M::Id>) -> Seq<M>
    decreases ids.len(),
{
    if ids.len() == 0 {
        Seq::empty()
    } else if entries.contains_key(ids.last()) {
        resolved(entries, ids.drop_last()).push(entries[ids.last()])
    } else {
        resolved(entries, ids.drop_last())
    }
}

/// Whether `out` is what fetching each of `ids` from `entries` in turn may
/// give: an id whose fetch fails leaves an error in its place, an id that
/// names nothing leaves nothing, and any other id leaves its entity.
pub open spec fn is_resolution<M: Entity, Error>(
    entries: Map<M::Id, M>,
    ids: Seq<M::Id>,
    out: Seq<Result<M, Error>>,
) -> bool
    decreases ids.len(),
{
    if ids.len() == 0 {
        out.len() == 0
    } else {
        ||| !entries.contains_key(ids.last()) && is_resolution(entries, ids.drop_last(), out)
        ||| out.len() > 0 && out.last() is Err && is_resolution(entries, ids.drop_last(), out.drop_last())
        ||| out.len() > 0 && entries.contains_key(ids.last()) && out.last() == Ok::<M, Error>(
            entries[ids.last()],
        ) && is_resolution(entries, ids.drop_last(), out.drop_last())
    }
}

/// Whether `out` is what fetching each of the entities that are listed under
/// the guild may give, in some order of their ids.
pub open spec fn is_guild_resolution<M: Entity, Error>(
    entries: Map<M::Id, M>,
    guild_id: GuildId,
    out: Seq<Result<M, Error>>,
) -> bool {
    exists|ids: Seq<M::Id>| #[trigger]
        is_guild_listing(entries, guild_id, ids) && is_resolution(entries, ids, out)
}

/// Where no fetch has failed, a resolution holds exactly the entities that
/// the ids name, in the order of the ids.
pub proof fn lemma_resolution_without_errors<M: Entity, Error>(
    entries: Map<M::Id, M>,
    ids: Seq<M::Id>,
    out: Seq<Result<M, Error>>,
)
    requires
        is_resolution(entries, ids, out),
        forall|i: int| 0 <= i < out.len() ==> #[trigger] out[i] is Ok,
    ensures
        out.len() == resolved(entries, ids).len(),
        forall|i: int| 0 <= i < out.len() ==> #[trigger] out[i] == Ok::<M, Error>(resolved(entries, ids)[i]),
    decreases ids.len(),
{
    if ids.len() > 0 {
        if !entries.contains_key(ids.last()) {
            lemma_resolution_without_errors(entries, ids.drop_last(), out);
        } else {
            assert(out.len() > 0 && out.last() is Ok);
            lemma_resolution_without_errors(entries, ids.drop_last(), out.drop_last());
            assert forall|i: int| 0 <= i < out.len() implies #[trigger] out[i] == Ok::<M, Error>(
                resolved(entries, ids)[i],
            ) by {
                if i < out.len() - 1 {
                    assert(out[i] == out.drop_last()[i]);
                }
            }
        }
    }
}

/// Make one value of each of the values, in their order.
pub fn map_each<A, B, F: Fn(A) -> B>(values: Vec<A>, f: F) -> (made: Vec<B>)
    requires
        forall|i: int| 0 <= i < values@.len() ==> call_requires(f, (#[trigger] values@[i],)),
    ensures
        made@.len() == values@.len(),
        forall|i: int| 0 <= i < values@.len() ==> call_ensures(f, (values@[i],), #[trigger] made@[i]),
{
    let mut made: Vec<B> = Vec::new();
    for value in it: values.into_iter()
        invariant
            it.seq() == values@,
            forall|i: int| 0 <= i < values@.len() ==> call_requires(f, (#[trigger] values@[i],)),
            made@.len() == it.index(),
            forall|i: int| 0 <= i < made@.len() ==> call_ensures(f, (values@[i],), #[trigger] made@[i]),
    {
        made.push(f(value));
    }
    made
}

/// Fetch each of the ids from the repository, in their order.
///
/// An id that names nothing is passed over without an error. A fetch that
/// fails leaves its error in the list, and the ids after it are still
/// fetched.
pub fn resolve_each<M: Entity, Error, R: Repository<M, Error>>(foreign: &R, ids: Vec<M::Id>) -> (out: Vec<
    Result<M, Error>,
>)
    requires
        foreign.wf(),
    ensures
        is_resolution(foreign.entries(), ids@, out@),
        R::reliable() ==> forall|i: int| 0 <= i < out@.len() ==> #[trigger] out@[i] is Ok,
{
    let mut out: Vec<Result<M, Error>> = Vec::new();
    for id in it: ids.into_iter()
        invariant
            foreign.wf(),
            it.seq() == ids@,
            is_resolution(foreign.entries(), ids@.take(it.index() as int), out@),
            R::reliable() ==> forall|i: int| 0 <= i < out@.len() ==> #[trigger] out@[i] is Ok,
    {
        let ghost n = it.index() as int;
        let ghost before = out@;
        proof {
            assert(ids@.take(n + 1).drop_last() =~= ids@.take(n));
            assert(ids@.take(n + 1).last() == id);
        }
        match foreign.get(id) {
            Ok(Some(entity)) => {
                out.push(Ok(entity));
                proof {
                    assert(out@.drop_last() =~= before);
                }
            },
            Ok(None) => {},
            Err(why) => {
                out.push(Err(why));
                proof {
                    assert(out@.drop_last() =~= before);
                }
            },
        }
    }
    proof {
        assert(ids@.take(ids@.len() as int) =~= ids@);
    }
    out
}

/// Optional one-to-one join: fetch the local entity; where it is there and
/// names a foreign entity, fetch that one.
///
/// A local entity that is not there, or that names nothing, gives `None`
/// and no error.
pub fn relation_and_then<
    M1: Entity,
    M2: Entity,
    Error,
    R1: Repository<M1, Error>,
    R2: Repository<M2, Error>,
    F: FnOnce(M1) -> Option<M2::Id>,
>(repo: &R1, foreign: &R2, id: M1::Id, f: F) -> (found: Result<Option<M2>, Error>)
    requires
        repo.wf(),
        foreign.wf(),
        repo.entries().contains_key(id) ==> call_requires(f, (repo.entries()[id],)),
    ensures
        R1::reliable() && R2::reliable() ==> found is Ok,
        found matches Ok(entity) ==> match repo.entries().get(id) {
            Some(local) => exists|foreign_id: Option<M2::Id>| #[trigger]
                call_ensures(f, (local,), foreign_id) && entity == (match foreign_id {
                    Some(foreign_id) => foreign.entries().get(foreign_id),
                    None => None,
                }),
            None => entity is None,
        },
{
    let foreign_id = match repo.get(id) {
        Ok(Some(entity)) => f(entity),
        Ok(None) => {
            return Ok(None);
        },
        Err(why) => {
            return Err(why);
        },
    };
    match foreign_id {
        Some(foreign_id) => foreign.get(foreign_id),
        None => Ok(None),
    }
}

/// Mandatory one-to-one join: fetch the local entity; where it is there,
/// fetch the foreign entity that it names.
///
/// A local entity that is not there gives `None` and no error.
pub fn relation_map<
    M1: Entity,
    M2: Entity,
    Error,
    R1: Repository<M1, Error>,
    R2: Repository<M2, Error>,
    F: FnOnce(M1) -> M2::Id,
>(repo: &R1, foreign: &R2, id: M1::Id, f: F) -> (found: Result<Option<M2>, Error>)
    requires
        repo.wf(),
        foreign.wf(),
        repo.entries().contains_key(id) ==> call_requires(f, (repo.entries()[id],)),
    ensures
        R1::reliable() && R2::reliable() ==> found is Ok,
        found matches Ok(entity) ==> match repo.entries().get(id) {
            Some(local) => exists|foreign_id: M2::Id| #[trigger]
                call_ensures(f, (local,), foreign_id) && entity == foreign.entries().get(foreign_id),
            None => entity is None,
        },
{
    let foreign_id = match repo.get(id) {
        Ok(Some(entity)) => f(entity),
        Ok(None) => {
            return Ok(None);
        },
        Err(why) => {
            return Err(why);
        },
    };
    foreign.get(foreign_id)
}

/// One-to-many join: fetch the local entity; where it is there, fetch each
/// of the foreign entities that it names.
///
/// A local entity that is not there gives an empty list. A foreign id that
/// names nothing is passed over; a fetch that fails leaves its error in the
/// list without ending it.
pub fn stream<
    M1: Entity,
    M2: Entity,
    Error,
    R1: Repository<M1, Error>,
    R2: Repository<M2, Error>,
    F: FnOnce(M1) -> Vec<M2::Id>,
>(repo: &R1, foreign: &R2, id: M1::Id, f: F) -> (found: Result<Vec<Result<M2, Error>>, Error>)
    requires
        repo.wf(),
        foreign.wf(),
        repo.entries().contains_key(id) ==> call_requires(f, (repo.entries()[id],)),
    ensures
        R1::reliable() ==> found is Ok,
        found matches Ok(list) ==> {
            &&& match repo.entries().get(id) {
                Some(local) => exists|foreign_ids: Vec<M2::Id>| #[trigger]
                    call_ensures(f, (local,), foreign_ids) && is_resolution(
                        foreign.entries(),
                        foreign_ids@,
                        list@,
                    ),
                None => list@.len() == 0,
            }
            &&& R2::reliable() ==> forall|i: int| 0 <= i < list@.len() ==> #[trigger] list@[i] is Ok
        },
{
    let foreign_ids = match repo.get(id) {
        Ok(Some(entity)) => f(entity),
        Ok(None) => {
            return Ok(Vec::new());
        },
        Err(why) => {
            return Err(why);
        },
    };
    Ok(resolve_each(foreign, foreign_ids))
}

/// One-to-many join from a list of ids: fetch each of the foreign entities
/// that the ids name.
///
/// Where the ids could not be had, their error is the result. A foreign id
/// that names nothing is passed over; a fetch that fails leaves its error in
/// the list without ending it.
pub fn stream_ids<M2: Entity, Error, R: Repository<M2, Error>>(
    ids: Result<Vec<M2::Id>, Error>,
    foreign: &R,
) -> (found: Result<Vec<Result<M2, Error>>, Error>)
    requires
        foreign.wf(),
    ensures
        found is Ok <==> ids is Ok,
        found matches Err(why) ==> ids == Err::<Vec<M2::Id>, Error>(why),
        found matches Ok(list) ==> {
            &&& is_resolution(foreign.entries(), ids->Ok_0@, list@)
            &&& R::reliable() ==> forall|i: int| 0 <= i < list@.len() ==> #[trigger] list@[i] is Ok
        },
{
    match ids {
        Ok(foreign_ids) => Ok(resolve_each(foreign, foreign_ids)),
        Err(why) => Err(why),
    }
}

/// One-to-many join from a guild: fetch each of the entities of the
/// repository that are listed under the guild.
///
/// Where the ids could not be listed, their error is the result. A fetch
/// that fails leaves its error in the list without ending it.
pub fn list_in_guild<M: Entity, Error, R: Repository<M, Error>>(
    repo: &R,
    guild_id: GuildId,
) -> (found: Result<Vec<Result<M, Error>>, Error>)
    requires
        repo.wf(),
    ensures
        R::reliable() ==> found is Ok,
        found matches Ok(list) ==> {
            &&& is_guild_resolution(repo.entries(), guild_id, list@)
            &&& R::reliable() ==> forall|i: int| 0 <= i < list@.len() ==> #[trigger] list@[i] is Ok
        },
{
    let ids = repo.ids_in_guild(guild_id);
    proof {
        if ids is Ok {
            assert(is_guild_listing(repo.entries(), guild_id, ids->Ok_0@));
        }
    }
    stream_ids(ids, repo)
}

} // verus!
