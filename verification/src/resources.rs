//! Resources: creation, ownership-scoped mutation, and coalesce-style
//! partial update of shared records.
//!
//! The datastore's resource table is modelled as a sequence of `Resource`
//! records with unique ids. Every mutation is issued as one atomic
//! predicate over the record id and the owner id together — never a lookup
//! followed by a separate check — so a concurrent request from a different
//! session cannot slip between check and act. The owner id is bound from
//! the authenticated session at creation and is immutable afterwards.

use vstd::prelude::*;

use crate::errors::AuthError;
use crate::session::AuthSession;

verus! {

/// A stored shared record. `owner_id` references the owning user and never
/// changes after creation; `created_at` is seconds since the Unix epoch.
pub struct Resource {
    pub id: u128,
    pub title: String,
    pub description: String,
    pub available: bool,
    pub owner_id: i32,
    pub created_at: Option<i64>,
}

/// A creation request. The owner is never part of it: it is bound from the
/// session. An absent availability defaults to true; an absent creation
/// time defaults to the caller's clock reading.
pub struct CreateResourceRequest {
    pub title: String,
    pub description: String,
    pub available: Option<bool>,
    pub created_at: Option<i64>,
}

/// Echo of a freshly created record.
pub struct CreatedResourceResponse {
    pub id: u128,
    pub title: String,
    pub description: String,
    pub available: bool,
    pub owner_id: i32,
    pub created_at: i64,
}

/// A partial update of a resource: any field left unset keeps its stored
/// value. Neither the owner nor the creation time can be addressed at all.
pub struct UpdateResourceRequest {
    pub title: Option<String>,
    pub description: Option<String>,
    pub available: Option<bool>,
}

/// The resource table's constraint: ids are unique.
pub open spec fn wf_resources(rows: Seq<Resource>) -> bool {
    forall|i: int, j: int|
        0 <= i < rows.len() && 0 <= j < rows.len() && i != j ==> (#[trigger] rows[i]).id != (
        #[trigger] rows[j]).id
}

/// No row carries this id yet, so the datastore may assign it to a new row.
pub open spec fn fresh_resource_id(rows: Seq<Resource>, id: u128) -> bool {
    forall|i: int| 0 <= i < rows.len() ==> (#[trigger] rows[i]).id != id
}

/// The atomic mutation predicate: this row is the addressed record and it
/// belongs to the requester.
pub open spec fn owned_row(r: Resource, id: u128, owner_id: i32) -> bool {
    r.id == id && r.owner_id == owner_id
}

/// Some row satisfies the mutation predicate.
pub open spec fn has_owned(rows: Seq<Resource>, id: u128, owner_id: i32) -> bool {
    exists|i: int| 0 <= i < rows.len() && owned_row(#[trigger] rows[i], id, owner_id)
}

/// The coalesce merge of a partial update into a stored resource: every
/// field the request leaves unset keeps its stored value, and the id, the
/// owner and the creation time never change.
pub open spec fn resource_patched(
    before: Resource,
    after: Resource,
    req: UpdateResourceRequest,
) -> bool {
    &&& after.id == before.id
    &&& after.owner_id == before.owner_id
    &&& after.created_at == before.created_at
    &&& match req.title {
        Some(t) => after.title == t,
        None => after.title == before.title,
    }
    &&& match req.description {
        Some(d) => after.description == d,
        None => after.description == before.description,
    }
    &&& match req.available {
        Some(a) => after.available == a,
        None => after.available == before.available,
    }
}

/// Resolves a creation request's optional fields to the values that are
/// stored: availability defaults to true, the creation time to the
/// caller's clock reading `now`. `create_resource` applies exactly this
/// resolution; a caller writing to an external datastore obtains the
/// stored values here rather than recompute them.
pub fn resolve_create_defaults(available: Option<bool>, created_at: Option<i64>, now: i64) -> (r: (
    bool,
    i64,
))
    ensures
        r.0 == (match available {
            Some(a) => a,
            None => true,
        }),
        r.1 == (match created_at {
            Some(t) => t,
            None => now,
        }),
{
    let resolved_available = match available {
        Some(a) => a,
        None => true,
    };
    let resolved_created_at = match created_at {
        Some(t) => t,
        None => now,
    };
    (resolved_available, resolved_created_at)
}

/// Creates a resource owned by the session's user.
///
/// The owner id is bound from the authenticated session, never from the
/// request; availability defaults to true and the creation time to `now`,
/// both through `resolve_create_defaults`. The new row is appended and
/// echoed back.
pub fn create_resource(
    rows: &mut Vec<Resource>,
    session: &AuthSession,
    req: CreateResourceRequest,
    new_id: u128,
    now: i64,
) -> (r: CreatedResourceResponse)
    requires
        wf_resources(old(rows)@),
        fresh_resource_id(old(rows)@, new_id),
    ensures
        wf_resources(final(rows)@),
        final(rows)@ == old(rows)@.push(final(rows)@[old(rows)@.len() as int]),
        final(rows)@.len() == old(rows)@.len() + 1,
        ({
            let c = final(rows)@[old(rows)@.len() as int];
            &&& c.id == new_id
            &&& c.owner_id == session.user_id
            &&& c.title == req.title
            &&& c.description == req.description
            &&& c.available == (match req.available {
                Some(a) => a,
                None => true,
            })
            &&& c.created_at == Some(
                match req.created_at {
                    Some(t) => t,
                    None => now,
                },
            )
            &&& r.id == c.id
            &&& r.title@ == c.title@
            &&& r.description@ == c.description@
            &&& r.available == c.available
            &&& r.owner_id == c.owner_id
            &&& Some(r.created_at) == c.created_at
        }),
{
    let (available, created_at) = resolve_create_defaults(req.available, req.created_at, now);
    let ghost prev = rows@;
    let row = Resource {
        id: new_id,
        title: req.title,
        description: req.description,
        available,
        owner_id: session.user_id,
        created_at: Some(created_at),
    };
    let response = CreatedResourceResponse {
        id: row.id,
        title: row.title.clone(),
        description: row.description.clone(),
        available: row.available,
        owner_id: row.owner_id,
        created_at,
    };
    rows.push(row);
    proof {
        assert forall|i: int, j: int|
            0 <= i < rows@.len() && 0 <= j < rows@.len() && i != j implies (#[trigger] rows@[i]).id
            != (#[trigger] rows@[j]).id by {
            assert(wf_resources(prev) && fresh_resource_id(prev, new_id));
            if i < prev.len() && j < prev.len() {
            } else if j == prev.len() {
                assert(rows@[i] == prev[i]);
            } else {
                assert(rows@[j] == prev[j]);
            }
        }
    }
    response
}

/// Applies a partial update to the addressed record, but only through the
/// atomic ownership predicate: the record id and the session's user id must
/// match one row together.
///
/// On success that one row is rewritten by coalesce merge
/// (`resource_patched`) and every other row is untouched. Otherwise — the
/// record does not exist, or it belongs to someone else — nothing changes
/// and the two cases surface as the same `OwnershipDenied`.
pub fn update_resource(
    rows: &mut Vec<Resource>,
    session: &AuthSession,
    resource_id: u128,
    req: UpdateResourceRequest,
) -> (r: Result<(), AuthError>)
    requires
        wf_resources(old(rows)@),
    ensures
        wf_resources(final(rows)@),
        r matches Err(_) ==> final(rows)@ == old(rows)@,
        (r == Err::<(), AuthError>(AuthError::OwnershipDenied)) <==> !has_owned(
            old(rows)@,
            resource_id,
            session.user_id,
        ),
        r is Ok <==> has_owned(old(rows)@, resource_id, session.user_id),
        r matches Ok(()) ==> exists|i: int|
            0 <= i < old(rows)@.len() && owned_row(
                #[trigger] old(rows)@[i],
                resource_id,
                session.user_id,
            ) && final(rows)@ == old(rows)@.update(i, final(rows)@[i]) && resource_patched(
                old(rows)@[i],
                final(rows)@[i],
                req,
            ),
{
    let mut i: usize = 0;
    while i < rows.len()
        invariant
            wf_resources(old(rows)@),
            rows@ == old(rows)@,
            i <= rows@.len(),
            forall|j: int|
                0 <= j < i ==> !owned_row(#[trigger] rows@[j], resource_id, session.user_id),
        decreases rows@.len() - i,
    {
        if rows[i].id == resource_id && rows[i].owner_id == session.user_id {
            let ghost prev = rows@;
            let ghost gidx = i as int;
            proof {
                assert(owned_row(prev[gidx], resource_id, session.user_id));
                assert(has_owned(prev, resource_id, session.user_id));
            }
            let before = rows.remove(i);
            let after = Resource {
                id: before.id,
                title: match req.title {
                    Some(t) => t,
                    None => before.title,
                },
                description: match req.description {
                    Some(d) => d,
                    None => before.description,
                },
                available: match req.available {
                    Some(a) => a,
                    None => before.available,
                },
                owner_id: before.owner_id,
                created_at: before.created_at,
            };
            rows.insert(i, after);
            proof {
                assert(rows@ =~= prev.update(gidx, rows@[gidx]));
                assert(resource_patched(prev[gidx], rows@[gidx], req));
                assert(owned_row(prev[gidx], resource_id, session.user_id));
                assert forall|a: int, b: int|
                    0 <= a < rows@.len() && 0 <= b < rows@.len() && a != b implies (
                #[trigger] rows@[a]).id != (#[trigger] rows@[b]).id by {
                    assert(wf_resources(prev));
                    assert(rows@[a].id == prev[a].id && rows@[b].id == prev[b].id);
                }
            }
            return Ok(());
        }
        i = i + 1;
    }
    Err(AuthError::OwnershipDenied)
}

/// Deletes the addressed record through the same atomic ownership
/// predicate as `update_resource`.
///
/// On success exactly that one row is removed; otherwise nothing changes,
/// and a missing record and a foreign record surface as the same
/// `OwnershipDenied`.
pub fn delete_resource(rows: &mut Vec<Resource>, session: &AuthSession, resource_id: u128) -> (r:
    Result<(), AuthError>)
    requires
        wf_resources(old(rows)@),
    ensures
        wf_resources(final(rows)@),
        r matches Err(_) ==> final(rows)@ == old(rows)@,
        (r == Err::<(), AuthError>(AuthError::OwnershipDenied)) <==> !has_owned(
            old(rows)@,
            resource_id,
            session.user_id,
        ),
        r is Ok <==> has_owned(old(rows)@, resource_id, session.user_id),
        r matches Ok(()) ==> exists|i: int|
            0 <= i < old(rows)@.len() && owned_row(
                #[trigger] old(rows)@[i],
                resource_id,
                session.user_id,
            ) && final(rows)@ == old(rows)@.remove(i),
{
    let mut i: usize = 0;
    while i < rows.len()
        invariant
            wf_resources(old(rows)@),
            rows@ == old(rows)@,
            i <= rows@.len(),
            forall|j: int|
                0 <= j < i ==> !owned_row(#[trigger] rows@[j], resource_id, session.user_id),
        decreases rows@.len() - i,
    {
        if rows[i].id == resource_id && rows[i].owner_id == session.user_id {
            let ghost prev = rows@;
            let ghost gidx = i as int;
            proof {
                assert(owned_row(prev[gidx], resource_id, session.user_id));
                assert(has_owned(prev, resource_id, session.user_id));
            }
            let _removed = rows.remove(i);
            proof {
                assert(owned_row(prev[gidx], resource_id, session.user_id));
                assert forall|a: int, b: int|
                    0 <= a < rows@.len() && 0 <= b < rows@.len() && a != b implies (
                #[trigger] rows@[a]).id != (#[trigger] rows@[b]).id by {
                    assert(wf_resources(prev));
                }
            }
            return Ok(());
        }
        i = i + 1;
    }
    Err(AuthError::OwnershipDenied)
}

/// Law: ownership is exclusive. A requester who is not the owner of the
/// addressed record never satisfies the mutation predicate, so
/// `update_resource` and `delete_resource` deny the request and leave every
/// row unchanged.
pub proof fn lemma_foreign_mutation_denied(rows: Seq<Resource>, i: int, requester: i32)
    requires
        wf_resources(rows),
        0 <= i < rows.len(),
        rows[i].owner_id != requester,
    ensures
        !has_owned(rows, rows[i].id, requester),
{
    if has_owned(rows, rows[i].id, requester) {
        let j = choose|j: int|
            0 <= j < rows.len() && owned_row(#[trigger] rows[j], rows[i].id, requester);
        assert(rows[j].id == rows[i].id);
        assert(j == i);
    }
}

/// Law: a partial update attempted by anyone but the owner of a stored
/// record is denied with `OwnershipDenied` and leaves every row exactly as
/// it was, whatever the request asked for. `delete_resource` makes the
/// same pair of promises of the same predicate, so the law carries over to
/// deletion unchanged.
pub fn foreign_update_is_denied(
    rows: &mut Vec<Resource>,
    session: &AuthSession,
    i: usize,
    req: UpdateResourceRequest,
) -> (r: Result<(), AuthError>)
    requires
        wf_resources(old(rows)@),
        i < old(rows)@.len(),
        old(rows)@[i as int].owner_id != session.user_id,
    ensures
        r == Err::<(), AuthError>(AuthError::OwnershipDenied),
        final(rows)@ == old(rows)@,
{
    let resource_id = rows[i].id;
    proof {
        lemma_foreign_mutation_denied(rows@, i as int, session.user_id);
    }
    update_resource(rows, session, resource_id, req)
}

/// Law: the owner's mutation is authorized and lands on exactly the owned
/// row. The owner of a stored record always satisfies the mutation
/// predicate, and only that record's own index satisfies it, so the
/// success clauses of `update_resource` and `delete_resource` speak of
/// precisely that row — with `resource_patched` retaining every field an
/// update leaves unset.
pub proof fn lemma_owner_mutation_allowed(rows: Seq<Resource>, i: int)
    requires
        wf_resources(rows),
        0 <= i < rows.len(),
    ensures
        has_owned(rows, rows[i].id, rows[i].owner_id),
        forall|j: int|
            0 <= j < rows.len() && owned_row(#[trigger] rows[j], rows[i].id, rows[i].owner_id)
                ==> j == i,
{
    assert(owned_row(rows[i], rows[i].id, rows[i].owner_id));
}

} // verus!
