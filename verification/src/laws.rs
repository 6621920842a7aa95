//! Laws of the resource operations, stated over the store's mathematical
//! model and proved once for every table and every input.

use vstd::prelude::*;

use crate::models::CreateUserRequestView;
use crate::models::UpdateUserRequestView;
use crate::models::UserView;
use crate::models::deactivated;
use crate::models::merged;
use crate::models::new_record;
use crate::store::active_rows;
use crate::store::deactivate_rows;
use crate::store::has_active;
use crate::store::has_id;
use crate::store::lemma_active_rows_elems;
use crate::store::update_rows;

verus! {

/// A created record carries the supplied identifier, one time in both
/// timestamps, the activity flag set, and the request's fields verbatim.
pub proof fn lemma_create_stamps(req: CreateUserRequestView, id: u128, now: i64)
    ensures
        new_record(req, id, now).id == id,
        new_record(req, id, now).created_at == now,
        new_record(req, id, now).created_at == new_record(req, id, now).updated_at,
        new_record(req, id, now).is_active,
        new_record(req, id, now).username == req.username,
        new_record(req, id, now).email == req.email,
        new_record(req, id, now).bio == req.bio,
{
}

/// After a soft delete no active row carries the identifier, so a single
/// fetch of it signals not-found, whether or not the identifier ever
/// existed.
pub proof fn lemma_get_after_soft_delete(s: Seq<UserView>, id: u128)
    ensures
        !has_active(deactivate_rows(s, id), id),
{
    let d = deactivate_rows(s, id);
    assert forall|i: int| 0 <= i < d.len() implies !(d[i].id == id && d[i].is_active) by {
        if s[i].id == id {
            assert(d[i] == deactivated(s[i]));
        } else {
            assert(d[i] == s[i]);
        }
    }
}

/// The active listing after a soft delete holds no row with the deleted
/// identifier.
pub proof fn lemma_list_excludes_soft_deleted(s: Seq<UserView>, id: u128)
    ensures
        forall|i: int|
            0 <= i < active_rows(deactivate_rows(s, id)).len() ==> (#[trigger] active_rows(
                deactivate_rows(s, id),
            )[i]).id != id,
{
    let d = deactivate_rows(s, id);
    let f = active_rows(d);
    lemma_active_rows_elems(d);
    assert forall|i: int| 0 <= i < f.len() implies (#[trigger] f[i]).id != id by {
        assert(f[i].is_active && d.contains(f[i]));
        let k = choose|k: int| 0 <= k < d.len() && d[k] == f[i];
        if s[k].id == id {
            assert(d[k] == deactivated(s[k]));
            assert(!d[k].is_active);
        } else {
            assert(d[k] == s[k]);
        }
    }
}

/// The active listing after an update whose request explicitly clears the
/// activity flag holds no row with the updated identifier: update, not
/// only soft delete, is a path to deletion.
pub proof fn lemma_list_excludes_updated_inactive(
    s: Seq<UserView>,
    id: u128,
    q: UpdateUserRequestView,
    now: i64,
)
    requires
        q.is_active == Some(false),
    ensures
        forall|i: int|
            0 <= i < active_rows(update_rows(s, id, q, now)).len() ==> (#[trigger] active_rows(
                update_rows(s, id, q, now),
            )[i]).id != id,
{
    let d = update_rows(s, id, q, now);
    let f = active_rows(d);
    lemma_active_rows_elems(d);
    assert forall|i: int| 0 <= i < f.len() implies (#[trigger] f[i]).id != id by {
        assert(f[i].is_active && d.contains(f[i]));
        let k = choose|k: int| 0 <= k < d.len() && d[k] == f[i];
        if s[k].id == id {
            assert(d[k] == merged(s[k], q, now));
            assert(!d[k].is_active);
        } else {
            assert(d[k] == s[k]);
        }
    }
}

/// A soft delete never removes the row: the identifier stays present, so
/// a second delete of the same identifier succeeds exactly as the first
/// did and changes nothing further.
pub proof fn lemma_soft_delete_idempotent(s: Seq<UserView>, id: u128)
    requires
        has_id(s, id),
    ensures
        has_id(deactivate_rows(s, id), id),
        deactivate_rows(deactivate_rows(s, id), id) == deactivate_rows(s, id),
{
    let d = deactivate_rows(s, id);
    let k = choose|k: int| 0 <= k < s.len() && s[k].id == id;
    assert(d[k] == deactivated(s[k]));
    assert(d[k].id == id);
    assert(has_id(d, id));
    let d2 = deactivate_rows(d, id);
    assert forall|i: int| 0 <= i < d.len() implies d2[i] == d[i] by {
        if s[i].id == id {
            assert(d[i] == deactivated(s[i]));
            assert(d2[i] == deactivated(d[i]));
        } else {
            assert(d[i] == s[i]);
            assert(d2[i] == d[i]);
        }
    }
    assert(d2 =~= d);
}

/// The merge law: fields absent from an update request keep their stored
/// value, supplied fields are replaced exactly, identity and creation
/// time never move, and `updated_at` is re-stamped to the supplied time —
/// strictly later than the stored stamp whenever the clock reads later.
pub proof fn lemma_update_merge_fields(stored: UserView, q: UpdateUserRequestView, now: i64)
    ensures
        merged(stored, q, now).id == stored.id,
        merged(stored, q, now).created_at == stored.created_at,
        merged(stored, q, now).updated_at == now,
        now > stored.updated_at ==> merged(stored, q, now).updated_at > stored.updated_at,
        now >= stored.created_at ==> merged(stored, q, now).created_at <= merged(
            stored,
            q,
            now,
        ).updated_at,
        q.username is None ==> merged(stored, q, now).username == stored.username,
        q.username matches Some(v) ==> merged(stored, q, now).username == v,
        q.email is None ==> merged(stored, q, now).email == stored.email,
        q.email is Some ==> merged(stored, q, now).email == q.email,
        q.first_name is None ==> merged(stored, q, now).first_name == stored.first_name,
        q.first_name is Some ==> merged(stored, q, now).first_name == q.first_name,
        q.last_name is None ==> merged(stored, q, now).last_name == stored.last_name,
        q.last_name is Some ==> merged(stored, q, now).last_name == q.last_name,
        q.bio is None ==> merged(stored, q, now).bio == stored.bio,
        q.bio is Some ==> merged(stored, q, now).bio == q.bio,
        q.avatar_url is None ==> merged(stored, q, now).avatar_url == stored.avatar_url,
        q.avatar_url is Some ==> merged(stored, q, now).avatar_url == q.avatar_url,
        q.is_active is None ==> merged(stored, q, now).is_active == stored.is_active,
        q.is_active matches Some(b) ==> merged(stored, q, now).is_active == b,
{
}

} // verus!
