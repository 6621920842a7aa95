//! The verified row store behind the User resource service.
//!
//! `UserStore` models the one persisted table: a sequence of User rows,
//! newest first, with unique identifiers. The five resource operations are
//! implemented against it with exact contracts: create stamps identity,
//! activity and both timestamps; reads see only active rows; update merges
//! field by field and re-stamps `updated_at`; soft delete clears the
//! activity flag and nothing else. Rows are never physically removed.

use vstd::prelude::*;
use vstd::string::StringExecFns;

use crate::error::AppError;
use crate::models::CreateUserRequest;
use crate::models::UpdateUserRequest;
use crate::models::User;
use crate::models::UserView;
use crate::models::clone_opt;
use crate::models::deactivated;
use crate::models::merged;
use crate::models::new_record;
use crate::models::opt_view;

verus! {

/// The abstract value of a sequence of stored rows.
pub open spec fn views_of(s: Seq<User>) -> Seq<UserView> {
    s.map_values(|u: User| u@)
}

/// No two rows carry the same identifier.
pub open spec fn ids_unique(s: Seq<UserView>) -> bool {
    forall|i: int, j: int| 0 <= i < j < s.len() ==> s[i].id != s[j].id
}

/// Rows are ordered by creation time, newest first.
pub open spec fn newest_first(s: Seq<UserView>) -> bool {
    forall|i: int, j: int| 0 <= i <= j < s.len() ==> s[i].created_at >= s[j].created_at
}

/// Well-formedness of the stored table.
pub open spec fn wf_rows(s: Seq<UserView>) -> bool {
    ids_unique(s) && newest_first(s)
}

/// Some row (active or not) carries this identifier.
pub open spec fn has_id(s: Seq<UserView>, id: u128) -> bool {
    exists|i: int| 0 <= i < s.len() && s[i].id == id
}

/// Some active row carries this identifier.
pub open spec fn has_active(s: Seq<UserView>, id: u128) -> bool {
    exists|i: int| 0 <= i < s.len() && s[i].id == id && s[i].is_active
}

/// The row carrying this identifier; meaningful when `has_id` holds and
/// identifiers are unique.
pub open spec fn row_of(s: Seq<UserView>, id: u128) -> UserView
    recommends
        has_id(s, id),
{
    s[choose|i: int| 0 <= i < s.len() && s[i].id == id]
}

/// The position a row created at `t` takes: before every strictly newer
/// row, ahead of rows of the same age (newest first).
pub open spec fn insert_pos(s: Seq<UserView>, t: i64) -> int
    decreases s.len(),
{
    if s.len() == 0 {
        0
    } else if s[0].created_at <= t {
        0
    } else {
        1 + insert_pos(s.subrange(1, s.len() as int), t)
    }
}

/// The table after an update of the row carrying `id`: that row merged
/// with the request and re-stamped, every other row untouched.
pub open spec fn update_rows(
    s: Seq<UserView>,
    id: u128,
    q: crate::models::UpdateUserRequestView,
    now: i64,
) -> Seq<UserView> {
    s.map(|k: int, v: UserView| if v.id == id { merged(v, q, now) } else { v })
}

/// The table after a soft delete of the row carrying `id`: that row with
/// its activity flag cleared, every other row untouched.
pub open spec fn deactivate_rows(s: Seq<UserView>, id: u128) -> Seq<UserView> {
    s.map(|k: int, v: UserView| if v.id == id { deactivated(v) } else { v })
}

/// The active rows of the table, in stored order.
pub open spec fn active_rows(s: Seq<UserView>) -> Seq<UserView> {
    s.filter(|v: UserView| v.is_active)
}

/// With unique identifiers, any row found to carry `id` is the row
/// `row_of` denotes.
pub proof fn lemma_row_of_unique(s: Seq<UserView>, id: u128, i: int)
    requires
        ids_unique(s),
        0 <= i < s.len(),
        s[i].id == id,
    ensures
        has_id(s, id),
        row_of(s, id) == s[i],
{
    assert(has_id(s, id));
    let j = choose|j: int| 0 <= j < s.len() && s[j].id == id;
    if i < j {
        assert(s[i].id != s[j].id);
    } else if j < i {
        assert(s[j].id != s[i].id);
    }
}

/// `insert_pos` is the first position whose row is not strictly newer
/// than `t`.
pub proof fn lemma_insert_pos_props(s: Seq<UserView>, t: i64)
    ensures
        0 <= insert_pos(s, t) <= s.len(),
        forall|j: int| 0 <= j < insert_pos(s, t) ==> s[j].created_at > t,
        insert_pos(s, t) < s.len() ==> s[insert_pos(s, t)].created_at <= t,
    decreases s.len(),
{
    if s.len() == 0 {
    } else if s[0].created_at <= t {
    } else {
        let rest = s.subrange(1, s.len() as int);
        lemma_insert_pos_props(rest, t);
        let p = insert_pos(s, t);
        assert(p == 1 + insert_pos(rest, t));
        assert forall|j: int| 0 <= j < p implies s[j].created_at > t by {
            if j > 0 {
                assert(rest[j - 1] == s[j]);
            }
        }
        if p < s.len() {
            assert(rest[p - 1] == s[p]);
        }
    }
}

/// Inserting a fresh row at its position keeps the table well formed.
pub proof fn lemma_insert_keeps_wf(s: Seq<UserView>, v: UserView, t: i64)
    requires
        wf_rows(s),
        v.created_at == t,
        forall|k: int| 0 <= k < s.len() ==> s[k].id != v.id,
    ensures
        wf_rows(s.insert(insert_pos(s, t), v)),
{
    let p = insert_pos(s, t);
    lemma_insert_pos_props(s, t);
    s.insert_ensures(p, v);
    let r = s.insert(p, v);
    assert forall|i: int, j: int| 0 <= i <= j < r.len() implies r[i].created_at
        >= r[j].created_at by {
        if i < p {
            assert(r[i] == s[i]);
        } else if i == p {
            assert(r[i] == v);
        } else {
            assert(r[i] == s[i - 1]);
        }
        if j < p {
            assert(r[j] == s[j]);
        } else if j == p {
            assert(r[j] == v);
        } else {
            assert(r[j] == s[j - 1]);
        }
        if i < p && j == p {
            assert(s[i].created_at > t);
        } else if i == p && j > p {
            assert(s[p].created_at <= t);
            assert(s[p].created_at >= s[j - 1].created_at);
        } else if i < p && j > p {
            assert(s[i].created_at >= s[j - 1].created_at);
        }
    }
    assert forall|i: int, j: int| 0 <= i < j < r.len() implies r[i].id != r[j].id by {
        if i < p {
            assert(r[i] == s[i]);
        } else if i == p {
            assert(r[i] == v);
        } else {
            assert(r[i] == s[i - 1]);
        }
        if j < p {
            assert(r[j] == s[j]);
        } else if j == p {
            assert(r[j] == v);
        } else {
            assert(r[j] == s[j - 1]);
        }
    }
}

/// A row-by-row rewrite that keeps every identifier and creation time
/// keeps the table well formed.
pub proof fn lemma_same_skeleton_wf(s: Seq<UserView>, m: Seq<UserView>)
    requires
        wf_rows(s),
        m.len() == s.len(),
        forall|k: int|
            0 <= k < s.len() ==> (#[trigger] m[k]).id == s[k].id && m[k].created_at
                == s[k].created_at,
    ensures
        wf_rows(m),
{
    assert forall|i: int, j: int| 0 <= i < j < m.len() implies m[i].id != m[j].id by {
        assert(s[i].id != s[j].id);
    }
    assert forall|i: int, j: int| 0 <= i <= j < m.len() implies m[i].created_at
        >= m[j].created_at by {
        assert(s[i].created_at >= s[j].created_at);
    }
}

/// Every filtered row is active and occurs in the table.
pub proof fn lemma_active_rows_elems(s: Seq<UserView>)
    ensures
        forall|i: int|
            0 <= i < active_rows(s).len() ==> (#[trigger] active_rows(s)[i]).is_active
                && s.contains(active_rows(s)[i]),
    decreases s.len(),
{
    reveal(Seq::filter);
    if s.len() > 0 {
        let s0 = s.drop_last();
        lemma_active_rows_elems(s0);
        let f0 = active_rows(s0);
        assert forall|i: int|
            0 <= i < active_rows(s).len() implies (#[trigger] active_rows(s)[i]).is_active
            && s.contains(active_rows(s)[i]) by {
            if i < f0.len() {
                assert(active_rows(s)[i] == f0[i]);
                let j = choose|j: int| 0 <= j < s0.len() && s0[j] == f0[i];
                assert(s[j] == f0[i]);
            } else {
                assert(active_rows(s)[i] == s.last());
                assert(s[s.len() - 1] == s.last());
            }
        }
    }
}

/// Filtering to the active rows keeps the newest-first order.
pub proof fn lemma_active_rows_sorted(s: Seq<UserView>)
    requires
        newest_first(s),
    ensures
        newest_first(active_rows(s)),
    decreases s.len(),
{
    reveal(Seq::filter);
    if s.len() > 0 {
        let s0 = s.drop_last();
        assert(newest_first(s0)) by {
            assert forall|i: int, j: int| 0 <= i <= j < s0.len() implies s0[i].created_at
                >= s0[j].created_at by {
                assert(s0[i] == s[i]);
                assert(s0[j] == s[j]);
            }
        }
        lemma_active_rows_sorted(s0);
        lemma_active_rows_elems(s0);
        let f0 = active_rows(s0);
        let f = active_rows(s);
        if s.last().is_active {
            assert(f == f0.push(s.last()));
            assert forall|i: int, j: int| 0 <= i <= j < f.len() implies f[i].created_at
                >= f[j].created_at by {
                if j < f0.len() {
                    assert(f[i] == f0[i]);
                    assert(f[j] == f0[j]);
                } else if i < f0.len() {
                    assert(f[i] == f0[i]);
                    assert(f[j] == s.last());
                    let k = choose|k: int| 0 <= k < s0.len() && s0[k] == f0[i];
                    assert(s[k] == f0[i]);
                    assert(s[k].created_at >= s[s.len() - 1].created_at);
                }
            }
        } else {
            assert(f == f0);
        }
    }
}

/// `views_of` distributes over removing a row.
proof fn lemma_views_remove(s: Seq<User>, i: int)
    requires
        0 <= i < s.len(),
    ensures
        views_of(s.remove(i)) =~= views_of(s).remove(i),
{
    s.remove_ensures(i);
    views_of(s).remove_ensures(i);
}

/// `views_of` distributes over inserting a row.
proof fn lemma_views_insert(s: Seq<User>, i: int, u: User)
    requires
        0 <= i <= s.len(),
    ensures
        views_of(s.insert(i, u)) =~= views_of(s).insert(i, u@),
{
    s.insert_ensures(i, u);
    views_of(s).insert_ensures(i, u@);
}

/// The one persisted table of User rows.
pub struct UserStore {
    users: Vec<User>,
}

impl View for UserStore {
    type V = Seq<UserView>;

    closed spec fn view(&self) -> Seq<UserView> {
        views_of(self.users@)
    }
}

impl UserStore {
    /// The table is well formed: identifiers unique, rows newest first.
    pub open spec fn wf(&self) -> bool {
        wf_rows(self@)
    }

    /// An empty table.
    pub fn new() -> (s: UserStore)
        ensures
            s@ == Seq::<UserView>::empty(),
            s.wf(),
    {
        let s = UserStore { users: Vec::new() };
        proof {
            assert(s@ =~= Seq::<UserView>::empty());
        }
        s
    }

    /// The position of the row carrying `id`, in any activity state.
    fn find_row(&self, id: u128) -> (r: Option<usize>)
        ensures
            match r {
                Some(i) => 0 <= i < self@.len() && self@[i as int].id == id,
                None => !has_id(self@, id),
            },
    {
        let n = self.users.len();
        let mut i: usize = 0;
        while i < n
            invariant
                n == self.users.len(),
                i <= n,
                forall|k: int| 0 <= k < i ==> self@[k].id != id,
            decreases n - i,
        {
            if self.users[i].id == id {
                return Some(i);
            }
            i += 1;
        }
        None
    }

    /// Create: persist the request verbatim under the supplied fresh
    /// identifier, `is_active` set, one `now` for both timestamps; the
    /// full stored record is returned so the caller never re-fetches.
    /// A clash with an already-issued identifier is the store's uniqueness
    /// constraint firing: the table is left untouched and the failure is
    /// classified as a store error.
    pub fn create_user_at(&mut self, req: CreateUserRequest, id: u128, now: i64) -> (r: Result<
        User,
        AppError,
    >)
        requires
            old(self).wf(),
        ensures
            final(self).wf(),
            !has_id(old(self)@, id) ==> (r matches Ok(u) && u@ == new_record(req@, id, now)
                && final(self)@ == old(self)@.insert(
                insert_pos(old(self)@, now),
                new_record(req@, id, now),
            )),
            has_id(old(self)@, id) ==> (r matches Err(e) && e matches AppError::StoreError(m)
                && m@ == "duplicate id"@ && final(self)@ == old(self)@),
    {
        let ghost rv = req@;
        match self.find_row(id) {
            Some(i) => {
                proof {
                    assert(has_id(self@, id));
                }
                Err(AppError::StoreError(String::from_str("duplicate id")))
            },
            None => {
                let n = self.users.len();
                let mut pos: usize = 0;
                while pos < n && self.users[pos].created_at > now
                    invariant
                        n == self.users.len(),
                        pos <= n,
                        forall|j: int| 0 <= j < pos ==> self@[j].created_at > now,
                    decreases n - pos,
                {
                    pos += 1;
                }
                proof {
                    lemma_insert_pos_props(self@, now);
                    let p = insert_pos(self@, now);
                    if (pos as int) < p {
                        assert(self@[pos as int].created_at > now);
                        assert(false);
                    } else if p < pos as int {
                        assert(self@[p].created_at > now);
                        assert(false);
                    }
                }
                let user = User {
                    id,
                    username: req.username,
                    email: req.email,
                    first_name: req.first_name,
                    last_name: req.last_name,
                    bio: req.bio,
                    avatar_url: req.avatar_url,
                    is_active: true,
                    created_at: now,
                    updated_at: now,
                };
                let returned = user.clone();
                let ghost ue = user;
                self.users.insert(pos, user);
                proof {
                    lemma_views_insert(old(self).users@, pos as int, ue);
                    assert(ue@ =~= new_record(rv, id, now));
                    assert(self@ =~= old(self)@.insert(pos as int, new_record(rv, id, now)));
                    lemma_insert_keeps_wf(old(self)@, new_record(rv, id, now), now);
                }
                Ok(returned)
            },
        }
    }

    /// Read one: the record carrying `id` that is still active. A
    /// soft-deleted and a never-issued identifier are indistinguishable to
    /// the caller: both signal the same not-found error.
    pub fn get_user_by_id(&self, id: u128) -> (r: Result<User, AppError>)
        requires
            self.wf(),
        ensures
            has_active(self@, id) ==> (r matches Ok(u) && u@ == row_of(self@, id)),
            !has_active(self@, id) ==> (r matches Err(e) && e matches AppError::NotFound(m)
                && m@ == "User not found"@),
    {
        match self.find_row(id) {
            Some(i) => {
                let found = &self.users[i];
                if found.is_active {
                    proof {
                        lemma_row_of_unique(self@, id, i as int);
                        assert(has_active(self@, id));
                    }
                    Ok(found.clone())
                } else {
                    proof {
                        if has_active(self@, id) {
                            let k = choose|k: int|
                                0 <= k < self@.len() && self@[k].id == id && self@[k].is_active;
                            lemma_row_of_unique(self@, id, k);
                            lemma_row_of_unique(self@, id, i as int);
                            assert(false);
                        }
                    }
                    Err(AppError::NotFound(String::from_str("User not found")))
                }
            },
            None => Err(AppError::NotFound(String::from_str("User not found"))),
        }
    }

    /// List: every active record, newest first; an empty table or a table
    /// of only soft-deleted rows yields the empty sequence, never an error.
    pub fn get_all_users(&self) -> (r: Vec<User>)
        requires
            self.wf(),
        ensures
            views_of(r@) == active_rows(self@),
            newest_first(views_of(r@)),
    {
        broadcast use Seq::lemma_filter_push;

        let n = self.users.len();
        let mut out: Vec<User> = Vec::new();
        proof {
            assert(views_of(out@) =~= active_rows(self@.take(0)));
        }
        let mut i: usize = 0;
        while i < n
            invariant
                n == self.users.len(),
                i <= n,
                views_of(out@) == active_rows(self@.take(i as int)),
            decreases n - i,
        {
            let ghost prev = out@;
            let row = &self.users[i];
            if row.is_active {
                out.push(row.clone());
            }
            i += 1;
            proof {
                broadcast use Seq::lemma_filter_push;

                let t0 = self@.take(i as int - 1);
                let e = self@[i as int - 1];
                assert(self@.take(i as int) =~= t0.push(e));
                assert(active_rows(self@.take(i as int)) == active_rows(t0.push(e)));
                if e.is_active {
                    assert(views_of(out@) =~= views_of(prev).push(e));
                    assert(active_rows(t0.push(e)) == active_rows(t0).push(e));
                } else {
                    assert(views_of(out@) == views_of(prev));
                    assert(active_rows(t0.push(e)) == active_rows(t0));
                }
            }
        }
        proof {
            assert(self@.take(n as int) =~= self@);
            lemma_active_rows_sorted(self@);
        }
        out
    }

    /// Update: confirm the row exists in any activity state (so an update
    /// may also re-activate or deactivate), then merge field by field —
    /// supplied fields replace, absent fields keep the stored value — and
    /// re-stamp `updated_at` to `now` in one step. A missing identifier
    /// signals not-found before anything is written.
    pub fn update_user_at(&mut self, id: u128, req: UpdateUserRequest, now: i64) -> (r: Result<
        User,
        AppError,
    >)
        requires
            old(self).wf(),
        ensures
            final(self).wf(),
            has_id(old(self)@, id) ==> (r matches Ok(u) && u@ == merged(
                row_of(old(self)@, id),
                req@,
                now,
            ) && final(self)@ == update_rows(old(self)@, id, req@, now)),
            !has_id(old(self)@, id) ==> (r matches Err(e) && e matches AppError::NotFound(m)
                && m@ == "User not found"@ && final(self)@ == old(self)@),
    {
        let ghost rv = req@;
        let ghost s0 = self@;
        match self.find_row(id) {
            None => Err(AppError::NotFound(String::from_str("User not found"))),
            Some(i) => {
                proof {
                    lemma_row_of_unique(self@, id, i as int);
                }
                let stored = &self.users[i];
                let merged_user = User {
                    id: stored.id,
                    username: match req.username {
                        Some(s) => s,
                        None => stored.username.clone(),
                    },
                    email: pick_field(req.email, &stored.email),
                    first_name: pick_field(req.first_name, &stored.first_name),
                    last_name: pick_field(req.last_name, &stored.last_name),
                    bio: pick_field(req.bio, &stored.bio),
                    avatar_url: pick_field(req.avatar_url, &stored.avatar_url),
                    is_active: match req.is_active {
                        Some(b) => b,
                        None => stored.is_active,
                    },
                    created_at: stored.created_at,
                    updated_at: now,
                };
                proof {
                    assert(merged_user@ =~= merged(s0[i as int], rv, now));
                }
                let returned = merged_user.clone();
                let ghost mu = merged_user;
                let _ = self.users.remove(i);
                self.users.insert(i, merged_user);
                proof {
                    lemma_views_remove(old(self).users@, i as int);
                    lemma_views_insert(old(self).users@.remove(i as int), i as int, mu);
                    let after = s0.remove(i as int).insert(i as int, mu@);
                    assert(self@ =~= after);
                    s0.remove_ensures(i as int);
                    s0.remove(i as int).insert_ensures(i as int, mu@);
                    assert forall|k: int| 0 <= k < s0.len() implies after[k] == update_rows(
                        s0,
                        id,
                        rv,
                        now,
                    )[k] by {
                        if k < i as int {
                            assert(after[k] == s0.remove(i as int)[k]);
                            assert(after[k] == s0[k]);
                            assert(s0[k].id != s0[i as int].id);
                        } else if k == i as int {
                            assert(after[k] == mu@);
                        } else {
                            assert(after[k] == s0.remove(i as int)[k - 1]);
                            assert(after[k] == s0[k]);
                            assert(s0[i as int].id != s0[k].id);
                        }
                    }
                    assert(self@ =~= update_rows(s0, id, rv, now));
                    assert forall|k: int|
                        0 <= k < s0.len() implies (#[trigger] self@[k]).id == s0[k].id
                            && self@[k].created_at == s0[k].created_at by {}
                    lemma_same_skeleton_wf(s0, self@);
                }
                Ok(returned)
            },
        }
    }

    /// Soft delete: clear the activity flag of the row carrying `id`,
    /// whatever its current state — deleting an already-deleted record
    /// succeeds again. Nothing else moves; in particular `updated_at` is
    /// not re-stamped. Not-found fires only when no row carries `id` at
    /// all; the row stays physically present.
    pub fn delete_user(&mut self, id: u128) -> (r: Result<(), AppError>)
        requires
            old(self).wf(),
        ensures
            final(self).wf(),
            has_id(old(self)@, id) ==> (r matches Ok(_) && final(self)@ == deactivate_rows(
                old(self)@,
                id,
            )),
            !has_id(old(self)@, id) ==> (r matches Err(e) && e matches AppError::NotFound(m)
                && m@ == "User not found"@ && final(self)@ == old(self)@),
    {
        let ghost s0 = self@;
        match self.find_row(id) {
            None => Err(AppError::NotFound(String::from_str("User not found"))),
            Some(i) => {
                let mut cleared = self.users[i].clone();
                cleared.is_active = false;
                proof {
                    assert(cleared@ =~= deactivated(s0[i as int]));
                }
                let ghost cu = cleared;
                let _ = self.users.remove(i);
                self.users.insert(i, cleared);
                proof {
                    lemma_views_remove(old(self).users@, i as int);
                    lemma_views_insert(old(self).users@.remove(i as int), i as int, cu);
                    let after = s0.remove(i as int).insert(i as int, cu@);
                    assert(self@ =~= after);
                    s0.remove_ensures(i as int);
                    s0.remove(i as int).insert_ensures(i as int, cu@);
                    assert forall|k: int| 0 <= k < s0.len() implies after[k] == deactivate_rows(
                        s0,
                        id,
                    )[k] by {
                        if k < i as int {
                            assert(after[k] == s0.remove(i as int)[k]);
                            assert(after[k] == s0[k]);
                            assert(s0[k].id != s0[i as int].id);
                        } else if k == i as int {
                            assert(after[k] == cu@);
                        } else {
                            assert(after[k] == s0.remove(i as int)[k - 1]);
                            assert(after[k] == s0[k]);
                            assert(s0[i as int].id != s0[k].id);
                        }
                    }
                    assert(self@ =~= deactivate_rows(s0, id));
                    assert forall|k: int|
                        0 <= k < s0.len() implies (#[trigger] self@[k]).id == s0[k].id
                            && self@[k].created_at == s0[k].created_at by {}
                    lemma_same_skeleton_wf(s0, self@);
                }
                Ok(())
            },
        }
    }

    /// Create with a freshly drawn identifier and the current time. The
    /// identifier is random, so success cannot be promised: whatever comes
    /// back, either the full stored record is returned with a previously
    /// unissued identifier, both timestamps equal and the activity flag
    /// set, or the draw clashed with a stored row, the table is untouched
    /// and the failure is a store error. A clash needs a stored row to
    /// clash with: on an empty table success is owed.
    pub fn create_user(&mut self, req: CreateUserRequest) -> (r: Result<User, AppError>)
        requires
            old(self).wf(),
        ensures
            final(self).wf(),
            r matches Ok(u) ==> (!has_id(old(self)@, u@.id) && u@ == new_record(
                req@,
                u@.id,
                u@.created_at,
            ) && u@.is_active && u@.created_at == u@.updated_at && final(self)@ == old(
                self,
            )@.insert(insert_pos(old(self)@, u@.created_at), u@)),
            r matches Err(e) ==> (e matches AppError::StoreError(m) && m@ == "duplicate id"@
                && old(self)@.len() > 0 && final(self)@ == old(self)@),
    {
        let id = crate::gen::fresh_id();
        let now = crate::gen::now_millis();
        self.create_user_at(req, id, now)
    }

    /// Update at the current time: the merge and the `updated_at` re-stamp
    /// of `update_user_at`, with `now` drawn from the clock. Whatever time
    /// comes back, the returned record's `updated_at` is that time.
    pub fn update_user(&mut self, id: u128, req: UpdateUserRequest) -> (r: Result<
        User,
        AppError,
    >)
        requires
            old(self).wf(),
        ensures
            final(self).wf(),
            r matches Ok(u) ==> (has_id(old(self)@, id) && u@ == merged(
                row_of(old(self)@, id),
                req@,
                u@.updated_at,
            ) && final(self)@ == update_rows(old(self)@, id, req@, u@.updated_at)),
            r matches Err(e) ==> (e matches AppError::NotFound(m) && !has_id(old(self)@, id)
                && m@ == "User not found"@ && final(self)@ == old(self)@),
    {
        let now = crate::gen::now_millis();
        self.update_user_at(id, req, now)
    }
}

/// The supplied optional field when present, a copy of the stored one
/// otherwise.
fn pick_field(supplied: Option<String>, stored: &Option<String>) -> (r: Option<String>)
    ensures
        opt_view(r) == (if opt_view(supplied) is Some {
            opt_view(supplied)
        } else {
            opt_view(*stored)
        }),
{
    match supplied {
        Some(s) => Some(s),
        None => clone_opt(stored),
    }
}

} // verus!
