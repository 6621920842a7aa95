//! The User record model: the persisted resource shape, the transient
//! request shapes, their mathematical views, and the two pure derivations
//! the service builds on — the record a create stamps out and the
//! field-by-field merge an update applies.

use vstd::prelude::*;
use vstd::string::StringExecFns;

verus! {

/// Spec-level value of an optional text field: present with its characters,
/// or absent. Absent is distinct from present-and-empty.
pub open spec fn opt_view(o: Option<String>) -> Option<Seq<char>> {
    match o {
        Some(s) => Some(s@),
        None => None,
    }
}

/// The persisted User resource. Identifiers are carried as their 128-bit
/// value; timestamps as milliseconds since the epoch.
#[derive(Debug)]
pub struct User {
    pub id: u128,
    pub username: String,
    pub email: Option<String>,
    pub first_name: Option<String>,
    pub last_name: Option<String>,
    pub bio: Option<String>,
    pub avatar_url: Option<String>,
    pub is_active: bool,
    pub created_at: i64,
    pub updated_at: i64,
}

/// Mathematical value of a User row.
#[verifier::ext_equal]
pub struct UserView {
    pub id: u128,
    pub username: Seq<char>,
    pub email: Option<Seq<char>>,
    pub first_name: Option<Seq<char>>,
    pub last_name: Option<Seq<char>>,
    pub bio: Option<Seq<char>>,
    pub avatar_url: Option<Seq<char>>,
    pub is_active: bool,
    pub created_at: i64,
    pub updated_at: i64,
}

impl View for User {
    type V = UserView;

    open spec fn view(&self) -> UserView {
        UserView {
            id: self.id,
            username: self.username@,
            email: opt_view(self.email),
            first_name: opt_view(self.first_name),
            last_name: opt_view(self.last_name),
            bio: opt_view(self.bio),
            avatar_url: opt_view(self.avatar_url),
            is_active: self.is_active,
            created_at: self.created_at,
            updated_at: self.updated_at,
        }
    }
}

impl Clone for User {
    /// A clone carries the same abstract value.
    fn clone(&self) -> (r: Self)
        ensures
            r@ == self@,
    {
        User {
            id: self.id,
            username: self.username.clone(),
            email: clone_opt(&self.email),
            first_name: clone_opt(&self.first_name),
            last_name: clone_opt(&self.last_name),
            bio: clone_opt(&self.bio),
            avatar_url: clone_opt(&self.avatar_url),
            is_active: self.is_active,
            created_at: self.created_at,
            updated_at: self.updated_at,
        }
    }
}

/// Clone an optional text field, keeping its abstract value.
pub fn clone_opt(o: &Option<String>) -> (r: Option<String>)
    ensures
        opt_view(r) == opt_view(*o),
{
    match o {
        Some(s) => Some(s.clone()),
        None => None,
    }
}

/// Input shape for the create operation: `username` is required, every
/// other field is optional and passed through verbatim.
#[derive(Debug)]
pub struct CreateUserRequest {
    pub username: String,
    pub email: Option<String>,
    pub first_name: Option<String>,
    pub last_name: Option<String>,
    pub bio: Option<String>,
    pub avatar_url: Option<String>,
}

/// Mathematical value of a create request.
#[verifier::ext_equal]
pub struct CreateUserRequestView {
    pub username: Seq<char>,
    pub email: Option<Seq<char>>,
    pub first_name: Option<Seq<char>>,
    pub last_name: Option<Seq<char>>,
    pub bio: Option<Seq<char>>,
    pub avatar_url: Option<Seq<char>>,
}

impl View for CreateUserRequest {
    type V = CreateUserRequestView;

    open spec fn view(&self) -> CreateUserRequestView {
        CreateUserRequestView {
            username: self.username@,
            email: opt_view(self.email),
            first_name: opt_view(self.first_name),
            last_name: opt_view(self.last_name),
            bio: opt_view(self.bio),
            avatar_url: opt_view(self.avatar_url),
        }
    }
}

/// Input shape for the update operation: every field is optional, and an
/// absent field means "leave the stored value unchanged", never
/// "clear to null".
#[derive(Debug)]
pub struct UpdateUserRequest {
    pub username: Option<String>,
    pub email: Option<String>,
    pub first_name: Option<String>,
    pub last_name: Option<String>,
    pub bio: Option<String>,
    pub avatar_url: Option<String>,
    pub is_active: Option<bool>,
}

/// Mathematical value of an update request.
#[verifier::ext_equal]
pub struct UpdateUserRequestView {
    pub username: Option<Seq<char>>,
    pub email: Option<Seq<char>>,
    pub first_name: Option<Seq<char>>,
    pub last_name: Option<Seq<char>>,
    pub bio: Option<Seq<char>>,
    pub avatar_url: Option<Seq<char>>,
    pub is_active: Option<bool>,
}

impl View for UpdateUserRequest {
    type V = UpdateUserRequestView;

    open spec fn view(&self) -> UpdateUserRequestView {
        UpdateUserRequestView {
            username: opt_view(self.username),
            email: opt_view(self.email),
            first_name: opt_view(self.first_name),
            last_name: opt_view(self.last_name),
            bio: opt_view(self.bio),
            avatar_url: opt_view(self.avatar_url),
            is_active: self.is_active,
        }
    }
}

/// The supplied value when present, the stored value otherwise.
pub open spec fn keep_or<A>(supplied: Option<A>, stored: A) -> A {
    match supplied {
        Some(v) => v,
        None => stored,
    }
}

/// The row a create stamps out: request fields verbatim, the generated
/// `id`, `is_active` set, and one `now` used for both timestamps.
pub open spec fn new_record(req: CreateUserRequestView, id: u128, now: i64) -> UserView {
    UserView {
        id: id,
        username: req.username,
        email: req.email,
        first_name: req.first_name,
        last_name: req.last_name,
        bio: req.bio,
        avatar_url: req.avatar_url,
        is_active: true,
        created_at: now,
        updated_at: now,
    }
}

/// The row an update leaves behind: each field independently replaced when
/// supplied and kept otherwise, `id` and `created_at` untouched,
/// `updated_at` re-stamped to `now` regardless of which fields changed.
pub open spec fn merged(stored: UserView, req: UpdateUserRequestView, now: i64) -> UserView {
    UserView {
        id: stored.id,
        username: keep_or(req.username, stored.username),
        email: if req.email is Some { req.email } else { stored.email },
        first_name: if req.first_name is Some { req.first_name } else { stored.first_name },
        last_name: if req.last_name is Some { req.last_name } else { stored.last_name },
        bio: if req.bio is Some { req.bio } else { stored.bio },
        avatar_url: if req.avatar_url is Some { req.avatar_url } else { stored.avatar_url },
        is_active: keep_or(req.is_active, stored.is_active),
        created_at: stored.created_at,
        updated_at: now,
    }
}

/// The same row with its activity flag cleared; nothing else moves, the
/// timestamps included.
pub open spec fn deactivated(v: UserView) -> UserView {
    UserView {
        id: v.id,
        username: v.username,
        email: v.email,
        first_name: v.first_name,
        last_name: v.last_name,
        bio: v.bio,
        avatar_url: v.avatar_url,
        is_active: false,
        created_at: v.created_at,
        updated_at: v.updated_at,
    }
}

/// The derived full-name projection: both names joined by a space when both
/// are present, the one present otherwise, absent when neither is set.
pub open spec fn full_name_of(u: UserView) -> Option<Seq<char>> {
    match (u.first_name, u.last_name) {
        (Some(f), Some(l)) => Some(f + " "@ + l),
        (Some(f), None) => Some(f),
        (None, Some(l)) => Some(l),
        (None, None) => None,
    }
}

impl User {
    /// `first_name + " " + last_name` when both are present, whichever
    /// single name is present when only one is set, absent when neither is.
    /// Computed on read, never persisted.
    pub fn full_name(&self) -> (r: Option<String>)
        ensures
            opt_view(r) == full_name_of(self@),
    {
        match (&self.first_name, &self.last_name) {
            (Some(first), Some(last)) => {
                let mut joined = first.clone();
                joined.append(" ");
                joined.append(last.as_str());
                Some(joined)
            },
            (Some(first), None) => Some(first.clone()),
            (None, Some(last)) => Some(last.clone()),
            (None, None) => None,
        }
    }
}

} // verus!
