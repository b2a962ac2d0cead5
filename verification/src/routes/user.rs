//! Administration of users: listing them page by page, and the rule that
//! keeps at least one active admin.
use vstd::prelude::*;

use crate::auth::UserRole;
use crate::error::ErrorKind;

verus! {

/// The default number of users per page.
pub fn per_page_default() -> (r: u16)
    ensures
        r == 25,
{
    25
}

/// The default page: the first.
pub fn page_default() -> (r: u8)
    ensures
        r == 1,
{
    1
}

/// Which page of a list is asked for (pages count from 1), and how many
/// items a page holds.
#[derive(Debug, Clone, Copy)]
pub struct Pagination {
    pub page: u8,
    pub per_page: u16,
}

/// The page size: the one asked for, at most `max`.
pub open spec fn spec_limit(per_page: u16, max: u16) -> int {
    if per_page < max {
        per_page as int
    } else {
        max as int
    }
}

impl Pagination {
    /// The number of items on a page: the page size, at most `max`.
    pub fn limit(&self, max: u16) -> (r: i64)
        ensures
            r == spec_limit(self.per_page, max),
    {
        if self.per_page < max {
            self.per_page as i64
        } else {
            max as i64
        }
    }

    /// The number of items before the page: its limit times the number of
    /// pages before it (none before page 0 or 1).
    pub fn offset(&self, max: u16) -> (r: i64)
        ensures
            r == spec_limit(self.per_page, max) * (if self.page == 0 {
                0
            } else {
                self.page - 1
            }),
    {
        let limit: i64 = self.limit(max);
        let before: u8 = self.page.saturating_sub(1);
        assert(limit * before <= 65535 * 255) by (nonlinear_arith)
            requires
                0 <= limit <= 65535,
                0 <= before <= 255,
        ;
        assert(limit * before >= 0) by (nonlinear_arith)
            requires
                0 <= limit,
                0 <= before,
        ;
        limit * (before as i64)
    }
}

/// A user as administrators see it (UUID as an integer).
#[derive(Debug, Clone)]
pub struct AdminUser {
    pub id: u128,
    pub name: String,
    pub email: Option<String>,
    pub active: bool,
    pub roles: Vec<UserRole>,
    pub customer: bool,
    pub require_password_reset: bool,
}

/// The new state of a user.
#[derive(Debug, Clone)]
pub struct UserReplacePayload {
    pub name: String,
    pub email: Option<String>,
    pub active: bool,
    pub roles: Vec<UserRole>,
    pub customer: bool,
    pub require_password_reset: bool,
}

/// Whether a user in this state is no active admin.
pub open spec fn spec_drops_admin(active: bool, roles: Seq<UserRole>) -> bool {
    !active || !roles.contains(UserRole::Admin)
}

/// Refuses (403) to delete a user when no other active admin exists
/// (`last_admin`).
pub fn check_user_delete(last_admin: bool) -> (r: Result<(), ErrorKind>)
    ensures
        !last_admin ==> r is Ok,
        last_admin ==> r == Err::<(), ErrorKind>(ErrorKind::Status(403)),
{
    if last_admin {
        Err(ErrorKind::forbidden())
    } else {
        Ok(())
    }
}

/// Refuses (403) to make a user no active admin when no other active admin
/// exists (`last_admin`).
pub fn check_user_replace(payload: &UserReplacePayload, last_admin: bool) -> (r: Result<(), ErrorKind>)
    ensures
        !(spec_drops_admin(payload.active, payload.roles@) && last_admin) ==> r is Ok,
        spec_drops_admin(payload.active, payload.roles@) && last_admin ==> r == Err::<(), ErrorKind>(
            ErrorKind::Status(403),
        ),
{
    if (!payload.active || !crate::auth::contains_role(&payload.roles, UserRole::Admin)) && last_admin {
        Err(ErrorKind::forbidden())
    } else {
        Ok(())
    }
}

/// Whether a user (active, roles) is an active admin.
pub open spec fn is_active_admin(user: (bool, Seq<UserRole>)) -> bool {
    user.0 && user.1.contains(UserRole::Admin)
}

/// Whether there is an active admin among users (by id: active, roles).
pub open spec fn has_active_admin(users: Map<u128, (bool, Seq<UserRole>)>) -> bool {
    exists|o: u128| users.contains_key(o) && #[trigger] is_active_admin(users[o])
}

/// Whether no user other than `id` is an active admin: what `last_admin`
/// tells the checks.
pub open spec fn spec_is_last_admin(users: Map<u128, (bool, Seq<UserRole>)>, id: u128) -> bool {
    !exists|o: u128| o != id && users.contains_key(o) && #[trigger] is_active_admin(users[o])
}

/// A deletion that the check allows leaves an active admin.
pub proof fn lemma_allowed_delete_keeps_an_admin(users: Map<u128, (bool, Seq<UserRole>)>, id: u128)
    requires
        !spec_is_last_admin(users, id),
    ensures
        has_active_admin(users.remove(id)),
{
    let o = choose|o: u128| o != id && users.contains_key(o) && #[trigger] is_active_admin(users[o]);
    assert(users.remove(id).contains_key(o));
    assert(users.remove(id)[o] == users[o]);
}

/// A change of a user that the check allows leaves an active admin.
pub proof fn lemma_allowed_replace_keeps_an_admin(
    users: Map<u128, (bool, Seq<UserRole>)>,
    id: u128,
    active: bool,
    roles: Seq<UserRole>,
)
    requires
        !(spec_drops_admin(active, roles) && spec_is_last_admin(users, id)),
    ensures
        has_active_admin(users.insert(id, (active, roles))),
{
    let after = users.insert(id, (active, roles));
    if !spec_drops_admin(active, roles) {
        assert(after.contains_key(id));
        assert(is_active_admin(after[id]));
    } else {
        let o = choose|o: u128| o != id && users.contains_key(o) && #[trigger] is_active_admin(users[o]);
        assert(after.contains_key(o));
        assert(after[o] == users[o]);
    }
}

/// A change that keeps the user an active admin never drops an admin, and
/// one that makes the user inactive or takes the admin role away does.
pub proof fn lemma_drops_admin_exactly(active: bool, roles: Seq<UserRole>)
    ensures
        active && roles.contains(UserRole::Admin) ==> !spec_drops_admin(active, roles),
        !active ==> spec_drops_admin(active, roles),
        !roles.contains(UserRole::Admin) ==> spec_drops_admin(active, roles),
{
}

/// The checks refuse only what would leave no active admin: a deletion
/// refused as the last admin's, and a change refused as dropping the last
/// admin, would each leave none.
pub proof fn lemma_refusals_are_needed(
    users: Map<u128, (bool, Seq<UserRole>)>,
    id: u128,
    active: bool,
    roles: Seq<UserRole>,
)
    ensures
        spec_is_last_admin(users, id) ==> !has_active_admin(users.remove(id)),
        spec_drops_admin(active, roles) && spec_is_last_admin(users, id) ==> !has_active_admin(
            users.insert(id, (active, roles)),
        ),
{
    if spec_is_last_admin(users, id) {
        assert forall|o: u128| users.remove(id).contains_key(o) implies !#[trigger] is_active_admin(
            users.remove(id)[o],
        ) by {
            assert(o != id);
            assert(users.remove(id)[o] == users[o]);
        }
        if spec_drops_admin(active, roles) {
            let after = users.insert(id, (active, roles));
            assert forall|o: u128| after.contains_key(o) implies !#[trigger] is_active_admin(after[o]) by {
                if o != id {
                    assert(after[o] == users[o]);
                }
            }
        }
    }
}

} // verus!
