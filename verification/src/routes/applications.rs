//! Applications and who may change them.
use vstd::prelude::*;

use crate::auth::{spec_has_role, SessionInfo, UserRole};
use crate::error::{ApiError, ErrorKind};

verus! {

/// Who owns an application (UUID as an integer), and whether it is a system
/// application.
#[derive(Debug, Clone, Copy)]
pub struct AppInfo {
    pub owner: u128,
    pub system: bool,
}

impl AppInfo {
    /// Grants access to the application's owner, and to admins for system
    /// applications; refuses it as forbidden otherwise.
    pub fn check(&self, session: &SessionInfo) -> (r: Result<(), ErrorKind>)
        ensures
            (session.user == self.owner || (self.system && spec_has_role(
                session.claims,
                UserRole::Admin,
            ))) ==> r is Ok,
            !(session.user == self.owner || (self.system && spec_has_role(
                session.claims,
                UserRole::Admin,
            ))) ==> r == Err::<(), ErrorKind>(ErrorKind::Status(403)),
    {
        if session.user == self.owner {
            return Ok(());
        } else if self.system && session.has_role(UserRole::Admin) {
            return Ok(());
        }
        Err(ErrorKind::forbidden())
    }

    /// The check of a change to the application looked up by id: none found
    /// is answered 404, otherwise `check` decides.
    pub fn check_by_id(found: Option<AppInfo>, session: &SessionInfo) -> (r: Result<(), ErrorKind>)
        ensures
            found is None ==> r == Err::<(), ErrorKind>(ErrorKind::Status(404)),
            found matches Some(app) ==> ((session.user == app.owner || (app.system && spec_has_role(
                session.claims,
                UserRole::Admin,
            ))) <==> r is Ok),
            found matches Some(app) && r is Err ==> r == Err::<(), ErrorKind>(ErrorKind::Status(403)),
    {
        match found {
            Some(app) => app.check(session),
            None => Err(ErrorKind::not_found()),
        }
    }
}

/// Who may create an application: an admin creates system applications, a
/// developer (or an admin) the others; anyone else is refused (403). On
/// success, whether the creator is an admin, which decides the groups open
/// to the new application (all groups for admins, the groups open to
/// developers otherwise).
pub fn check_create_application(system_application: bool, session: &SessionInfo) -> (r: Result<bool, ErrorKind>)
    ensures
        r is Ok <==> (if system_application {
            spec_has_role(session.claims, UserRole::Admin)
        } else {
            spec_has_role(session.claims, UserRole::Developer)
        }),
        r is Err ==> r == Err::<bool, ErrorKind>(ErrorKind::Status(403)),
        r matches Ok(b) ==> b == spec_has_role(session.claims, UserRole::Admin),
{
    let checked = if system_application {
        session.check_admin()
    } else {
        session.check_developer()
    };
    match checked {
        Ok(()) => Ok(session.has_role(UserRole::Admin)),
        Err(e) => Err(e),
    }
}

/// Refuses (400, "Unknown application_group '<group>'") an application
/// group that the creator may not use or that does not exist (`found` is
/// whether it was found among the groups open to the creator).
pub fn check_application_group(found: bool, group: &str) -> (r: Result<(), ErrorKind>)
    ensures
        found ==> r is Ok,
        !found ==> (r matches Err(ErrorKind::Api(e)) && e.status == 400 && e.message@
            == "Unknown application_group '"@ + group@ + "'"@),
{
    if found {
        Ok(())
    } else {
        let message = String::from_str("Unknown application_group '").concat(group).concat("'");
        Err(ErrorKind::Api(ApiError { status: 400, message }))
    }
}

/// The new name and redirect addresses of an application.
#[derive(Debug, Clone)]
pub struct ReplacePayload {
    pub name: String,
    pub redirect_uri: Vec<String>,
}

} // verus!
