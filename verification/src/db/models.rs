//! Records, forms and cookies of the bridge.
use vstd::prelude::*;
use vstd::std_specs::convert::FromSpecImpl;

use crate::db::mongo::{hex_of, ObjectID};
use crate::kube::notebook_lifecycle::NotebookRecord;
use crate::text::str_eq;

verus! {

/// The role of a user.
#[derive(Debug, Clone, Copy, PartialEq, Eq, Structural)]
pub enum UserType {
    User,
    GroupAdmin,
    SystemAdmin,
}

/// The role a stored name stands for; an unknown name stands for a plain user.
pub open spec fn user_type_of(s: Seq<char>) -> UserType {
    if s == "user"@ {
        UserType::User
    } else if s == "group"@ {
        UserType::GroupAdmin
    } else if s == "system"@ {
        UserType::SystemAdmin
    } else {
        UserType::User
    }
}

/// The stored name of a role.
pub open spec fn user_type_name(t: UserType) -> Seq<char> {
    match t {
        UserType::User => "user"@,
        UserType::GroupAdmin => "group"@,
        UserType::SystemAdmin => "system"@,
    }
}

/// The stored name of a role, as the string the library hands out.
pub open spec fn user_type_str(t: UserType) -> &'static str {
    match t {
        UserType::User => "user",
        UserType::GroupAdmin => "group",
        UserType::SystemAdmin => "system",
    }
}

impl UserType {
    /// The stored names of all roles, in declaration order.
    pub fn to_array_str() -> (r: [&'static str; 3])
        ensures
            r[0]@ == user_type_name(UserType::User),
            r[1]@ == user_type_name(UserType::GroupAdmin),
            r[2]@ == user_type_name(UserType::SystemAdmin),
    {
        ["user", "group", "system"]
    }

    /// The role a stored name stands for.
    pub fn from_name(s: &str) -> (r: UserType)
        ensures
            r == user_type_of(s@),
    {
        if str_eq(s, "user") {
            UserType::User
        } else if str_eq(s, "group") {
            UserType::GroupAdmin
        } else if str_eq(s, "system") {
            UserType::SystemAdmin
        } else {
            UserType::User
        }
    }

    /// The stored name of the role.
    pub fn name(self) -> (r: &'static str)
        ensures
            r == user_type_str(self),
            r@ == user_type_name(self),
    {
        match self {
            UserType::User => "user",
            UserType::GroupAdmin => "group",
            UserType::SystemAdmin => "system",
        }
    }
}

impl<'a> From<&'a str> for UserType {
    fn from(s: &'a str) -> (r: UserType) {
        UserType::from_name(s)
    }
}

impl<'a> FromSpecImpl<&'a str> for UserType {
    open spec fn obeys_from_spec() -> bool {
        true
    }

    open spec fn from_spec(s: &'a str) -> UserType {
        user_type_of(s@)
    }
}

impl From<UserType> for &'static str {
    fn from(user_type: UserType) -> (r: &'static str) {
        user_type.name()
    }
}

impl FromSpecImpl<UserType> for &'static str {
    open spec fn obeys_from_spec() -> bool {
        true
    }

    open spec fn from_spec(user_type: UserType) -> &'static str {
        user_type_str(user_type)
    }
}

/// A role name is read back as the role it names.
pub proof fn lemma_user_type_name_roundtrip(t: UserType)
    ensures
        user_type_of(user_type_name(t)) == t,
{
    reveal_strlit("user");
    reveal_strlit("group");
    reveal_strlit("system");
    assert("user"@.len() == 4);
    assert("group"@.len() == 5);
    assert("system"@.len() == 6);
    assert("group"@[0] != "system"@[0]);
}

} // verus!

verus! {

/// This is the form verison of the User struct
#[derive(Debug)]
pub struct UserForm {
    // sub is the safer way to identify a user, but sub is an arbitrary string if the user
    // registered through IBM ID. This would be not great on the admin portal. If we ensure the
    // email address has been verified, we can use that as the unique identifier.
    pub email: String,
    pub groups: Vec<String>,
    pub user_type: Option<UserType>,
    pub last_updated_by: String,
}

#[derive(Debug)]
pub struct UserDeleteForm {
    pub email: String,
    pub last_updated_by: String,
}

/// This is the form verison of the Group struct
#[derive(Debug)]
pub struct GroupForm {
    pub name: String,
    pub subscriptions: Vec<String>,
    pub last_updated_by: String,
}

/// The name of the collection of users.
pub const USER: &'static str = "users";
/// The name of the collection of groups.
pub const GROUP: &'static str = "groups";
/// The name of the collection of leases.
pub const LOCKS: &'static str = "locks";
/// The name of the collection of registered applications.
pub const APPS: &'static str = "applications";

/// A user as the admin portal shows it.
#[derive(Debug)]
pub struct UserPortalRep {
    pub _id: String,
    pub sub: String,
    pub user_name: String,
    pub email: String,
    pub user_type: &'static str,
    pub created_at: String,
    pub updated_at: String,
    pub last_updated_by: String,
}

/// A user record as the database keeps it; times are nanoseconds since the
/// Unix epoch, in UTC.
#[derive(Debug)]
pub struct User {
    pub _id: ObjectID,
    pub sub: String,
    pub user_name: String,
    pub email: String,
    pub groups: Vec<String>,
    pub user_type: UserType,
    pub token: Option<String>,
    pub notebook: Option<NotebookInfo>,
    pub created_at: i128,
    pub updated_at: i128,
    pub last_updated_by: String,
}

/// What a user record says of the user's notebook.
#[derive(Debug)]
pub struct NotebookInfo {
    pub start_time: Option<i128>,
    pub last_active: Option<i128>,
    pub max_idle_time: Option<u64>,
    pub start_up_url: Option<String>,
    pub persist_pvc: bool,
}

impl NotebookInfo {
    /// What the notebook lifecycle reads of the record.
    pub fn lifecycle_record(&self) -> (r: NotebookRecord)
        ensures
            r == (NotebookRecord { start_time: self.start_time, persist_pvc: self.persist_pvc }),
    {
        NotebookRecord { start_time: self.start_time, persist_pvc: self.persist_pvc }
    }
}

/// The text `time` writes for the instant `nanos` nanoseconds after the
/// Unix epoch (in UTC), or `None` when that lies outside the dates it
/// represents.
pub uninterp spec fn datetime_text(nanos: i128) -> Option<Seq<char>>;

/// Calls `time::OffsetDateTime::from_unix_timestamp_nanos` and writes the
/// result out with its `Display`. The text is named by `datetime_text`.
#[verifier::external_body]
fn format_datetime(nanos: i128) -> (r: Option<String>)
    ensures
        r is None <==> datetime_text(nanos) is None,
        r matches Some(t) ==> datetime_text(nanos) == Some(t@),
{
    match time::OffsetDateTime::from_unix_timestamp_nanos(nanos) {
        Ok(d) => Some(d.to_string()),
        Err(_) => None,
    }
}

impl UserPortalRep {
    /// A user as the admin portal shows it: the identifier in hexadecimal,
    /// the role by its stored name and the times as `time` writes them;
    /// `None` when a time lies outside the dates `time` represents.
    pub fn from_user(user: User) -> (r: Option<UserPortalRep>)
        ensures
            (datetime_text(user.created_at) is Some && datetime_text(user.updated_at) is Some)
                <==> r is Some,
            r matches Some(p) ==> {
                &&& p._id@ == hex_of(user._id.0@)
                &&& p.sub == user.sub
                &&& p.user_name == user.user_name
                &&& p.email == user.email
                &&& p.user_type == user_type_str(user.user_type)
                &&& Some(p.created_at@) == datetime_text(user.created_at)
                &&& Some(p.updated_at@) == datetime_text(user.updated_at)
                &&& p.last_updated_by == user.last_updated_by
            },
    {
        let created_at = match format_datetime(user.created_at) {
            Some(t) => t,
            None => return None,
        };
        let updated_at = match format_datetime(user.updated_at) {
            Some(t) => t,
            None => return None,
        };
        Some(
            UserPortalRep {
                _id: user._id.to_hex(),
                sub: user.sub,
                user_name: user.user_name,
                email: user.email,
                user_type: user.user_type.name(),
                created_at,
                updated_at,
                last_updated_by: user.last_updated_by,
            },
        )
    }
}

/// A running notebook as the portal shows it.
#[derive(Debug)]
pub struct UserNotebook {
    pub name: String,
    pub url: String,
    pub start_time: String,
    pub status: String,
    pub start_up_url: Option<String>,
}

/// A registered application.
#[derive(Debug)]
pub struct Apps {
    pub client_id: String,
    pub client_secret: String,
    pub salt: String,
}

/// The credentials an application signs in with.
#[derive(Debug)]
pub struct AppPayload {
    pub username: String,
    pub password: String,
}

/// A change of a user's group membership.
#[derive(Debug)]
pub struct UserGroupMod {
    pub email: String,
    pub modify_user: ModifyUser,
    pub group_name: String,
    pub last_updated_by: String,
}

/// Whether a user joins or leaves a group.
#[derive(Debug, Clone, Copy, PartialEq, Eq, Structural)]
pub enum ModifyUser {
    Add,
    Remove,
}

/// The session cookie of the bridge.
#[derive(Debug)]
pub struct BridgeCookie {
    pub subject: String,
    pub user_type: UserType,
    pub config: Option<Config>,
    pub resources: Option<Vec<String>>,
    pub token: Option<String>,
    pub session_id: Option<String>,
}

/// The settings a user chose.
#[derive(Debug, Clone, Copy, PartialEq, Eq, Structural)]
pub struct Config {
    pub notebook_persist_pvc: Option<bool>,
}

/// The cookie naming the notebook a user reaches.
#[derive(Debug)]
pub struct NotebookCookie {
    /// The name of the subject the owns notebook CRD
    pub subject: String,
    pub ip: String,
}

/// The cookie with the state of a user's notebook.
#[derive(Debug)]
pub struct NotebookStatusCookie {
    pub start_time: String,
    pub status: String,
    pub start_url: Option<String>,
}

/// The tabs of the admin portal.
#[derive(Debug, Clone, Copy, PartialEq, Eq, Structural)]
pub enum AdminTab {
    Profile,
    GroupView,
    GroupCreate,
    GroupModify,
    UserView,
    UserModify,
    UserDelete,
    Main,
}

/// The tab of the admin portal a request opens.
#[derive(Debug)]
pub struct AdminTabs {
    pub tab: AdminTab,
    pub user: Option<String>,
    pub group: Option<String>,
}

} // verus!
