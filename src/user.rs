use vstd::prelude::*;

use crate::account::UserId;
use crate::money::LedgerError;

verus! {

/// A secret that is never shown: its printed and serialized forms are a mask.
#[derive(Clone)]
pub struct Password(String);

impl Password {
    pub closed spec fn view(&self) -> Seq<char> {
        self.0@
    }

    pub fn new(data: String) -> (r: Self)
        ensures
            r@ == data@,
    {
        Password(data)
    }

    /// The secret itself.
    pub fn expose(&self) -> (r: &str)
        ensures
            r@ == self@,
    {
        self.0.as_str()
    }

    /// What stands for the secret wherever it would be shown.
    pub fn masked(&self) -> (r: String)
        ensures
            r@ == "********"@,
    {
        String::from_str("********")
    }
}

/// The kind of device a session comes from.
#[derive(Clone, Copy, Debug, PartialEq, Eq, Structural)]
pub enum DeviceType {
    Ios,
    Android,
    Web,
    Other,
}

/// Identity of a user's device.
#[derive(Debug, PartialEq, Eq)]
pub struct DeviceId(pub String);

impl Clone for DeviceId {
    fn clone(&self) -> (r: Self)
        ensures
            r == *self,
    {
        DeviceId(self.0.clone())
    }
}

fn clone_text(o: &Option<String>) -> (r: Option<String>)
    ensures
        r == *o,
{
    match o {
        Some(s) => Some(s.clone()),
        None => None,
    }
}

fn clone_device(o: &Option<DeviceId>) -> (r: Option<DeviceId>)
    ensures
        r == *o,
{
    match o {
        Some(d) => Some(d.clone()),
        None => None,
    }
}

/// The token sent to confirm a new device.
#[derive(Clone, Debug, PartialEq, Eq)]
pub struct DeviceConfirmToken(pub String);

/// The public key a device registers with.
#[derive(Clone, Debug, PartialEq, Eq)]
pub struct DevicePublicKey(pub String);

/// The token sent to confirm an email address.
#[derive(Clone, Debug, PartialEq, Eq)]
pub struct EmailConfirmToken(pub String);

/// A token issued by an OAuth provider.
#[derive(Clone, Debug, PartialEq, Eq)]
pub struct OauthToken(pub String);

/// The OAuth providers that sessions may come from.
#[derive(Clone, Copy, Debug, PartialEq, Eq, Structural)]
pub enum Provider {
    Facebook,
    Google,
}

/// A user as shown to clients.
#[derive(Clone, Debug)]
pub struct User {
    pub id: UserId,
    pub email: String,
    pub first_name: Option<String>,
    pub last_name: Option<String>,
    pub phone: Option<String>,
    pub device_id: Option<DeviceId>,
    pub device_os: Option<String>,
}

/// A registration request.
#[derive(Clone)]
pub struct NewUser {
    pub email: String,
    pub first_name: String,
    pub last_name: String,
    pub password: Password,
    pub device_type: DeviceType,
    pub phone: Option<String>,
    pub device_id: DeviceId,
    pub device_os: String,
    pub public_key: DevicePublicKey,
}

/// The changes a user may make to their profile.
#[derive(Clone, Debug, Default)]
pub struct UpdateUser {
    pub first_name: Option<String>,
    pub last_name: Option<String>,
    pub phone: Option<String>,
}

/// A stored user.
#[derive(Debug)]
pub struct UserDB {
    pub id: UserId,
    pub email: String,
    pub phone: Option<String>,
    pub first_name: Option<String>,
    pub last_name: Option<String>,
    /// Milliseconds since the Unix epoch.
    pub created_at: i64,
    /// Milliseconds since the Unix epoch.
    pub updated_at: i64,
    pub device_id: Option<DeviceId>,
    pub device_os: Option<String>,
    /// Sessions issued before this time (milliseconds since the Unix epoch) are revoked.
    pub revoke_before: i64,
}

/// `o`'s text, or "unknown" when there is none.
pub open spec fn or_unknown(o: Option<String>) -> Seq<char> {
    match o {
        Some(s) => s@,
        None => "unknown"@,
    }
}

/// The first character of `s`, or the NUL character when `s` is empty.
pub open spec fn initial(s: Seq<char>) -> Seq<char> {
    if s.len() > 0 {
        s.subrange(0, 1)
    } else {
        seq!['\0']
    }
}

/// "First L.": the first name in full and the initial of the last name.
pub open spec fn full_name(first: Option<String>, last: Option<String>) -> Seq<char> {
    or_unknown(first) + " "@ + initial(or_unknown(last)) + "."@
}

fn text_or_unknown(o: &Option<String>) -> (r: String)
    ensures
        r@ == or_unknown(*o),
{
    match o {
        Some(s) => s.clone(),
        None => String::from_str("unknown"),
    }
}

/// The row that inserting `n` at `now` stores: every column of `n` is kept.
pub open spec fn inserted_row(n: NewUserDB, now: i64) -> UserDB {
    UserDB {
        id: n.id,
        email: n.email,
        phone: n.phone,
        first_name: Some(n.first_name),
        last_name: Some(n.last_name),
        created_at: now,
        updated_at: now,
        device_id: n.device_id,
        device_os: n.device_os,
        revoke_before: now,
    }
}

/// The user that the registration record `n` describes at `now`. The device
/// columns are left empty: a device is attached only once it is confirmed.
pub open spec fn user_of(n: NewUserDB, now: i64) -> UserDB {
    UserDB {
        id: n.id,
        email: n.email,
        phone: n.phone,
        first_name: Some(n.first_name),
        last_name: Some(n.last_name),
        created_at: now,
        updated_at: now,
        device_id: None,
        device_os: None,
        revoke_before: now,
    }
}

/// Relies on std::time::SystemTime::now, chrono's `From<SystemTime>` for
/// `DateTime<Utc>` and DateTime::timestamp_millis: the current UTC time in
/// milliseconds since the Unix epoch, negative for a clock set before 1970.
/// Nothing is promised of its value.
#[verifier::external_body]
fn utc_now_millis() -> (r: i64) {
    chrono::DateTime::<chrono::Utc>::from(std::time::SystemTime::now()).timestamp_millis()
}

impl UserDB {
    /// The name shown in messages: first name and last initial.
    pub fn get_full_name(&self) -> (r: String)
        ensures
            r@ == full_name(self.first_name, self.last_name),
    {
        let mut r = text_or_unknown(&self.first_name);
        r.append(" ");
        let last = text_or_unknown(&self.last_name);
        if last.as_str().unicode_len() > 0 {
            r.append(last.as_str().substring_char(0, 1));
        } else {
            proof {
                reveal_strlit("\0");
            }
            r.append("\0");
        }
        r.append(".");
        r
    }

    /// The user that `new_user` describes, created at the current time;
    /// the device columns are left empty.
    pub fn from_new_now(new_user: NewUserDB) -> (r: UserDB)
        ensures
            r.id == new_user.id,
            r.email == new_user.email,
            r.first_name == Some(new_user.first_name),
            r.last_name == Some(new_user.last_name),
            r.phone == new_user.phone,
            r.device_id == None::<DeviceId>,
            r.device_os == None::<String>,
            r.created_at == r.updated_at,
            r.revoke_before == r.created_at,
    {
        let now = utc_now_millis();
        UserDB::from_new(new_user, now)
    }

    /// The user that `new_user` describes, created at `now`; the device
    /// columns are left empty.
    pub fn from_new(new_user: NewUserDB, now: i64) -> (r: UserDB)
        ensures
            r == user_of(new_user, now),
    {
        UserDB {
            id: new_user.id,
            email: new_user.email,
            phone: new_user.phone,
            first_name: Some(new_user.first_name),
            last_name: Some(new_user.last_name),
            created_at: now,
            updated_at: now,
            device_id: None,
            device_os: None,
            revoke_before: now,
        }
    }

    /// The row stored for `new_user` at `now`, device columns included.
    fn insert_row(new_user: NewUserDB, now: i64) -> (r: UserDB)
        ensures
            r == inserted_row(new_user, now),
    {
        UserDB {
            id: new_user.id,
            email: new_user.email,
            phone: new_user.phone,
            first_name: Some(new_user.first_name),
            last_name: Some(new_user.last_name),
            created_at: now,
            updated_at: now,
            device_id: new_user.device_id,
            device_os: new_user.device_os,
            revoke_before: now,
        }
    }
}

impl Clone for UserDB {
    fn clone(&self) -> (r: Self)
        ensures
            r == *self,
    {
        UserDB {
            id: self.id,
            email: self.email.clone(),
            phone: clone_text(&self.phone),
            first_name: clone_text(&self.first_name),
            last_name: clone_text(&self.last_name),
            created_at: self.created_at,
            updated_at: self.updated_at,
            device_id: clone_device(&self.device_id),
            device_os: clone_text(&self.device_os),
            revoke_before: self.revoke_before,
        }
    }
}

impl Default for UserDB {
    /// An empty user with the nil id, created at the current time.
    fn default() -> (r: Self)
        ensures
            r.id == UserId(0),
            r.email@ == Seq::<char>::empty(),
            r.phone is None,
            r.first_name is None,
            r.last_name is None,
            r.device_id is None,
            r.device_os is None,
            r.created_at == r.updated_at,
            r.revoke_before == r.created_at,
    {
        let now = utc_now_millis();
        UserDB {
            id: UserId(0),
            email: String::new(),
            phone: None,
            first_name: None,
            last_name: None,
            created_at: now,
            updated_at: now,
            device_id: None,
            device_os: None,
            revoke_before: now,
        }
    }
}

/// What is stored when a user registers.
#[derive(Debug)]
pub struct NewUserDB {
    pub id: UserId,
    pub email: String,
    pub first_name: String,
    pub last_name: String,
    pub phone: Option<String>,
    pub device_id: Option<DeviceId>,
    pub device_os: Option<String>,
}

fn text_or_empty(o: Option<String>) -> (r: String)
    ensures
        r@ == match o {
            Some(s) => s@,
            None => Seq::<char>::empty(),
        },
{
    match o {
        Some(s) => s,
        None => String::new(),
    }
}

impl NewUserDB {
    /// The stored form of `user`; a missing name part becomes empty.
    pub fn from_user(user: User) -> (r: NewUserDB)
        ensures
            r.id == user.id,
            r.email == user.email,
            r.first_name@ == (match user.first_name {
                Some(s) => s@,
                None => Seq::<char>::empty(),
            }),
            r.last_name@ == (match user.last_name {
                Some(s) => s@,
                None => Seq::<char>::empty(),
            }),
            r.phone == user.phone,
            r.device_id == user.device_id,
            r.device_os == user.device_os,
    {
        NewUserDB {
            id: user.id,
            email: user.email,
            first_name: text_or_empty(user.first_name),
            last_name: text_or_empty(user.last_name),
            phone: user.phone,
            device_id: user.device_id,
            device_os: user.device_os,
        }
    }
}

/// A request to reset a forgotten password.
#[derive(Clone, Debug)]
pub struct ResetPassword {
    pub email: String,
    pub device: DeviceType,
}

/// A request to send the email confirmation again.
#[derive(Clone, Debug)]
pub struct ResendEmailVerify {
    pub email: String,
    pub device: DeviceType,
}

/// The confirmation of a password reset.
#[derive(Clone)]
pub struct ResetPasswordConfirm {
    pub token: String,
    pub password: Password,
}

/// A password change by a signed-in user.
#[derive(Clone)]
pub struct ChangePassword {
    pub old_password: Password,
    pub new_password: Password,
}

/// An email to send.
#[derive(Clone, Debug)]
pub struct Email {
    pub to: String,
    pub subject: String,
    pub text: String,
}

impl Email {
    pub fn new(to: String, subject: String, text: String) -> (r: Self)
        ensures
            r.to == to,
            r.subject == subject,
            r.text == text,
    {
        Self { to, subject, text }
    }
}

/// The email that asks a user to confirm a new device.
#[derive(Clone, Debug)]
pub struct DeviceAddEmail {
    pub to: String,
    pub base_url: String,
    pub token: DeviceConfirmToken,
    pub device_id: DeviceId,
}

impl DeviceAddEmail {
    pub fn new(to: String, base_url: String, token: DeviceConfirmToken, device_id: DeviceId) -> (r:
        Self)
        ensures
            r.to == to,
            r.base_url == base_url,
            r.token == token,
            r.device_id == device_id,
    {
        Self { to, base_url, token, device_id }
    }
}

/// Stored users, keyed by a unique id.
#[derive(Debug)]
pub struct UsersRepoImpl {
    pub users: Vec<UserDB>,
}

pub open spec fn has_user(s: Seq<UserDB>, id: UserId) -> bool {
    exists|i: int| 0 <= i < s.len() && #[trigger] s[i].id == id
}

impl UsersRepoImpl {
    pub open spec fn wf(&self) -> bool {
        forall|i: int, j: int|
            0 <= i < self.users@.len() && 0 <= j < self.users@.len() && i != j
                ==> self.users@[i].id != self.users@[j].id
    }

    pub fn new() -> (r: Self)
        ensures
            r.wf(),
            r.users@.len() == 0,
    {
        UsersRepoImpl { users: Vec::new() }
    }

    fn find(&self, id: UserId) -> (r: Option<usize>)
        ensures
            r is None <==> !has_user(self.users@, id),
            r matches Some(i) ==> i < self.users@.len() && self.users@[i as int].id == id,
    {
        let mut i: usize = 0;
        while i < self.users.len()
            invariant
                i <= self.users@.len(),
                forall|j: int| 0 <= j < i ==> self.users@[j].id != id,
            decreases self.users@.len() - i,
        {
            if self.users[i].id == id {
                return Some(i);
            }
            i += 1;
        }
        None
    }

    /// Stores a new user created at `now`; `Conflict` when the id is taken.
    pub fn create(&mut self, payload: NewUserDB, now: i64) -> (r: Result<UserDB, LedgerError>)
        requires
            old(self).wf(),
        ensures
            final(self).wf(),
            has_user(old(self).users@, payload.id) ==> r == Err::<UserDB, LedgerError>(
                LedgerError::Conflict,
            ) && final(self).users@ == old(self).users@,
            !has_user(old(self).users@, payload.id) ==> r == Ok::<UserDB, LedgerError>(
                inserted_row(payload, now),
            ) && final(self).users@ == old(self).users@.push(inserted_row(payload, now)),
    {
        if self.find(payload.id).is_some() {
            return Err(LedgerError::Conflict);
        }
        let u = UserDB::insert_row(payload, now);
        let row = u.clone();
        self.users.push(u);
        Ok(row)
    }

    /// The full name of the stored user with id `id`, if there is one.
    pub fn get_full_name(&self, id: UserId) -> (r: Option<String>)
        requires
            self.wf(),
        ensures
            r is Some <==> has_user(self.users@, id),
            forall|i: int|
                0 <= i < self.users@.len() && self.users@[i].id == id ==> (r matches Some(n) && n@
                    == full_name(self.users@[i].first_name, self.users@[i].last_name)),
    {
        match self.find(id) {
            Some(i) => Some(self.users[i].get_full_name()),
            None => None,
        }
    }

    /// The stored user with id `id`, if there is one; changes nothing.
    pub fn get(&self, id: UserId) -> (r: Option<UserDB>)
        requires
            self.wf(),
        ensures
            r is Some <==> has_user(self.users@, id),
            forall|i: int|
                0 <= i < self.users@.len() && self.users@[i].id == id ==> r == Some(self.users@[i]),
    {
        match self.find(id) {
            Some(i) => Some(self.users[i].clone()),
            None => None,
        }
    }

    /// Whether a user with id `id` is stored.
    pub fn contains(&self, id: UserId) -> (r: bool)
        ensures
            r == has_user(self.users@, id),
    {
        self.find(id).is_some()
    }
}

} // verus!
