//! The provisioning of the user of a sign-in. Such users have no password they
//! know: every sign-in mints a random credential for the session.

use vstd::prelude::*;

use crate::pkce;
use crate::text;

verus! {

/// The role of a user in an organization.
#[derive(Clone, Copy, Debug, PartialEq, Eq, Structural)]
pub enum UserRole {
    Root,
    User,
}

/// The membership of a user in an organization.
pub struct UserOrg {
    pub name: String,
    pub org_name: String,
    pub token: String,
    pub rum_token: Option<String>,
    pub role: UserRole,
}

/// The view of [`UserOrg`].
pub struct UserOrgView {
    pub name: Seq<char>,
    pub org_name: Seq<char>,
    pub token: Seq<char>,
    pub rum_token: Option<Seq<char>>,
    pub role: UserRole,
}

impl View for UserOrg {
    type V = UserOrgView;

    open spec fn view(&self) -> UserOrgView {
        UserOrgView {
            name: self.name@,
            org_name: self.org_name@,
            token: self.token@,
            rum_token: text::opt_text(self.rum_token),
            role: self.role,
        }
    }
}

/// A user as the database keeps it.
pub struct DBUser {
    pub email: String,
    pub first_name: String,
    pub last_name: String,
    /// The hash of the credential.
    pub password: String,
    pub salt: String,
    pub organizations: Vec<UserOrg>,
    pub is_external: bool,
    pub password_ext: Option<String>,
}

/// The view of [`DBUser`].
pub struct DBUserView {
    pub email: Seq<char>,
    pub first_name: Seq<char>,
    pub last_name: Seq<char>,
    pub password: Seq<char>,
    pub salt: Seq<char>,
    pub organizations: Seq<UserOrgView>,
    pub is_external: bool,
    pub password_ext: Option<Seq<char>>,
}

impl View for DBUser {
    type V = DBUserView;

    open spec fn view(&self) -> DBUserView {
        DBUserView {
            email: self.email@,
            first_name: self.first_name@,
            last_name: self.last_name@,
            password: self.password@,
            salt: self.salt@,
            organizations: self.organizations@.map_values(|org: UserOrg| org@),
            is_external: self.is_external,
            password_ext: text::opt_text(self.password_ext),
        }
    }
}

/// Who signs in.
pub struct Profile {
    pub email: String,
    pub first_name: String,
    pub last_name: String,
    pub is_root: bool,
    /// The organization that a new user belongs to.
    pub organization: String,
}

/// The view of [`Profile`].
pub struct ProfileView {
    pub email: Seq<char>,
    pub first_name: Seq<char>,
    pub last_name: Seq<char>,
    pub is_root: bool,
    pub organization: Seq<char>,
}

impl View for Profile {
    type V = ProfileView;

    open spec fn view(&self) -> ProfileView {
        ProfileView {
            email: self.email@,
            first_name: self.first_name@,
            last_name: self.last_name@,
            is_root: self.is_root,
            organization: self.organization@,
        }
    }
}

/// What the database holds of a known user, as far as a sign-in reads it.
pub struct ExistingUser {
    pub first_name: String,
    pub last_name: String,
    pub salt: String,
    pub password_ext: Option<String>,
}

/// The view of [`ExistingUser`].
pub struct ExistingUserView {
    pub first_name: Seq<char>,
    pub last_name: Seq<char>,
    pub salt: Seq<char>,
    pub password_ext: Option<Seq<char>>,
}

impl View for ExistingUser {
    type V = ExistingUserView;

    open spec fn view(&self) -> ExistingUserView {
        ExistingUserView {
            first_name: self.first_name@,
            last_name: self.last_name@,
            salt: self.salt@,
            password_ext: text::opt_text(self.password_ext),
        }
    }
}

/// Where the provisioning of a user stands.
pub enum UpsertState {
    /// The user is being looked up.
    Lookup { profile: Profile, credential: String },
    /// The credential of a known user is being hashed.
    HashKnown { email: String, credential: String, existing: ExistingUser },
    /// The credential of a new user is being hashed.
    HashNew { profile: Profile, credential: String, salt: String },
    /// The user is being saved.
    Save { credential: String },
    /// There is nothing left to do.
    Done,
}

/// The view of [`UpsertState`].
pub enum UpsertStateView {
    Lookup { profile: ProfileView, credential: Seq<char> },
    HashKnown { email: Seq<char>, credential: Seq<char>, existing: ExistingUserView },
    HashNew { profile: ProfileView, credential: Seq<char>, salt: Seq<char> },
    Save { credential: Seq<char> },
    Done,
}

impl View for UpsertState {
    type V = UpsertStateView;

    open spec fn view(&self) -> UpsertStateView {
        match *self {
            UpsertState::Lookup { profile, credential } => UpsertStateView::Lookup {
                profile: profile@,
                credential: credential@,
            },
            UpsertState::HashKnown { email, credential, existing } => UpsertStateView::HashKnown {
                email: email@,
                credential: credential@,
                existing: existing@,
            },
            UpsertState::HashNew { profile, credential, salt } => UpsertStateView::HashNew {
                profile: profile@,
                credential: credential@,
                salt: salt@,
            },
            UpsertState::Save { credential } => UpsertStateView::Save { credential: credential@ },
            UpsertState::Done => UpsertStateView::Done,
        }
    }
}

/// What the database or the hash function answered.
pub enum UpsertEvent {
    /// The user of the email, where there is one.
    Found(Option<ExistingUser>),
    /// The hash of the credential.
    Hashed(String),
    /// Whether the user was saved.
    Saved(bool),
}

/// The view of [`UpsertEvent`].
pub enum UpsertEventView {
    Found(Option<ExistingUserView>),
    Hashed(Seq<char>),
    Saved(bool),
}

impl View for UpsertEvent {
    type V = UpsertEventView;

    open spec fn view(&self) -> UpsertEventView {
        match *self {
            UpsertEvent::Found(Some(user)) => UpsertEventView::Found(Some(user@)),
            UpsertEvent::Found(None) => UpsertEventView::Found(None),
            UpsertEvent::Hashed(hash) => UpsertEventView::Hashed(hash@),
            UpsertEvent::Saved(ok) => UpsertEventView::Saved(ok),
        }
    }
}

/// What to do next in the provisioning of a user.
pub enum UpsertAction {
    /// Look up the user of an email.
    Find { email: String },
    /// Hash a credential with a salt.
    Hash { credential: String, salt: String },
    /// Replace the names, the hash and the external password of a known user.
    Update {
        email: String,
        first_name: String,
        last_name: String,
        password: String,
        password_ext: Option<String>,
    },
    /// Add a user.
    Add { user: DBUser },
    /// End with the credential of the session.
    Finish { credential: String },
    /// End without one.
    Fail,
}

/// The view of [`UpsertAction`].
pub enum UpsertActionView {
    Find { email: Seq<char> },
    Hash { credential: Seq<char>, salt: Seq<char> },
    Update {
        email: Seq<char>,
        first_name: Seq<char>,
        last_name: Seq<char>,
        password: Seq<char>,
        password_ext: Option<Seq<char>>,
    },
    Add { user: DBUserView },
    Finish { credential: Seq<char> },
    Fail,
}

impl View for UpsertAction {
    type V = UpsertActionView;

    open spec fn view(&self) -> UpsertActionView {
        match *self {
            UpsertAction::Find { email } => UpsertActionView::Find { email: email@ },
            UpsertAction::Hash { credential, salt } => UpsertActionView::Hash {
                credential: credential@,
                salt: salt@,
            },
            UpsertAction::Update { email, first_name, last_name, password, password_ext } =>
                UpsertActionView::Update {
                email: email@,
                first_name: first_name@,
                last_name: last_name@,
                password: password@,
                password_ext: text::opt_text(password_ext),
            },
            UpsertAction::Add { user } => UpsertActionView::Add { user: user@ },
            UpsertAction::Finish { credential } => UpsertActionView::Finish {
                credential: credential@,
            },
            UpsertAction::Fail => UpsertActionView::Fail,
        }
    }
}

/// The user to add for a profile.
pub open spec fn new_user(profile: ProfileView, password: Seq<char>, salt: Seq<char>) -> DBUserView {
    DBUserView {
        email: profile.email,
        first_name: profile.first_name,
        last_name: profile.last_name,
        password,
        salt,
        organizations: seq![
            UserOrgView {
                name: profile.organization,
                org_name: profile.organization,
                token: seq![],
                rum_token: None,
                role: if profile.is_root {
                    UserRole::Root
                } else {
                    UserRole::User
                },
            },
        ],
        is_external: true,
        password_ext: None,
    }
}

/// Whether an event answers what was asked last.
pub open spec fn upsert_accepts(state: UpsertStateView, event: UpsertEventView) -> bool {
    match state {
        UpsertStateView::Lookup { .. } => event is Found,
        UpsertStateView::HashKnown { .. } => event is Hashed,
        UpsertStateView::HashNew { .. } => event is Hashed,
        UpsertStateView::Save { .. } => event is Saved,
        UpsertStateView::Done => false,
    }
}

/// The next state and action, given the salt for the case that the user is new.
pub open spec fn upsert_next(state: UpsertStateView, event: UpsertEventView, fresh_salt: Seq<char>)
    -> (UpsertStateView, UpsertActionView) {
    match (state, event) {
        (
            UpsertStateView::Lookup { profile, credential },
            UpsertEventView::Found(Some(existing)),
        ) => (
            UpsertStateView::HashKnown { email: profile.email, credential, existing },
            UpsertActionView::Hash { credential, salt: existing.salt },
        ),
        (UpsertStateView::Lookup { profile, credential }, UpsertEventView::Found(None)) => (
            UpsertStateView::HashNew { profile, credential, salt: fresh_salt },
            UpsertActionView::Hash { credential, salt: fresh_salt },
        ),
        (
            UpsertStateView::HashKnown { email, credential, existing },
            UpsertEventView::Hashed(password),
        ) => (
            UpsertStateView::Save { credential },
            UpsertActionView::Update {
                email,
                first_name: existing.first_name,
                last_name: existing.last_name,
                password,
                password_ext: existing.password_ext,
            },
        ),
        (
            UpsertStateView::HashNew { profile, credential, salt },
            UpsertEventView::Hashed(password),
        ) => (
            UpsertStateView::Save { credential },
            UpsertActionView::Add { user: new_user(profile, password, salt) },
        ),
        (UpsertStateView::Save { credential }, UpsertEventView::Saved(true)) => (
            UpsertStateView::Done,
            UpsertActionView::Finish { credential },
        ),
        _ => (UpsertStateView::Done, UpsertActionView::Fail),
    }
}

/// Begins the provisioning of a user with a fresh credential.
pub fn begin_upsert(profile: Profile) -> (r: (UpsertState, UpsertAction))
    ensures
        match r.0@ {
            UpsertStateView::Lookup { profile: p, credential } => p == profile@
                && pkce::is_uuid_pair(credential),
            _ => false,
        },
        r.1@ == (UpsertActionView::Find { email: profile@.email }),
{
    let credential = pkce::random_uuid_pair();
    let email = profile.email.clone();
    (UpsertState::Lookup { profile, credential }, UpsertAction::Find { email })
}

fn membership(name: String, is_root: bool) -> (r: UserOrg)
    ensures
        r@ == (UserOrgView {
            name: name@,
            org_name: name@,
            token: seq![],
            rum_token: None,
            role: if is_root {
                UserRole::Root
            } else {
                UserRole::User
            },
        }),
{
    let role = if is_root {
        UserRole::Root
    } else {
        UserRole::User
    };
    UserOrg {
        name: name.clone(),
        org_name: name,
        token: String::new(),
        rum_token: None,
        role,
    }
}

/// The next state and action for an answer, with `fresh_salt` as the salt of a
/// new user.
pub fn upsert_step_with(state: UpsertState, event: UpsertEvent, fresh_salt: String) -> (r: (
    UpsertState,
    UpsertAction,
))
    ensures
        (r.0@, r.1@) == upsert_next(state@, event@, fresh_salt@),
{
    match (state, event) {
        (UpsertState::Lookup { profile, credential }, UpsertEvent::Found(Some(existing))) => {
            let salt = existing.salt.clone();
            let secret = credential.clone();
            (
                UpsertState::HashKnown { email: profile.email, credential, existing },
                UpsertAction::Hash { credential: secret, salt },
            )
        },
        (UpsertState::Lookup { profile, credential }, UpsertEvent::Found(None)) => {
            let salt = fresh_salt.clone();
            let secret = credential.clone();
            (
                UpsertState::HashNew { profile, credential, salt: fresh_salt },
                UpsertAction::Hash { credential: secret, salt },
            )
        },
        (UpsertState::HashKnown { email, credential, existing }, UpsertEvent::Hashed(password)) => (
            UpsertState::Save { credential },
            UpsertAction::Update {
                email,
                first_name: existing.first_name,
                last_name: existing.last_name,
                password,
                password_ext: existing.password_ext,
            },
        ),
        (UpsertState::HashNew { profile, credential, salt }, UpsertEvent::Hashed(password)) => {
            let mut organizations: Vec<UserOrg> = Vec::new();
            organizations.push(membership(profile.organization, profile.is_root));
            let user = DBUser {
                email: profile.email,
                first_name: profile.first_name,
                last_name: profile.last_name,
                password,
                salt,
                organizations,
                is_external: true,
                password_ext: None,
            };
            assert(user@.organizations =~= new_user(profile@, password@, salt@).organizations);
            (UpsertState::Save { credential }, UpsertAction::Add { user })
        },
        (UpsertState::Save { credential }, UpsertEvent::Saved(saved)) => {
            if saved {
                (UpsertState::Done, UpsertAction::Finish { credential })
            } else {
                (UpsertState::Done, UpsertAction::Fail)
            }
        },
        _ => (UpsertState::Done, UpsertAction::Fail),
    }
}

/// The next state and action in the provisioning of a user. A known user keeps
/// the names, the salt and the external password; a new one gets a fresh salt. An
/// answer to something that was not asked ends the provisioning without a
/// credential.
pub fn upsert_external_user(state: UpsertState, event: UpsertEvent) -> (r: (
    UpsertState,
    UpsertAction,
))
    ensures
        exists|fresh_salt: Seq<char>|
            {
                &&& (r.0@, r.1@) == #[trigger] upsert_next(state@, event@, fresh_salt)
                &&& event@ == UpsertEventView::Found(None) ==> pkce::is_uuid(fresh_salt)
            },
{
    let fresh_salt = match &event {
        UpsertEvent::Found(None) => pkce::random_uuid(),
        _ => String::new(),
    };
    upsert_step_with(state, event, fresh_salt)
}

/// The whole provisioning: what is saved, and what the sign-in gets, by the
/// answers of the database and the hash function.
pub open spec fn upsert_run(
    profile: ProfileView,
    credential: Seq<char>,
    found: Option<ExistingUserView>,
    fresh_salt: Seq<char>,
    hash: Seq<char>,
    saved: bool,
) -> (UpsertActionView, UpsertActionView, UpsertActionView) {
    let start = UpsertStateView::Lookup { profile, credential };
    let hashing = upsert_next(start, UpsertEventView::Found(found), fresh_salt);
    let saving = upsert_next(hashing.0, UpsertEventView::Hashed(hash), fresh_salt);
    let end = upsert_next(saving.0, UpsertEventView::Saved(saved), fresh_salt);
    (hashing.1, saving.1, end.1)
}

/// The credential that the session gets is the one whose hash was saved, under
/// the salt that the database keeps: that of a known user, or the one that is
/// saved with a new user. A sign-in gets a credential exactly if the user was
/// saved.
pub proof fn law_credential_matches_saved_hash(
    profile: ProfileView,
    credential: Seq<char>,
    found: Option<ExistingUserView>,
    fresh_salt: Seq<char>,
    hash: Seq<char>,
    saved: bool,
)
    ensures
        ({
            let (hashing, saving, end) = upsert_run(
                profile,
                credential,
                found,
                fresh_salt,
                hash,
                saved,
            );
            &&& match found {
                Some(existing) => {
                    &&& hashing == UpsertActionView::Hash { credential, salt: existing.salt }
                    &&& saving == UpsertActionView::Update {
                        email: profile.email,
                        first_name: existing.first_name,
                        last_name: existing.last_name,
                        password: hash,
                        password_ext: existing.password_ext,
                    }
                },
                None => {
                    &&& hashing == UpsertActionView::Hash { credential, salt: fresh_salt }
                    &&& saving == UpsertActionView::Add {
                        user: new_user(profile, hash, fresh_salt),
                    }
                },
            }
            &&& end == if saved {
                UpsertActionView::Finish { credential }
            } else {
                UpsertActionView::Fail
            }
        }),
{
}

/// A sign-in makes nobody a root user but the root user: a known user's role is
/// not touched, and a new user is root only if the profile says so.
pub proof fn law_only_root_becomes_root(
    profile: ProfileView,
    credential: Seq<char>,
    found: Option<ExistingUserView>,
    fresh_salt: Seq<char>,
    hash: Seq<char>,
    saved: bool,
    i: int,
)
    requires
        !profile.is_root,
    ensures
        upsert_run(profile, credential, found, fresh_salt, hash, saved).1 matches
            UpsertActionView::Add { user } ==> (0 <= i < user.organizations.len()
            ==> user.organizations[i].role == UserRole::User),
{
}

/// How many answers a provisioning still waits for.
pub open spec fn upsert_steps_left(state: UpsertStateView) -> nat {
    match state {
        UpsertStateView::Lookup { .. } => 3,
        UpsertStateView::HashKnown { .. } => 2,
        UpsertStateView::HashNew { .. } => 2,
        UpsertStateView::Save { .. } => 1,
        UpsertStateView::Done => 0,
    }
}

/// Every answer brings the end of a provisioning nearer, and what is asked next is
/// what the next state waits for.
pub proof fn law_upsert_ends(
    state: UpsertStateView,
    event: UpsertEventView,
    fresh_salt: Seq<char>,
)
    requires
        upsert_accepts(state, event),
    ensures
        ({
            let (next, action) = upsert_next(state, event, fresh_salt);
            &&& upsert_steps_left(next) < upsert_steps_left(state)
            &&& action is Hash <==> next is HashKnown || next is HashNew
            &&& action is Update || action is Add <==> next is Save
            &&& action is Finish || action is Fail <==> next is Done
        }),
{
}

} // verus!
