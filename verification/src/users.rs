//! Finding users: which lookups are local, when a stored remote user is
//! fresh enough, how a fetched remote actor is stored, and how a follow
//! proceeds.
use crate::apub::{Person, PublicKeyEnum};
use crate::ids::opt_view;
use crate::models::{normalized_pem, process_public_key_pem, User};
use crate::services::{FollowError, LocalUserFindError, ServiceError, UserFindError};
use crate::user_spec::UserSpecifier;
use vstd::prelude::*;

verus! {

/// How long a fetched remote user is trusted before it is fetched again:
/// one hour, in milliseconds.
pub const REMOTE_USER_TTL_MILLIS: i64 = 3_600_000;

/// A stored remote user may be used without fetching it again when it was
/// fetched less than an hour ago.
pub open spec fn fresh(now: i64, fetched_at: i64) -> bool {
    now - fetched_at < REMOTE_USER_TTL_MILLIS
}

/// Whether a remote user fetched at `fetched_at` (milliseconds) is still fresh at `now`.
pub fn is_fresh(now: i64, fetched_at: i64) -> (r: bool)
    ensures
        r == fresh(now, fetched_at),
{
    (now as i128) - (fetched_at as i128) < (REMOTE_USER_TTL_MILLIS as i128)
}

/// What a local-user lookup does with a specifier.
#[derive(Debug, Clone)]
pub enum LocalLookup {
    /// Look the user up by username among local users.
    ByUsername(String),
    /// Look the user up by id (and refuse it if it turns out to be remote).
    ById(u128),
    /// The specifier cannot name a local user.
    NotLocal,
}

/// A specifier with a host, or a URL, never names a local user.
pub fn local_lookup(spec: &UserSpecifier) -> (r: LocalLookup)
    ensures
        match *spec {
            UserSpecifier::Username(n, None) => r matches LocalLookup::ByUsername(m) && m@ == n@,
            UserSpecifier::Username(_, Some(_)) => r is NotLocal,
            UserSpecifier::URL(_) => r is NotLocal,
            UserSpecifier::ID(id) => r == LocalLookup::ById(id),
        },
{
    match spec {
        UserSpecifier::Username(username, host) => match host {
            Some(_) => LocalLookup::NotLocal,
            None => LocalLookup::ByUsername(username.clone()),
        },
        UserSpecifier::URL(_) => LocalLookup::NotLocal,
        UserSpecifier::ID(id) => LocalLookup::ById(*id),
    }
}

/// A user found by id is refused when it lives on another host.
pub fn check_found_local(user: &User) -> (r: Result<(), LocalUserFindError>)
    ensures
        user.host is None <==> r is Ok,
        r is Err ==> r == Err::<(), LocalUserFindError>(LocalUserFindError::NotLocalUser),
{
    if user.host.is_some() {
        Err(LocalUserFindError::NotLocalUser)
    } else {
        Ok(())
    }
}

/// What is stored about a remote user besides the user itself.
#[derive(Debug)]
pub struct RemoteUserRecord {
    pub user_id: u128,
    pub following: Option<String>,
    pub followers: Option<String>,
    pub liked: Option<String>,
    pub fetched_at: i64,
}

/// Everything stored for a fetched remote actor.
#[derive(Debug)]
pub struct RemoteActorImport {
    pub user: User,
    pub remote: RemoteUserRecord,
    pub key_id: String,
    pub key_pem: String,
}

/// A fetched actor is stored as a remote user of `host` under `user_id`,
/// fetched at `now`; its key is normalized. An actor whose key is owned by
/// someone else is refused.
pub fn import_remote_actor(actor: Person, host: String, user_id: u128, now: i64) -> (r: Result<
    RemoteActorImport,
    UserFindError,
>)
    ensures
        match actor.public_key {
            PublicKeyEnum::Key(k) => if actor.id@ != k.owner@ {
                r == Err::<RemoteActorImport, UserFindError>(UserFindError::RemoteError)
            } else {
                r matches Ok(imp) && {
                    &&& imp.user.id == user_id
                    &&& imp.user.username@ == actor.preferred_username@
                    &&& opt_view(imp.user.host) == Some(host@)
                    &&& imp.user.nickname@ == actor.name@
                    &&& imp.user.bio@ == (match actor.summary {
                        Some(s) => s@,
                        None => Seq::<char>::empty(),
                    })
                    &&& opt_view(imp.user.uri) == Some(actor.id@)
                    &&& opt_view(imp.user.shared_inbox) == opt_view(actor.shared_inbox)
                    &&& opt_view(imp.user.inbox) == Some(actor.inbox@)
                    &&& opt_view(imp.user.outbox) == Some(actor.outbox@)
                    &&& opt_view(imp.user.public_key) == Some(normalized_pem(k.public_key_pem@))
                    &&& imp.user.created_at == now
                    &&& imp.remote.user_id == user_id
                    &&& opt_view(imp.remote.following) == opt_view(actor.following)
                    &&& opt_view(imp.remote.followers) == opt_view(actor.followers)
                    &&& opt_view(imp.remote.liked) == opt_view(actor.liked)
                    &&& imp.remote.fetched_at == now
                    &&& imp.key_id@ == k.id@
                    &&& imp.key_pem@ == normalized_pem(k.public_key_pem@)
                }
            },
        },
{
    let key = match actor.public_key {
        PublicKeyEnum::Key(k) => k,
    };
    let pem = process_public_key_pem(key.public_key_pem.as_str());
    if !crate::text::str_eq(actor.id.as_str(), key.owner.as_str()) {
        return Err(UserFindError::RemoteError);
    }
    let bio = match actor.summary {
        Some(s) => s,
        None => String::new(),
    };
    let user = User {
        id: user_id,
        username: actor.preferred_username,
        host: Some(host),
        nickname: actor.name,
        bio,
        uri: Some(actor.id),
        shared_inbox: actor.shared_inbox,
        inbox: Some(actor.inbox),
        outbox: Some(actor.outbox),
        public_key: Some(pem.clone()),
        created_at: now,
    };
    let remote = RemoteUserRecord {
        user_id,
        following: actor.following,
        followers: actor.followers,
        liked: actor.liked,
        fetched_at: now,
    };
    Ok(RemoteActorImport { user, remote, key_id: key.id, key_pem: pem })
}

/// How a follow proceeds.
#[derive(Debug)]
pub enum FollowPlan {
    /// Both users are local: the follow is stored at once.
    Local,
    /// The followee is remote: a follow request is stored and sent to its inbox.
    Remote(String),
}

/// Decides how a local user follows another user: a remote followee must
/// have an inbox, else it counts as not found.
pub fn plan_follow(follower: &User, followee: &User) -> (r: Result<FollowPlan, FollowError>)
    requires
        follower.host is None,
    ensures
        followee.host is None ==> r matches Ok(FollowPlan::Local),
        followee.host is Some ==> match followee.inbox {
            Some(i) => r matches Ok(FollowPlan::Remote(j)) && j@ == i@,
            None => r == Err::<FollowPlan, FollowError>(FollowError::FolloweeNotFound),
        },
{
    if followee.host.is_some() {
        match &followee.inbox {
            Some(inbox) => Ok(FollowPlan::Remote(inbox.clone())),
            None => Err(FollowError::FolloweeNotFound),
        }
    } else {
        Ok(FollowPlan::Local)
    }
}

/// A failed lookup of a user taking part in a follow, as a failure of the
/// follow: a missing user is reported as `not_found`; a general failure is
/// carried over. (A remote failure is not expected here.)
pub fn follow_lookup_error(e: ServiceError<UserFindError>, not_found: FollowError) -> (r: ServiceError<
    FollowError,
>)
    requires
        e != ServiceError::<UserFindError>::SpecificError(UserFindError::RemoteError),
    ensures
        match e {
            ServiceError::SpecificError(_) => r == ServiceError::<FollowError>::SpecificError(not_found),
            ServiceError::MiscError(m) => r == ServiceError::<FollowError>::MiscError(m),
        },
{
    match e {
        ServiceError::SpecificError(UserFindError::UserNotFound) => ServiceError::SpecificError(not_found),
        other => other.convert(),
    }
}

/// A fetched remote user stays fresh for exactly one hour: fetched at `t`,
/// it is fresh at every moment before `t` plus one hour, and stale from then on.
pub proof fn lemma_fresh_for_an_hour(now: i64, fetched_at: i64)
    ensures
        fresh(now, fetched_at) <==> now < fetched_at + 3_600_000,
{
}

} // verus!
