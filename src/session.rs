use crate::identity::{Identity, User};
use crate::login::AuthError;
use vstd::prelude::*;

verus! {

/// How long a session lasts: one day, in seconds.
pub const SESSION_LIFETIME_SECS: i64 = 86400;

/// The session that a verified identity receives at `now`: it expires one
/// day later.
pub fn issue_session(identity: Identity, now: i64) -> (r: User)
    requires
        now <= i64::MAX - SESSION_LIFETIME_SECS,
    ensures
        r.handle@ == identity.handle@,
        r.instance@ == identity.instance@,
        r.exp == now + SESSION_LIFETIME_SECS,
{
    let Identity { handle, instance } = identity;
    User::new(handle, instance, now + SESSION_LIFETIME_SECS)
}

/// A session whose signature has been checked is valid at `now` iff it
/// expires after `now`; an expired one is refused, whatever it carries.
pub fn check_session(user: User, now: i64) -> (r: Result<User, AuthError>)
    ensures
        user.exp > now ==> (r matches Ok(u) && u.handle@ == user.handle@ && u.instance@
            == user.instance@ && u.exp == user.exp),
        user.exp <= now ==> r == Err::<User, AuthError>(AuthError::Unauthenticated),
{
    if user.exp > now {
        Ok(user)
    } else {
        Err(AuthError::Unauthenticated)
    }
}

} // verus!
