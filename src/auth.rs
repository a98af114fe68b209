use vstd::prelude::*;
use vstd::string::*;
use crate::error::{ErrorKind, LiveblogError};

verus! {

/// What a backend needs to act for the user: a token, and for some backends
/// the identity it belongs to.
#[derive(Debug)]
pub struct Credentials {
    pub token: String,
    pub identity: Option<String>,
}

/// Credentials from the interactive flow are usable when their token is not
/// empty.
pub open spec fn is_valid(c: Credentials) -> bool {
    c.token@.len() > 0
}

impl Credentials {
    pub fn is_valid(&self) -> (r: bool)
        ensures
            r == is_valid(*self),
    {
        !self.token.as_str().is_empty()
    }

    /// A copy with the same token and identity.
    pub fn duplicate(&self) -> (r: Credentials)
        ensures
            r == *self,
    {
        let identity = match &self.identity {
            Some(i) => Some(i.clone()),
            None => None,
        };
        Credentials { token: self.token.clone(), identity }
    }
}

/// How to obtain credentials.
#[derive(Debug)]
pub enum AuthPlan {
    /// The store holds credentials, and they are used as they are.
    UseStored(Credentials),
    /// The interactive authorization flow has to run.
    RunInteractive,
}

/// A store that holds credentials is used; only an empty store, one that is
/// missing or could not be read, starts the interactive flow.
pub open spec fn plan_spec(stored: Option<Credentials>) -> AuthPlan {
    match stored {
        Some(c) => AuthPlan::UseStored(c),
        None => AuthPlan::RunInteractive,
    }
}

/// The interactive flow succeeded with usable credentials.
pub open spec fn flow_succeeds(flow: Result<Credentials, LiveblogError>) -> bool {
    flow matches Ok(c) && is_valid(c)
}

/// The store after the interactive flow: written only on success.
pub open spec fn store_after(
    store: Option<Credentials>,
    flow: Result<Credentials, LiveblogError>,
) -> Option<Credentials> {
    match flow {
        Ok(c) => if is_valid(c) {
            Some(c)
        } else {
            store
        },
        Err(_) => store,
    }
}

/// The store after one authentication: kept where its credentials were used,
/// otherwise what the interactive flow left.
pub open spec fn store_after_authenticate(
    store: Option<Credentials>,
    flow: Result<Credentials, LiveblogError>,
) -> Option<Credentials> {
    match plan_spec(store) {
        AuthPlan::UseStored(_) => store,
        AuthPlan::RunInteractive => store_after(store, flow),
    }
}

/// Decides from what the store holds whether the interactive flow must run.
pub fn plan_authentication(stored: Option<Credentials>) -> (r: AuthPlan)
    ensures
        r == plan_spec(stored),
{
    match stored {
        Some(c) => AuthPlan::UseStored(c),
        None => AuthPlan::RunInteractive,
    }
}

/// Takes the outcome of the interactive flow: usable credentials are saved in
/// the store and returned; anything else is an authentication error and the
/// store is left as it was.
pub fn complete_authorization(
    store: &mut Option<Credentials>,
    flow: Result<Credentials, LiveblogError>,
) -> (r: Result<Credentials, LiveblogError>)
    ensures
        *final(store) == store_after(*old(store), flow),
        r is Ok <==> flow_succeeds(flow),
        r matches Ok(c) ==> flow == Ok::<Credentials, LiveblogError>(c),
        r matches Err(e) ==> e.kind == ErrorKind::Auth,
        flow matches Err(fe) ==> (r matches Err(e) && e.message@ == fe.message@),
{
    match flow {
        Ok(c) => if c.is_valid() {
            *store = Some(c.duplicate());
            Ok(c)
        } else {
            Err(
                LiveblogError::new(
                    ErrorKind::Auth,
                    String::from_str("authorization returned an empty token"),
                ),
            )
        },
        Err(e) => Err(LiveblogError::new(ErrorKind::Auth, e.message)),
    }
}

/// After an authentication that yielded credentials, a second one uses the
/// store and never runs the interactive flow; with credentials in the store
/// from the start, neither of the two runs it and both use those credentials.
pub proof fn lemma_authenticate_twice(
    store: Option<Credentials>,
    flow: Result<Credentials, LiveblogError>,
)
    requires
        plan_spec(store) is UseStored || flow_succeeds(flow),
    ensures
        plan_spec(store_after_authenticate(store, flow)) is UseStored,
        forall|c: Credentials|
            store == Some(c) ==> plan_spec(store_after_authenticate(store, flow))
                == AuthPlan::UseStored(c),
{
}

} // verus!
