//! The remote targets that a dispatcher acts for, and the rule that picks
//! one of them by its secret.

use crate::secret::{same_secret, secret_text};
use secstr::SecUtf8;
use vstd::prelude::*;

verus! {

/// One trusted remote target: the name by which the remote host is reached,
/// never empty, and the secret that authorizes acting on its behalf.
#[derive(Debug, PartialEq, Eq)]
pub struct RemoteIdentity {
    name: String,
    secret: SecUtf8,
}

/// A remote identity as a mathematical value.
pub ghost struct IdentityView {
    pub name: Seq<char>,
    pub secret: Seq<char>,
}

impl View for RemoteIdentity {
    type V = IdentityView;

    closed spec fn view(&self) -> IdentityView {
        IdentityView { name: self.name@, secret: secret_text(self.secret) }
    }
}

impl RemoteIdentity {
    #[verifier::type_invariant]
    spec fn has_name(self) -> bool {
        self.name@.len() > 0
    }

    /// The identity `name` with the secret `secret`, or `None` where `name`
    /// is empty.
    pub fn new(name: String, secret: SecUtf8) -> (identity: Option<RemoteIdentity>)
        ensures
            match identity {
                Some(identity) => name@.len() > 0 && identity@ == (IdentityView {
                    name: name@,
                    secret: secret_text(secret),
                }),
                None => name@.len() == 0,
            },
    {
        if name.as_str().is_empty() {
            None
        } else {
            Some(RemoteIdentity { name, secret })
        }
    }

    /// The name by which the remote host is reached.
    pub fn name(&self) -> (name: &str)
        ensures
            name@ == self@.name,
            name@.len() > 0,
    {
        proof {
            use_type_invariant(self);
        }
        self.name.as_str()
    }

    /// The secret that authorizes acting on behalf of this identity.
    pub fn secret(&self) -> (secret: &SecUtf8)
        ensures
            secret_text(*secret) == self@.secret,
    {
        &self.secret
    }
}

/// Why a secret authorizes nothing.
#[derive(Clone, Copy, Debug, PartialEq, Eq, Structural)]
pub enum AuthorizationError {
    /// No known identity has the secret.
    NoMatch,
}

/// The identities of a list, each as a mathematical value.
pub open spec fn identities_view(identities: Seq<RemoteIdentity>) -> Seq<IdentityView> {
    identities.map_values(|identity: RemoteIdentity| identity@)
}

/// `found`, counted from `offset` places further to the front.
pub open spec fn shifted(offset: int, found: Option<int>) -> Option<int> {
    match found {
        Some(i) => Some(offset + i),
        None => None,
    }
}

/// The place of the first identity with the secret `secret`.
pub open spec fn first_match(identities: Seq<IdentityView>, secret: Seq<char>) -> Option<int>
    decreases identities.len(),
{
    if identities.len() == 0 {
        None
    } else if identities[0].secret == secret {
        Some(0)
    } else {
        shifted(1, first_match(identities.drop_first(), secret))
    }
}

/// Finds the identity that `secret` authorizes: the first of `identities`
/// whose secret is exactly `secret`.
pub fn authorize<'a>(secret: &SecUtf8, identities: &'a Vec<RemoteIdentity>) -> (outcome: Result<
    &'a RemoteIdentity,
    AuthorizationError,
>)
    ensures
        match outcome {
            Ok(identity) => first_match(identities_view(identities@), secret_text(*secret))
                matches Some(i) && *identity == identities@[i],
            Err(_) => first_match(identities_view(identities@), secret_text(*secret)) is None,
        },
{
    let ghost all = identities_view(identities@);
    let ghost wanted = secret_text(*secret);
    let mut i: usize = 0;
    assert(all.skip(0) =~= all);
    while i < identities.len()
        invariant
            i <= identities.len(),
            all == identities_view(identities@),
            wanted == secret_text(*secret),
            first_match(all, wanted) == shifted(i as int, first_match(all.skip(i as int), wanted)),
        decreases identities.len() - i,
    {
        let ghost rest = all.skip(i as int);
        assert(rest.drop_first() =~= all.skip(i + 1));
        if same_secret(identities[i].secret(), secret) {
            return Ok(&identities[i]);
        }
        i += 1;
    }
    Err(AuthorizationError::NoMatch)
}

/// Where a secret authorizes an identity, that identity has the secret and
/// none before it has; where it authorizes none, no identity has the secret.
pub proof fn first_match_is_first(identities: Seq<IdentityView>, secret: Seq<char>)
    ensures
        match first_match(identities, secret) {
            Some(i) => {
                &&& 0 <= i < identities.len()
                &&& identities[i].secret == secret
                &&& forall|j: int| 0 <= j < i ==> identities[j].secret != secret
            },
            None => forall|j: int| 0 <= j < identities.len() ==> identities[j].secret != secret,
        },
    decreases identities.len(),
{
    if identities.len() > 0 && identities[0].secret != secret {
        let rest = identities.drop_first();
        first_match_is_first(rest, secret);
        assert forall|j: int| 0 < j < identities.len() implies identities[j] == rest[j - 1] by {}
    }
}

} // verus!
