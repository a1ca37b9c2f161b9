use crate::error::ApolError;
use crate::error::ApolErrorView;
use vstd::prelude::*;

verus! {

/// A bearer credential that no user has been tied to yet.
#[derive(Debug, PartialEq, Eq)]
pub struct Unauthenticated {
    jwt: String,
}

/// A bearer credential together with the user token it was authenticated
/// for and the storefront that was resolved for that user.
#[derive(Debug, PartialEq, Eq)]
pub struct Authenticated {
    jwt: String,
    user_token: String,
    store_id: String,
}

/// A credential for the catalog.
///
/// The fields of both states are private: an unauthenticated credential
/// comes out of the scraped script only, and an authenticated one out of
/// `authenticate` only. A credential never changes once
/// it exists, and its bearer is never empty.
#[derive(Debug, PartialEq, Eq)]
pub enum AppleMusicToken {
    Unauthenticated(Unauthenticated),
    Authenticated(Authenticated),
}

/// The mathematical value of an [`AppleMusicToken`].
pub enum TokenView {
    Unauthenticated { jwt: Seq<char> },
    Authenticated { jwt: Seq<char>, user_token: Seq<char>, store_id: Seq<char> },
}

impl TokenView {
    /// The bearer, whatever the state.
    pub open spec fn bearer(self) -> Seq<char> {
        match self {
            TokenView::Unauthenticated { jwt } => jwt,
            TokenView::Authenticated { jwt, .. } => jwt,
        }
    }
}

impl Unauthenticated {
    #[verifier::type_invariant]
    spec fn inv(self) -> bool {
        self.jwt@.len() > 0
    }
}

impl Authenticated {
    #[verifier::type_invariant]
    spec fn inv(self) -> bool {
        self.jwt@.len() > 0
    }
}

impl View for AppleMusicToken {
    type V = TokenView;

    closed spec fn view(&self) -> TokenView {
        match *self {
            AppleMusicToken::Unauthenticated(u) => TokenView::Unauthenticated { jwt: u.jwt@ },
            AppleMusicToken::Authenticated(a) => TokenView::Authenticated {
                jwt: a.jwt@,
                user_token: a.user_token@,
                store_id: a.store_id@,
            },
        }
    }
}

impl Clone for AppleMusicToken {
    /// A second credential with the same value.
    fn clone(&self) -> (r: Self)
        ensures
            r@ == self@,
    {
        match self {
            AppleMusicToken::Unauthenticated(u) => {
                proof {
                    use_type_invariant(u);
                }
                AppleMusicToken::Unauthenticated(Unauthenticated { jwt: u.jwt.clone() })
            },
            AppleMusicToken::Authenticated(a) => {
                proof {
                    use_type_invariant(a);
                }
                AppleMusicToken::Authenticated(
                    Authenticated {
                        jwt: a.jwt.clone(),
                        user_token: a.user_token.clone(),
                        store_id: a.store_id.clone(),
                    },
                )
            },
        }
    }
}

impl AppleMusicToken {
    /// The unauthenticated credential that holds `jwt`.
    pub(crate) fn from_bearer(jwt: String) -> (r: Self)
        requires
            jwt@.len() > 0,
        ensures
            r@ == (TokenView::Unauthenticated { jwt: jwt@ }),
    {
        AppleMusicToken::Unauthenticated(Unauthenticated { jwt })
    }

    /// Ties an unauthenticated credential to the user with `user_token`,
    /// for whom the storefront `store_id` was resolved. The credential is
    /// consumed and a new one comes back; one that is authenticated already
    /// is refused.
    pub(crate) fn with_user(self, user_token: String, store_id: String) -> (r: Result<
        Self,
        ApolError,
    >)
        ensures
            self@ is Unauthenticated ==> r is Ok && r->Ok_0@ == (TokenView::Authenticated {
                jwt: self@.bearer(),
                user_token: user_token@,
                store_id: store_id@,
            }),
            self@ is Authenticated ==> r is Err && r->Err_0@ == ApolErrorView::InvalidState,
    {
        match self {
            AppleMusicToken::Unauthenticated(u) => {
                proof {
                    use_type_invariant(&u);
                }
                let Unauthenticated { jwt } = u;
                Ok(AppleMusicToken::Authenticated(Authenticated { jwt, user_token, store_id }))
            },
            AppleMusicToken::Authenticated(_) => Err(ApolError::InvalidState),
        }
    }

    /// The bearer. It is never empty.
    pub fn get_jwt(&self) -> (r: &str)
        ensures
            r@ == self@.bearer(),
            r@.len() > 0,
    {
        match self {
            AppleMusicToken::Unauthenticated(u) => {
                proof {
                    use_type_invariant(u);
                }
                u.jwt.as_str()
            },
            AppleMusicToken::Authenticated(a) => {
                proof {
                    use_type_invariant(a);
                }
                a.jwt.as_str()
            },
        }
    }

    /// The user token, if the credential is authenticated.
    pub fn get_user_token(&self) -> (r: Option<&str>)
        ensures
            self@ is Unauthenticated ==> r is None,
            self@ is Authenticated ==> r is Some && r->Some_0@ == self@->user_token,
    {
        match self {
            AppleMusicToken::Unauthenticated(_) => None,
            AppleMusicToken::Authenticated(a) => Some(a.user_token.as_str()),
        }
    }

    /// The storefront, if the credential is authenticated.
    pub fn get_store_id(&self) -> (r: Option<&str>)
        ensures
            self@ is Unauthenticated ==> r is None,
            self@ is Authenticated ==> r is Some && r->Some_0@ == self@->store_id,
    {
        match self {
            AppleMusicToken::Unauthenticated(_) => None,
            AppleMusicToken::Authenticated(a) => Some(a.store_id.as_str()),
        }
    }

    /// Whether the credential is authenticated.
    pub fn is_authenticated(&self) -> (r: bool)
        ensures
            r == (self@ is Authenticated),
    {
        match self {
            AppleMusicToken::Unauthenticated(_) => false,
            AppleMusicToken::Authenticated(_) => true,
        }
    }
}

} // verus!
