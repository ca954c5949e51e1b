//! Who may do what.

use vstd::prelude::*;

verus! {

/// What a token permits.
#[derive(Debug, Clone, Copy, PartialEq, Eq, Structural)]
pub enum Scope {
    /// Everything.
    Admin,
    /// What a pageserver's API offers.
    PageServerApi,
    /// To deal with generations.
    GenerationsApi,
    /// What the scrubber needs.
    Scrubber,
    /// Anything else, which this service never asks for.
    Other,
}

/// What a request's token says.
#[derive(Debug, Clone, Copy, PartialEq, Eq, Structural)]
pub struct Claims {
    pub scope: Scope,
}

/// A token does not hold the scope that was asked for.
#[derive(Debug, Clone, Copy, PartialEq, Eq, Structural)]
pub struct ScopeMismatch {
    pub required: Scope,
}

/// Whether the token holds the scope.
pub fn check_permission(claims: &Claims, required_scope: Scope) -> (r: Result<(), ScopeMismatch>)
    ensures
        r is Ok <==> claims.scope == required_scope,
        r matches Err(e) ==> e.required == required_scope,
{
    if claims.scope == required_scope {
        Ok(())
    } else {
        Err(ScopeMismatch { required: required_scope })
    }
}

/// Whether a request with these claims may use what requires `required`. A request without
/// claims came in while authentication is off.
pub open spec fn is_permitted(claims: Option<Claims>, required: Scope) -> bool {
    match claims {
        None => true,
        Some(claims) => claims.scope == required || claims.scope == Scope::Admin,
    }
}

/// Check if the required scope is held in the request's token, or if the request has
/// a token with 'admin' scope then always permit it.
pub fn check_permissions(claims: &Option<Claims>, required_scope: Scope) -> (r: Result<
    (),
    ScopeMismatch,
>)
    ensures
        r is Ok <==> is_permitted(*claims, required_scope),
        r matches Err(e) ==> e.required == required_scope,
{
    match claims {
        None => Ok(()),
        Some(claims) => match check_permission(claims, required_scope) {
            Err(e) => match check_permission(claims, Scope::Admin) {
                Ok(()) => Ok(()),
                Err(_) => Err(e),
            },
            Ok(()) => Ok(()),
        },
    }
}

/// An administrator may do everything; nobody else may do what needs an administrator.
pub proof fn law_admin_may_everything(claims: Claims)
    ensures
        claims.scope == Scope::Admin <==> forall|required: Scope|
            #[trigger] is_permitted(Some(claims), required),
        is_permitted(Some(claims), Scope::Admin) <==> claims.scope == Scope::Admin,
{
    assert(is_permitted(Some(claims), Scope::Admin) <==> claims.scope == Scope::Admin);
}

} // verus!
