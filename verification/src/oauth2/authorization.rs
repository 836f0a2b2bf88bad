//! Validation of authorization requests against the client they name.

use vstd::prelude::*;
use vstd::string::*;

use crate::model::{
    AuthorizationRequest, Client, ClientType, CodeChallengeMethod, ResponseMode, ResponseType,
};
use crate::oauth2::error::{
    error_bare, error_with, unit_result_view, ErrorCode, ErrorResponse, ErrorResponseResult,
    ErrorResponseView,
};
use crate::oauth2::scope::{parse_scopes, scope_check, split_ws, strs, validate_scopes};

verus! {

/// What `validate_response_type` answers: `None` when the response type is acceptable.
pub open spec fn response_type_check(request: AuthorizationRequest, client: Client) -> Option<ErrorResponseView> {
    if request.response_type != ResponseType::Code {
        Some(error_bare(ErrorCode::UnsupportedResponseType))
    } else if client.response_types@.len() == 0 || client.response_types@.contains(request.response_type) {
        None
    } else {
        Some(error_bare(ErrorCode::InvalidResponseType))
    }
}

/// The redirect URI an authorization request resolves to, or the error it is refused with.
pub open spec fn redirect_resolution(request: AuthorizationRequest, client: Client) -> Result<Seq<char>, ErrorResponseView> {
    let uris = strs(client.redirect_uris@);
    match request.redirect_uri {
        Some(u) => if uris.contains(u@) {
            Ok(u@)
        } else {
            Err(error_with(ErrorCode::InvalidRequest, "redirect_uri is not registered for this client"@))
        },
        None => if uris.len() == 1 {
            Ok(uris[0])
        } else {
            Err(error_with(
                ErrorCode::InvalidRequest,
                "redirect_uri is required when multiple redirect URIs are registered"@,
            ))
        },
    }
}

/// Whether PKCE is owed: the server asks for it, or the client is public.
pub open spec fn pkce_required(client: Client, require_pkce: bool) -> bool {
    require_pkce || client.client_type == ClientType::Public
}

/// What `validate_pkce` answers: `None` when the PKCE parameters are acceptable.
pub open spec fn pkce_check(request: AuthorizationRequest, client: Client, require_pkce: bool) -> Option<ErrorResponseView> {
    match (request.code_challenge, request.code_challenge_method) {
        (Some(_), Some(m)) => if m == CodeChallengeMethod::S256 {
            None
        } else {
            Some(error_with(ErrorCode::InvalidRequest, "only S256 code challenge method is supported"@))
        },
        (Some(_), None) => Some(error_with(
            ErrorCode::InvalidRequest,
            "code_challenge_method is required when code_challenge is present"@,
        )),
        (None, Some(_)) => Some(error_with(
            ErrorCode::InvalidRequest,
            "code_challenge is required when code_challenge_method is present"@,
        )),
        (None, None) => if pkce_required(client, require_pkce) {
            Some(error_with(ErrorCode::InvalidRequest, "PKCE is required for this authorization request"@))
        } else {
            None
        },
    }
}

/// What `validate_authorization_request` answers: `None` when the request is acceptable,
/// the first error found otherwise.
pub open spec fn authorization_check(request: AuthorizationRequest, client: Client, require_pkce: bool) -> Option<ErrorResponseView> {
    if request.client_id@ != client.client_id@ {
        Some(error_bare(ErrorCode::InvalidClient))
    } else if response_type_check(request, client) is Some {
        response_type_check(request, client)
    } else if redirect_resolution(request, client) is Err {
        Some(redirect_resolution(request, client)->Err_0)
    } else if pkce_check(request, client, require_pkce) is Some {
        pkce_check(request, client, require_pkce)
    } else {
        match request.scope {
            Some(s) => scope_check(split_ws(s@), strs(client.allowed_scopes@)),
            None => None,
        }
    }
}

/// Checks an authorization request against the client it names: the client id, the
/// response type, the redirect URI, PKCE, the response mode and the scopes, in that order.
pub fn validate_authorization_request(
    request: &AuthorizationRequest,
    client: &Client,
    require_pkce: bool,
) -> (r: ErrorResponseResult<()>)
    ensures
        unit_result_view(r) == authorization_check(*request, *client, require_pkce),
{
    if request.client_id != client.client_id {
        return Err(ErrorResponse::new(ErrorCode::InvalidClient));
    }
    let r1 = validate_response_type(request, client);
    if let Err(e) = r1 {
        return Err(e);
    }
    let r2 = resolve_redirect_uri(request, client);
    if let Err(e) = r2 {
        return Err(e);
    }
    let r3 = validate_pkce(request, client, require_pkce);
    if let Err(e) = r3 {
        return Err(e);
    }
    let r4 = validate_response_mode(request);
    if let Err(e) = r4 {
        return Err(e);
    }
    if let Some(scope) = &request.scope {
        let requested = parse_scopes(scope.as_str());
        let r5 = validate_scopes(requested.as_slice(), client.allowed_scopes.as_slice());
        if let Err(e) = r5 {
            return Err(e);
        }
    }
    Ok(())
}

/// The redirect URI to send the user back to: the requested one when the client registered
/// it, the client's only one when none was requested.
pub fn resolve_redirect_uri(request: &AuthorizationRequest, client: &Client) -> (r: ErrorResponseResult<String>)
    ensures
        match r {
            Ok(u) => redirect_resolution(*request, *client) == Ok::<Seq<char>, ErrorResponseView>(u@),
            Err(e) => redirect_resolution(*request, *client) == Err::<Seq<char>, ErrorResponseView>(e@),
        },
{
    match &request.redirect_uri {
        Some(redirect_uri) => {
            if crate::oauth2::scope::contains_str(client.redirect_uris.as_slice(), redirect_uri) {
                Ok(redirect_uri.clone())
            } else {
                Err(ErrorResponse::new(ErrorCode::InvalidRequest).with_description(
                    String::from_str("redirect_uri is not registered for this client"),
                ))
            }
        },
        None => {
            if client.redirect_uris.len() == 1 {
                assert(strs(client.redirect_uris@)[0] == client.redirect_uris@[0]@);
                Ok(client.redirect_uris[0].clone())
            } else {
                Err(ErrorResponse::new(ErrorCode::InvalidRequest).with_description(
                    String::from_str(
                        "redirect_uri is required when multiple redirect URIs are registered",
                    ),
                ))
            }
        },
    }
}

fn response_type_listed(list: &Vec<ResponseType>, t: ResponseType) -> (r: bool)
    ensures
        r == list@.contains(t),
{
    let mut i: usize = 0;
    while i < list.len()
        invariant
            i <= list@.len(),
            forall|k: int| 0 <= k < i ==> list@[k] != t,
        decreases list.len() - i,
    {
        if list[i] == t {
            return true;
        }
        i = i + 1;
    }
    false
}

fn validate_response_type(request: &AuthorizationRequest, client: &Client) -> (r: ErrorResponseResult<()>)
    ensures
        unit_result_view(r) == response_type_check(*request, *client),
{
    if request.response_type != ResponseType::Code {
        return Err(ErrorResponse::new(ErrorCode::UnsupportedResponseType));
    }
    if client.response_types.len() == 0 || response_type_listed(&client.response_types, request.response_type) {
        Ok(())
    } else {
        Err(ErrorResponse::new(ErrorCode::InvalidResponseType))
    }
}

fn validate_pkce(request: &AuthorizationRequest, client: &Client, require_pkce: bool) -> (r: ErrorResponseResult<()>)
    ensures
        unit_result_view(r) == pkce_check(*request, *client, require_pkce),
{
    let pkce_required = require_pkce || client.client_type == ClientType::Public;
    match (&request.code_challenge, &request.code_challenge_method) {
        (Some(_), Some(method)) => {
            if *method == CodeChallengeMethod::S256 {
                Ok(())
            } else {
                Err(ErrorResponse::new(ErrorCode::InvalidRequest).with_description(
                    String::from_str("only S256 code challenge method is supported"),
                ))
            }
        },
        (Some(_), None) => Err(ErrorResponse::new(ErrorCode::InvalidRequest).with_description(
            String::from_str("code_challenge_method is required when code_challenge is present"),
        )),
        (None, Some(_)) => Err(ErrorResponse::new(ErrorCode::InvalidRequest).with_description(
            String::from_str("code_challenge is required when code_challenge_method is present"),
        )),
        (None, None) => {
            if pkce_required {
                Err(ErrorResponse::new(ErrorCode::InvalidRequest).with_description(
                    String::from_str("PKCE is required for this authorization request"),
                ))
            } else {
                Ok(())
            }
        },
    }
}

/// Every response mode the server knows is accepted.
fn validate_response_mode(request: &AuthorizationRequest) -> (r: ErrorResponseResult<()>)
    ensures
        r is Ok,
{
    match request.response_mode {
        None | Some(ResponseMode::Query) | Some(ResponseMode::FormPost) => Ok(()),
    }
}


/// A request without PKCE parameters is refused for a public client (or whenever the
/// server demands PKCE), whatever else it holds.
pub proof fn law_public_clients_need_pkce(request: AuthorizationRequest, client: Client, require_pkce: bool)
    requires
        request.code_challenge is None,
        request.code_challenge_method is None,
        pkce_required(client, require_pkce),
    ensures
        authorization_check(request, client, require_pkce) is Some,
{
}

/// What an accepted request guarantees: it names the client, asks for the code flow,
/// resolves to one of the client's redirect URIs, carries an S256 challenge whenever PKCE
/// is owed (and never a partial or plain one), and asks only for allowed scopes.
pub proof fn law_accepted_request_is_sound(request: AuthorizationRequest, client: Client, require_pkce: bool)
    requires
        authorization_check(request, client, require_pkce) is None,
    ensures
        request.client_id@ == client.client_id@,
        request.response_type == ResponseType::Code,
        redirect_resolution(request, client) is Ok,
        strs(client.redirect_uris@).contains(redirect_resolution(request, client)->Ok_0),
        request.code_challenge is Some <==> request.code_challenge_method is Some,
        request.code_challenge_method is Some ==> request.code_challenge_method == Some(
            CodeChallengeMethod::S256,
        ),
        pkce_required(client, require_pkce) ==> request.code_challenge is Some,
        request.scope is Some ==> forall|i: int|
            0 <= i < split_ws(request.scope->0@).len() ==> strs(client.allowed_scopes@).contains(
                #[trigger] split_ws(request.scope->0@)[i],
            ),
{
    if request.redirect_uri is None {
        assert(strs(client.redirect_uris@).contains(strs(client.redirect_uris@)[0]));
    }
    if request.scope is Some {
        crate::oauth2::scope::law_scope_check_accepts_exactly_allowed(
            split_ws(request.scope->0@),
            strs(client.allowed_scopes@),
        );
    }
}

/// The redirect URI a request resolves to: the requested URI itself whenever the client
/// registered it, and when none is requested, the client's single registered URI. A
/// requested URI that is not registered is never replaced by another one.
pub proof fn law_redirect_uri_is_the_requested_one(request: AuthorizationRequest, client: Client)
    ensures
        request.redirect_uri matches Some(u) ==> (strs(client.redirect_uris@).contains(u@)
            <==> redirect_resolution(request, client) == Ok::<Seq<char>, ErrorResponseView>(u@)),
        request.redirect_uri matches Some(u) ==> (redirect_resolution(request, client) is Ok
            ==> redirect_resolution(request, client)->Ok_0 == u@),
        request.redirect_uri is None ==> (redirect_resolution(request, client) is Ok
            <==> client.redirect_uris@.len() == 1),
        request.redirect_uri is None && client.redirect_uris@.len() == 1
            ==> redirect_resolution(request, client) == Ok::<Seq<char>, ErrorResponseView>(
            client.redirect_uris@[0]@,
        ),
{
}

} // verus!