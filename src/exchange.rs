use vstd::prelude::*;

use crate::keycloak::{
    CreateUserRequest, KeycloakClient, admin_token_status, create_user_request, create_user_status, form_view, is_success,
    user_token_status, TOKEN_PATH, USERS_PATH,
};
use crate::server_error::{ServerError, STATUS_CONFLICT, STATUS_UNAUTHORIZED, status_origin};

verus! {

/// Where a conversation with the identity provider stands.
pub enum Exchange {
    /// A user's password grant was sent; its answer is awaited.
    UserTokenSent,
    /// The password grant succeeded; the token in its body is awaited.
    UserTokenReading,
    /// The admin grant for creating a user was sent; its answer is awaited.
    AdminTokenSent { username: String, password: String },
    /// The admin grant succeeded; the admin token in its body is awaited.
    AdminTokenReading { username: String, password: String },
    /// The creation of the user was sent; its answer is awaited.
    UserCreationSent,
    /// The conversation is over.
    Finished,
}

/// What the provider, or the way to it, did.
pub enum ProviderEvent {
    /// The request reached the provider, which answered with `status`.
    Answered { status: u16 },
    /// The request did not reach the provider.
    SendFailed { reason: String },
    /// The token was read from the answer's body.
    TokenRead { token: String },
    /// The answer's body did not hold a token.
    ReadFailed { reason: String },
}

/// What the client does next.
pub enum ProviderAction {
    /// Post `form` to `url`.
    PostForm { url: String, form: Vec<(String, String)> },
    /// Post `body` to `url`, authenticated by the bearer token `bearer`.
    PostUser { url: String, bearer: String, body: CreateUserRequest },
    /// Read the token from the body of the last answer.
    ReadToken,
    /// Stop, with this outcome: a token for a login, nothing for a registration.
    Finish { outcome: Result<Option<String>, ServerError> },
}

/// The error of an event that the conversation did not wait for.
pub open spec fn is_unexpected_event(e: ServerError) -> bool {
    e.is_communication_failure("Unexpected event"@)
}

impl KeycloakClient {
    /// Starts a login: the password grant for `username`.
    pub fn start_login(&self, username: &str, password: &str) -> (r: (Exchange, ProviderAction))
        ensures
            r.0 is UserTokenSent,
            r.1 matches ProviderAction::PostForm { url, form } && url@ == self.full_url(TOKEN_PATH@)
                && form_view(form@) == seq![
                    ("grant_type"@, "password"@),
                    ("client_id"@, self.user_client_id()),
                    ("client_secret"@, self.user_client_secret()),
                    ("username"@, username@),
                    ("password"@, password@),
                ],
    {
        (Exchange::UserTokenSent, ProviderAction::PostForm { url: self.token_url(), form: self.user_token_form(username, password) })
    }

    /// Starts a registration: a fresh admin grant, whose token then authorises
    /// the creation of `username`.
    pub fn start_registration(&self, username: &str, password: &str) -> (r: (Exchange, ProviderAction))
        ensures
            r.0 matches Exchange::AdminTokenSent { username: u, password: p } && u@ == username@ && p@ == password@,
            r.1 matches ProviderAction::PostForm { url, form } && url@ == self.full_url(TOKEN_PATH@)
                && form_view(form@) == seq![
                    ("grant_type"@, "client_credentials"@),
                    ("client_id"@, self.admin_client_id()),
                    ("client_secret"@, self.admin_client_secret()),
                ],
    {
        (
            Exchange::AdminTokenSent { username: username.to_string(), password: password.to_string() },
            ProviderAction::PostForm { url: self.token_url(), form: self.admin_token_form() },
        )
    }

    /// The next state and action, from the present state and what happened.
    /// No request is ever repeated: every failure finishes the conversation.
    pub fn step(&self, state: Exchange, event: ProviderEvent) -> (r: (Exchange, ProviderAction))
        ensures
            // Every failure to reach the provider finishes it.
            event matches ProviderEvent::SendFailed { reason } ==> (!(state is Finished) ==> (r.0 is Finished
                && (r.1 matches ProviderAction::Finish { outcome: Err(e) } && e.is_communication_failure(reason@)))),
            // Every body without a token finishes it.
            event matches ProviderEvent::ReadFailed { reason } ==> (state is UserTokenReading || state is AdminTokenReading
                ==> (r.0 is Finished && (r.1 matches ProviderAction::Finish { outcome: Err(e) } && e.is_parse_failure(reason@)))),
            // The password grant's answer.
            event matches ProviderEvent::Answered { status } ==> (state is UserTokenSent ==> (
                (is_success(status) ==> r.0 is UserTokenReading && r.1 is ReadToken)
                && (status == STATUS_UNAUTHORIZED ==> (r.0 is Finished
                    && (r.1 matches ProviderAction::Finish { outcome: Err(e) } && e.is_invalid_user_credentials())))
                && (!is_success(status) && status != STATUS_UNAUTHORIZED ==> (r.0 is Finished
                    && (r.1 matches ProviderAction::Finish { outcome: Err(e) } && e.is_communication_failure(status_origin(status)))))
            )),
            // A login hands out the token it read, unchanged.
            event matches ProviderEvent::TokenRead { token } ==> (state is UserTokenReading ==> (r.0 is Finished
                && (r.1 matches ProviderAction::Finish { outcome: Ok(Some(t)) } && t == token))),
            // The admin grant's answer.
            state matches Exchange::AdminTokenSent { username, password } ==> (event matches ProviderEvent::Answered { status } ==> (
                (is_success(status) ==> (r.0 matches Exchange::AdminTokenReading { username: u, password: p }
                    && u == username && p == password && r.1 is ReadToken))
                && (!is_success(status) ==> (r.0 is Finished
                    && (r.1 matches ProviderAction::Finish { outcome: Err(e) } && e.is_communication_failure(status_origin(status)))))
            )),
            // The admin token authorises the creation of the user.
            state matches Exchange::AdminTokenReading { username, password } ==> (event matches ProviderEvent::TokenRead { token }
                ==> (r.0 is UserCreationSent && (r.1 matches ProviderAction::PostUser { url, bearer, body }
                && url@ == self.full_admin_url(USERS_PATH@) && bearer == token
                && body.username@ == username@ && body.enabled && body.credentials@.len() == 1
                && body.credentials@[0].type_@ == "password"@ && body.credentials@[0].value@ == password@
                && !body.credentials@[0].temporary))),
            // The creation's answer.
            event matches ProviderEvent::Answered { status } ==> (state is UserCreationSent ==> (
                (is_success(status) ==> (r.0 is Finished && (r.1 matches ProviderAction::Finish { outcome: Ok(None) })))
                && (status == STATUS_CONFLICT ==> (r.0 is Finished
                    && (r.1 matches ProviderAction::Finish { outcome: Err(e) } && e.is_user_already_exists())))
                && (!is_success(status) && status != STATUS_CONFLICT ==> (r.0 is Finished
                    && (r.1 matches ProviderAction::Finish { outcome: Err(e) } && e.is_communication_failure(status_origin(status)))))
            )),
            // Anything else is an event that was not awaited.
            state is Finished
                || (event is Answered && (state is UserTokenReading || state is AdminTokenReading))
                || (event is TokenRead && (state is UserTokenSent || state is AdminTokenSent || state is UserCreationSent))
                || (event is ReadFailed && (state is UserTokenSent || state is AdminTokenSent || state is UserCreationSent))
                ==> (r.0 is Finished && (r.1 matches ProviderAction::Finish { outcome: Err(e) } && is_unexpected_event(e))),
    {
        match (state, event) {
            (Exchange::Finished, _) => unexpected_event(),
            (_, ProviderEvent::SendFailed { reason }) => finish_with(ServerError::fail_to_communicate_with_keycloak(reason.as_str())),
            (Exchange::UserTokenSent, ProviderEvent::Answered { status }) => match user_token_status(status) {
                Ok(()) => (Exchange::UserTokenReading, ProviderAction::ReadToken),
                Err(e) => finish_with(e),
            },
            (Exchange::UserTokenReading, ProviderEvent::TokenRead { token }) => (
                Exchange::Finished,
                ProviderAction::Finish { outcome: Ok(Some(token)) },
            ),
            (Exchange::AdminTokenSent { username, password }, ProviderEvent::Answered { status }) => match admin_token_status(status) {
                Ok(()) => (Exchange::AdminTokenReading { username, password }, ProviderAction::ReadToken),
                Err(e) => finish_with(e),
            },
            (Exchange::AdminTokenReading { username, password }, ProviderEvent::TokenRead { token }) => (
                Exchange::UserCreationSent,
                ProviderAction::PostUser {
                    url: self.users_url(),
                    bearer: token,
                    body: create_user_request(username.as_str(), password.as_str()),
                },
            ),
            (Exchange::UserTokenReading, ProviderEvent::ReadFailed { reason })
            | (Exchange::AdminTokenReading { .. }, ProviderEvent::ReadFailed { reason }) => finish_with(
                ServerError::unable_to_parse_response(reason.as_str()),
            ),
            (Exchange::UserCreationSent, ProviderEvent::Answered { status }) => match create_user_status(status) {
                Ok(()) => (Exchange::Finished, ProviderAction::Finish { outcome: Ok(None) }),
                Err(e) => finish_with(e),
            },
            _ => unexpected_event(),
        }
    }
}

fn finish_with(e: ServerError) -> (r: (Exchange, ProviderAction))
    ensures
        r.0 is Finished,
        r.1 matches ProviderAction::Finish { outcome: Err(f) } && f == e,
{
    (Exchange::Finished, ProviderAction::Finish { outcome: Err(e) })
}

fn unexpected_event() -> (r: (Exchange, ProviderAction))
    ensures
        r.0 is Finished,
        r.1 matches ProviderAction::Finish { outcome: Err(e) } && is_unexpected_event(e),
{
    finish_with(ServerError::fail_to_communicate_with_keycloak("Unexpected event"))
}

} // verus!
