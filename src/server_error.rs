use vstd::prelude::*;

verus! {

/// HTTP 401.
pub const STATUS_UNAUTHORIZED: u16 = 401;

/// HTTP 409.
pub const STATUS_CONFLICT: u16 = 409;

/// HTTP 500.
pub const STATUS_INTERNAL_SERVER_ERROR: u16 = 500;

/// The one digit `d` (`d < 10`) as a character.
pub open spec fn digit_char(d: nat) -> char {
    if d == 0 {
        '0'
    } else if d == 1 {
        '1'
    } else if d == 2 {
        '2'
    } else if d == 3 {
        '3'
    } else if d == 4 {
        '4'
    } else if d == 5 {
        '5'
    } else if d == 6 {
        '6'
    } else if d == 7 {
        '7'
    } else if d == 8 {
        '8'
    } else {
        '9'
    }
}

/// Decimal notation of `n`, most significant digit first, without leading zeros.
pub open spec fn decimal_of(n: nat) -> Seq<char>
    decreases n,
{
    if n < 10 {
        seq![digit_char(n)]
    } else {
        decimal_of(n / 10) + seq![digit_char(n % 10)]
    }
}

/// The diagnostic text recorded when the provider answers with an unexpected status.
pub open spec fn status_origin(status: u16) -> Seq<char> {
    "Status code: "@ + decimal_of(status as nat)
}

fn digit_text(d: u16) -> (r: String)
    requires
        d < 10,
    ensures
        r@ == seq![digit_char(d as nat)],
{
    let s: &str = if d == 0 {
        "0"
    } else if d == 1 {
        "1"
    } else if d == 2 {
        "2"
    } else if d == 3 {
        "3"
    } else if d == 4 {
        "4"
    } else if d == 5 {
        "5"
    } else if d == 6 {
        "6"
    } else if d == 7 {
        "7"
    } else if d == 8 {
        "8"
    } else {
        "9"
    };
    proof {
        reveal_strlit("0");
        reveal_strlit("1");
        reveal_strlit("2");
        reveal_strlit("3");
        reveal_strlit("4");
        reveal_strlit("5");
        reveal_strlit("6");
        reveal_strlit("7");
        reveal_strlit("8");
        reveal_strlit("9");
    }
    let r = String::from_str(s);
    assert(r@ =~= seq![digit_char(d as nat)]);
    r
}

/// Decimal notation of a status code.
pub fn decimal_text(n: u16) -> (r: String)
    ensures
        r@ == decimal_of(n as nat),
    decreases n,
{
    if n < 10 {
        digit_text(n)
    } else {
        let high = decimal_text(n / 10);
        let low = digit_text(n % 10);
        high.concat(low.as_str())
    }
}

/// An error of the gateway, as it is answered to the caller.
///
/// Client-facing errors carry their own status, message and code. Internal
/// errors are always answered as a generic 500; their `origin` is kept for
/// the server's own diagnostics only.
#[derive(Debug)]
pub struct ServerError {
    pub status_code: u16,
    pub message: &'static str,
    pub error_code: u32,
    pub internal_error: bool,
    pub origin: Option<String>,
}

/// What the caller receives in the body of an error response.
#[derive(Debug)]
pub struct ErrorBody {
    pub message: &'static str,
    pub error_code: u32,
}

impl ServerError {
    /// The status answered to the caller: 500 for every internal error.
    pub open spec fn answered_status(&self) -> u16 {
        if self.internal_error {
            STATUS_INTERNAL_SERVER_ERROR
        } else {
            self.status_code
        }
    }

    /// The message answered to the caller: a generic one for every internal error.
    pub open spec fn answered_message(&self) -> Seq<char> {
        if self.internal_error {
            "Internal server error"@
        } else {
            self.message@
        }
    }

    /// The code answered to the caller: 0 for every internal error.
    pub open spec fn answered_code(&self) -> u32 {
        if self.internal_error {
            0
        } else {
            self.error_code
        }
    }

    /// The error of credentials that the provider refused.
    pub open spec fn is_invalid_user_credentials(&self) -> bool {
        &&& self.status_code == STATUS_UNAUTHORIZED
        &&& self.message@ == "Invalid user credentials"@
        &&& self.error_code == 1000
        &&& !self.internal_error
        &&& self.origin is None
    }

    /// The error of a user name that the provider already holds.
    pub open spec fn is_user_already_exists(&self) -> bool {
        &&& self.status_code == STATUS_CONFLICT
        &&& self.message@ == "User already exists"@
        &&& self.error_code == 1001
        &&& !self.internal_error
        &&& self.origin is None
    }

    /// An internal error with the given message, code and diagnostic origin.
    pub open spec fn is_internal(&self, message: Seq<char>, code: u32, origin: Seq<char>) -> bool {
        &&& self.status_code == STATUS_INTERNAL_SERVER_ERROR
        &&& self.message@ == message
        &&& self.error_code == code
        &&& self.internal_error
        &&& self.origin matches Some(o) && o@ == origin
    }

    /// The error of a provider that could not be reached or answered amiss.
    pub open spec fn is_communication_failure(&self, origin: Seq<char>) -> bool {
        self.is_internal("Fail to communicate with keycloak"@, 1, origin)
    }

    /// The error of a provider answer without the expected shape.
    pub open spec fn is_parse_failure(&self, origin: Seq<char>) -> bool {
        self.is_internal("Unable to parse response"@, 2, origin)
    }

    /// The error of a provider token that fails the gateway's own verification.
    pub open spec fn is_decode_failure(&self, origin: Seq<char>) -> bool {
        self.is_internal("Unable to decode token"@, 3, origin)
    }

    /// The upstream provider refused the user's credentials.
    pub fn invalid_user_credentials() -> (r: ServerError)
        ensures
            r.is_invalid_user_credentials(),
    {
        ServerError {
            status_code: STATUS_UNAUTHORIZED,
            message: "Invalid user credentials",
            error_code: 1000,
            internal_error: false,
            origin: None,
        }
    }

    /// The provider could not be reached or answered with an unexpected status.
    pub fn fail_to_communicate_with_keycloak(origin: &str) -> (r: ServerError)
        ensures
            r.is_communication_failure(origin@),
    {
        ServerError {
            status_code: STATUS_INTERNAL_SERVER_ERROR,
            message: "Fail to communicate with keycloak",
            error_code: 1,
            internal_error: true,
            origin: Some(origin.to_string()),
        }
    }

    /// The provider's answer did not have the expected shape.
    pub fn unable_to_parse_response(origin: &str) -> (r: ServerError)
        ensures
            r.is_parse_failure(origin@),
    {
        ServerError {
            status_code: STATUS_INTERNAL_SERVER_ERROR,
            message: "Unable to parse response",
            error_code: 2,
            internal_error: true,
            origin: Some(origin.to_string()),
        }
    }

    /// A token issued by the provider failed the gateway's own verification.
    pub fn unable_to_decode_token(origin: &str) -> (r: ServerError)
        ensures
            r.is_decode_failure(origin@),
    {
        ServerError {
            status_code: STATUS_INTERNAL_SERVER_ERROR,
            message: "Unable to decode token",
            error_code: 3,
            internal_error: true,
            origin: Some(origin.to_string()),
        }
    }

    /// The provider already holds a user of that name.
    pub fn user_already_exists() -> (r: ServerError)
        ensures
            r.is_user_already_exists(),
    {
        ServerError {
            status_code: STATUS_CONFLICT,
            message: "User already exists",
            error_code: 1001,
            internal_error: false,
            origin: None,
        }
    }

    /// The provider answered with a status that its caller did not expect.
    pub fn unexpected_status(status: u16) -> (r: ServerError)
        ensures
            r.is_communication_failure(status_origin(status)),
    {
        let text = "Status code: ".to_string().concat(decimal_text(status).as_str());
        ServerError::fail_to_communicate_with_keycloak(text.as_str())
    }

    /// The status code of the response: internal errors are all answered as 500.
    pub fn status_code(&self) -> (r: u16)
        ensures
            r == self.answered_status(),
    {
        if self.internal_error {
            STATUS_INTERNAL_SERVER_ERROR
        } else {
            self.status_code
        }
    }

    /// The body of the response: internal errors hide their message and code.
    pub fn error_body(&self) -> (r: ErrorBody)
        ensures
            r.message@ == self.answered_message(),
            r.error_code == self.answered_code(),
    {
        if self.internal_error {
            ErrorBody { message: "Internal server error", error_code: 0 }
        } else {
            ErrorBody { message: self.message, error_code: self.error_code }
        }
    }
}

} // verus!
