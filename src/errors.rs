//! Error taxonomy, HTTP-facing error responses and the transaction policy.

use vstd::prelude::*;
use vstd::string::*;

verus! {

/// The stable, machine-readable kind of an error.
#[derive(PartialEq, Eq, Structural, Clone, Copy, Debug)]
pub enum ErrorTypeKind {
    BadRequest,
    Unauthorized,
    NotFound,
    UnprocessableEntity,
    InternalError,
    InvalidInput,
    UserNotFound,
    UserBanned,
    UserUnconfirmed,
    InvalidEmailOrPassword,
    TFARequiredOverEmail,
    TFARequired,
    InvalidTOTPCode,
    EmailAlreadyExists,
    ConfirmationAlreadyUsed,
    ConfirmationExpired,
    ConfirmationTooManyAttempts,
    ConfirmationNotFound,
    UserNotAdmin,
    DatabaseError,
}

/// An error raised by the library, with the data its message needs.
#[derive(Clone, Debug)]
pub enum ErrorType {
    BadRequest,
    Unauthorized,
    NotFound(String),
    UnprocessableEntity,
    InternalError(String),
    /// Form validation failed; the message lists the failing fields.
    InvalidInput(String),
    UserNotFound,
    UserBanned,
    UserUnconfirmed,
    InvalidEmailOrPassword,
    /// A second factor is required and only email confirmation is available.
    TFARequiredOverEmail,
    /// A second factor is required and a TOTP code may be given.
    TFARequired,
    InvalidTOTPCode,
    EmailAlreadyExists,
    ConfirmationAlreadyUsed,
    ConfirmationExpired,
    ConfirmationTooManyAttempts,
    ConfirmationNotFound,
    UserNotAdmin,
    /// An unexpected store failure: a context message and the store's detail.
    DatabaseError(String, String),
}

/// The body of an error response.
#[derive(Clone, Debug)]
pub struct ErrorResponse {
    pub error_type: ErrorTypeKind,
    pub message: String,
    pub rollback: bool,
}

/// An error response, by HTTP status class.
#[derive(Clone, Debug)]
pub enum ErrorResponder {
    BadRequest(ErrorResponse),
    Unauthorized(ErrorResponse),
    NotFound(ErrorResponse),
    UnprocessableEntity(ErrorResponse),
    InternalError(ErrorResponse),
}

/// Whether an error of this kind discards the writes of its unit of work by
/// default: an expired confirmation and one with too many wrong codes
/// commit, so that the expiry mark and the attempt count persist. A call
/// site may still choose the other disposition with `res`/`res_rollback`:
/// a wrong confirmation code fails with `ConfirmationNotFound` that commits,
/// so that the wrong attempt is counted.
pub open spec fn kind_rolls_back(k: ErrorTypeKind) -> bool {
    !(k == ErrorTypeKind::ConfirmationExpired || k == ErrorTypeKind::ConfirmationTooManyAttempts)
}

/// The HTTP status an error of this kind is reported with.
pub open spec fn kind_status(k: ErrorTypeKind) -> u16 {
    match k {
        ErrorTypeKind::BadRequest => 400,
        ErrorTypeKind::NotFound => 404,
        ErrorTypeKind::UnprocessableEntity => 422,
        ErrorTypeKind::InvalidInput => 422,
        ErrorTypeKind::InternalError => 500,
        ErrorTypeKind::DatabaseError => 500,
        _ => 401,
    }
}

impl ErrorTypeKind {
    /// The HTTP status of this kind.
    pub fn status(&self) -> (r: u16)
        ensures
            r == kind_status(*self),
    {
        match self {
            ErrorTypeKind::BadRequest => 400,
            ErrorTypeKind::NotFound => 404,
            ErrorTypeKind::UnprocessableEntity => 422,
            ErrorTypeKind::InvalidInput => 422,
            ErrorTypeKind::InternalError => 500,
            ErrorTypeKind::DatabaseError => 500,
            _ => 401,
        }
    }

    /// Whether an error of this kind discards the writes of its unit of work.
    pub fn rolls_back(&self) -> (r: bool)
        ensures
            r == kind_rolls_back(*self),
    {
        match self {
            ErrorTypeKind::ConfirmationExpired => false,
            ErrorTypeKind::ConfirmationTooManyAttempts => false,
            _ => true,
        }
    }
}

impl ErrorType {
    /// The kind of this error.
    pub open spec fn kind(&self) -> ErrorTypeKind {
        match self {
            ErrorType::BadRequest => ErrorTypeKind::BadRequest,
            ErrorType::Unauthorized => ErrorTypeKind::Unauthorized,
            ErrorType::NotFound(_) => ErrorTypeKind::NotFound,
            ErrorType::UnprocessableEntity => ErrorTypeKind::UnprocessableEntity,
            ErrorType::InternalError(_) => ErrorTypeKind::InternalError,
            ErrorType::InvalidInput(_) => ErrorTypeKind::InvalidInput,
            ErrorType::UserNotFound => ErrorTypeKind::UserNotFound,
            ErrorType::UserBanned => ErrorTypeKind::UserBanned,
            ErrorType::UserUnconfirmed => ErrorTypeKind::UserUnconfirmed,
            ErrorType::InvalidEmailOrPassword => ErrorTypeKind::InvalidEmailOrPassword,
            ErrorType::TFARequiredOverEmail => ErrorTypeKind::TFARequiredOverEmail,
            ErrorType::TFARequired => ErrorTypeKind::TFARequired,
            ErrorType::InvalidTOTPCode => ErrorTypeKind::InvalidTOTPCode,
            ErrorType::EmailAlreadyExists => ErrorTypeKind::EmailAlreadyExists,
            ErrorType::ConfirmationAlreadyUsed => ErrorTypeKind::ConfirmationAlreadyUsed,
            ErrorType::ConfirmationExpired => ErrorTypeKind::ConfirmationExpired,
            ErrorType::ConfirmationTooManyAttempts => ErrorTypeKind::ConfirmationTooManyAttempts,
            ErrorType::ConfirmationNotFound => ErrorTypeKind::ConfirmationNotFound,
            ErrorType::UserNotAdmin => ErrorTypeKind::UserNotAdmin,
            ErrorType::DatabaseError(_, _) => ErrorTypeKind::DatabaseError,
        }
    }

    /// The human-readable message of this error.
    pub open spec fn message(&self) -> Seq<char> {
        match self {
            ErrorType::BadRequest => "Bad request"@,
            ErrorType::Unauthorized => "Unauthorized"@,
            ErrorType::NotFound(path) => "Not found: "@ + path@,
            ErrorType::UnprocessableEntity => "Unprocessable entity"@,
            ErrorType::InternalError(msg) => "Internal error: "@ + msg@,
            ErrorType::InvalidInput(msg) => msg@,
            ErrorType::UserNotFound => "User not found"@,
            ErrorType::UserBanned => "User is banned"@,
            ErrorType::UserUnconfirmed => "User is not confirmed"@,
            ErrorType::InvalidEmailOrPassword => "Invalid email or password"@,
            ErrorType::TFARequiredOverEmail => "2FA required over email"@,
            ErrorType::TFARequired => "2FA required"@,
            ErrorType::InvalidTOTPCode => "Invalid TOTP code"@,
            ErrorType::EmailAlreadyExists => "Email already exists"@,
            ErrorType::ConfirmationAlreadyUsed => "Confirmation code/token already used"@,
            ErrorType::ConfirmationExpired => "Confirmation code/token expired"@,
            ErrorType::ConfirmationTooManyAttempts => "Too many attempts"@,
            ErrorType::ConfirmationNotFound => "Invalid code/token"@,
            ErrorType::UserNotAdmin => "User is not an admin"@,
            ErrorType::DatabaseError(msg, detail) => "Database error: "@ + msg@ + " - "@ + detail@,
        }
    }

    /// Whether `r` is the response of this error with the given disposition.
    pub open spec fn gives(&self, r: ErrorResponder, rollback: bool) -> bool {
        r.describes(self.kind(), self.message(), rollback)
    }

    /// The kind of this error.
    pub fn get_kind(&self) -> (r: ErrorTypeKind)
        ensures
            r == self.kind(),
    {
        match self {
            ErrorType::BadRequest => ErrorTypeKind::BadRequest,
            ErrorType::Unauthorized => ErrorTypeKind::Unauthorized,
            ErrorType::NotFound(_) => ErrorTypeKind::NotFound,
            ErrorType::UnprocessableEntity => ErrorTypeKind::UnprocessableEntity,
            ErrorType::InternalError(_) => ErrorTypeKind::InternalError,
            ErrorType::InvalidInput(_) => ErrorTypeKind::InvalidInput,
            ErrorType::UserNotFound => ErrorTypeKind::UserNotFound,
            ErrorType::UserBanned => ErrorTypeKind::UserBanned,
            ErrorType::UserUnconfirmed => ErrorTypeKind::UserUnconfirmed,
            ErrorType::InvalidEmailOrPassword => ErrorTypeKind::InvalidEmailOrPassword,
            ErrorType::TFARequiredOverEmail => ErrorTypeKind::TFARequiredOverEmail,
            ErrorType::TFARequired => ErrorTypeKind::TFARequired,
            ErrorType::InvalidTOTPCode => ErrorTypeKind::InvalidTOTPCode,
            ErrorType::EmailAlreadyExists => ErrorTypeKind::EmailAlreadyExists,
            ErrorType::ConfirmationAlreadyUsed => ErrorTypeKind::ConfirmationAlreadyUsed,
            ErrorType::ConfirmationExpired => ErrorTypeKind::ConfirmationExpired,
            ErrorType::ConfirmationTooManyAttempts => ErrorTypeKind::ConfirmationTooManyAttempts,
            ErrorType::ConfirmationNotFound => ErrorTypeKind::ConfirmationNotFound,
            ErrorType::UserNotAdmin => ErrorTypeKind::UserNotAdmin,
            ErrorType::DatabaseError(_, _) => ErrorTypeKind::DatabaseError,
        }
    }

    /// The human-readable message of this error.
    pub fn get_message(self) -> (r: String)
        ensures
            r@ == self.message(),
    {
        match self {
            ErrorType::BadRequest => String::from_str("Bad request"),
            ErrorType::Unauthorized => String::from_str("Unauthorized"),
            ErrorType::NotFound(path) => String::from_str("Not found: ").concat(path.as_str()),
            ErrorType::UnprocessableEntity => String::from_str("Unprocessable entity"),
            ErrorType::InternalError(msg) => String::from_str("Internal error: ").concat(msg.as_str()),
            ErrorType::InvalidInput(msg) => msg,
            ErrorType::UserNotFound => String::from_str("User not found"),
            ErrorType::UserBanned => String::from_str("User is banned"),
            ErrorType::UserUnconfirmed => String::from_str("User is not confirmed"),
            ErrorType::InvalidEmailOrPassword => String::from_str("Invalid email or password"),
            ErrorType::TFARequiredOverEmail => String::from_str("2FA required over email"),
            ErrorType::TFARequired => String::from_str("2FA required"),
            ErrorType::InvalidTOTPCode => String::from_str("Invalid TOTP code"),
            ErrorType::EmailAlreadyExists => String::from_str("Email already exists"),
            ErrorType::ConfirmationAlreadyUsed => String::from_str("Confirmation code/token already used"),
            ErrorType::ConfirmationExpired => String::from_str("Confirmation code/token expired"),
            ErrorType::ConfirmationTooManyAttempts => String::from_str("Too many attempts"),
            ErrorType::ConfirmationNotFound => String::from_str("Invalid code/token"),
            ErrorType::UserNotAdmin => String::from_str("User is not an admin"),
            ErrorType::DatabaseError(msg, detail) => {
                String::from_str("Database error: ").concat(msg.as_str()).concat(" - ").concat(
                    detail.as_str(),
                )
            },
        }
    }

    /// The response of this error, rolling back or committing as given.
    pub fn to_responder_with(self, rollback: bool) -> (r: ErrorResponder)
        ensures
            self.gives(r, rollback),
    {
        let kind = self.get_kind();
        let message = self.get_message();
        ErrorResponder::create(kind, message, rollback)
    }

    /// The response of this error, with the rollback disposition of its kind.
    pub fn to_responder(self) -> (r: ErrorResponder)
        ensures
            self.gives(r, kind_rolls_back(self.kind())),
    {
        let rollback = self.get_kind().rolls_back();
        self.to_responder_with(rollback)
    }

    /// This error as a failed result, with the rollback disposition of its kind.
    pub fn to_err<T>(self) -> (r: Result<T, ErrorResponder>)
        ensures
            r is Err && self.gives(r->Err_0, kind_rolls_back(self.kind())),
    {
        Err(self.to_responder())
    }

    /// This error as a failed result that commits the unit of work.
    pub fn res_err<T>(self) -> (r: Result<T, ErrorResponder>)
        ensures
            r is Err && self.gives(r->Err_0, false),
    {
        Err(self.to_responder_with(false))
    }

    /// This error as a failed result that rolls the unit of work back.
    pub fn res_err_rollback<T>(self) -> (r: Result<T, ErrorResponder>)
        ensures
            r is Err && self.gives(r->Err_0, true),
    {
        Err(self.to_responder_with(true))
    }

    /// This error's response, committing the unit of work.
    pub fn res(self) -> (r: ErrorResponder)
        ensures
            self.gives(r, false),
    {
        self.to_responder_with(false)
    }

    /// This error's response, rolling the unit of work back.
    pub fn res_rollback(self) -> (r: ErrorResponder)
        ensures
            self.gives(r, true),
    {
        self.to_responder_with(true)
    }
}

impl ErrorResponder {
    /// The body of this response.
    pub open spec fn body(&self) -> ErrorResponse {
        match self {
            ErrorResponder::BadRequest(b) => *b,
            ErrorResponder::Unauthorized(b) => *b,
            ErrorResponder::NotFound(b) => *b,
            ErrorResponder::UnprocessableEntity(b) => *b,
            ErrorResponder::InternalError(b) => *b,
        }
    }

    /// The HTTP status of this response.
    pub open spec fn status(&self) -> u16 {
        match self {
            ErrorResponder::BadRequest(_) => 400,
            ErrorResponder::Unauthorized(_) => 401,
            ErrorResponder::NotFound(_) => 404,
            ErrorResponder::UnprocessableEntity(_) => 422,
            ErrorResponder::InternalError(_) => 500,
        }
    }

    /// Whether this is the response for kind `k`, with that message and disposition.
    pub open spec fn describes(&self, k: ErrorTypeKind, message: Seq<char>, rollback: bool) -> bool {
        &&& self.status() == kind_status(k)
        &&& self.body().error_type == k
        &&& self.body().message@ == message
        &&& self.body().rollback == rollback
    }

    /// The kind of the error this response reports.
    pub open spec fn kind(&self) -> ErrorTypeKind {
        self.body().error_type
    }

    /// The response for kind `k` with the given message and disposition.
    pub fn create(k: ErrorTypeKind, message: String, rollback: bool) -> (r: ErrorResponder)
        ensures
            r.describes(k, message@, rollback),
    {
        let body = ErrorResponse { error_type: k, message, rollback };
        let status = k.status();
        if status == 400 {
            ErrorResponder::BadRequest(body)
        } else if status == 404 {
            ErrorResponder::NotFound(body)
        } else if status == 422 {
            ErrorResponder::UnprocessableEntity(body)
        } else if status == 500 {
            ErrorResponder::InternalError(body)
        } else {
            ErrorResponder::Unauthorized(body)
        }
    }

    /// Whether this error discards the writes of its unit of work.
    pub fn do_rollback(&self) -> (r: bool)
        ensures
            r == self.body().rollback,
    {
        match self {
            ErrorResponder::BadRequest(b) => b.rollback,
            ErrorResponder::Unauthorized(b) => b.rollback,
            ErrorResponder::NotFound(b) => b.rollback,
            ErrorResponder::UnprocessableEntity(b) => b.rollback,
            ErrorResponder::InternalError(b) => b.rollback,
        }
    }

    /// The body of this response.
    pub fn response(&self) -> (r: &ErrorResponse)
        ensures
            *r == self.body(),
    {
        match self {
            ErrorResponder::BadRequest(b) => b,
            ErrorResponder::Unauthorized(b) => b,
            ErrorResponder::NotFound(b) => b,
            ErrorResponder::UnprocessableEntity(b) => b,
            ErrorResponder::InternalError(b) => b,
        }
    }

    /// The body of this response as untrusted clients may see it: the
    /// message of a store error, meant for operators, is replaced.
    pub fn public_response(&self) -> (r: ErrorResponse)
        ensures
            r.error_type == self.body().error_type,
            r.rollback == self.body().rollback,
            self.body().error_type == ErrorTypeKind::DatabaseError ==> r.message@ == "Internal error"@,
            self.body().error_type != ErrorTypeKind::DatabaseError ==> r.message@ == self.body().message@,
    {
        let b = self.response();
        let message = if b.error_type == ErrorTypeKind::DatabaseError {
            String::from_str("Internal error")
        } else {
            b.message.clone()
        };
        ErrorResponse { error_type: b.error_type, message, rollback: b.rollback }
    }

    /// The HTTP status of this response.
    pub fn status_code(&self) -> (r: u16)
        ensures
            r == self.status(),
    {
        match self {
            ErrorResponder::BadRequest(_) => 400,
            ErrorResponder::Unauthorized(_) => 401,
            ErrorResponder::NotFound(_) => 404,
            ErrorResponder::UnprocessableEntity(_) => 422,
            ErrorResponder::InternalError(_) => 500,
        }
    }
}

/// The response to a malformed request.
pub fn bad_request() -> (r: ErrorResponder)
    ensures
        ErrorType::BadRequest.gives(r, false),
{
    ErrorType::BadRequest.res()
}

/// The response to a request without valid credentials.
pub fn unauthorized() -> (r: ErrorResponder)
    ensures
        ErrorType::Unauthorized.gives(r, false),
{
    ErrorType::Unauthorized.res()
}

/// The response to a request for an unknown path.
pub fn not_found(path: &str) -> (r: ErrorResponder)
    ensures
        r.describes(ErrorTypeKind::NotFound, "Not found: "@ + path@, false),
{
    ErrorType::NotFound(String::from_str(path)).res()
}

/// The response to a request whose body has values of the wrong type.
pub fn unprocessable_entity() -> (r: ErrorResponder)
    ensures
        ErrorType::UnprocessableEntity.gives(r, false),
{
    ErrorType::UnprocessableEntity.res()
}

/// The response to a failure of the server itself.
pub fn internal_error() -> (r: ErrorResponder)
    ensures
        r.describes(ErrorTypeKind::InternalError, "Internal error: "@ + "Internal Error"@, false),
{
    ErrorType::InternalError(String::from_str("Internal Error")).res()
}

}
