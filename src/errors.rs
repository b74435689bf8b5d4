//! The error kinds that every operation of the library reports.
use vstd::prelude::*;

verus! {

/// What went wrong in an operation, with a message for the caller.
#[derive(Clone, Debug)]
pub enum AppError {
    DatabaseError(String),
    DatabaseConnectionError(String),
    ConfigError(String),
    ValidationError(String),
    NotFound(String),
    AuthError(String),
    Unauthorized(String),
    InternalServerError,
    JwtError(String),
}

/// The kinds of error that the contracts tell apart.
pub enum ErrorKind {
    Validation,
    NotFound,
    Denied,
    BadCredential,
    Internal,
}

/// The kind of an error: invalid input, an absent resource, a refused
/// permission (`Unauthorized` only), a rejected credential, or a failure on
/// the server's side.
pub open spec fn kind_of(e: AppError) -> ErrorKind {
    match e {
        AppError::ValidationError(_) => ErrorKind::Validation,
        AppError::NotFound(_) => ErrorKind::NotFound,
        AppError::Unauthorized(_) => ErrorKind::Denied,
        AppError::AuthError(_) | AppError::JwtError(_) => ErrorKind::BadCredential,
        _ => ErrorKind::Internal,
    }
}

/// `r` is an error of kind `k`.
pub open spec fn fails_with<T>(r: Result<T, AppError>, k: ErrorKind) -> bool {
    r matches Err(e) && kind_of(e) == k
}

/// `r` with its success value dropped.
pub open spec fn outcome_only<T>(r: Result<T, AppError>) -> Result<(), AppError> {
    match r {
        Ok(_) => Ok(()),
        Err(e) => Err(e),
    }
}

/// The HTTP status that stands for each kind of error.
pub open spec fn status_of(e: AppError) -> u16 {
    match e {
        AppError::ValidationError(_) => 400,
        AppError::NotFound(_) => 404,
        AppError::AuthError(_) | AppError::Unauthorized(_) | AppError::JwtError(_) => 401,
        _ => 500,
    }
}

impl AppError {
    /// The HTTP status that this error is answered with.
    pub fn status_code(&self) -> (r: u16)
        ensures
            r == status_of(*self),
    {
        match self {
            AppError::ValidationError(_) => 400,
            AppError::NotFound(_) => 404,
            AppError::AuthError(_) | AppError::Unauthorized(_) | AppError::JwtError(_) => 401,
            _ => 500,
        }
    }

    /// The message shown to the client. Storage, configuration and token
    /// failures are answered with a fixed text, so that their details stay on
    /// the server; the other kinds show their own message.
    pub fn public_message(&self) -> (r: String)
        ensures
            *self matches AppError::ValidationError(m) ==> r@ == m@,
            *self matches AppError::NotFound(m) ==> r@ == m@,
            *self matches AppError::AuthError(m) ==> r@ == m@,
            *self matches AppError::Unauthorized(m) ==> r@ == m@,
            (*self matches AppError::DatabaseError(_)) ==> r@ == "Error interno del servidor (DB)"@,
            (*self matches AppError::DatabaseConnectionError(_)) ==> r@ == "Error interno del servidor (DB)"@,
            (*self matches AppError::ConfigError(_)) ==> r@ == "Error de configuración del servidor"@,
            (*self matches AppError::InternalServerError) ==> r@ == "Error interno del servidor"@,
            (*self matches AppError::JwtError(_)) ==> r@ == "Token inválido o expirado"@,
    {
        match self {
            AppError::DatabaseError(_) | AppError::DatabaseConnectionError(_) => String::from_str(
                "Error interno del servidor (DB)",
            ),
            AppError::ConfigError(_) => String::from_str("Error de configuración del servidor"),
            AppError::ValidationError(m) => m.clone(),
            AppError::NotFound(m) => m.clone(),
            AppError::AuthError(m) => m.clone(),
            AppError::Unauthorized(m) => m.clone(),
            AppError::InternalServerError => String::from_str("Error interno del servidor"),
            AppError::JwtError(_) => String::from_str("Token inválido o expirado"),
        }
    }

    /// The full description of the error, its kind followed by its detail.
    pub fn to_string(&self) -> (r: String)
        ensures
            r@ == error_text(*self),
    {
        match self {
            AppError::DatabaseError(m) => String::from_str("Error de base de datos: ").concat(m.as_str()),
            AppError::DatabaseConnectionError(m) => String::from_str(
                "Error de conexión a la base de datos: ",
            ).concat(m.as_str()),
            AppError::ConfigError(m) => String::from_str("Error de configuración: ").concat(m.as_str()),
            AppError::ValidationError(m) => String::from_str("Error de validación: ").concat(m.as_str()),
            AppError::NotFound(m) => String::from_str("Recurso no encontrado: ").concat(m.as_str()),
            AppError::AuthError(m) => String::from_str("Error de autenticación: ").concat(m.as_str()),
            AppError::Unauthorized(m) => String::from_str("No autorizado: ").concat(m.as_str()),
            AppError::InternalServerError => String::from_str("Error interno del servidor"),
            AppError::JwtError(m) => String::from_str("Error de JWT: ").concat(m.as_str()),
        }
    }
}

/// The full description of an error: its kind followed by its detail.
pub open spec fn error_text(e: AppError) -> Seq<char> {
    match e {
        AppError::DatabaseError(m) => "Error de base de datos: "@ + m@,
        AppError::DatabaseConnectionError(m) => "Error de conexión a la base de datos: "@ + m@,
        AppError::ConfigError(m) => "Error de configuración: "@ + m@,
        AppError::ValidationError(m) => "Error de validación: "@ + m@,
        AppError::NotFound(m) => "Recurso no encontrado: "@ + m@,
        AppError::AuthError(m) => "Error de autenticación: "@ + m@,
        AppError::Unauthorized(m) => "No autorizado: "@ + m@,
        AppError::InternalServerError => "Error interno del servidor"@,
        AppError::JwtError(m) => "Error de JWT: "@ + m@,
    }
}

/// The error of the account endpoints, coarser than `AppError`.
#[derive(Clone, Debug)]
pub enum AuthHandlerError {
    ServiceError(String),
    ValidationError(String),
    NotFound,
    Unauthorized,
}

impl AuthHandlerError {
    /// How an `AppError` is reported by the account endpoints: absent
    /// resources and invalid input keep their kind, everything else becomes a
    /// service error carrying the full description.
    pub fn from_app_error(err: AppError) -> (r: AuthHandlerError)
        ensures
            (err matches AppError::NotFound(_)) ==> r == AuthHandlerError::NotFound,
            err matches AppError::ValidationError(m) ==> r == AuthHandlerError::ValidationError(m),
            !(err matches AppError::NotFound(_)) && !(err matches AppError::ValidationError(_)) ==> (
            r matches AuthHandlerError::ServiceError(m) && m@ == error_text(err)),
    {
        match err {
            AppError::NotFound(_) => AuthHandlerError::NotFound,
            AppError::ValidationError(m) => AuthHandlerError::ValidationError(m),
            _ => AuthHandlerError::ServiceError(err.to_string()),
        }
    }

    /// The message shown to the client.
    pub fn message(&self) -> (r: String)
        ensures
            *self matches AuthHandlerError::ServiceError(m) ==> r@ == m@,
            *self matches AuthHandlerError::ValidationError(m) ==> r@ == m@,
            *self matches AuthHandlerError::NotFound ==> r@ == "Resource not found"@,
            *self matches AuthHandlerError::Unauthorized ==> r@ == "Unauthorized"@,
    {
        match self {
            AuthHandlerError::ServiceError(m) => m.clone(),
            AuthHandlerError::ValidationError(m) => m.clone(),
            AuthHandlerError::NotFound => String::from_str("Resource not found"),
            AuthHandlerError::Unauthorized => String::from_str("Unauthorized"),
        }
    }

    /// The HTTP status that this error is answered with.
    pub fn status_code(&self) -> (r: u16)
        ensures
            r == match *self {
                AuthHandlerError::ServiceError(_) => 500u16,
                AuthHandlerError::ValidationError(_) => 400u16,
                AuthHandlerError::NotFound => 404u16,
                AuthHandlerError::Unauthorized => 401u16,
            },
    {
        match self {
            AuthHandlerError::ServiceError(_) => 500,
            AuthHandlerError::ValidationError(_) => 400,
            AuthHandlerError::NotFound => 404,
            AuthHandlerError::Unauthorized => 401,
        }
    }
}

} // verus!
