//! The remote session client: endpoints, the authorization header, and how a
//! reply of the remote service becomes a result.
use vstd::prelude::*;
use vstd::string::StringExecFns;
use crate::store::{TokenMeta, meta_bytes, decoded_meta, clean_exit_meta_bytes};

verus! {

#[verifier::external_type_specification]
#[verifier::external_body]
pub struct ExJsonValue(serde_json::Value);

/// The base URL used when no override is configured.
pub open spec fn default_base_url() -> Seq<char> {
    "http://localhost:8080"@
}

/// What a single HTTP attempt produced: a reply with its status and body, or a
/// failure before any reply was had (connection, sending).
#[derive(Debug, Clone)]
pub enum HttpOutcome {
    Reply { status: u16, body: String },
    Failed { message: String },
}

/// One POST to the remote service: where it goes, and the value of its
/// `Authorization` header if it carries one.
#[derive(Debug, Clone)]
pub struct HttpRequest {
    pub url: String,
    pub authorization: Option<String>,
}

/// The failures of the client and of the flows around it.
#[derive(Debug, Clone)]
pub enum ApiError {
    /// Connection or sending failed before any reply was obtained.
    Transport { message: String },
    /// The service replied with a status outside the success range.
    Remote { status: u16, body: String },
    /// A success reply carried a body of an unexpected shape.
    Decode { message: String },
    /// A local file could not be opened, read or written.
    Io { message: String },
    /// A background operation ended without handing back its result.
    Internal,
}

/// A status in the success range 200 to 299.
pub open spec fn is_success(status: u16) -> bool {
    200 <= status && status <= 299
}

/// The result owed for a call whose success carries no value.
pub open spec fn outcome_ok(outcome: HttpOutcome) -> bool {
    match outcome {
        HttpOutcome::Reply { status, body } => is_success(status),
        HttpOutcome::Failed { message } => false,
    }
}

/// The error owed for an outcome that is not a success.
pub open spec fn outcome_error(outcome: HttpOutcome) -> ApiError {
    match outcome {
        HttpOutcome::Reply { status, body } => ApiError::Remote { status, body },
        HttpOutcome::Failed { message } => ApiError::Transport { message },
    }
}

fn outcome_result(outcome: HttpOutcome) -> (r: Result<(), ApiError>)
    ensures
        r is Ok <==> outcome_ok(outcome),
        r is Err ==> r == Err::<(), ApiError>(outcome_error(outcome)),
{
    match outcome {
        HttpOutcome::Reply { status, body } => {
            if 200 <= status && status <= 299 {
                Ok(())
            } else {
                Err(ApiError::Remote { status, body })
            }
        },
        HttpOutcome::Failed { message } => Err(ApiError::Transport { message }),
    }
}

/// The payload of a registration.
#[derive(Debug, Clone)]
pub struct RegisterRequest {
    pub nombre_completo: String,
    pub edad: i32,
    pub rol: String,
    pub identificacion: String,
    pub correo: String,
    pub contrasena: String,
    pub acepta_tratamiento_datos: bool,
}

/// The credentials of a login.
#[derive(Debug, Clone)]
pub struct AuthRequest {
    pub correo: String,
    pub contrasena: String,
}

/// The reply of a successful login.
#[derive(Debug)]
pub struct AuthResponse {
    pub nombre: String,
    pub token: String,
    pub rol: String,
    pub user_id: serde_json::Value,
    pub correo: String,
}

/// The view of an optional string.
pub open spec fn opt_view(o: Option<String>) -> Option<Seq<char>> {
    match o {
        Some(s) => Some(s@),
        None => None,
    }
}

/// The value of the authorization header for a token.
pub open spec fn bearer(token: Seq<char>) -> Seq<char> {
    "Bearer "@ + token
}

/// The client of the remote service: where it is, and the session token if any.
#[derive(Debug, Clone)]
pub struct ApiClient {
    pub base_url: String,
    pub token: Option<String>,
}

impl ApiClient {
    /// A client for the base URL given by the environment override, or the
    /// default one; no token yet.
    pub fn from_env(override_url: Option<String>) -> (r: ApiClient)
        ensures
            r.base_url@ == (match override_url {
                Some(u) => u@,
                None => default_base_url(),
            }),
            r.token is None,
    {
        let base_url = match override_url {
            Some(u) => u,
            None => String::from_str("http://localhost:8080"),
        };
        ApiClient { base_url, token: None }
    }

    /// Stores the token used by later authenticated calls.
    pub fn set_token(&mut self, token: &str)
        ensures
            opt_view(final(self).token) == Some(token@),
            final(self).base_url == old(self).base_url,
    {
        self.token = Some(token.to_owned());
    }

    /// Forgets the token.
    pub fn clear_token(&mut self)
        ensures
            final(self).token is None,
            final(self).base_url == old(self).base_url,
    {
        self.token = None;
    }

    /// Whether a token is held.
    pub fn has_token(&self) -> (r: bool)
        ensures
            r == self.token is Some,
    {
        self.token.is_some()
    }

    /// The `Authorization` header value, present exactly when a token is held.
    pub fn auth_headers(&self) -> (r: Option<String>)
        ensures
            opt_view(r) == (match opt_view(self.token) {
                Some(t) => Some(bearer(t)),
                None => None,
            }),
    {
        match &self.token {
            Some(t) => {
                let mut v = String::from_str("Bearer ");
                v.append(t.as_str());
                Some(v)
            },
            None => None,
        }
    }

    fn endpoint(&self, path: &str) -> (r: String)
        ensures
            r@ == self.base_url@ + path@,
    {
        let mut url = self.base_url.clone();
        url.append(path);
        url
    }

    /// The registration request: a POST to `/register` under the base URL,
    /// with no authorization header.
    pub fn register_request(&self) -> (r: HttpRequest)
        ensures
            r.url@ == self.base_url@ + "/register"@,
            r.authorization is None,
    {
        HttpRequest { url: self.endpoint("/register"), authorization: None }
    }

    /// The login request: a POST to `/auth` under the base URL, with no
    /// authorization header.
    pub fn login_request(&self) -> (r: HttpRequest)
        ensures
            r.url@ == self.base_url@ + "/auth"@,
            r.authorization is None,
    {
        HttpRequest { url: self.endpoint("/auth"), authorization: None }
    }

    /// The profile-picture upload request: a POST to `/upload` under the base
    /// URL, carrying `Authorization: Bearer <token>` exactly when a token is
    /// held, and no such header otherwise. Whether to upload without a session
    /// is the caller's policy.
    pub fn upload_profile_picture(&self) -> (r: HttpRequest)
        ensures
            r.url@ == self.base_url@ + "/upload"@,
            opt_view(r.authorization) == (match opt_view(self.token) {
                Some(t) => Some(bearer(t)),
                None => None,
            }),
    {
        HttpRequest { url: self.endpoint("/upload"), authorization: self.auth_headers() }
    }

    /// The result of a registration attempt: success on a success status,
    /// whatever the body; otherwise the remote or transport error.
    pub fn register(&self, outcome: HttpOutcome) -> (r: Result<String, ApiError>)
        ensures
            r is Ok <==> outcome_ok(outcome),
            r is Ok ==> r->Ok_0@ == "Registered"@,
            r is Err ==> r->Err_0 == outcome_error(outcome),
    {
        match outcome_result(outcome) {
            Ok(()) => Ok(String::from_str("Registered")),
            Err(e) => Err(e),
        }
    }

    /// The result of a login attempt: the decoded reply on a success status,
    /// a decode error when that reply did not have the expected shape, and
    /// otherwise the remote or transport error.
    pub fn login(&self, outcome: HttpOutcome, decoded: Result<AuthResponse, String>) -> (r: Result<
        AuthResponse,
        ApiError,
    >)
        ensures
            outcome_ok(outcome) && decoded is Ok ==> r == Ok::<AuthResponse, ApiError>(decoded->Ok_0),
            outcome_ok(outcome) && decoded is Err ==> r == Err::<AuthResponse, ApiError>(
                ApiError::Decode { message: decoded->Err_0 },
            ),
            !outcome_ok(outcome) ==> r == Err::<AuthResponse, ApiError>(outcome_error(outcome)),
    {
        match outcome_result(outcome) {
            Ok(()) => match decoded {
                Ok(resp) => Ok(resp),
                Err(message) => Err(ApiError::Decode { message }),
            },
            Err(e) => Err(e),
        }
    }

    /// The result of an upload attempt: success on a success status, otherwise
    /// the remote or transport error.
    pub fn upload_result(&self, outcome: HttpOutcome) -> (r: Result<String, ApiError>)
        ensures
            r is Ok <==> outcome_ok(outcome),
            r is Ok ==> r->Ok_0@ == "Upload OK"@,
            r is Err ==> r->Err_0 == outcome_error(outcome),
    {
        match outcome_result(outcome) {
            Ok(()) => Ok(String::from_str("Upload OK")),
            Err(e) => Err(e),
        }
    }

    /// The metadata bytes written with a freshly persisted token.
    pub fn persist_token_to_project(&self, persist: bool) -> (r: Vec<u8>)
        ensures
            r@ == meta_bytes(TokenMeta { persist, clean_exit: false }),
    {
        TokenMeta::fresh(persist).encode()
    }

    /// The stored metadata record, from the stored bytes if there are any.
    pub fn load_token_meta(&self, stored: Option<Vec<u8>>) -> (r: Option<TokenMeta>)
        ensures
            r == (match stored {
                Some(b) => Some(decoded_meta(b@)),
                None => None,
            }),
    {
        match stored {
            Some(b) => Some(TokenMeta::decode(b.as_slice())),
            None => None,
        }
    }

    /// The metadata bytes to store after setting the clean-exit flag on what
    /// was stored: its `persist` flag, and any other field of a stored JSON
    /// object, are kept.
    pub fn set_clean_exit_meta(&self, stored: Option<Vec<u8>>, clean: bool) -> (r: Vec<u8>)
        ensures
            r@ == clean_exit_meta_bytes(
                match stored {
                    Some(b) => Some(b@),
                    None => None,
                },
                clean,
            ),
    {
        TokenMeta::with_clean_exit(stored, clean)
    }
}

} // verus!
