use vstd::prelude::*;
use vstd::string::StringExecFns;

verus! {

/// The role of a user account.
#[derive(Debug, Clone, Copy, PartialEq, Eq, Structural)]
pub enum Role {
    Admin,
    User,
}

impl Role {
    /// The number stored for the role: 1 for an admin, 2 for a user.
    pub open spec fn weight_spec(self) -> i64 {
        match self {
            Role::Admin => 1,
            Role::User => 2,
        }
    }

    /// The number stored for the role.
    pub fn weight(&self) -> (res: i64)
        ensures
            res == self.weight_spec(),
    {
        match self {
            Role::Admin => 1,
            Role::User => 2,
        }
    }
}

/// Server configuration fixed at start-up.
#[derive(Debug)]
pub struct Config {
    pub file_save_path: String,
    pub file_name_length: usize,
    pub enforce_file_extensions: bool,
}

/// A stored file as the dashboard shows it.
#[derive(Clone, Debug)]
pub struct MediaItem {
    pub media_id: String,
    pub file_url: String,
    pub file_size: i64,
    pub uploaded_at: i64,
    pub content_type: String,
    pub original_file_name: Option<String>,
}

/// How many of a user's files are of one kind.
#[derive(Clone, Debug)]
pub struct FileTypeStat {
    pub name: String,
    pub amount: i64,
}

/// Events pushed to a dashboard over its socket.
#[derive(Clone, Debug)]
pub enum WsEvent {
    DashboardStats {
        total_files: i64,
        total_files_trend: i64,
        storage_used_bytes: i64,
        storage_used_bytes_trend: i64,
        average_file_size_bytes: i64,
        views: i64,
        file_types: Vec<FileTypeStat>,
    },
    UploadsList { items: Vec<MediaItem>, next_cursor: Option<String> },
    FileUpload(MediaItem),
    FileDelete(String),
    Error(String),
}

/// Commands a dashboard sends over its socket.
#[derive(Clone, Debug)]
pub enum WSClientCommand {
    GetStats,
    GetUploads { cursor: Option<String>, limit: Option<i64> },
}

/// An event meant for the sockets of one user.
#[derive(Clone, Debug)]
pub struct UserBroadcast {
    pub user_id: i64,
    pub event: WsEvent,
}

/// Reply to a successful login or sign-up.
#[derive(Debug)]
pub struct AuthResponse {
    pub token: String,
}

/// Body of an error reply.
#[derive(Debug)]
pub struct ErrorResponse {
    pub error: String,
}

/// A user row as the login reads it.
#[derive(Debug)]
pub struct DbUser {
    pub id: i64,
    pub password: String,
    pub role: i64,
}

/// The HTTP statuses the server answers with.
#[derive(Debug, Clone, Copy, PartialEq, Eq, Structural)]
pub enum HttpStatus {
    Success,
    BadRequest,
    Unauthorized,
    Forbidden,
    NotFound,
    Conflict,
    UnprocessableEntity,
    InternalServerError,
    ServiceUnavailable,
}

impl HttpStatus {
    /// The numeric status code.
    pub open spec fn code_spec(self) -> u16 {
        match self {
            HttpStatus::Success => 200,
            HttpStatus::BadRequest => 400,
            HttpStatus::Unauthorized => 401,
            HttpStatus::Forbidden => 403,
            HttpStatus::NotFound => 404,
            HttpStatus::Conflict => 409,
            HttpStatus::UnprocessableEntity => 422,
            HttpStatus::InternalServerError => 500,
            HttpStatus::ServiceUnavailable => 503,
        }
    }

    /// The numeric status code.
    pub fn code(&self) -> (res: u16)
        ensures
            res == self.code_spec(),
    {
        match self {
            HttpStatus::Success => 200,
            HttpStatus::BadRequest => 400,
            HttpStatus::Unauthorized => 401,
            HttpStatus::Forbidden => 403,
            HttpStatus::NotFound => 404,
            HttpStatus::Conflict => 409,
            HttpStatus::UnprocessableEntity => 422,
            HttpStatus::InternalServerError => 500,
            HttpStatus::ServiceUnavailable => 503,
        }
    }
}

/// An error reply: its status and its body.
#[derive(Debug)]
pub struct ApiError {
    pub status: HttpStatus,
    pub body: ErrorResponse,
}

/// An error reply with the given status and message.
pub open spec fn is_error(e: ApiError, status: HttpStatus, message: Seq<char>) -> bool {
    e.status == status && e.body.error@ == message
}

/// Builds an error reply.
pub fn api_error(status: HttpStatus, message: &str) -> (res: ApiError)
    ensures
        is_error(res, status, message@),
{
    ApiError { status, body: ErrorResponse { error: String::from_str(message) } }
}

/// The reply to an unexpected failure: 500 with a generic message (the cause
/// is logged, not shown).
pub fn internal_error() -> (res: ApiError)
    ensures
        is_error(res, HttpStatus::InternalServerError, "Something went wrong."@),
{
    api_error(HttpStatus::InternalServerError, "Something went wrong.")
}

/// The reply of a route while the server is in maintenance mode.
pub fn maintenance_error() -> (res: ApiError)
    ensures
        is_error(res, HttpStatus::ServiceUnavailable, "This app is in maintenance mode."@),
{
    api_error(HttpStatus::ServiceUnavailable, "This app is in maintenance mode.")
}

} // verus!
