//! Error values of the library and the process exit codes.

use vstd::prelude::*;

verus! {

/// What went wrong in a series or repository operation.
#[derive(Debug, Clone, Copy, PartialEq, Eq, Structural)]
pub enum GitErrorCode {
    StringFormatError,
    InvalidPath,
    FailedToOpenRepo,
    CommandExecutionFailed,
    FailedToCreateSeries,
    SendSeriesFailed,
    SeriesAlreadyExists,
    UnknownSeries,
    RepoOpFailed,
}

/// An error of a series or repository operation, with a message.
#[derive(Debug, Clone)]
pub struct GitError {
    code: GitErrorCode,
    message: String,
}

impl GitError {
    pub closed spec fn spec_code(&self) -> GitErrorCode {
        self.code
    }

    pub closed spec fn spec_message(&self) -> Seq<char> {
        self.message@
    }

    pub fn new(code: GitErrorCode, message: String) -> (r: Self)
        ensures
            r.spec_code() == code,
            r.spec_message() == message@,
    {
        Self { code, message }
    }

    /// A failure of the version control backend.
    pub fn repo_op_failed(msg: &str) -> (r: GitError)
        ensures
            r.spec_code() == GitErrorCode::RepoOpFailed,
            r.spec_message() == msg@,
    {
        GitError::new(GitErrorCode::RepoOpFailed, msg.to_owned())
    }

    pub fn code(&self) -> (r: GitErrorCode)
        ensures
            r == self.spec_code(),
    {
        self.code
    }

    pub fn message(&self) -> (r: &str)
        ensures
            r@ == self.spec_message(),
    {
        self.message.as_str()
    }
}

/// What went wrong with the user's data.
#[derive(Debug, Clone, Copy, PartialEq, Eq, Structural)]
pub enum UserDataErrorCode {
    RepoAlreadyExists,
    RepoDoesNotExist,
    ListDoesNotExist,
    ListAlreadyExists,
    NotAGitRepo,
    FailedToSaveRootFile,
    FailedToSaveData,
    FailedToReadData,
    FsError,
    InputError,
}

/// An error on the user's data, with an optional message.
#[derive(Debug, Clone)]
pub struct UserDataError {
    code: UserDataErrorCode,
    message: Option<String>,
}

impl UserDataError {
    pub closed spec fn spec_code(&self) -> UserDataErrorCode {
        self.code
    }

    pub closed spec fn spec_message(&self) -> Option<Seq<char>> {
        match self.message {
            Some(m) => Some(m@),
            None => None,
        }
    }

    pub fn new(code: UserDataErrorCode) -> (r: Self)
        ensures
            r.spec_code() == code,
            r.spec_message() is None,
    {
        Self { code, message: None }
    }

    pub fn new_with_message(code: UserDataErrorCode, message: String) -> (r: Self)
        ensures
            r.spec_code() == code,
            r.spec_message() == Some(message@),
    {
        Self { code, message: Some(message) }
    }

    pub fn code(&self) -> (r: UserDataErrorCode)
        ensures
            r == self.spec_code(),
    {
        self.code
    }

    pub fn message(&self) -> (r: Option<&str>)
        ensures
            r is None <==> self.spec_message() is None,
            r matches Some(m) ==> self.spec_message() == Some(m@),
    {
        match &self.message {
            Some(m) => Some(m.as_str()),
            None => None,
        }
    }
}

/// Exit status of the program.
#[derive(Debug, Clone, Copy, PartialEq, Eq, Structural)]
pub enum ErrorCode {
    CannotReadUserData,
    CannotWriteUserData,
    CommandError,
    ParsingError,
}

impl ErrorCode {
    /// The process exit status for this error.
    pub fn code(&self) -> (r: i32)
        ensures
            r == match *self {
                ErrorCode::CannotReadUserData => 1i32,
                ErrorCode::CannotWriteUserData => 2i32,
                ErrorCode::CommandError => 3i32,
                ErrorCode::ParsingError => 4i32,
            },
    {
        match self {
            ErrorCode::CannotReadUserData => 1,
            ErrorCode::CannotWriteUserData => 2,
            ErrorCode::CommandError => 3,
            ErrorCode::ParsingError => 4,
        }
    }
}

} // verus!
