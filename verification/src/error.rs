//! Error taxonomy.  Every error is terminal for the whole command: the engine
//! reports the first one it meets as a value and stops; the caller prints it
//! once and exits.

use vstd::prelude::*;
use crate::file_trio::{InconsistentFileTypes, InconsistentModel};

verus! {

/// A path inside an error report, as a sequence of components.
pub type ErrorPath = Vec<String>;

/// A raw OS failure, reduced to its message text.
#[derive(Debug)]
pub struct OsError {
    pub message: String,
}

/// The top-level error: any of these aborts the whole command.
#[derive(Debug)]
pub enum AppError {
    IoError(OsError),
    IoErrorPath(IoErrorWithPath),
    UnexpectedArgumentSize { expected: usize, received: usize },
    InvalidArgument { argument_pos: usize, message: String },
    InvalidFileFormat { file_path: ErrorPath, expected: String },
    FileNotFound { file_name: String },
    PatchError { target_file: ErrorPath, patch_file: ErrorPath },
    InconsistentFileTypes(InconsistentFileTypes),
}

/// Mathematical value of an [`AppError`].
pub enum AppErrorModel {
    IoError { message: Seq<char> },
    IoErrorPath { message: Seq<char>, path: Seq<Seq<char>> },
    UnexpectedArgumentSize { expected: int, received: int },
    InvalidArgument { argument_pos: int, message: Seq<char> },
    InvalidFileFormat { file_path: Seq<Seq<char>>, expected: Seq<char> },
    FileNotFound { file_name: Seq<char> },
    PatchError { target_file: Seq<Seq<char>>, patch_file: Seq<Seq<char>> },
    InconsistentFileTypes(InconsistentModel),
}

impl View for AppError {
    type V = AppErrorModel;

    open spec fn view(&self) -> AppErrorModel {
        match self {
            AppError::IoError(e) => AppErrorModel::IoError { message: e.message@ },
            AppError::IoErrorPath(e) => AppErrorModel::IoErrorPath {
                message: e.error.message@,
                path: e.path.deep_view(),
            },
            AppError::UnexpectedArgumentSize { expected, received } =>
                AppErrorModel::UnexpectedArgumentSize {
                    expected: *expected as int,
                    received: *received as int,
                },
            AppError::InvalidArgument { argument_pos, message } =>
                AppErrorModel::InvalidArgument {
                    argument_pos: *argument_pos as int,
                    message: message@,
                },
            AppError::InvalidFileFormat { file_path, expected } =>
                AppErrorModel::InvalidFileFormat {
                    file_path: file_path.deep_view(),
                    expected: expected@,
                },
            AppError::FileNotFound { file_name } =>
                AppErrorModel::FileNotFound { file_name: file_name@ },
            AppError::PatchError { target_file, patch_file } =>
                AppErrorModel::PatchError {
                    target_file: target_file.deep_view(),
                    patch_file: patch_file.deep_view(),
                },
            AppError::InconsistentFileTypes(e) => AppErrorModel::InconsistentFileTypes(e@),
        }
    }
}

/// An OS failure qualified with the path it concerns.
#[derive(Debug)]
pub struct IoErrorWithPath {
    pub error: OsError,
    pub path: ErrorPath,
}

impl IoErrorWithPath {
    pub fn new(error: OsError, path: ErrorPath) -> (r: Self)
        ensures
            r.error.message@ == error.message@,
            r.path.deep_view() == path.deep_view(),
    {
        Self { error, path }
    }

    /// Wraps this error into the top-level error value.
    pub fn throw(self) -> (r: AppError)
        ensures
            r@ == (AppErrorModel::IoErrorPath {
                message: self.error.message@,
                path: self.path.deep_view(),
            }),
    {
        AppError::IoErrorPath(self)
    }
}

/// Turning a bare `Result` over an OS failure into its value, when the caller
/// has already established that it succeeded.
pub trait UnwrapAppPathlessError<T>: Sized {
    spec fn ok_value(&self) -> Option<T>;

    fn unwrap_app(self) -> (r: T)
        requires
            self.ok_value() is Some,
        ensures
            r == self.ok_value()->0,
    ;
}

impl<T> UnwrapAppPathlessError<T> for Result<T, OsError> {
    open spec fn ok_value(&self) -> Option<T> {
        match self {
            Ok(t) => Some(*t),
            Err(_) => None,
        }
    }

    fn unwrap_app(self) -> (r: T) {
        match self {
            Ok(t) => t,
            Err(_) => unreached(),
        }
    }
}

/// Attaching a path to a raw OS failure, or raising it as the top-level error.
pub trait AppErrorIo: Sized {
    spec fn attached(&self, path: ErrorPath) -> IoErrorWithPath;

    spec fn raised(&self) -> AppError;

    fn attach_path(self, path: ErrorPath) -> (r: IoErrorWithPath)
        ensures
            r == self.attached(path),
    ;

    fn throw(self) -> (r: AppError)
        ensures
            r == self.raised(),
    ;
}

impl AppErrorIo for OsError {
    open spec fn attached(&self, path: ErrorPath) -> IoErrorWithPath {
        IoErrorWithPath { error: *self, path: path }
    }

    open spec fn raised(&self) -> AppError {
        AppError::IoError(*self)
    }

    fn attach_path(self, path: ErrorPath) -> (r: IoErrorWithPath) {
        IoErrorWithPath { error: self, path }
    }

    fn throw(self) -> (r: AppError) {
        AppError::IoError(self)
    }
}

} // verus!
