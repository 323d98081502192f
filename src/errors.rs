use vstd::prelude::*;

verus! {

/// Every way in which an operation of the library can fail.
#[derive(Debug)]
pub enum AppError {
    /// Neither an override nor a home directory names where the files live.
    MissingHomeDirectory,
    /// `add` was given a name that the store already holds.
    PresetAlreadyExists(String),
    /// No preset of that name is in the store.
    PresetNotFound(String),
    /// `remove` was asked to drop the preset that is active.
    CannotRemoveActivePreset(String),
    /// The store file carries a format version other than the supported one.
    UnsupportedConfigVersion(u32),
    /// A required field of the preset is blank.
    PresetIncomplete { preset: String, field: &'static str },
    /// A JSON document, or an object it must hold at a known key, is no object.
    InvalidJsonRoot { path: String },
    /// Output to the caller could not be written.
    Output { message: String },
    /// A file operation failed at the path.
    Io { path: String, message: String },
    /// The text at the path is no JSON document, or could not be written as one.
    Json { path: String, source: serde_json::Error },
}

impl AppError {
    pub fn io(path: &str, message: String) -> (r: AppError)
        ensures
            r matches AppError::Io { path: p, message: m } && p@ == path@ && m@ == message@,
    {
        AppError::Io { path: path.to_owned(), message }
    }

    pub fn json(path: &str, source: serde_json::Error) -> (r: AppError)
        ensures
            r matches AppError::Json { path: p, source: s } && p@ == path@ && s == source,
    {
        AppError::Json { path: path.to_owned(), source }
    }

    pub fn output(message: String) -> (r: AppError)
        ensures
            r == (AppError::Output { message }),
    {
        AppError::Output { message }
    }

    pub fn invalid_json_root(path: &str) -> (r: AppError)
        ensures
            r matches AppError::InvalidJsonRoot { path: p } && p@ == path@,
    {
        AppError::InvalidJsonRoot { path: path.to_owned() }
    }
}

} // verus!
