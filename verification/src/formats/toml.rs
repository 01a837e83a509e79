//! The manager for TOML files.

use crate::context::Context;
use crate::error::Error;
use crate::formats::{
    configuration_file_error, failed_write, invalid_content, with_path, ContentFormat, Manager,
    ReadFailure,
};
use vstd::prelude::*;

verus! {

/// Judges what happens to the TOML file at its path.
pub struct TomlManager {
    path: String,
}

impl Manager for TomlManager {
    closed spec fn path_view(&self) -> Seq<char> {
        self.path@
    }

    open spec fn format() -> ContentFormat {
        ContentFormat::TOML
    }

    fn new(path: String) -> (m: TomlManager) {
        TomlManager { path }
    }

    fn path(&self) -> (p: String) {
        self.path.clone()
    }

    /// TOML is decoded from a string, so the stream is buffered first. A
    /// failure to buffer it is reported in the words of a failed write; a
    /// buffer that is no valid document becomes "Invalid TOML file content".
    /// Either way the path is in the details.
    fn read<C>(&self, decoded: Result<C, ReadFailure>, context: &Context) -> (r: Result<C, Error>) {
        match decoded {
            Ok(document) => Ok(document),
            Err(ReadFailure::Stream(cause)) => {
                let details = with_path(context, self.path.as_str());
                let message = failed_write(ContentFormat::TOML, cause.as_str());
                Err(configuration_file_error(message, details))
            },
            Err(ReadFailure::Content(cause)) => {
                let details = with_path(context, self.path.as_str());
                let message = invalid_content(ContentFormat::TOML, cause.as_str());
                Err(configuration_file_error(message, details))
            },
        }
    }

    /// A failure becomes "Failed to write TOML file", with the path in the details.
    fn write(&self, encoded: Result<(), String>, context: &Context) -> (r: Result<(), Error>) {
        match encoded {
            Ok(done) => Ok(done),
            Err(cause) => {
                let details = with_path(context, self.path.as_str());
                let message = failed_write(ContentFormat::TOML, cause.as_str());
                Err(configuration_file_error(message, details))
            },
        }
    }

    /// A failure becomes "Invalid TOML file content", with the context as it came.
    fn read_str<C>(decoded: Result<C, String>, context: &Context) -> (r: Result<C, Error>) {
        match decoded {
            Ok(document) => Ok(document),
            Err(cause) => {
                let message = invalid_content(ContentFormat::TOML, cause.as_str());
                Err(configuration_file_error(message, context.clone()))
            },
        }
    }
}

} // verus!
