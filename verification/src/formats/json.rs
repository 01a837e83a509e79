//! The manager for JSON files.

use crate::context::Context;
use crate::error::Error;
use crate::formats::{
    configuration_file_error, failed_write, invalid_content, with_path, ContentFormat, Manager,
    ReadFailure,
};
use vstd::prelude::*;

verus! {

/// Judges what happens to the JSON file at its path.
pub struct JsonManager {
    path: String,
}

impl Manager for JsonManager {
    closed spec fn path_view(&self) -> Seq<char> {
        self.path@
    }

    open spec fn format() -> ContentFormat {
        ContentFormat::JSON
    }

    fn new(path: String) -> (m: JsonManager) {
        JsonManager { path }
    }

    fn path(&self) -> (p: String) {
        self.path.clone()
    }

    /// A failure becomes "Invalid JSON file content", with the path in the details.
    fn read<C>(&self, decoded: Result<C, ReadFailure>, context: &Context) -> (r: Result<C, Error>) {
        match decoded {
            Ok(document) => Ok(document),
            Err(failure) => {
                let details = with_path(context, self.path.as_str());
                let message = invalid_content(ContentFormat::JSON, failure.text());
                Err(configuration_file_error(message, details))
            },
        }
    }

    /// A failure becomes "Failed to write JSON file", with the path in the details.
    fn write(&self, encoded: Result<(), String>, context: &Context) -> (r: Result<(), Error>) {
        match encoded {
            Ok(done) => Ok(done),
            Err(cause) => {
                let details = with_path(context, self.path.as_str());
                let message = failed_write(ContentFormat::JSON, cause.as_str());
                Err(configuration_file_error(message, details))
            },
        }
    }

    /// A failure becomes "Invalid JSON file content", with the context as it came.
    fn read_str<C>(decoded: Result<C, String>, context: &Context) -> (r: Result<C, Error>) {
        match decoded {
            Ok(document) => Ok(document),
            Err(cause) => {
                let message = invalid_content(ContentFormat::JSON, cause.as_str());
                Err(configuration_file_error(message, context.clone()))
            },
        }
    }
}

} // verus!
