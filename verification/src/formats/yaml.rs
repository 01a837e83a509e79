//! The manager for YAML files.

use crate::context::Context;
use crate::error::Error;
use crate::formats::{
    configuration_file_error, failed_write, invalid_content, with_path, with_path_and_origin,
    ContentFormat, Manager, ReadFailure,
};
use vstd::prelude::*;

verus! {

/// Judges what happens to the YAML file at its path.
pub struct YamlManager {
    path: String,
}

impl Manager for YamlManager {
    closed spec fn path_view(&self) -> Seq<char> {
        self.path@
    }

    open spec fn format() -> ContentFormat {
        ContentFormat::YAML
    }

    fn new(path: String) -> (m: YamlManager) {
        YamlManager { path }
    }

    fn path(&self) -> (p: String) {
        self.path.clone()
    }

    /// A failure becomes "Invalid YAML file content", with the path and the
    /// failure's own text in the details.
    fn read<C>(&self, decoded: Result<C, ReadFailure>, context: &Context) -> (r: Result<C, Error>) {
        match decoded {
            Ok(document) => Ok(document),
            Err(failure) => {
                let details = with_path_and_origin(context, self.path.as_str(), failure.text());
                let message = invalid_content(ContentFormat::YAML, failure.text());
                Err(configuration_file_error(message, details))
            },
        }
    }

    /// A failure becomes "Failed to write YAML file", with the path in the details.
    fn write(&self, encoded: Result<(), String>, context: &Context) -> (r: Result<(), Error>) {
        match encoded {
            Ok(done) => Ok(done),
            Err(cause) => {
                let details = with_path(context, self.path.as_str());
                let message = failed_write(ContentFormat::YAML, cause.as_str());
                Err(configuration_file_error(message, details))
            },
        }
    }

    /// A failure becomes "Invalid YAML file content", with the context as it came.
    fn read_str<C>(decoded: Result<C, String>, context: &Context) -> (r: Result<C, Error>) {
        match decoded {
            Ok(document) => Ok(document),
            Err(cause) => {
                let message = invalid_content(ContentFormat::YAML, cause.as_str());
                Err(configuration_file_error(message, context.clone()))
            },
        }
    }
}

} // verus!
