//! The format managers: one interface over four serialization formats, and
//! the functions that pick a manager by format.
//!
//! A manager holds a path and judges the outcome of each step that the
//! caller performs on the file at that path: opening or creating it, decoding
//! a document from it, encoding a document into it. A step that succeeded is
//! passed through; one that failed becomes an error whose details are the
//! caller's context extended with the path.

pub mod json;
pub mod toml;
pub mod xml;
pub mod yaml;

use crate::context::{Context, ContextValue, ValueModel};
use crate::error::{Error, ErrorModel, ErrorValue};
use crate::formats::json::JsonManager;
use crate::formats::toml::TomlManager;
use crate::formats::xml::XmlManager;
use crate::formats::yaml::YamlManager;
use vstd::prelude::*;
use vstd::string::StringExecFns;

verus! {

/// The supported formats.
#[derive(Clone, Copy, Debug, PartialEq, Eq)]
pub enum ContentFormat {
    JSON,
    YAML,
    XML,
    TOML,
}

impl Default for ContentFormat {
    /// The format that applies when none is named.
    fn default() -> (r: ContentFormat)
        ensures
            r == ContentFormat::JSON,
    {
        ContentFormat::JSON
    }
}

/// The format that a selector stands for: the one it names, else JSON.
pub open spec fn resolved_format(format: Option<ContentFormat>) -> ContentFormat {
    match format {
        Some(f) => f,
        None => ContentFormat::JSON,
    }
}

/// The name of a format as messages spell it.
pub open spec fn format_label(format: ContentFormat) -> Seq<char> {
    match format {
        ContentFormat::JSON => "JSON"@,
        ContentFormat::YAML => "YAML"@,
        ContentFormat::XML => "XML"@,
        ContentFormat::TOML => "TOML"@,
    }
}

impl ContentFormat {
    /// The format that a selector stands for: the one it names, else JSON.
    /// Nothing else is consulted, a file's extension least of all.
    pub fn resolve(format: Option<ContentFormat>) -> (r: ContentFormat)
        ensures
            r == resolved_format(format),
    {
        match format {
            Some(f) => f,
            None => ContentFormat::default(),
        }
    }

    /// The name of the format as messages spell it.
    pub fn label(&self) -> (r: &'static str)
        ensures
            r@ == format_label(*self),
    {
        match self {
            ContentFormat::JSON => "JSON",
            ContentFormat::YAML => "YAML",
            ContentFormat::XML => "XML",
            ContentFormat::TOML => "TOML",
        }
    }
}

/// Why a document could not be read from an open stream.
#[derive(Debug)]
pub enum ReadFailure {
    /// The stream could not be read to its end.
    Stream(String),
    /// What was read is not a valid document of the wanted type.
    Content(String),
}

impl ReadFailure {
    /// The text of the underlying failure.
    pub open spec fn cause(&self) -> Seq<char> {
        match self {
            ReadFailure::Stream(c) => c@,
            ReadFailure::Content(c) => c@,
        }
    }

    /// The text of the underlying failure.
    pub fn text(&self) -> (r: &str)
        ensures
            r@ == self.cause(),
    {
        match self {
            ReadFailure::Stream(c) => c.as_str(),
            ReadFailure::Content(c) => c.as_str(),
        }
    }
}

/// The context extended with the path.
pub open spec fn path_details(context: Map<Seq<char>, ValueModel>, path: Seq<char>) -> Map<
    Seq<char>,
    ValueModel,
> {
    context.insert("path"@, ValueModel::Text(path))
}

/// The context extended with the path and with the text of the underlying failure.
pub open spec fn origin_details(
    context: Map<Seq<char>, ValueModel>,
    path: Seq<char>,
    cause: Seq<char>,
) -> Map<Seq<char>, ValueModel> {
    context.insert("path"@, ValueModel::Text(path)).insert("origin"@, ValueModel::Text(cause))
}

/// Whether a failed read in this format records the underlying failure under `origin`.
pub open spec fn read_records_origin(format: ContentFormat) -> bool {
    format == ContentFormat::XML || format == ContentFormat::YAML
}

/// Whether a failed write in this format records the underlying failure under `origin`.
pub open spec fn write_records_origin(format: ContentFormat) -> bool {
    format == ContentFormat::XML
}

/// A configuration file error with the given message and details.
pub open spec fn file_error(message: Seq<char>, details: Map<Seq<char>, ValueModel>) -> ErrorModel {
    ErrorModel { value: ErrorValue::ConfigurationFileError, message, details }
}

/// The error for a file that could not be opened.
pub open spec fn open_error(
    path: Seq<char>,
    cause: Seq<char>,
    context: Map<Seq<char>, ValueModel>,
) -> ErrorModel {
    file_error("Failed to open file: "@ + cause, origin_details(context, path, cause))
}

/// The error for a file that could not be created.
pub open spec fn create_error(
    path: Seq<char>,
    cause: Seq<char>,
    context: Map<Seq<char>, ValueModel>,
) -> ErrorModel {
    file_error("Failed to create file: "@ + cause, origin_details(context, path, cause))
}

/// The message for content that is no valid document.
pub open spec fn content_message(format: ContentFormat, cause: Seq<char>) -> Seq<char> {
    "Invalid "@ + format_label(format) + " file content: "@ + cause
}

/// The message for a document that could not be written.
pub open spec fn write_message(format: ContentFormat, cause: Seq<char>) -> Seq<char> {
    "Failed to write "@ + format_label(format) + " file: "@ + cause
}

/// The error for a document that could not be read from an open stream.
/// TOML has no streaming reader: its stream is buffered first, and a
/// failure to buffer it is reported in the words of a failed write.
pub open spec fn read_error(
    format: ContentFormat,
    path: Seq<char>,
    failure: ReadFailure,
    context: Map<Seq<char>, ValueModel>,
) -> ErrorModel {
    if format == ContentFormat::TOML && failure is Stream {
        file_error(write_message(format, failure.cause()), path_details(context, path))
    } else if read_records_origin(format) {
        file_error(
            content_message(format, failure.cause()),
            origin_details(context, path, failure.cause()),
        )
    } else {
        file_error(content_message(format, failure.cause()), path_details(context, path))
    }
}

/// The error for a document that could not be written to an open stream.
pub open spec fn write_error(
    format: ContentFormat,
    path: Seq<char>,
    cause: Seq<char>,
    context: Map<Seq<char>, ValueModel>,
) -> ErrorModel {
    if write_records_origin(format) {
        file_error(write_message(format, cause), origin_details(context, path, cause))
    } else {
        file_error(write_message(format, cause), path_details(context, path))
    }
}

/// The error for a string that is no valid document. No file is involved,
/// so the details are the context as it came.
pub open spec fn parse_error(
    format: ContentFormat,
    cause: Seq<char>,
    context: Map<Seq<char>, ValueModel>,
) -> ErrorModel {
    file_error(content_message(format, cause), context)
}

/// A copy of the context extended with the path. The caller's context is left as it is.
pub fn with_path(context: &Context, path: &str) -> (c: Context)
    ensures
        c@ == path_details(context@, path@),
{
    let mut details = context.clone();
    details.insert(String::from_str("path"), ContextValue::text(path));
    details
}

/// A copy of the context extended with the path and the text of the
/// underlying failure. The caller's context is left as it is.
pub fn with_path_and_origin(context: &Context, path: &str, cause: &str) -> (c: Context)
    ensures
        c@ == origin_details(context@, path@, cause@),
{
    let mut details = context.clone();
    details.insert(String::from_str("path"), ContextValue::text(path));
    details.insert(String::from_str("origin"), ContextValue::text(cause));
    details
}

/// A configuration file error with the given message and details.
pub fn configuration_file_error(message: String, details: Context) -> (e: Error)
    ensures
        e@ == file_error(message@, details@),
{
    Error::new(ErrorValue::ConfigurationFileError).with_message(message).with_details(details)
}

/// The message for content that is no valid document.
pub fn invalid_content(format: ContentFormat, cause: &str) -> (m: String)
    ensures
        m@ == content_message(format, cause@),
{
    String::from_str("Invalid ").concat(format.label()).concat(" file content: ").concat(cause)
}

/// The message for a document that could not be written.
pub fn failed_write(format: ContentFormat, cause: &str) -> (m: String)
    ensures
        m@ == write_message(format, cause@),
{
    String::from_str("Failed to write ").concat(format.label()).concat(" file: ").concat(cause)
}

/// What a manager makes of the outcome of opening its file.
pub open spec fn open_file_result<H>(
    path: Seq<char>,
    opened: Result<H, String>,
    context: Map<Seq<char>, ValueModel>,
    r: Result<H, Error>,
) -> bool {
    match opened {
        Ok(handle) => r == Ok::<H, Error>(handle),
        Err(cause) => r is Err && r->Err_0@ == open_error(path, cause@, context),
    }
}

/// What a manager makes of the outcome of creating its file.
pub open spec fn create_file_result<H>(
    path: Seq<char>,
    created: Result<H, String>,
    context: Map<Seq<char>, ValueModel>,
    r: Result<H, Error>,
) -> bool {
    match created {
        Ok(handle) => r == Ok::<H, Error>(handle),
        Err(cause) => r is Err && r->Err_0@ == create_error(path, cause@, context),
    }
}

/// What a manager makes of the outcome of decoding a document from its open file.
pub open spec fn read_result<C>(
    format: ContentFormat,
    path: Seq<char>,
    decoded: Result<C, ReadFailure>,
    context: Map<Seq<char>, ValueModel>,
    r: Result<C, Error>,
) -> bool {
    match decoded {
        Ok(document) => r == Ok::<C, Error>(document),
        Err(failure) => r is Err && r->Err_0@ == read_error(format, path, failure, context),
    }
}

/// What a manager makes of the outcome of encoding a document into its open file.
pub open spec fn write_result(
    format: ContentFormat,
    path: Seq<char>,
    encoded: Result<(), String>,
    context: Map<Seq<char>, ValueModel>,
    r: Result<(), Error>,
) -> bool {
    match encoded {
        Ok(_) => r is Ok,
        Err(cause) => r is Err && r->Err_0@ == write_error(format, path, cause@, context),
    }
}

/// What a format makes of the outcome of decoding a document from a string.
pub open spec fn read_str_result<C>(
    format: ContentFormat,
    decoded: Result<C, String>,
    context: Map<Seq<char>, ValueModel>,
    r: Result<C, Error>,
) -> bool {
    match decoded {
        Ok(document) => r == Ok::<C, Error>(document),
        Err(cause) => r is Err && r->Err_0@ == parse_error(format, cause@, context),
    }
}

/// What a manager makes of opening its file and decoding a document from
/// it: the first step that failed decides.
pub open spec fn read_config_result<C>(
    format: ContentFormat,
    path: Seq<char>,
    opened: Result<Result<C, ReadFailure>, String>,
    context: Map<Seq<char>, ValueModel>,
    r: Result<C, Error>,
) -> bool {
    match opened {
        Err(cause) => r is Err && r->Err_0@ == open_error(path, cause@, context),
        Ok(decoded) => read_result(format, path, decoded, context, r),
    }
}

/// What a manager makes of creating its file and encoding a document into
/// it: the first step that failed decides, and success yields the path.
pub open spec fn write_config_result(
    format: ContentFormat,
    path: Seq<char>,
    created: Result<Result<(), String>, String>,
    context: Map<Seq<char>, ValueModel>,
    r: Result<String, Error>,
) -> bool {
    match created {
        Err(cause) => r is Err && r->Err_0@ == create_error(path, cause@, context),
        Ok(Err(cause)) => r is Err && r->Err_0@ == write_error(format, path, cause@, context),
        Ok(Ok(_)) => r is Ok && r->Ok_0@ == path,
    }
}

/// Whether `details` is the caller's context with the path added: `path` is
/// bound to the path, every key of the context is still bound, and every
/// key of the context but `path` and `origin` is bound to what it was bound
/// to.
pub open spec fn keeps_context(
    details: Map<Seq<char>, ValueModel>,
    context: Map<Seq<char>, ValueModel>,
    path: Seq<char>,
) -> bool {
    &&& details.contains_key("path"@)
    &&& details["path"@] == ValueModel::Text(path)
    &&& forall|k: Seq<char>| context.contains_key(k) ==> details.contains_key(k)
    &&& forall|k: Seq<char>|
        context.contains_key(k) && k != "path"@ && k != "origin"@ ==> details[k] == context[k]
}

/// The two ways of extending a context keep it.
pub proof fn lemma_details_keep_context(
    context: Map<Seq<char>, ValueModel>,
    path: Seq<char>,
    cause: Seq<char>,
)
    ensures
        keeps_context(path_details(context, path), context, path),
        keeps_context(origin_details(context, path, cause), context, path),
        origin_details(context, path, cause)["origin"@] == ValueModel::Text(cause),
{
    reveal_strlit("path");
    reveal_strlit("origin");
    assert("path"@.len() != "origin"@.len());
}

/// Whatever the context, the format and the path: a read that fails, in
/// opening the file or in decoding the document, gives an error whose
/// details keep the caller's context and name the path.
pub proof fn lemma_failed_read_keeps_context<C>(
    format: ContentFormat,
    path: Seq<char>,
    opened: Result<Result<C, ReadFailure>, String>,
    context: Map<Seq<char>, ValueModel>,
    r: Result<C, Error>,
)
    requires
        read_config_result(format, path, opened, context, r),
        r is Err,
    ensures
        r->Err_0@.value == ErrorValue::ConfigurationFileError,
        keeps_context(r->Err_0@.details, context, path),
{
    match opened {
        Err(cause) => {
            lemma_details_keep_context(context, path, cause@);
        },
        Ok(Err(failure)) => {
            lemma_details_keep_context(context, path, failure.cause());
        },
        Ok(Ok(_)) => {},
    }
}

/// Whatever the context, the format and the path: a write that fails, in
/// creating the file or in encoding the document, gives an error whose
/// details keep the caller's context and name the path.
pub proof fn lemma_failed_write_keeps_context(
    format: ContentFormat,
    path: Seq<char>,
    created: Result<Result<(), String>, String>,
    context: Map<Seq<char>, ValueModel>,
    r: Result<String, Error>,
)
    requires
        write_config_result(format, path, created, context, r),
        r is Err,
    ensures
        r->Err_0@.value == ErrorValue::ConfigurationFileError,
        keeps_context(r->Err_0@.details, context, path),
{
    match created {
        Err(cause) => {
            lemma_details_keep_context(context, path, cause@);
        },
        Ok(Err(cause)) => {
            lemma_details_keep_context(context, path, cause@);
        },
        Ok(Ok(_)) => {},
    }
}

/// A read answers with a document exactly when the file was opened and a
/// document was decoded from it, and then with that document: no failure
/// is passed over, and nothing stands in for a document that was not
/// decoded.
pub proof fn lemma_read_succeeds_with_outcome<C>(
    format: ContentFormat,
    path: Seq<char>,
    opened: Result<Result<C, ReadFailure>, String>,
    context: Map<Seq<char>, ValueModel>,
    r: Result<C, Error>,
)
    requires
        read_config_result(format, path, opened, context, r),
    ensures
        r is Ok <==> opened is Ok && opened->Ok_0 is Ok,
        r is Ok ==> r->Ok_0 == opened->Ok_0->Ok_0,
{
}

/// A write answers with the path exactly when the file was created and the
/// document was encoded into it.
pub proof fn lemma_write_succeeds_with_outcome(
    format: ContentFormat,
    path: Seq<char>,
    created: Result<Result<(), String>, String>,
    context: Map<Seq<char>, ValueModel>,
    r: Result<String, Error>,
)
    requires
        write_config_result(format, path, created, context, r),
    ensures
        r is Ok <==> created is Ok && created->Ok_0 is Ok,
        r is Ok ==> r->Ok_0@ == path,
{
}

/// A string is understood exactly when a document was decoded from it, in
/// every format; where none was, the error is a configuration file error
/// that names the format, and its details are the caller's context and
/// nothing more.
pub proof fn lemma_read_str_succeeds_with_outcome<C>(
    format: ContentFormat,
    decoded: Result<C, String>,
    context: Map<Seq<char>, ValueModel>,
    r: Result<C, Error>,
)
    requires
        read_str_result(format, decoded, context, r),
    ensures
        r is Ok <==> decoded is Ok,
        r is Ok ==> r->Ok_0 == decoded->Ok_0,
        r is Err ==> r->Err_0@.value == ErrorValue::ConfigurationFileError,
        r is Err ==> r->Err_0@.message == content_message(format, decoded->Err_0@),
        r is Err ==> r->Err_0@.details == context,
{
}

/// Whether a path begins with a tilde that stands for the home directory:
/// the tilde is the whole path, or a separator follows it.
pub open spec fn tilde_applies(path: Seq<char>) -> bool {
    path.len() >= 1 && path[0] == '~' && (path.len() == 1 || path[1] == '/' || path[1] == '\\')
}

/// Whether `expanded` can come of expanding `path`: it is the path as it
/// came, or the tilde applies and `expanded` is some home directory
/// followed by what follows the tilde.
pub open spec fn expands_to(path: Seq<char>, expanded: Seq<char>) -> bool {
    expanded == path || (tilde_applies(path) && expanded.len() >= path.len() - 1 && expanded.skip(
        expanded.len() - (path.len() - 1),
    ) == path.skip(1))
}

/// Calls `shellexpand::tilde`. Trusted: the result is the input unchanged,
/// or, where the input is a tilde alone or a tilde and a separator, some
/// home directory in place of the tilde. Which of the two, and which
/// directory, depends on the process's environment and is left open.
#[verifier::external_body]
fn tilde(path: &str) -> (expanded: String)
    ensures
        expands_to(path@, expanded@),
{
    shellexpand::tilde(path).into_owned()
}

/// A configuration file to read or write: where it is and in which format.
#[derive(Debug)]
pub struct ConfigTarget {
    path: String,
    format: ContentFormat,
}

impl ConfigTarget {
    /// The path, expanded.
    pub closed spec fn path_view(&self) -> Seq<char> {
        self.path@
    }

    /// The format.
    pub closed spec fn format_view(&self) -> ContentFormat {
        self.format
    }

    /// Settles where the file is and how it is to be understood: a leading
    /// tilde in `path` is expanded to the home directory and nothing else
    /// about the path is changed; the format is the one named, else JSON.
    pub fn locate(path: &str, format: Option<ContentFormat>) -> (t: ConfigTarget)
        ensures
            expands_to(path@, t.path_view()),
            !tilde_applies(path@) ==> t.path_view() == path@,
            t.format_view() == resolved_format(format),
    {
        ConfigTarget { path: tilde(path), format: ContentFormat::resolve(format) }
    }

    /// A copy of the expanded path.
    pub fn path(&self) -> (p: String)
        ensures
            p@ == self.path_view(),
    {
        self.path.clone()
    }

    /// The format.
    pub fn format(&self) -> (f: ContentFormat)
        ensures
            f == self.format_view(),
    {
        self.format
    }
}

/// Judges the outcome of reading the target: `opened` holds the outcome of
/// opening the file at the target's path and, where that succeeded, of
/// decoding a document from it in the target's format. The answer is that
/// of the format's manager for that path.
pub fn read_config<C>(
    target: &ConfigTarget,
    opened: Result<Result<C, ReadFailure>, String>,
    context: &Context,
) -> (r: Result<C, Error>)
    ensures
        read_config_result(target.format_view(), target.path_view(), opened, context@, r),
{
    match target.format {
        ContentFormat::JSON => JsonManager::new(target.path.clone()).read_config(opened, context),
        ContentFormat::YAML => YamlManager::new(target.path.clone()).read_config(opened, context),
        ContentFormat::XML => XmlManager::new(target.path.clone()).read_config(opened, context),
        ContentFormat::TOML => TomlManager::new(target.path.clone()).read_config(opened, context),
    }
}

/// Judges the outcome of writing the target: `created` holds the outcome of
/// creating the file at the target's path and, where that succeeded, of
/// encoding the document into it in the target's format. The answer is that
/// of the format's manager for that path: on success, the path written.
pub fn write_config(
    target: &ConfigTarget,
    created: Result<Result<(), String>, String>,
    context: &Context,
) -> (r: Result<String, Error>)
    ensures
        write_config_result(target.format_view(), target.path_view(), created, context@, r),
{
    match target.format {
        ContentFormat::JSON => JsonManager::new(target.path.clone()).write_config(created, context),
        ContentFormat::YAML => YamlManager::new(target.path.clone()).write_config(created, context),
        ContentFormat::XML => XmlManager::new(target.path.clone()).write_config(created, context),
        ContentFormat::TOML => TomlManager::new(target.path.clone()).write_config(created, context),
    }
}

/// Judges the outcome of decoding a document from a string in the given
/// format. The answer is that of the format's manager.
pub fn read_str<C>(format: ContentFormat, decoded: Result<C, String>, context: &Context) -> (r:
    Result<C, Error>)
    ensures
        read_str_result(format, decoded, context@, r),
{
    match format {
        ContentFormat::JSON => JsonManager::read_str(decoded, context),
        ContentFormat::YAML => YamlManager::read_str(decoded, context),
        ContentFormat::XML => XmlManager::read_str(decoded, context),
        ContentFormat::TOML => TomlManager::read_str(decoded, context),
    }
}

/// What every format manager offers.
///
/// The caller opens, creates, decodes and encodes; the manager is handed
/// the outcome of each step, with the text of the underlying failure where
/// the step failed, and answers with the document, handle or path, or with
/// the error that reports the failure.
pub trait Manager: Sized {
    /// The path that the manager was made with.
    spec fn path_view(&self) -> Seq<char>;

    /// The format that the manager stands for.
    spec fn format() -> ContentFormat;

    /// A manager for the file at `path`. Nothing is opened.
    fn new(path: String) -> (m: Self)
        ensures
            m.path_view() == path@,
    ;

    /// A copy of the path.
    fn path(&self) -> (p: String)
        ensures
            p@ == self.path_view(),
    ;

    /// Judges the outcome of opening the file for reading: the handle, or
    /// the error that carries the failure's text and, in its details, the
    /// context with `path` and `origin`.
    fn open_file<H>(&self, opened: Result<H, String>, context: &Context) -> (r: Result<H, Error>)
        ensures
            open_file_result(self.path_view(), opened, context@, r),
    {
        match opened {
            Ok(handle) => Ok(handle),
            Err(cause) => {
                let path = self.path();
                let message = String::from_str("Failed to open file: ").concat(cause.as_str());
                let details = with_path_and_origin(context, path.as_str(), cause.as_str());
                Err(configuration_file_error(message, details))
            },
        }
    }

    /// Judges the outcome of creating the file for writing: the handle, or
    /// the error that carries the failure's text and, in its details, the
    /// context with `path` and `origin`.
    fn create_file<H>(&self, created: Result<H, String>, context: &Context) -> (r: Result<
        H,
        Error,
    >)
        ensures
            create_file_result(self.path_view(), created, context@, r),
    {
        match created {
            Ok(handle) => Ok(handle),
            Err(cause) => {
                let path = self.path();
                let message = String::from_str("Failed to create file: ").concat(cause.as_str());
                let details = with_path_and_origin(context, path.as_str(), cause.as_str());
                Err(configuration_file_error(message, details))
            },
        }
    }

    /// Judges the outcome of decoding a document from the open file.
    fn read<C>(&self, decoded: Result<C, ReadFailure>, context: &Context) -> (r: Result<C, Error>)
        ensures
            read_result(Self::format(), self.path_view(), decoded, context@, r),
    ;

    /// Judges the outcome of encoding a document into the open file.
    fn write(&self, encoded: Result<(), String>, context: &Context) -> (r: Result<(), Error>)
        ensures
            write_result(Self::format(), self.path_view(), encoded, context@, r),
    ;

    /// Judges the outcome of decoding a document from a string. No path is
    /// involved and none is added to the details.
    fn read_str<C>(decoded: Result<C, String>, context: &Context) -> (r: Result<C, Error>)
        ensures
            read_str_result(Self::format(), decoded, context@, r),
    ;

    /// Opening, then reading: `opened` holds the outcome of opening the
    /// file and, where that succeeded, of decoding a document from it.
    fn read_config<C>(
        &self,
        opened: Result<Result<C, ReadFailure>, String>,
        context: &Context,
    ) -> (r: Result<C, Error>)
        ensures
            read_config_result(Self::format(), self.path_view(), opened, context@, r),
    {
        match self.open_file(opened, context) {
            Ok(decoded) => self.read(decoded, context),
            Err(e) => Err(e),
        }
    }

    /// Creating, then writing: `created` holds the outcome of creating the
    /// file and, where that succeeded, of encoding the document into it.
    /// Success yields the path that was written.
    fn write_config(
        &self,
        created: Result<Result<(), String>, String>,
        context: &Context,
    ) -> (r: Result<String, Error>)
        ensures
            write_config_result(Self::format(), self.path_view(), created, context@, r),
    {
        match self.create_file(created, context) {
            Ok(encoded) => match self.write(encoded, context) {
                Ok(_) => Ok(self.path()),
                Err(e) => Err(e),
            },
            Err(e) => Err(e),
        }
    }
}

} // verus!
