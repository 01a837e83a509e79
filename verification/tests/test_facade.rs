use cdumay_config::{
    read_config, read_str, write_config, ConfigTarget, ContentFormat, Context, ContextValue,
    Error, ErrorKind, ErrorValue, ReadFailure, Scalar,
};
use std::collections::BTreeMap;
use std::io::{Read, Seek, SeekFrom, Write};

fn text_of(context: &Context, key: &str) -> Option<String> {
    match context.get(key) {
        Some(ContextValue::Text(text)) => Some(text.clone()),
        _ => None,
    }
}

fn decode<C: serde::de::DeserializeOwned, R: Read>(
    format: ContentFormat,
    file: R,
) -> Result<C, ReadFailure> {
    match format {
        ContentFormat::JSON => {
            serde_json::from_reader(file).map_err(|e| ReadFailure::Content(e.to_string()))
        }
        ContentFormat::YAML => {
            serde_yaml::from_reader(file).map_err(|e| ReadFailure::Content(e.to_string()))
        }
        ContentFormat::XML => {
            serde_xml_rs::from_reader(file).map_err(|e| ReadFailure::Content(e.to_string()))
        }
        ContentFormat::TOML => match std::io::read_to_string(file) {
            Err(e) => Err(ReadFailure::Stream(e.to_string())),
            Ok(buffer) => toml::from_str(&buffer).map_err(|e| ReadFailure::Content(e.to_string())),
        },
    }
}

fn encode<D: serde::Serialize, W: Write>(
    format: ContentFormat,
    mut file: W,
    data: &D,
) -> Result<(), String> {
    match format {
        ContentFormat::JSON => serde_json::to_writer_pretty(file, data).map_err(|e| e.to_string()),
        ContentFormat::YAML => serde_yaml::to_writer(file, data).map_err(|e| e.to_string()),
        ContentFormat::XML => serde_xml_rs::to_writer(file, data).map_err(|e| e.to_string()),
        ContentFormat::TOML => match toml::to_string_pretty(data) {
            Err(e) => Err(e.to_string()),
            Ok(content) => file.write_all(content.as_bytes()).map_err(|e| e.to_string()),
        },
    }
}

fn read_file<C: serde::de::DeserializeOwned, R: Read>(
    path: &str,
    file: std::io::Result<R>,
    format: Option<ContentFormat>,
    context: &Context,
) -> Result<C, Error> {
    let target = ConfigTarget::locate(path, format);
    let opened = match file {
        Ok(file) => Ok(decode(target.format(), file)),
        Err(e) => Err(e.to_string()),
    };
    read_config(&target, opened, context)
}

fn write_file<D: serde::Serialize, W: Write>(
    path: &str,
    file: std::io::Result<W>,
    format: Option<ContentFormat>,
    data: D,
    context: &Context,
) -> Result<String, Error> {
    let target = ConfigTarget::locate(path, format);
    let created = match file {
        Ok(file) => Ok(encode(target.format(), file, &data)),
        Err(e) => Err(e.to_string()),
    };
    write_config(&target, created, context)
}

fn not_found() -> std::io::Result<std::io::Empty> {
    Err(std::io::Error::new(std::io::ErrorKind::NotFound, "No such file or directory"))
}

fn rewound(file: &tempfile::NamedTempFile) -> std::io::Result<impl Read> {
    let mut handle = file.reopen()?;
    handle.seek(SeekFrom::Start(0))?;
    Ok(handle)
}

fn document() -> BTreeMap<String, serde_json::Value> {
    let mut data = BTreeMap::new();
    data.insert("name".to_string(), serde_json::Value::from("x"));
    data.insert("value".to_string(), serde_json::Value::from(1));
    data
}

fn flat_document() -> BTreeMap<String, String> {
    let mut data = BTreeMap::new();
    data.insert("name".to_string(), "x".to_string());
    data.insert("value".to_string(), "1".to_string());
    data
}

#[test]
fn test_format_default_is_json() {
    assert_eq!(ContentFormat::default(), ContentFormat::JSON);
    assert_eq!(ContentFormat::resolve(None), ContentFormat::JSON);
    assert_eq!(ContentFormat::resolve(Some(ContentFormat::TOML)), ContentFormat::TOML);
    assert_eq!(ContentFormat::resolve(Some(ContentFormat::XML)), ContentFormat::XML);
    assert_eq!(ContentFormat::resolve(Some(ContentFormat::YAML)), ContentFormat::YAML);
    assert_eq!(ContentFormat::JSON.label(), "JSON");
    assert_eq!(ContentFormat::YAML.label(), "YAML");
    assert_eq!(ContentFormat::XML.label(), "XML");
    assert_eq!(ContentFormat::TOML.label(), "TOML");
}

#[test]
fn test_locate_ignores_extension() {
    let target = ConfigTarget::locate("conf/app.yaml", None);
    assert_eq!(target.format(), ContentFormat::JSON);
    assert_eq!(target.path(), "conf/app.yaml");
    let target = ConfigTarget::locate("conf/app.json", Some(ContentFormat::XML));
    assert_eq!(target.format(), ContentFormat::XML);
}

#[test]
fn test_locate_leaves_other_tildes() {
    assert_eq!(ConfigTarget::locate("~user/app.json", None).path(), "~user/app.json");
    assert_eq!(ConfigTarget::locate("a/~/app.json", None).path(), "a/~/app.json");
    assert_eq!(ConfigTarget::locate("", None).path(), "");
}

#[test]
fn test_locate_expands_leading_tilde() {
    let path = ConfigTarget::locate("~/app.json", None).path();
    assert_ne!(path, "~/app.json");
    assert!(path.ends_with("/app.json"));
    assert!(!path.starts_with('~'));
    let home = ConfigTarget::locate("~", None).path();
    assert_ne!(home, "~");
    assert_eq!(path, format!("{}/app.json", home));
}

#[test]
fn test_end_to_end_json_round_trip() {
    let file = tempfile::NamedTempFile::new().unwrap();
    let path = file.path().to_str().unwrap();
    let context = Context::new();
    let written =
        write_file(path, file.reopen(), Some(ContentFormat::JSON), document(), &context).unwrap();
    assert_eq!(written, path);
    let back: BTreeMap<String, serde_json::Value> =
        read_file(path, rewound(&file), None, &context).unwrap();
    assert_eq!(back, document());
    assert_eq!(back["name"], serde_json::Value::from("x"));
    assert_eq!(back["value"], serde_json::Value::from(1));
}

#[test]
fn test_round_trip_every_format() {
    let context = Context::new();
    for format in [ContentFormat::JSON, ContentFormat::YAML, ContentFormat::TOML] {
        let file = tempfile::NamedTempFile::new().unwrap();
        let path = file.path().to_str().unwrap();
        let written =
            write_file(path, file.reopen(), Some(format), flat_document(), &context).unwrap();
        assert_eq!(written, path);
        let back: BTreeMap<String, String> =
            read_file(path, rewound(&file), Some(format), &context).unwrap();
        assert_eq!(back, flat_document());
    }
}

#[test]
fn test_written_toml_is_toml() {
    let file = tempfile::NamedTempFile::new().unwrap();
    let path = file.path().to_str().unwrap();
    let context = Context::new();
    write_file(path, file.reopen(), Some(ContentFormat::TOML), flat_document(), &context).unwrap();
    let content = std::io::read_to_string(rewound(&file).unwrap()).unwrap();
    assert_eq!(content, "name = \"x\"\nvalue = \"1\"\n");
}

#[test]
fn test_read_missing_file() {
    let mut context = Context::new();
    context.insert("env".to_string(), ContextValue::text("prod"));
    let result: Result<BTreeMap<String, String>, Error> =
        read_file("/nonexistent/dir/app.json", not_found(), None, &context);
    let err = result.unwrap_err();
    assert_eq!(err.value(), ErrorValue::ConfigurationFileError);
    assert_eq!(err.kind(), ErrorKind::InvalidConfiguration);
    assert_eq!(err.message(), "Failed to open file: No such file or directory");
    assert_eq!(
        text_of(err.details_ref(), "origin"),
        Some("No such file or directory".to_string())
    );
    assert_eq!(
        text_of(err.details_ref(), "path"),
        Some("/nonexistent/dir/app.json".to_string())
    );
    assert_eq!(text_of(err.details_ref(), "env"), Some("prod".to_string()));
    assert!(!context.contains_key("path"));
    assert!(!context.contains_key("origin"));
}

#[test]
fn test_write_uncreatable_file() {
    let context = Context::new();
    let err = write_file("/nonexistent/dir/app.json", not_found(), None, document(), &context)
        .unwrap_err();
    assert_eq!(err.message(), "Failed to create file: No such file or directory");
    assert_eq!(
        text_of(err.details_ref(), "path"),
        Some("/nonexistent/dir/app.json".to_string())
    );
    assert!(err.details_ref().contains_key("origin"));
}

#[test]
fn test_read_malformed_files() {
    let context = Context::new();
    for (format, content, prefix) in [
        (ContentFormat::JSON, "{\"name\": ", "Invalid JSON file content: "),
        (ContentFormat::TOML, "name = \"x", "Invalid TOML file content: "),
        (ContentFormat::XML, "<a><name>x<name></a>", "Invalid XML file content: "),
        (ContentFormat::YAML, "name: [x\n", "Invalid YAML file content: "),
    ] {
        let mut file = tempfile::NamedTempFile::new().unwrap();
        file.write_all(content.as_bytes()).unwrap();
        file.flush().unwrap();
        let path = file.path().to_str().unwrap();
        let result: Result<BTreeMap<String, String>, Error> =
            read_file(path, rewound(&file), Some(format), &context);
        let err = result.unwrap_err();
        assert!(err.message().starts_with(prefix));
        assert_eq!(text_of(err.details_ref(), "path"), Some(path.to_string()));
    }
}

#[test]
fn test_read_str_by_format() {
    let context = Context::new();
    for (format, label) in [
        (ContentFormat::JSON, "JSON"),
        (ContentFormat::YAML, "YAML"),
        (ContentFormat::XML, "XML"),
        (ContentFormat::TOML, "TOML"),
    ] {
        assert_eq!(read_str(format, Ok(5u8), &context).unwrap(), 5);
        let failed: Result<u8, Error> = read_str(format, Err("why".to_string()), &context);
        let err = failed.unwrap_err();
        assert_eq!(err.message(), format!("Invalid {} file content: why", label));
        assert_eq!(err.details().into_entries().len(), 0);
    }
}

#[test]
fn test_facade_judges_by_target() {
    let context = Context::new();
    let target = ConfigTarget::locate("x/app.toml", Some(ContentFormat::TOML));
    let streamed: Result<u8, Error> =
        read_config(&target, Ok(Err(ReadFailure::Stream("gone".to_string()))), &context);
    let err = streamed.unwrap_err();
    assert_eq!(err.message(), "Failed to write TOML file: gone");
    assert_eq!(text_of(err.details_ref(), "path"), Some("x/app.toml".to_string()));
    assert!(!err.details_ref().contains_key("origin"));
    let target = ConfigTarget::locate("x/app.xml", Some(ContentFormat::XML));
    let err = write_config(&target, Ok(Err("full".to_string())), &context).unwrap_err();
    assert_eq!(err.message(), "Failed to write XML file: full");
    assert_eq!(text_of(err.details_ref(), "origin"), Some("full".to_string()));
    assert_eq!(write_config(&target, Ok(Ok(())), &context).unwrap(), "x/app.xml");
    assert_eq!(read_config(&target, Ok(Ok(3u8)), &context).unwrap(), 3);
}

#[test]
fn test_context_last_insert_wins() {
    let mut context = Context::new();
    assert!(!context.contains_key("k"));
    assert!(context.get("k").is_none());
    context.insert("k".to_string(), ContextValue::text("one"));
    context.insert("n".to_string(), ContextValue::Scalar(Scalar::U8(7)));
    context.insert("k".to_string(), ContextValue::text("two"));
    assert_eq!(text_of(&context, "k"), Some("two".to_string()));
    assert!(matches!(context.get("n"), Some(ContextValue::Scalar(Scalar::U8(7)))));
    assert_eq!(context.len(), 2);
    let copy = context.clone();
    assert_eq!(copy.len(), 2);
    assert_eq!(text_of(&copy, "k"), Some("two".to_string()));
    assert!(copy.contains_key("n"));
    assert!(!copy.contains_key("path"));
    let entries = copy.into_entries();
    assert_eq!(entries.len(), 2);
    assert_eq!(entries[0].0, "k");
    assert!(matches!(&entries[0].1, ContextValue::Text(text) if text == "two"));
    assert_eq!(entries[1].0, "n");
    assert_eq!(Context::new().len(), 0);
}

#[test]
fn test_context_caller_path_is_replaced() {
    let mut context = Context::new();
    context.insert("path".to_string(), ContextValue::text("mine"));
    context.insert("other".to_string(), ContextValue::text("kept"));
    let target = ConfigTarget::locate("real.json", None);
    let failed: Result<u8, Error> = read_config(&target, Err("nope".to_string()), &context);
    let err = failed.unwrap_err();
    assert_eq!(text_of(err.details_ref(), "path"), Some("real.json".to_string()));
    assert_eq!(text_of(err.details_ref(), "other"), Some("kept".to_string()));
    assert_eq!(text_of(&context, "path"), Some("mine".to_string()));
}

#[test]
fn test_context_value_copies() {
    let nested = ContextValue::List(vec![
        ContextValue::Scalar(Scalar::Bool(true)),
        ContextValue::Optional(Some(Box::new(ContextValue::text("in")))),
        ContextValue::Dict(vec![(ContextValue::text("k"), ContextValue::Bytes(vec![1, 2]))]),
        ContextValue::Newtype(Box::new(ContextValue::Scalar(Scalar::Char('c')))),
    ]);
    let copy = nested.clone();
    assert_eq!(format!("{:?}", copy), format!("{:?}", nested));
}

#[test]
fn test_error_text() {
    let err = Error::new(ErrorValue::ConfigurationFileError);
    assert_eq!(err.message(), "Invalid Configuration");
    assert_eq!(err.code(), 400);
    assert_eq!(
        err.to_text(),
        "Client::InvalidConfiguration::ConfigurationFileError (400) - Invalid Configuration"
    );
    let err = err.with_message("broken".to_string());
    assert_eq!(
        err.to_text(),
        "Client::InvalidConfiguration::ConfigurationFileError (400) - broken"
    );
    let mut details = Context::new();
    details.insert("k".to_string(), ContextValue::text("v"));
    let err = err.with_details(details);
    assert_eq!(text_of(err.details_ref(), "k"), Some("v".to_string()));
    assert_eq!(err.clone().to_text(), err.to_text());
    let kind = ErrorKind::InvalidConfiguration;
    assert_eq!(kind.name(), "InvalidConfiguration");
    assert_eq!(kind.code(), 400);
    assert_eq!(kind.description(), "Invalid Configuration");
    assert_eq!(kind.side(), "Client");
    assert_eq!(ErrorValue::VaultSecretError.name(), "VaultSecretError");
    assert_eq!(ErrorValue::VaultSecretError.kind(), ErrorKind::InvalidConfiguration);
}
