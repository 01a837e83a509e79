//! The vault: named secret blobs in one list, each understood only when it
//! is asked for, in the format that the caller then names.

use crate::context::{Context, ValueModel};
use crate::error::{Error, ErrorModel, ErrorValue};
use crate::formats::json::JsonManager;
use crate::formats::{
    open_error, read_error, read_str, read_str_result, ContentFormat, Manager, ReadFailure,
};
use vstd::prelude::*;
use vstd::string::StringExecFns;

verus! {

/// What a `VaultSecret` stands for.
pub struct SecretModel {
    pub alias: Seq<char>,
    pub key: Seq<char>,
    pub value: Seq<char>,
}

/// One secret: the alias that callers look it up by, a key that is carried
/// along, and the value, a document in some format that is not looked into
/// before it is asked for.
#[derive(Debug)]
pub struct VaultSecret {
    alias: String,
    key: String,
    value: String,
}

impl View for VaultSecret {
    type V = SecretModel;

    closed spec fn view(&self) -> SecretModel {
        SecretModel { alias: self.alias@, key: self.key@, value: self.value@ }
    }
}

impl Clone for VaultSecret {
    fn clone(&self) -> (r: Self)
        ensures
            r@ == self@,
    {
        VaultSecret {
            alias: self.alias.clone(),
            key: self.key.clone(),
            value: self.value.clone(),
        }
    }
}

impl VaultSecret {
    /// A secret of the given alias, key and value.
    pub fn new(alias: &str, key: &str, value: &str) -> (s: VaultSecret)
        ensures
            s@ == (SecretModel { alias: alias@, key: key@, value: value@ }),
    {
        VaultSecret {
            alias: String::from_str(alias),
            key: String::from_str(key),
            value: String::from_str(value),
        }
    }

    /// The alias.
    pub fn alias(&self) -> (r: &str)
        ensures
            r@ == self@.alias,
    {
        self.alias.as_str()
    }

    /// The key.
    pub fn key(&self) -> (r: &str)
        ensures
            r@ == self@.key,
    {
        self.key.as_str()
    }

    /// The value, as the string it was stored as.
    pub fn value(&self) -> (r: &str)
        ensures
            r@ == self@.value,
    {
        self.value.as_str()
    }
}

/// The mapping from alias to value that a list of secrets stands for: a
/// later secret replaces an earlier one of the same alias.
pub open spec fn alias_map(secrets: Seq<SecretModel>) -> Map<Seq<char>, Seq<char>>
    decreases secrets.len(),
{
    if secrets.len() == 0 {
        Map::empty()
    } else {
        alias_map(secrets.drop_last()).insert(secrets.last().alias, secrets.last().value)
    }
}

/// Among secrets of one alias the last one in the list is the one found:
/// where the secret at `at` has the alias and none after it has, the alias
/// stands for that secret's value, whatever secrets of the same alias come
/// before it.
pub proof fn lemma_last_alias_wins(secrets: Seq<SecretModel>, alias: Seq<char>, at: int)
    requires
        0 <= at < secrets.len(),
        secrets[at].alias == alias,
        forall|j: int| at < j < secrets.len() ==> (#[trigger] secrets[j]).alias != alias,
    ensures
        alias_map(secrets).contains_key(alias),
        alias_map(secrets)[alias] == secrets[at].value,
    decreases secrets.len(),
{
    if at < secrets.len() - 1 {
        let front = secrets.drop_last();
        assert(forall|j: int| at < j < front.len() ==> (#[trigger] front[j]) == secrets[j]);
        lemma_last_alias_wins(front, alias, at);
    }
}

/// An alias that no secret has stands for nothing.
pub proof fn lemma_unknown_alias(secrets: Seq<SecretModel>, alias: Seq<char>)
    requires
        forall|j: int| 0 <= j < secrets.len() ==> (#[trigger] secrets[j]).alias != alias,
    ensures
        !alias_map(secrets).contains_key(alias),
    decreases secrets.len(),
{
    if secrets.len() > 0 {
        let front = secrets.drop_last();
        assert(forall|j: int| 0 <= j < front.len() ==> (#[trigger] front[j]) == secrets[j]);
        lemma_unknown_alias(front, alias);
    }
}

/// The error for a vault that holds no data.
pub open spec fn vault_unread_error(context: Map<Seq<char>, ValueModel>) -> ErrorModel {
    ErrorModel {
        value: ErrorValue::VaultSecretError,
        message: "Failed to read vault data"@,
        details: context,
    }
}

/// The error for an alias that no secret has. The details are the
/// context as it came.
pub open spec fn invalid_alias_error(
    name: Seq<char>,
    context: Map<Seq<char>, ValueModel>,
) -> ErrorModel {
    ErrorModel {
        value: ErrorValue::VaultSecretError,
        message: "Invalid alias: "@ + name,
        details: context,
    }
}

/// A secret's value on its way to being understood: the string, and the
/// format in which the caller wants it decoded.
#[derive(Debug)]
pub struct SecretPayload {
    format: ContentFormat,
    content: String,
}

impl SecretPayload {
    /// The format in which the content is to be decoded.
    pub closed spec fn format_view(&self) -> ContentFormat {
        self.format
    }

    /// The content.
    pub closed spec fn content_view(&self) -> Seq<char> {
        self.content@
    }

    /// The format in which the content is to be decoded.
    pub fn format(&self) -> (f: ContentFormat)
        ensures
            f == self.format_view(),
    {
        self.format
    }

    /// The content.
    pub fn content(&self) -> (r: &str)
        ensures
            r@ == self.content_view(),
    {
        self.content.as_str()
    }

    /// Judges the outcome of decoding the content in the payload's format,
    /// as that format's manager judges a string.
    pub fn read_str<C>(&self, decoded: Result<C, String>, context: &Context) -> (r: Result<
        C,
        Error,
    >)
        ensures
            read_str_result(self.format_view(), decoded, context@, r),
    {
        read_str(self.format, decoded, context)
    }
}

/// What a list of secrets stands for, secret by secret.
pub open spec fn secret_models(data: Seq<VaultSecret>) -> Seq<SecretModel> {
    Seq::new(data.len(), |i: int| data[i]@)
}

/// What looking an alias up gives: the value that the alias stands for, to
/// be decoded in the format named, or the error for an alias that stands
/// for nothing.
pub open spec fn alias_result(
    secrets: Seq<SecretModel>,
    name: Seq<char>,
    format: ContentFormat,
    context: Map<Seq<char>, ValueModel>,
    r: Result<SecretPayload, Error>,
) -> bool {
    if alias_map(secrets).contains_key(name) {
        r is Ok && r->Ok_0.content_view() == alias_map(secrets)[name] && r->Ok_0.format_view()
            == format
    } else {
        r is Err && r->Err_0@ == invalid_alias_error(name, context)
    }
}

/// Looking up an alias that no secret has fails, whatever the format and
/// the context: the error is a vault secret error whose message is
/// "Invalid alias: " and the name, and whose details are the context,
/// with nothing added.
pub proof fn lemma_lookup_of_unknown_alias_fails(
    secrets: Seq<SecretModel>,
    name: Seq<char>,
    format: ContentFormat,
    context: Map<Seq<char>, ValueModel>,
    r: Result<SecretPayload, Error>,
)
    requires
        forall|j: int| 0 <= j < secrets.len() ==> (#[trigger] secrets[j]).alias != name,
        alias_result(secrets, name, format, context, r),
    ensures
        r is Err,
        r->Err_0@.value == ErrorValue::VaultSecretError,
        r->Err_0@.message == "Invalid alias: "@ + name,
        r->Err_0@.details == context,
{
    lemma_unknown_alias(secrets, name);
}

/// Looking up an alias that several secrets have gives the value of the
/// last of them in the list.
pub proof fn lemma_lookup_gives_last(
    secrets: Seq<SecretModel>,
    name: Seq<char>,
    at: int,
    format: ContentFormat,
    context: Map<Seq<char>, ValueModel>,
    r: Result<SecretPayload, Error>,
)
    requires
        0 <= at < secrets.len(),
        secrets[at].alias == name,
        forall|j: int| at < j < secrets.len() ==> (#[trigger] secrets[j]).alias != name,
        alias_result(secrets, name, format, context, r),
    ensures
        r is Ok,
        r->Ok_0.content_view() == secrets[at].value,
        r->Ok_0.format_view() == format,
{
    lemma_last_alias_wins(secrets, name, at);
}

/// What loading a vault gives: a vault that holds the secrets that were
/// decoded, in their order, or the error that the JSON manager for the
/// path gives for the step that failed.
pub open spec fn init_result(
    path: Seq<char>,
    opened: Result<Result<Vec<VaultSecret>, ReadFailure>, String>,
    context: Map<Seq<char>, ValueModel>,
    r: Result<VaultConfig, Error>,
) -> bool {
    match opened {
        Ok(Ok(data)) => r is Ok && r->Ok_0.secrets is Some && r->Ok_0.secrets->Some_0@
            == secret_models(data@),
        Ok(Err(failure)) => r is Err && r->Err_0@ == read_error(
            ContentFormat::JSON,
            path,
            failure,
            context,
        ),
        Err(cause) => r is Err && r->Err_0@ == open_error(path, cause@, context),
    }
}

/// What asking a vault for its secrets gives: a copy of them, or the
/// error for a vault that holds none.
pub open spec fn secrets_result(
    held: Option<VaultSecrets>,
    context: Map<Seq<char>, ValueModel>,
    r: Result<VaultSecrets, Error>,
) -> bool {
    match held {
        Some(secrets) => r is Ok && r->Ok_0@ == secrets@,
        None => r is Err && r->Err_0@ == vault_unread_error(context),
    }
}

/// The secrets of a vault, in the order in which they were loaded.
#[derive(Debug)]
pub struct VaultSecrets {
    data: Vec<VaultSecret>,
}

impl View for VaultSecrets {
    type V = Seq<SecretModel>;

    closed spec fn view(&self) -> Seq<SecretModel> {
        secret_models(self.data@)
    }
}

impl Clone for VaultSecrets {
    fn clone(&self) -> (r: Self)
        ensures
            r@ == self@,
    {
        let mut out: Vec<VaultSecret> = Vec::new();
        let mut i: usize = 0;
        while i < self.data.len()
            invariant
                i <= self.data.len(),
                out.len() == i,
                forall|j: int| 0 <= j < i ==> (#[trigger] out@[j])@ == self.data@[j]@,
            decreases self.data.len() - i,
        {
            out.push(self.data[i].clone());
            i += 1;
        }
        let r = VaultSecrets { data: out };
        assert(r@ =~= self@);
        r
    }
}

impl VaultSecrets {
    /// The vault of the given secrets, in the given order.
    pub fn new(data: Vec<VaultSecret>) -> (s: VaultSecrets)
        ensures
            s@ == secret_models(data@),
    {
        VaultSecrets { data }
    }

    /// How many secrets are held, those of a repeated alias included.
    pub fn len(&self) -> (n: usize)
        ensures
            n == self@.len(),
    {
        self.data.len()
    }

    /// Looks `name` up among the aliases. Where a secret has that alias,
    /// the answer is the value of the last such secret, to be decoded in
    /// `format`. Where none has, the answer is the error "Invalid alias"
    /// with the name, and the context as it came for details.
    pub fn alias(&self, name: String, format: ContentFormat, context: &Context) -> (r: Result<
        SecretPayload,
        Error,
    >)
        ensures
            alias_result(self@, name@, format, context@, r),
    {
        let mut i: usize = self.data.len();
        while i > 0
            invariant
                i <= self.data.len(),
                self@.len() == self.data.len(),
                forall|j: int| i <= j < self.data.len() ==> (#[trigger] self@[j]).alias != name@,
            decreases i,
        {
            i -= 1;
            assert(self@[i as int] == self.data@[i as int]@);
            if self.data[i].alias == name {
                proof {
                    lemma_last_alias_wins(self@, name@, i as int);
                }
                return Ok(SecretPayload { format, content: self.data[i].value.clone() });
            }
        }
        proof {
            lemma_unknown_alias(self@, name@);
        }
        let message = String::from_str("Invalid alias: ").concat(name.as_str());
        Err(
            Error::new(ErrorValue::VaultSecretError).with_message(message).with_details(
                context.clone(),
            ),
        )
    }
}

/// A vault that was loaded, or was not.
#[derive(Debug)]
pub struct VaultConfig {
    pub secrets: Option<VaultSecrets>,
}

impl VaultConfig {
    /// Judges the outcome of loading the vault file at `path`: `opened`
    /// holds the outcome of opening the file and, where that succeeded, of
    /// decoding the list of secrets from it. The file is a JSON file
    /// whatever the formats of the values in it, so the answer on failure
    /// is that of the JSON manager for that path; on success it is a vault
    /// that holds the secrets.
    pub fn init(
        path: &str,
        opened: Result<Result<Vec<VaultSecret>, ReadFailure>, String>,
        context: &Context,
    ) -> (r: Result<VaultConfig, Error>)
        ensures
            init_result(path@, opened, context@, r),
    {
        match JsonManager::new(String::from_str(path)).read_config(opened, context) {
            Ok(data) => Ok(VaultConfig { secrets: Some(VaultSecrets::new(data)) }),
            Err(e) => Err(e),
        }
    }

    /// A copy of the secrets of a vault that was loaded; for one that was
    /// not, the error "Failed to read vault data" with the context as it
    /// came for details.
    pub fn secrets(&self, context: &Context) -> (r: Result<VaultSecrets, Error>)
        ensures
            secrets_result(self.secrets, context@, r),
    {
        match &self.secrets {
            None => Err(
                Error::new(ErrorValue::VaultSecretError).with_message(
                    String::from_str("Failed to read vault data"),
                ).with_details(context.clone()),
            ),
            Some(held) => Ok(held.clone()),
        }
    }
}

} // verus!
