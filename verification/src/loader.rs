//! Bootstrap: from what was found on disk to a complete configuration.
//!
//! The caller reads the file of the profile, hands the outcome to
//! [`load_config`], asks the operator for whatever [`missing_fields`]
//! lists, completes the configuration with the answers and writes the
//! text of [`crate::codec::saved_text`] back to the same path.

use vstd::prelude::*;

use crate::codec::{
    decode_document, decode_inverts_encode, encode_document, parse, reads_back_as, FieldError,
    ParseError,
};
use crate::config::{
    bucket_from_answers, completed, default_partial, hidden_credentials, read_back, BucketAnswers,
    BucketInfo, BucketInfoView, PartialView, ServerConfigCliWrapper, ServerConfigView,
};
use crate::document::toml_parse;
use crate::mode::Build;

verus! {

/// What reading the configuration file gave.
pub enum FileRead {
    /// The file is there; this is its text.
    Found(String),
    /// There is no such file.
    NotFound,
    /// The file could not be read; this is the reason.
    Failed(String),
}

/// Why no configuration could be loaded. Either one ends the start-up.
pub enum ConfigError {
    /// The file system refused; the text is its reason.
    Io(String),
    /// The file is there and does not hold a configuration.
    Toml(ParseError),
}

/// One of the five settings of a bucket connection that the operator is
/// asked for.
#[derive(Clone, Copy, Debug, PartialEq, Eq, Structural)]
pub enum BucketField {
    Region,
    Endpoint,
    Name,
    AccessKey,
    SecretKey,
}

/// The name under which a setting is shown to the operator.
pub open spec fn label_of(field: BucketField) -> Seq<char> {
    match field {
        BucketField::Region => "bucket region"@,
        BucketField::Endpoint => "bucket endpoint"@,
        BucketField::Name => "bucket name"@,
        BucketField::AccessKey => "bucket access key"@,
        BucketField::SecretKey => "bucket secret key"@,
    }
}

/// The settings of a bucket connection in the order in which they are
/// asked for.
pub open spec fn prompt_order() -> Seq<BucketField> {
    seq![
        BucketField::Region,
        BucketField::Endpoint,
        BucketField::Name,
        BucketField::AccessKey,
        BucketField::SecretKey,
    ]
}

/// What the operator has to supply for a partial configuration: nothing
/// where it has a bucket connection, else all five settings.
pub open spec fn missing_of(partial: PartialView) -> Seq<BucketField> {
    if partial.bucket_info is Some {
        Seq::empty()
    } else {
        prompt_order()
    }
}

impl BucketField {
    /// The name under which the setting is shown to the operator.
    pub fn label(self) -> (label: &'static str)
        ensures
            label@ == label_of(self),
    {
        match self {
            BucketField::Region => "bucket region",
            BucketField::Endpoint => "bucket endpoint",
            BucketField::Name => "bucket name",
            BucketField::AccessKey => "bucket access key",
            BucketField::SecretKey => "bucket secret key",
        }
    }

    /// Whether the answer must be typed without echo and never shown
    /// again: so for both keys, and for nothing else.
    pub fn is_secret(self) -> (secret: bool)
        ensures
            secret <==> self == BucketField::AccessKey || self == BucketField::SecretKey,
    {
        match self {
            BucketField::AccessKey | BucketField::SecretKey => true,
            _ => false,
        }
    }
}

/// What is shown of one setting of a bucket connection: its value, or
/// the fixed placeholder where the setting is a key.
pub open spec fn shown_of(info: BucketInfoView, field: BucketField) -> Seq<char> {
    match field {
        BucketField::Region => info.region.region,
        BucketField::Endpoint => info.region.endpoint,
        BucketField::Name => info.name,
        BucketField::AccessKey => hidden_credentials(),
        BucketField::SecretKey => hidden_credentials(),
    }
}

/// The text under which one setting of a bucket connection is echoed to
/// the operator or written to a log.
pub fn shown(info: &BucketInfo, field: BucketField) -> (text: String)
    ensures
        text@ == shown_of(info@, field),
{
    match field {
        BucketField::Region => info.region.region().to_owned(),
        BucketField::Endpoint => info.region.endpoint().to_owned(),
        BucketField::Name => info.name.clone(),
        BucketField::AccessKey => info.credentials.redacted(),
        BucketField::SecretKey => info.credentials.redacted(),
    }
}

/// Nothing that is shown of a bucket connection depends on its keys: two
/// connections that differ in their keys alone are shown alike, setting
/// by setting.
pub proof fn keys_are_never_shown(one: BucketInfoView, other: BucketInfoView, field: BucketField)
    requires
        one.name == other.name,
        one.region == other.region,
    ensures
        shown_of(one, field) == shown_of(other, field),
{
}

impl BucketAnswers {
    /// No answer given yet: every setting is the empty text.
    pub fn empty() -> (answers: Self)
        ensures
            answers.region@ == Seq::<char>::empty(),
            answers.endpoint@ == Seq::<char>::empty(),
            answers.name@ == Seq::<char>::empty(),
            answers.access_key@ == Seq::<char>::empty(),
            answers.secret_key@ == Seq::<char>::empty(),
    {
        Self {
            region: String::new(),
            endpoint: String::new(),
            name: String::new(),
            access_key: String::new(),
            secret_key: String::new(),
        }
    }

    /// Records the answer to one setting and leaves the other four as
    /// they are.
    pub fn with_answer(self, field: BucketField, answer: String) -> (answers: Self)
        ensures
            answers.region == if field == BucketField::Region {
                answer
            } else {
                self.region
            },
            answers.endpoint == if field == BucketField::Endpoint {
                answer
            } else {
                self.endpoint
            },
            answers.name == if field == BucketField::Name {
                answer
            } else {
                self.name
            },
            answers.access_key == if field == BucketField::AccessKey {
                answer
            } else {
                self.access_key
            },
            answers.secret_key == if field == BucketField::SecretKey {
                answer
            } else {
                self.secret_key
            },
    {
        let mut answers = self;
        match field {
            BucketField::Region => {
                answers.region = answer;
            },
            BucketField::Endpoint => {
                answers.endpoint = answer;
            },
            BucketField::Name => {
                answers.name = answer;
            },
            BucketField::AccessKey => {
                answers.access_key = answer;
            },
            BucketField::SecretKey => {
                answers.secret_key = answer;
            },
        }
        answers
    }
}

/// The settings that the operator has to supply, in the order in which
/// they are asked for.
pub fn missing_fields(partial: &ServerConfigCliWrapper) -> (fields: Vec<BucketField>)
    ensures
        fields@ == missing_of(partial@),
{
    let mut fields: Vec<BucketField> = Vec::new();
    if partial.bucket_info.is_none() {
        fields.push(BucketField::Region);
        fields.push(BucketField::Endpoint);
        fields.push(BucketField::Name);
        fields.push(BucketField::AccessKey);
        fields.push(BucketField::SecretKey);
    }
    assert(fields@ =~= missing_of(partial@));
    fields
}

/// Turns what was found on disk into a configuration, partial or complete.
///
/// A missing file gives the profile's defaults, without a bucket
/// connection. A file that could not be read gives `ConfigError::Io` with
/// the reason. A file that was read is parsed: its configuration where it
/// holds one, else `ConfigError::Toml`, and never the defaults.
pub fn load_config(build: Build, read: FileRead) -> (loaded: Result<
    ServerConfigCliWrapper,
    ConfigError,
>)
    ensures
        match read {
            FileRead::NotFound => loaded matches Ok(partial) && partial@ == default_partial(build),
            FileRead::Failed(reason) => loaded matches Err(ConfigError::Io(shown)) && shown
                == reason,
            FileRead::Found(text) => match toml_parse(text@) {
                None => loaded matches Err(ConfigError::Toml(ParseError::Syntax(_))),
                Some(doc) => match decode_document(doc, build) {
                    Ok(partial) => loaded matches Ok(found) && found@ == partial,
                    Err(error) => loaded matches Err(ConfigError::Toml(ParseError::Field(field)))
                        && field == error,
                },
            },
        },
{
    match read {
        FileRead::NotFound => Ok(ServerConfigCliWrapper::default_by_build(build)),
        FileRead::Failed(reason) => Err(ConfigError::Io(reason)),
        FileRead::Found(text) => match parse(text.as_str(), build) {
            Ok(partial) => Ok(partial),
            Err(error) => Err(ConfigError::Toml(error)),
        },
    }
}

/// Starting without a configuration file, the operator is asked for all
/// five settings. The document that is then saved reads back, under the
/// same profile, as a configuration with nothing missing: the operator is
/// not asked again, and whatever a second set of answers held, the
/// configuration is the one that was saved.
pub proof fn saved_configuration_needs_no_prompt(
    build: Build,
    answers: BucketAnswers,
    later: BucketAnswers,
)
    ensures
        missing_of(default_partial(build)) == prompt_order(),
        completed(default_partial(build), answers).bucket_info == bucket_from_answers(answers),
        decode_document(encode_document(completed(default_partial(build), answers)), build) == Ok::<
            PartialView,
            FieldError,
        >(read_back(completed(default_partial(build), answers))),
        missing_of(read_back(completed(default_partial(build), answers))) == Seq::<
            BucketField,
        >::empty(),
        completed(read_back(completed(default_partial(build), answers)), later) == completed(
            default_partial(build),
            answers,
        ),
{
    decode_inverts_encode(completed(default_partial(build), answers), build);
}

/// A text that was saved for a configuration loads as that configuration:
/// the file is a TOML document, it decodes without error, every setting
/// has the value that was saved, nothing is missing, so the operator is
/// not asked, and whatever answers were at hand play no part.
pub proof fn saved_text_loads_complete(
    build: Build,
    config: ServerConfigView,
    text: Seq<char>,
    later: BucketAnswers,
)
    requires
        reads_back_as(text, config, build),
    ensures
        toml_parse(text) is Some,
        decode_document(toml_parse(text)->0, build) == Ok::<PartialView, FieldError>(
            read_back(config),
        ),
        missing_of(read_back(config)) == Seq::<BucketField>::empty(),
        completed(read_back(config), later) == config,
{
}

} // verus!
