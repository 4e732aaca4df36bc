//! The configuration file: which keys of a TOML document hold which
//! setting, in both directions.
//!
//! ```text
//! bind-addr = "host:port"
//! cors-origins = ["origin", ...]
//!
//! [bucket-info]
//! name = "..."
//!
//! [bucket-info.region]
//! region = "..."
//! endpoint = "..."
//!
//! [bucket-info.credentials]
//! access-key = "..."
//! secret-key = "..."
//! ```

use vstd::prelude::*;

use crate::config::{
    default_partial, read_back, texts_of, BucketInfo, BucketInfoView, Credentials, CredentialsView,
    PartialView, RegionView, RegionWrapper, ServerConfig, ServerConfigCliWrapper, ServerConfigView,
};
use crate::document::{
    empty_table, list_value, nodes_of, parse_table, render_table, table_get, table_insert,
    table_nodes, table_value, text_value, toml_parse, toml_text, value_as_array, value_as_str,
    value_as_table, value_node, Node,
};
use crate::mode::Build;

verus! {

/// A document: each key with what its value holds.
pub type Document = Map<Seq<char>, Node>;

/// A setting that a document must hold in the right form, and does not.
#[derive(Clone, Copy, Debug, PartialEq, Eq, Structural)]
pub enum FieldError {
    /// `bind-addr` is missing or is not a string.
    BindAddr,
    /// `cors-origins` is there and is not an array of strings.
    CorsOrigins,
}

/// What is wrong with each setting, in words for the operator.
pub open spec fn field_message(error: FieldError) -> Seq<char> {
    match error {
        FieldError::BindAddr => "`bind-addr` is missing or is not a string"@,
        FieldError::CorsOrigins => "`cors-origins` is not an array of strings"@,
    }
}

impl FieldError {
    /// What is wrong, in words for the operator.
    pub fn message(self) -> (text: &'static str)
        ensures
            text@ == field_message(self),
    {
        match self {
            FieldError::BindAddr => "`bind-addr` is missing or is not a string",
            FieldError::CorsOrigins => "`cors-origins` is not an array of strings",
        }
    }
}

/// The reason for which a text is no configuration.
pub enum ParseError {
    /// The text is no TOML document.
    Syntax(toml::de::Error),
    /// The document lacks a setting, or holds it in the wrong form.
    Field(FieldError),
}

/// The string under a key, where the key is there and holds a string.
pub open spec fn text_at(doc: Document, key: Seq<char>) -> Option<Seq<char>> {
    if doc.contains_key(key) {
        match doc[key] {
            Node::Text(text) => Some(text),
            _ => None,
        }
    } else {
        None
    }
}

/// The table under a key, where the key is there and holds a table.
pub open spec fn table_at(doc: Document, key: Seq<char>) -> Option<Document> {
    if doc.contains_key(key) {
        match doc[key] {
            Node::Table(inner) => Some(inner),
            _ => None,
        }
    } else {
        None
    }
}

/// Every item is a string.
pub open spec fn all_text(nodes: Seq<Node>) -> bool {
    forall|i: int| 0 <= i < nodes.len() ==> (#[trigger] nodes[i]) is Text
}

/// The strings of a list of string items.
pub open spec fn node_texts(nodes: Seq<Node>) -> Seq<Seq<char>> {
    nodes.map_values(|node: Node| node->Text_0)
}

/// The string items that hold the given strings.
pub open spec fn text_nodes(texts: Seq<Seq<char>>) -> Seq<Node> {
    texts.map_values(|text: Seq<char>| Node::Text(text))
}

/// The region that a table describes: it needs `region` and `endpoint`,
/// both strings.
pub open spec fn decode_region(doc: Document) -> Option<RegionView> {
    match (text_at(doc, "region"@), text_at(doc, "endpoint"@)) {
        (Some(region), Some(endpoint)) => Some(RegionView { region, endpoint }),
        _ => None,
    }
}

/// The key pair that a table describes: it needs `access-key` and
/// `secret-key`, both strings.
pub open spec fn decode_credentials(doc: Document) -> Option<CredentialsView> {
    match (text_at(doc, "access-key"@), text_at(doc, "secret-key"@)) {
        (Some(access_key), Some(secret_key)) => Some(CredentialsView { access_key, secret_key }),
        _ => None,
    }
}

/// The bucket connection that a table describes: it needs the string
/// `name` and the tables `region` and `credentials`, each complete.
pub open spec fn decode_bucket(doc: Document) -> Option<BucketInfoView> {
    match (text_at(doc, "name"@), table_at(doc, "region"@), table_at(doc, "credentials"@)) {
        (Some(name), Some(region), Some(credentials)) => match (
            decode_region(region),
            decode_credentials(credentials),
        ) {
            (Some(region), Some(credentials)) => Some(BucketInfoView { name, region, credentials }),
            _ => None,
        },
        _ => None,
    }
}

/// The bucket connection of a document. One that is missing, or that is
/// there in part or in the wrong form, counts as not given.
pub open spec fn decode_bucket_info(doc: Document) -> Option<BucketInfoView> {
    match table_at(doc, "bucket-info"@) {
        Some(inner) => decode_bucket(inner),
        None => None,
    }
}

/// The allowed origins of a document: the profile's own where the key is
/// missing, the strings of the array where it holds one, and `None` where
/// it holds anything else.
pub open spec fn decode_cors_origins(doc: Document, build: Build) -> Option<Seq<Seq<char>>> {
    if doc.contains_key("cors-origins"@) {
        match doc["cors-origins"@] {
            Node::List(nodes) => if all_text(nodes) {
                Some(node_texts(nodes))
            } else {
                None
            },
            _ => None,
        }
    } else {
        Some(default_partial(build).cors_origins)
    }
}

/// The configuration that a document describes. The bind address is
/// looked at first, then the allowed origins; the bucket connection is
/// never a reason to refuse the document.
pub open spec fn decode_document(doc: Document, build: Build) -> Result<PartialView, FieldError> {
    match text_at(doc, "bind-addr"@) {
        None => Err(FieldError::BindAddr),
        Some(bind_addr) => match decode_cors_origins(doc, build) {
            None => Err(FieldError::CorsOrigins),
            Some(cors_origins) => Ok(
                PartialView { bind_addr, cors_origins, bucket_info: decode_bucket_info(doc) },
            ),
        },
    }
}

/// The table that describes a region.
pub open spec fn encode_region(region: RegionView) -> Document {
    Map::<Seq<char>, Node>::empty().insert("region"@, Node::Text(region.region)).insert(
        "endpoint"@,
        Node::Text(region.endpoint),
    )
}

/// The table that describes a key pair.
pub open spec fn encode_credentials(credentials: CredentialsView) -> Document {
    Map::<Seq<char>, Node>::empty().insert(
        "access-key"@,
        Node::Text(credentials.access_key),
    ).insert("secret-key"@, Node::Text(credentials.secret_key))
}

/// The table that describes a bucket connection.
pub open spec fn encode_bucket(info: BucketInfoView) -> Document {
    Map::<Seq<char>, Node>::empty().insert("name"@, Node::Text(info.name)).insert(
        "region"@,
        Node::Table(encode_region(info.region)),
    ).insert("credentials"@, Node::Table(encode_credentials(info.credentials)))
}

/// The document that describes a complete configuration.
pub open spec fn encode_document(config: ServerConfigView) -> Document {
    Map::<Seq<char>, Node>::empty().insert("bind-addr"@, Node::Text(config.bind_addr)).insert(
        "cors-origins"@,
        Node::List(text_nodes(config.cors_origins)),
    ).insert("bucket-info"@, Node::Table(encode_bucket(config.bucket_info)))
}

fn text_field(table: &toml::Table, key: &str) -> (found: Option<String>)
    ensures
        match found {
            Some(text) => text_at(table_nodes(*table), key@) == Some(text@),
            None => text_at(table_nodes(*table), key@) is None,
        },
{
    match table_get(table, key) {
        Some(value) => match value_as_str(value) {
            Some(text) => Some(text.to_owned()),
            None => None,
        },
        None => None,
    }
}

fn table_field<'a>(table: &'a toml::Table, key: &str) -> (found: Option<&'a toml::Table>)
    ensures
        match found {
            Some(inner) => table_at(table_nodes(*table), key@) == Some(table_nodes(*inner)),
            None => table_at(table_nodes(*table), key@) is None,
        },
{
    match table_get(table, key) {
        Some(value) => value_as_table(value),
        None => None,
    }
}

fn text_list(items: &Vec<toml::Value>) -> (found: Option<Vec<String>>)
    ensures
        match found {
            Some(list) => all_text(nodes_of(items@)) && texts_of(list@) == node_texts(
                nodes_of(items@),
            ),
            None => !all_text(nodes_of(items@)),
        },
{
    let mut list: Vec<String> = Vec::new();
    let mut i: usize = 0;
    while i < items.len()
        invariant
            i <= items.len(),
            list.len() == i,
            forall|j: int| 0 <= j < i ==> (#[trigger] nodes_of(items@)[j]) == Node::Text(list@[j]@),
        decreases items.len() - i,
    {
        match value_as_str(&items[i]) {
            Some(text) => {
                list.push(text.to_owned());
            },
            None => {
                assert(!(nodes_of(items@)[i as int] is Text));
                return None;
            },
        }
        i = i + 1;
    }
    assert(texts_of(list@) =~= node_texts(nodes_of(items@)));
    Some(list)
}

fn region_of(table: &toml::Table) -> (found: Option<RegionWrapper>)
    ensures
        match found {
            Some(region) => decode_region(table_nodes(*table)) == Some(region@),
            None => decode_region(table_nodes(*table)) is None,
        },
{
    match (text_field(table, "region"), text_field(table, "endpoint")) {
        (Some(region), Some(endpoint)) => Some(RegionWrapper::new(region, endpoint)),
        _ => None,
    }
}

fn credentials_of(table: &toml::Table) -> (found: Option<Credentials>)
    ensures
        match found {
            Some(credentials) => decode_credentials(table_nodes(*table)) == Some(credentials@),
            None => decode_credentials(table_nodes(*table)) is None,
        },
{
    match (text_field(table, "access-key"), text_field(table, "secret-key")) {
        (Some(access_key), Some(secret_key)) => Some(Credentials::new(access_key, secret_key)),
        _ => None,
    }
}

fn bucket_of(table: &toml::Table) -> (found: Option<BucketInfo>)
    ensures
        match found {
            Some(info) => decode_bucket(table_nodes(*table)) == Some(info@),
            None => decode_bucket(table_nodes(*table)) is None,
        },
{
    let name = text_field(table, "name");
    let region = table_field(table, "region");
    let credentials = table_field(table, "credentials");
    match (name, region, credentials) {
        (Some(name), Some(region), Some(credentials)) => match (
            region_of(region),
            credentials_of(credentials),
        ) {
            (Some(region), Some(credentials)) => Some(BucketInfo::new(name, region, credentials)),
            _ => None,
        },
        _ => None,
    }
}

fn cors_origins_of(table: &toml::Table, build: Build) -> (found: Option<Vec<String>>)
    ensures
        match found {
            Some(list) => decode_cors_origins(table_nodes(*table), build) == Some(texts_of(list@)),
            None => decode_cors_origins(table_nodes(*table), build) is None,
        },
{
    match table_get(table, "cors-origins") {
        Some(value) => match value_as_array(value) {
            Some(items) => text_list(items),
            None => None,
        },
        None => Some(ServerConfigCliWrapper::default_by_build(build).cors_origins),
    }
}

/// Reads a configuration out of a parsed document.
///
/// `bind-addr` must be a string. `cors-origins` must be an array of
/// strings where it is there; where it is not, the profile's own list
/// stands. A bucket connection that is missing or incomplete is left out,
/// for the operator to supply. Other keys are not looked at.
pub fn decode(table: &toml::Table, build: Build) -> (decoded: Result<
    ServerConfigCliWrapper,
    FieldError,
>)
    ensures
        match decoded {
            Ok(partial) => decode_document(table_nodes(*table), build) == Ok::<
                PartialView,
                FieldError,
            >(partial@),
            Err(error) => decode_document(table_nodes(*table), build) == Err::<
                PartialView,
                FieldError,
            >(error),
        },
{
    let bind_addr = match text_field(table, "bind-addr") {
        Some(text) => text,
        None => {
            return Err(FieldError::BindAddr);
        },
    };
    let cors_origins = match cors_origins_of(table, build) {
        Some(list) => list,
        None => {
            return Err(FieldError::CorsOrigins);
        },
    };
    let bucket_info = match table_field(table, "bucket-info") {
        Some(inner) => bucket_of(inner),
        None => None,
    };
    Ok(ServerConfigCliWrapper { bind_addr, cors_origins, bucket_info })
}

fn region_table(region: &RegionWrapper) -> (made: toml::Table)
    ensures
        table_nodes(made) == encode_region(region@),
{
    let mut made = empty_table();
    table_insert(&mut made, "region".to_string(), text_value(region.region().to_owned()));
    table_insert(&mut made, "endpoint".to_string(), text_value(region.endpoint().to_owned()));
    made
}

fn credentials_table(credentials: &Credentials) -> (made: toml::Table)
    ensures
        table_nodes(made) == encode_credentials(credentials@),
{
    let mut made = empty_table();
    table_insert(&mut made, "access-key".to_string(), text_value(credentials.access_key.clone()));
    table_insert(&mut made, "secret-key".to_string(), text_value(credentials.secret_key.clone()));
    made
}

fn bucket_table(info: &BucketInfo) -> (made: toml::Table)
    ensures
        table_nodes(made) == encode_bucket(info@),
{
    let mut made = empty_table();
    table_insert(&mut made, "name".to_string(), text_value(info.name.clone()));
    table_insert(&mut made, "region".to_string(), table_value(region_table(&info.region)));
    table_insert(
        &mut made,
        "credentials".to_string(),
        table_value(credentials_table(&info.credentials)),
    );
    made
}

fn text_values(list: &Vec<String>) -> (values: Vec<toml::Value>)
    ensures
        nodes_of(values@) == text_nodes(texts_of(list@)),
{
    let mut values: Vec<toml::Value> = Vec::new();
    let mut i: usize = 0;
    while i < list.len()
        invariant
            i <= list.len(),
            values.len() == i,
            forall|j: int| 0 <= j < i ==> value_node(#[trigger] values@[j]) == Node::Text(list@[j]@),
        decreases list.len() - i,
    {
        values.push(text_value(list[i].clone()));
        i = i + 1;
    }
    assert(nodes_of(values@) =~= text_nodes(texts_of(list@)));
    values
}

/// Writes a complete configuration as a document, every setting under
/// its key.
pub fn encode(config: &ServerConfig) -> (made: toml::Table)
    ensures
        table_nodes(made) == encode_document(config@),
{
    let mut made = empty_table();
    table_insert(&mut made, "bind-addr".to_string(), text_value(config.bind_addr.clone()));
    table_insert(
        &mut made,
        "cors-origins".to_string(),
        list_value(text_values(&config.cors_origins)),
    );
    table_insert(
        &mut made,
        "bucket-info".to_string(),
        table_value(bucket_table(&config.bucket_info)),
    );
    made
}

/// Reads a configuration from the text of a configuration file.
///
/// A text that is no TOML gives `ParseError::Syntax`. A document gives
/// what [`decode`] finds in it.
pub fn parse(text: &str, build: Build) -> (parsed: Result<ServerConfigCliWrapper, ParseError>)
    ensures
        match toml_parse(text@) {
            None => parsed matches Err(ParseError::Syntax(_)),
            Some(doc) => match decode_document(doc, build) {
                Ok(partial) => parsed matches Ok(found) && found@ == partial,
                Err(error) => parsed matches Err(ParseError::Field(field)) && field == error,
            },
        },
{
    match parse_table(text) {
        Ok(table) => match decode(&table, build) {
            Ok(partial) => Ok(partial),
            Err(error) => Err(ParseError::Field(error)),
        },
        Err(error) => Err(ParseError::Syntax(error)),
    }
}

/// Writes a complete configuration as the text of a configuration file:
/// the text that the `toml` crate gives for the document of [`encode`],
/// or its error where it gives none.
pub fn render(config: &ServerConfig) -> (rendered: Result<String, toml::ser::Error>)
    ensures
        match rendered {
            Ok(text) => toml_text(encode_document(config@)) == Some(text@),
            Err(_) => toml_text(encode_document(config@)) is None,
        },
{
    let table = encode(config);
    render_table(&table)
}

/// Why a configuration was not written as text.
pub enum SaveError {
    /// The `toml` crate gave no text for the document.
    Render(toml::ser::Error),
    /// The text does not read back as the configuration that it was
    /// written from.
    Unstable,
}

/// The text is a TOML document that reads, under the profile, as the
/// given configuration: equal in every setting, the bucket connection
/// included.
pub open spec fn reads_back_as(text: Seq<char>, config: ServerConfigView, build: Build) -> bool {
    toml_parse(text) matches Some(doc) && decode_document(doc, build) == Ok::<
        PartialView,
        FieldError,
    >(read_back(config))
}

/// Writes a complete configuration as the text that is to be saved, and
/// holds the text to the round trip before it hands it out: the text of
/// [`render`] is read again as [`parse`] reads a file, and is given only
/// where that yields the configuration it was written from.
///
/// So whatever text comes back loads, under the same profile, as the
/// same configuration with nothing missing.
pub fn saved_text(config: &ServerConfig, build: Build) -> (saved: Result<String, SaveError>)
    ensures
        match saved {
            Ok(text) => toml_text(encode_document(config@)) == Some(text@) && reads_back_as(
                text@,
                config@,
                build,
            ),
            Err(SaveError::Render(_)) => toml_text(encode_document(config@)) is None,
            Err(SaveError::Unstable) => toml_text(encode_document(config@)) matches Some(text)
                && !reads_back_as(text, config@, build),
        },
{
    match render(config) {
        Err(error) => Err(SaveError::Render(error)),
        Ok(text) => {
            let stable = match parse(text.as_str(), build) {
                Ok(partial) => partial.holds(config),
                Err(_) => false,
            };
            if stable {
                Ok(text)
            } else {
                Err(SaveError::Unstable)
            }
        },
    }
}

/// Writing a complete configuration as a document and reading the
/// document gives the configuration back, equal in every setting, the
/// bucket connection included, under either profile.
pub proof fn decode_inverts_encode(config: ServerConfigView, build: Build)
    ensures
        decode_document(encode_document(config), build) == Ok::<PartialView, FieldError>(
            read_back(config),
        ),
{
    reveal_strlit("bind-addr");
    reveal_strlit("cors-origins");
    reveal_strlit("bucket-info");
    reveal_strlit("name");
    reveal_strlit("region");
    reveal_strlit("endpoint");
    reveal_strlit("credentials");
    reveal_strlit("access-key");
    reveal_strlit("secret-key");
    assert("bind-addr"@.len() == 9 && "cors-origins"@.len() == 12 && "bucket-info"@.len() == 11);
    assert("name"@.len() == 4 && "region"@.len() == 6 && "credentials"@.len() == 11);
    assert("endpoint"@.len() == 8);
    assert("access-key"@[0] == 'a' && "secret-key"@[0] == 's');
    let doc = encode_document(config);
    let nodes = text_nodes(config.cors_origins);
    assert(all_text(nodes));
    assert(node_texts(nodes) =~= config.cors_origins);
    assert(text_at(doc, "bind-addr"@) == Some(config.bind_addr));
    assert(decode_cors_origins(doc, build) == Some(config.cors_origins));
    let bucket = encode_bucket(config.bucket_info);
    assert(table_at(doc, "bucket-info"@) == Some(bucket));
    assert(decode_region(encode_region(config.bucket_info.region)) == Some(
        config.bucket_info.region,
    ));
    assert(decode_credentials(encode_credentials(config.bucket_info.credentials)) == Some(
        config.bucket_info.credentials,
    ));
    assert(text_at(bucket, "name"@) == Some(config.bucket_info.name));
    assert(table_at(bucket, "region"@) == Some(encode_region(config.bucket_info.region)));
    assert(table_at(bucket, "credentials"@) == Some(
        encode_credentials(config.bucket_info.credentials),
    ));
    assert(decode_bucket(bucket) == Some(config.bucket_info));
}

} // verus!
