//! The configuration model: connection, bucket and credential settings,
//! and the partial form that exists while the service starts.

use vstd::prelude::*;

use crate::bucket::{custom_region, make_custom_region};
use crate::mode::Build;

verus! {

/// The key pair that signs requests to the store.
pub struct Credentials {
    pub access_key: String,
    pub secret_key: String,
}

/// What a key pair holds.
pub struct CredentialsView {
    pub access_key: Seq<char>,
    pub secret_key: Seq<char>,
}

impl View for Credentials {
    type V = CredentialsView;

    open spec fn view(&self) -> CredentialsView {
        CredentialsView { access_key: self.access_key@, secret_key: self.secret_key@ }
    }
}

/// What stands in place of a key pair wherever one is shown.
pub open spec fn hidden_credentials() -> Seq<char> {
    "[Credentials hidden]"@
}

impl Credentials {
    pub fn new(access_key: String, secret_key: String) -> (credentials: Self)
        ensures
            credentials@ == (CredentialsView { access_key: access_key@, secret_key: secret_key@ }),
    {
        Self { access_key, secret_key }
    }

    /// The text that shows a key pair in logs and diagnostics. It is the
    /// same for every key pair, so neither key can be read from it.
    pub fn redacted(&self) -> (shown: String)
        ensures
            shown@ == hidden_credentials(),
    {
        "[Credentials hidden]".to_string()
    }
}

impl Credentials {
    /// Whether two key pairs hold the same keys.
    pub fn same_as(&self, other: &Credentials) -> (same: bool)
        ensures
            same == (self@ == other@),
    {
        self.access_key == other.access_key && self.secret_key == other.secret_key
    }
}

impl Clone for Credentials {
    fn clone(&self) -> (copy: Self)
        ensures
            copy@ == self@,
    {
        Self { access_key: self.access_key.clone(), secret_key: self.secret_key.clone() }
    }
}

/// A storage region that is not one of the store library's own: an
/// identifier and the endpoint that serves it.
pub struct RegionWrapper {
    region: String,
    endpoint: String,
}

/// What a region descriptor holds.
pub struct RegionView {
    pub region: Seq<char>,
    pub endpoint: Seq<char>,
}

impl View for RegionWrapper {
    type V = RegionView;

    closed spec fn view(&self) -> RegionView {
        RegionView { region: self.region@, endpoint: self.endpoint@ }
    }
}

impl RegionWrapper {
    pub fn new(region: String, endpoint: String) -> (wrapper: Self)
        ensures
            wrapper@ == (RegionView { region: region@, endpoint: endpoint@ }),
    {
        Self { region, endpoint }
    }

    /// The store library's region for this descriptor: a custom region
    /// with the same identifier and endpoint.
    pub fn into_region(self) -> (made: s3::Region)
        ensures
            made == custom_region(self@.region, self@.endpoint),
    {
        make_custom_region(self.region, self.endpoint)
    }

    /// The region identifier.
    pub fn region(&self) -> (region: &str)
        ensures
            region@ == self@.region,
    {
        self.region.as_str()
    }

    /// The endpoint URL.
    pub fn endpoint(&self) -> (endpoint: &str)
        ensures
            endpoint@ == self@.endpoint,
    {
        self.endpoint.as_str()
    }
}

impl RegionWrapper {
    /// Whether two descriptors hold the same identifier and endpoint.
    pub fn same_as(&self, other: &RegionWrapper) -> (same: bool)
        ensures
            same == (self@ == other@),
    {
        self.region == other.region && self.endpoint == other.endpoint
    }
}

impl Clone for RegionWrapper {
    fn clone(&self) -> (copy: Self)
        ensures
            copy@ == self@,
    {
        Self { region: self.region.clone(), endpoint: self.endpoint.clone() }
    }
}

/// Everything that is needed to reach one bucket.
pub struct BucketInfo {
    pub name: String,
    pub region: RegionWrapper,
    pub credentials: Credentials,
}

/// What a bucket connection holds.
pub struct BucketInfoView {
    pub name: Seq<char>,
    pub region: RegionView,
    pub credentials: CredentialsView,
}

impl View for BucketInfo {
    type V = BucketInfoView;

    open spec fn view(&self) -> BucketInfoView {
        BucketInfoView {
            name: self.name@,
            region: self.region@,
            credentials: self.credentials@,
        }
    }
}

impl BucketInfo {
    pub fn new(name: String, region: RegionWrapper, credentials: Credentials) -> (info: Self)
        ensures
            info@ == (BucketInfoView {
                name: name@,
                region: region@,
                credentials: credentials@,
            }),
    {
        Self { name, region, credentials }
    }
}

impl BucketInfo {
    /// Whether two bucket connections agree in every setting.
    pub fn same_as(&self, other: &BucketInfo) -> (same: bool)
        ensures
            same == (self@ == other@),
    {
        self.name == other.name && self.region.same_as(&other.region) && self.credentials.same_as(
            &other.credentials,
        )
    }
}

impl Clone for BucketInfo {
    fn clone(&self) -> (copy: Self)
        ensures
            copy@ == self@,
    {
        Self {
            name: self.name.clone(),
            region: self.region.clone(),
            credentials: self.credentials.clone(),
        }
    }
}

/// The texts of a list of strings, in order.
pub open spec fn texts_of(list: Seq<String>) -> Seq<Seq<char>> {
    list.map_values(|s: String| s@)
}

/// Whether two lists hold the same texts in the same order.
pub fn same_texts(one: &Vec<String>, other: &Vec<String>) -> (same: bool)
    ensures
        same == (texts_of(one@) == texts_of(other@)),
{
    if one.len() != other.len() {
        assert(texts_of(one@).len() != texts_of(other@).len());
        return false;
    }
    let mut i: usize = 0;
    while i < one.len()
        invariant
            i <= one.len(),
            one.len() == other.len(),
            forall|j: int| 0 <= j < i ==> (#[trigger] one@[j])@ == other@[j]@,
        decreases one.len() - i,
    {
        if one[i] != other[i] {
            assert(texts_of(one@)[i as int] != texts_of(other@)[i as int]);
            return false;
        }
        i = i + 1;
    }
    assert(texts_of(one@) =~= texts_of(other@));
    true
}

/// The adjustable settings of the service, complete.
///
/// The bind address is kept as the text `host:port`, as the configuration
/// file holds it.
pub struct ServerConfig {
    pub bind_addr: String,
    pub cors_origins: Vec<String>,
    pub bucket_info: BucketInfo,
}

/// What a complete configuration holds.
pub struct ServerConfigView {
    pub bind_addr: Seq<char>,
    pub cors_origins: Seq<Seq<char>>,
    pub bucket_info: BucketInfoView,
}

impl View for ServerConfig {
    type V = ServerConfigView;

    open spec fn view(&self) -> ServerConfigView {
        ServerConfigView {
            bind_addr: self.bind_addr@,
            cors_origins: texts_of(self.cors_origins@),
            bucket_info: self.bucket_info@,
        }
    }
}

/// Which origins other than the service's own may read its responses.
pub enum CorsPolicy<'a> {
    /// Any origin.
    Unrestricted,
    /// The listed origins and no other.
    Origins(&'a Vec<String>),
}

/// Whether a list of allowed origins leaves cross-origin access open to
/// all: so in development, as long as no origin is listed. In production
/// only listed origins have access.
pub open spec fn unrestricted(build: Build, origins: Seq<Seq<char>>) -> bool {
    build == Build::Development && origins.len() == 0
}

impl ServerConfig {
    /// The policy on cross-origin access under the given profile.
    pub fn cors_policy(&self, build: Build) -> (policy: CorsPolicy<'_>)
        ensures
            match policy {
                CorsPolicy::Unrestricted => unrestricted(build, self@.cors_origins),
                CorsPolicy::Origins(list) => !unrestricted(build, self@.cors_origins) && *list
                    == self.cors_origins,
            },
    {
        match build {
            Build::Development => if self.cors_origins.len() == 0 {
                CorsPolicy::Unrestricted
            } else {
                CorsPolicy::Origins(&self.cors_origins)
            },
            Build::Production => CorsPolicy::Origins(&self.cors_origins),
        }
    }

    pub fn new(bind_addr: String, cors_origins: Vec<String>, bucket_info: BucketInfo) -> (config:
        Self)
        ensures
            config@ == (ServerConfigView {
                bind_addr: bind_addr@,
                cors_origins: texts_of(cors_origins@),
                bucket_info: bucket_info@,
            }),
    {
        Self { bind_addr, cors_origins, bucket_info }
    }
}

/// The settings as they are while the service starts: the bucket
/// connection may still be missing.
pub struct ServerConfigCliWrapper {
    pub bind_addr: String,
    pub cors_origins: Vec<String>,
    pub bucket_info: Option<BucketInfo>,
}

/// What a partial configuration holds.
pub struct PartialView {
    pub bind_addr: Seq<char>,
    pub cors_origins: Seq<Seq<char>>,
    pub bucket_info: Option<BucketInfoView>,
}

impl View for ServerConfigCliWrapper {
    type V = PartialView;

    open spec fn view(&self) -> PartialView {
        PartialView {
            bind_addr: self.bind_addr@,
            cors_origins: texts_of(self.cors_origins@),
            bucket_info: match self.bucket_info {
                Some(info) => Some(info@),
                None => None,
            },
        }
    }
}

/// What the operator typed when asked for a bucket connection.
pub struct BucketAnswers {
    pub region: String,
    pub endpoint: String,
    pub name: String,
    pub access_key: String,
    pub secret_key: String,
}

/// The bucket connection that a set of answers describes.
pub open spec fn bucket_from_answers(answers: BucketAnswers) -> BucketInfoView {
    BucketInfoView {
        name: answers.name@,
        region: RegionView { region: answers.region@, endpoint: answers.endpoint@ },
        credentials: CredentialsView {
            access_key: answers.access_key@,
            secret_key: answers.secret_key@,
        },
    }
}

/// The bind address that a profile starts from.
pub open spec fn default_bind_addr(build: Build) -> Seq<char> {
    match build {
        Build::Development => "127.0.0.1:8080"@,
        Build::Production => "0.0.0.0:8080"@,
    }
}

/// The settings that a profile starts from: its bind address, no allowed
/// origin and no bucket connection.
pub open spec fn default_partial(build: Build) -> PartialView {
    PartialView {
        bind_addr: default_bind_addr(build),
        cors_origins: Seq::empty(),
        bucket_info: None,
    }
}

/// The complete configuration that a partial one gives: its own bucket
/// connection where it has one, else the one that the answers describe.
pub open spec fn completed(partial: PartialView, answers: BucketAnswers) -> ServerConfigView {
    ServerConfigView {
        bind_addr: partial.bind_addr,
        cors_origins: partial.cors_origins,
        bucket_info: match partial.bucket_info {
            Some(info) => info,
            None => bucket_from_answers(answers),
        },
    }
}

/// A complete configuration seen as a partial one: the same settings,
/// with the bucket connection given.
pub open spec fn read_back(config: ServerConfigView) -> PartialView {
    PartialView {
        bind_addr: config.bind_addr,
        cors_origins: config.cors_origins,
        bucket_info: Some(config.bucket_info),
    }
}

impl ServerConfigCliWrapper {
    /// Whether this holds every setting of a complete configuration, the
    /// bucket connection included, and each with the same value.
    pub fn holds(&self, config: &ServerConfig) -> (same: bool)
        ensures
            same == (self@ == read_back(config@)),
    {
        match &self.bucket_info {
            None => false,
            Some(info) => self.bind_addr == config.bind_addr && same_texts(
                &self.cors_origins,
                &config.cors_origins,
            ) && info.same_as(&config.bucket_info),
        }
    }

    pub fn new(bind_addr: String, cors_origins: Vec<String>) -> (partial: Self)
        ensures
            partial@ == (PartialView {
                bind_addr: bind_addr@,
                cors_origins: texts_of(cors_origins@),
                bucket_info: None,
            }),
    {
        Self { bind_addr, cors_origins, bucket_info: None }
    }

    /// The starting point of a development deployment: the loopback
    /// interface, port 8080.
    pub fn default_development() -> (partial: Self)
        ensures
            partial@ == default_partial(Build::Development),
    {
        let partial = Self::new("127.0.0.1:8080".to_string(), Vec::new());
        assert(partial@.cors_origins =~= Seq::empty());
        partial
    }

    /// The starting point of a production deployment: every interface,
    /// port 8080.
    pub fn default_production() -> (partial: Self)
        ensures
            partial@ == default_partial(Build::Production),
    {
        let partial = Self::new("0.0.0.0:8080".to_string(), Vec::new());
        assert(partial@.cors_origins =~= Seq::empty());
        partial
    }

    /// The starting point of the given profile.
    pub fn default_by_build(build: Build) -> (partial: Self)
        ensures
            partial@ == default_partial(build),
    {
        match build {
            Build::Development => Self::default_development(),
            Build::Production => Self::default_production(),
        }
    }

    /// The complete configuration, where nothing is missing; else the
    /// partial one, unchanged, for the operator to complete.
    pub fn into_server_config(self) -> (outcome: Result<ServerConfig, Self>)
        ensures
            match outcome {
                Ok(config) => self@.bucket_info == Some(config@.bucket_info) && config@.bind_addr
                    == self@.bind_addr && config@.cors_origins == self@.cors_origins,
                Err(partial) => self@.bucket_info is None && partial == self,
            },
    {
        match self.bucket_info {
            Some(info) => Ok(ServerConfig::new(self.bind_addr, self.cors_origins, info)),
            None => Err(self),
        }
    }

    /// Completes the configuration with what the operator answered. The
    /// answers are used only where the bucket connection is missing.
    pub fn into_server_config_prompted(self, answers: BucketAnswers) -> (config: ServerConfig)
        ensures
            config@ == completed(self@, answers),
    {
        let bucket_info = match self.bucket_info {
            Some(info) => info,
            None => BucketInfo::new(
                answers.name,
                RegionWrapper::new(answers.region, answers.endpoint),
                Credentials::new(answers.access_key, answers.secret_key),
            ),
        };
        ServerConfig::new(self.bind_addr, self.cors_origins, bucket_info)
    }
}

} // verus!
