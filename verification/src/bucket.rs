//! The store client: one handle on one bucket, built from the bucket
//! connection of the configuration.
//!
//! The handle and what goes into it are the `s3` crate's own types. What
//! is assumed of each of its functions is stated on a small private
//! function that makes the call.

use vstd::prelude::*;

use s3::creds::error::CredentialsError;
use s3::creds::Credentials as KeyPair;
use s3::error::S3Error;
use s3::{Bucket, Region};

use crate::config::{BucketInfo, BucketInfoView};

verus! {

/// A handle on one bucket of a store.
#[verifier::external_type_specification]
#[verifier::external_body]
pub struct ExBucket(Bucket);

/// A storage region, built in or custom.
#[verifier::external_type_specification]
#[verifier::external_body]
pub struct ExRegion(Region);

/// The key material that signs requests.
#[verifier::external_type_specification]
#[verifier::external_body]
pub struct ExKeyPair(KeyPair);

/// The reason for which no key material could be had.
#[verifier::external_type_specification]
#[verifier::external_body]
pub struct ExCredentialsError(CredentialsError);

/// The reason for which the store library failed.
#[verifier::external_type_specification]
#[verifier::external_body]
pub struct ExS3Error(S3Error);

/// Why no store client could be built.
pub enum LoadBucketError {
    /// The key material is not fit to sign with.
    CredentialsError(CredentialsError),
    /// The region or endpoint gave no client.
    S3Error(S3Error),
}

/// The region `s3::Region::Custom` with the given identifier and endpoint.
pub uninterp spec fn custom_region(region: Seq<char>, endpoint: Seq<char>) -> Region;

/// The key material that `s3::creds::Credentials::new` makes of an access
/// key and a secret key, with no token and no profile.
pub uninterp spec fn key_pair(access_key: Seq<char>, secret_key: Seq<char>) -> KeyPair;

/// The handle that `s3::Bucket::new` makes for a bucket name, a region
/// and key material.
pub uninterp spec fn bucket_handle(name: Seq<char>, region: Region, keys: KeyPair) -> Bucket;

/// The handle on the bucket that a bucket connection describes.
pub open spec fn bucket_for(info: BucketInfoView) -> Bucket {
    bucket_handle(
        info.name,
        custom_region(info.region.region, info.region.endpoint),
        key_pair(info.credentials.access_key, info.credentials.secret_key),
    )
}

/// The variant `s3::Region::Custom`, which only stores its two strings.
#[verifier::external_body]
pub(crate) fn make_custom_region(region: String, endpoint: String) -> (made: Region)
    ensures
        made == custom_region(region@, endpoint@),
{
    Region::Custom { region, endpoint }
}

/// `s3::creds::Credentials::new` with both keys given and nothing else.
/// With an access key it looks nowhere else and cannot fail: it stores
/// the two keys.
#[verifier::external_body]
pub(crate) fn make_key_pair(access_key: &str, secret_key: &str) -> (made: Result<KeyPair, CredentialsError>)
    ensures
        made is Ok,
        made->Ok_0 == key_pair(access_key@, secret_key@),
{
    KeyPair::new(Some(access_key), Some(secret_key), None, None, None)
}

/// `s3::Bucket::new`. It stores the name, the region and the key material
/// beside fixed defaults and does not contact the store, so it cannot
/// fail.
#[verifier::external_body]
pub(crate) fn make_bucket(name: &str, region: Region, keys: KeyPair) -> (made: Result<Bucket, S3Error>)
    ensures
        made is Ok,
        made->Ok_0 == bucket_handle(name@, region, keys),
{
    Bucket::new(name, region, keys)
}

/// Builds the store client for a bucket connection: key material from
/// the two keys, the custom region from identifier and endpoint, and the
/// handle from these and the bucket's name. Nothing is sent to the store.
///
/// A failure of either step is handed on under its own variant. The
/// store library has neither fail on these arguments, so the client is
/// always there.
pub fn load_bucket(bucket_info: &BucketInfo) -> (loaded: Result<Bucket, LoadBucketError>)
    ensures
        loaded is Ok,
        loaded->Ok_0 == bucket_for(bucket_info@),
{
    let keys = match make_key_pair(
        bucket_info.credentials.access_key.as_str(),
        bucket_info.credentials.secret_key.as_str(),
    ) {
        Ok(keys) => keys,
        Err(error) => {
            return Err(LoadBucketError::CredentialsError(error));
        },
    };
    let region = bucket_info.region.clone().into_region();
    match make_bucket(bucket_info.name.as_str(), region, keys) {
        Ok(bucket) => Ok(bucket),
        Err(error) => Err(LoadBucketError::S3Error(error)),
    }
}

} // verus!
