//! An S3-compatible backend: the handle to one bucket and the status rule
//! its responses are held to. The transport that carries requests to the
//! service lives outside the library; it reads the bucket handle through
//! [`Backend::bucket`] and judges every response with [`check_status`].

use vstd::prelude::*;

use s3::creds::Credentials;
use s3::{Bucket, Region};

verus! {

use vstd::string::StringExecFns;

use crate::{Error, ObjectMetadata};

#[verifier::external_type_specification]
#[verifier::external_body]
pub struct ExCredentials(s3::creds::Credentials);

#[verifier::external_type_specification]
#[verifier::external_body]
pub struct ExRegion(s3::Region);

#[verifier::external_type_specification]
#[verifier::external_body]
pub struct ExBucket(s3::Bucket);

/// Relies on s3::Bucket's derived Clone; the handle is opaque here, so
/// nothing is claimed of the copy.
pub assume_specification[ <s3::Bucket as core::clone::Clone>::clone ](b: &s3::Bucket) -> s3::Bucket;

/// Relies on s3::Region's FromStr: every string parses, known names to
/// their region and any other string to a custom region named by it.
#[verifier::external_body]
fn parse_region(region: &str) -> (r: Region) {
    match region.parse::<Region>() {
        Ok(region) => region,
        Err(_) => Region::Custom { region: region.to_string(), endpoint: region.to_string() },
    }
}

/// Relies on s3::Region::Custom: carries the given name and endpoint.
#[verifier::external_body]
fn custom_region(region: String, endpoint: String) -> (r: Region) {
    Region::Custom { region, endpoint }
}

/// Relies on s3::creds::Credentials::new: with an access key given it
/// builds the credentials from its arguments alone and cannot fail.
#[verifier::external_body]
fn new_credentials(access_key: &str, secret_key: &str) -> (r: Result<Credentials, Error>)
    ensures
        r is Ok,
{
    Credentials::new(Some(access_key), Some(secret_key), None, None, None)
        .map_err(|e| Error::Backend(format!("{e}")))
}

/// Relies on s3::Bucket::new: builds the handle to the named bucket, or
/// fails if its HTTP client cannot be set up.
#[verifier::external_body]
fn new_bucket(name: &str, region: Region, credentials: Credentials) -> (r: Result<Bucket, Error>) {
    match Bucket::new(name, region, credentials) {
        Ok(bucket) => Ok(*bucket),
        Err(e) => Err(Error::Backend(format!("{e}"))),
    }
}

/// The handle to one S3-compatible bucket.
#[derive(Clone, Debug)]
pub struct Backend {
    bucket: Bucket,
}

impl Backend {
    /// A handle to `bucket_name` in the named region, under the given keys.
    pub fn new(bucket_name: &str, region: &str, secret_key: &str, access_key: &str) -> (r: Result<
        Self,
        Error,
    >) {
        let region = parse_region(region);
        let creds = match new_credentials(secret_key, access_key) {
            Ok(creds) => creds,
            Err(e) => return Err(e),
        };
        match new_bucket(bucket_name, region, creds) {
            Ok(bucket) => Ok(Backend { bucket }),
            Err(e) => Err(e),
        }
    }

    // Provided as a workaround for a region the region list lacks
    pub fn new_israel(bucket_name: &str, secret_key: &str, access_key: &str) -> (r: Result<
        Self,
        Error,
    >) {
        let region = custom_region(
            "il-central-1".to_owned(),
            "s3.il-central-1.amazonaws.com".to_owned(),
        );
        let creds = match new_credentials(secret_key, access_key) {
            Ok(creds) => creds,
            Err(e) => return Err(e),
        };
        match new_bucket(bucket_name, region, creds) {
            Ok(bucket) => Ok(Backend { bucket }),
            Err(e) => Err(e),
        }
    }

    /// The bucket handle, for the transport that talks to the service.
    pub fn bucket(&self) -> &Bucket {
        &self.bucket
    }
}

/// Metadata for one listed S3 object: the key doubles as id and name.
pub fn s3_object_metadata(key: &str, last_modified: &str, size: u64) -> (m: ObjectMetadata)
    ensures
        m.id@ == key@,
        m.name@ == key@,
        m.last_modified@ == last_modified@,
        m.size == size,
{
    ObjectMetadata::new(key, key, last_modified, size)
}

/// The character for one decimal digit.
pub open spec fn digit_char(d: nat) -> char {
    if d == 0 {
        '0'
    } else if d == 1 {
        '1'
    } else if d == 2 {
        '2'
    } else if d == 3 {
        '3'
    } else if d == 4 {
        '4'
    } else if d == 5 {
        '5'
    } else if d == 6 {
        '6'
    } else if d == 7 {
        '7'
    } else if d == 8 {
        '8'
    } else {
        '9'
    }
}

/// The decimal digits of `n`, most significant first.
pub open spec fn decimal(n: nat) -> Seq<char>
    decreases n,
{
    if n < 10 {
        seq![digit_char(n)]
    } else {
        decimal(n / 10).push(digit_char(n % 10))
    }
}

fn push_digit(s: &mut String, d: u16)
    requires
        d < 10,
    ensures
        final(s)@ == old(s)@.push(digit_char(d as nat)),
{
    proof {
        reveal_strlit("0");
        reveal_strlit("1");
        reveal_strlit("2");
        reveal_strlit("3");
        reveal_strlit("4");
        reveal_strlit("5");
        reveal_strlit("6");
        reveal_strlit("7");
        reveal_strlit("8");
        reveal_strlit("9");
    }
    let digit: &str = if d == 0 {
        "0"
    } else if d == 1 {
        "1"
    } else if d == 2 {
        "2"
    } else if d == 3 {
        "3"
    } else if d == 4 {
        "4"
    } else if d == 5 {
        "5"
    } else if d == 6 {
        "6"
    } else if d == 7 {
        "7"
    } else if d == 8 {
        "8"
    } else {
        "9"
    };
    s.append(digit);
    proof {
        assert(final(s)@ =~= old(s)@.push(digit_char(d as nat)));
    }
}

fn push_decimal(s: &mut String, n: u16)
    ensures
        final(s)@ == old(s)@ + decimal(n as nat),
    decreases n,
{
    if n >= 10 {
        push_decimal(s, n / 10);
    }
    push_digit(s, n % 10);
    proof {
        assert(final(s)@ =~= old(s)@ + decimal(n as nat));
    }
}

/// Accept a response status below 300; reject any other as a backend
/// fault whose message is the status itself, written in decimal.
pub fn check_status(status_code: u16) -> (r: Result<(), Error>)
    ensures
        r is Ok <==> status_code < 300,
        r matches Err(e) ==> (e matches Error::Backend(msg) && msg@ == decimal(
            status_code as nat,
        )),
{
    if status_code < 300 {
        Ok(())
    } else {
        let mut msg = String::new();
        push_decimal(&mut msg, status_code);
        Err(Error::Backend(msg))
    }
}

} // verus!
