use vstd::prelude::*;
use vstd::string::{StrSliceExecFns, StringExecFns};

use crate::error::SnowflakeApiError;
use crate::query::is_api_error_of;
use crate::responses::{AwsPutGetStageInfo, ExecResponse, PutGetResponseData, PutGetStageInfo};
use crate::session::text_or_empty;

verus! {

/// The upload parallelism used unless the caller sets another.
pub const DEFAULT_MAX_PARALLEL_UPLOADS: usize = 4;

/// The size threshold, in bytes, used unless the caller sets another.
pub const DEFAULT_FILE_SIZE_THRESHOLD: i64 = 64_000_000;

/// How many small files go up at once: the configured limit, lowered to the
/// server's suggestion when that is positive and smaller; with no configured
/// limit (zero), the suggestion, and never fewer than one.
pub fn upload_parallelism(suggested: i32, configured: usize) -> (r: usize)
    ensures
        configured > 0 && suggested > 0 && (suggested as int) < configured ==> r == suggested as usize,
        configured > 0 && !(suggested > 0 && (suggested as int) < configured) ==> r == configured,
        configured == 0 && suggested > 0 ==> r == suggested as usize,
        configured == 0 && suggested <= 0 ==> r == 1,
{
    if configured > 0 {
        if suggested > 0 && (suggested as usize) < configured {
            suggested as usize
        } else {
            configured
        }
    } else if suggested > 0 {
        suggested as usize
    } else {
        1
    }
}

/// The staging descriptor of a reply to a PUT or GET; other replies are errors.
pub fn staging_descriptor(resp: ExecResponse) -> (r: Result<PutGetResponseData, SnowflakeApiError>)
    ensures
        match resp {
            ExecResponse::PutGet(pg) => r == Ok::<PutGetResponseData, SnowflakeApiError>(pg.data),
            ExecResponse::Error(e) => r matches Err(err) && is_api_error_of(err, e.data.error_code@, e.message),
            _ => r matches Err(SnowflakeApiError::UnexpectedResponse),
        },
{
    match resp {
        ExecResponse::PutGet(pg) => Ok(pg.data),
        ExecResponse::Error(e) => Err(SnowflakeApiError::ApiError(e.data.error_code, text_or_empty(e.message))),
        _ => Err(SnowflakeApiError::UnexpectedResponse),
    }
}

/// Where staged files go: an S3 bucket, a key prefix, and temporary credentials.
#[derive(Debug)]
pub struct S3Target {
    pub bucket_name: String,
    /// Prefix of object keys; ends in `/` when not empty.
    pub bucket_path: String,
    pub region: String,
    pub aws_key_id: String,
    pub aws_secret_key: String,
    pub aws_token: String,
}

/// Splits a stage location at its first `/` into bucket name and key prefix.
pub fn split_location(location: &str) -> (r: Option<(String, String)>)
    ensures
        match r {
            Some((name, path)) => exists|i: int|
                0 <= i < location@.len() && location@[i] == '/'
                && (forall|j: int| 0 <= j < i ==> location@[j] != '/')
                && name@ == location@.subrange(0, i)
                && path@ == location@.subrange(i + 1, location@.len() as int),
            None => forall|i: int| 0 <= i < location@.len() ==> location@[i] != '/',
        },
{
    let n = location.unicode_len();
    let mut i: usize = 0;
    while i < n
        invariant
            n == location@.len(),
            i <= n,
            forall|j: int| 0 <= j < i ==> location@[j] != '/',
        decreases n - i,
    {
        if location.get_char(i) == '/' {
            let name = String::from_str(location.substring_char(0, i));
            let path = String::from_str(location.substring_char(i + 1, n));
            return Some((name, path));
        }
        i = i + 1;
    }
    None
}

/// The S3 target of a stage; Azure and GCS stages are not supported.
pub fn s3_target(stage_info: PutGetStageInfo) -> (r: Result<S3Target, SnowflakeApiError>)
    ensures
        match stage_info {
            PutGetStageInfo::Aws(info) => match r {
                Ok(t) => t.bucket_name@ + "/"@ + t.bucket_path@ == info.location@
                    && !t.bucket_name@.contains('/')
                    && t.region == info.region
                    && t.aws_key_id == info.creds.aws_key_id
                    && t.aws_secret_key == info.creds.aws_secret_key
                    && t.aws_token == info.creds.aws_token,
                Err(e) => (e matches SnowflakeApiError::InvalidBucketPath(l) && l@ == info.location@)
                    && !info.location@.contains('/'),
            },
            _ => r matches Err(SnowflakeApiError::Unimplemented(_)),
        },
{
    match stage_info {
        PutGetStageInfo::Aws(info) => aws_target(info),
        PutGetStageInfo::Azure(_) => Err(
            SnowflakeApiError::Unimplemented(String::from_str("PUT local file requests for Azure")),
        ),
        PutGetStageInfo::Gcs(_) => Err(
            SnowflakeApiError::Unimplemented(String::from_str("PUT local file requests for GCS")),
        ),
    }
}

fn aws_target(info: AwsPutGetStageInfo) -> (r: Result<S3Target, SnowflakeApiError>)
    ensures
        match r {
            Ok(t) => t.bucket_name@ + "/"@ + t.bucket_path@ == info.location@
                && !t.bucket_name@.contains('/')
                && t.region == info.region
                && t.aws_key_id == info.creds.aws_key_id
                && t.aws_secret_key == info.creds.aws_secret_key
                && t.aws_token == info.creds.aws_token,
            Err(e) => (e matches SnowflakeApiError::InvalidBucketPath(l) && l@ == info.location@)
                && !info.location@.contains('/'),
        },
{
    match split_location(info.location.as_str()) {
        Some((bucket_name, bucket_path)) => {
            proof {
                reveal_strlit("/");
                let i = choose|i: int|
                    0 <= i < info.location@.len() && info.location@[i] == '/'
                    && (forall|j: int| 0 <= j < i ==> info.location@[j] != '/')
                    && bucket_name@ == info.location@.subrange(0, i)
                    && bucket_path@ == info.location@.subrange(i + 1, info.location@.len() as int);
                assert(bucket_name@ + "/"@ + bucket_path@ =~= info.location@);
                assert(!bucket_name@.contains('/')) by {
                    if bucket_name@.contains('/') {
                        let k = choose|k: int| 0 <= k < bucket_name@.len() && bucket_name@[k] == '/';
                        assert(info.location@[k] == '/');
                    }
                }
            }
            Ok(S3Target {
                bucket_name,
                bucket_path,
                region: info.region,
                aws_key_id: info.creds.aws_key_id,
                aws_secret_key: info.creds.aws_secret_key,
                aws_token: info.creds.aws_token,
            })
        },
        None => {
            proof {
                assert(!info.location@.contains('/')) by {
                    if info.location@.contains('/') {
                        let k = choose|k: int| 0 <= k < info.location@.len() && info.location@[k] == '/';
                    }
                }
            }
            Err(SnowflakeApiError::InvalidBucketPath(info.location))
        },
    }
}

} // verus!
