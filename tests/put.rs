use snowflake_api::error::SnowflakeApiError;
use snowflake_api::put::{s3_target, split_location, upload_parallelism};
use snowflake_api::responses::{
    AwsCredentials, AwsPutGetStageInfo, AzureCredentials, AzurePutGetStageInfo, PutGetStageInfo,
};
use snowflake_api::upload_files::{download_paths, partition_files, upload_key, UploadFiles};

fn aws(location: &str) -> PutGetStageInfo {
    PutGetStageInfo::Aws(AwsPutGetStageInfo {
        location_type: "S3".to_string(),
        location: location.to_string(),
        region: "us-west-2".to_string(),
        creds: AwsCredentials {
            aws_key_id: "id".to_string(),
            aws_secret_key: "secret".to_string(),
            aws_token: "token".to_string(),
            aws_id: "id".to_string(),
            aws_key: "key".to_string(),
        },
        end_point: None,
    })
}

#[test]
fn files_are_bucketed_by_threshold() {
    let files = vec![("a.csv".to_string(), 50), ("b.csv".to_string(), 200), ("c.csv".to_string(), 100)];
    let sorted = partition_files(files, 100);
    assert_eq!(sorted.small_files, vec!["a.csv", "c.csv"]);
    assert_eq!(sorted.large_files, vec!["b.csv"]);
}

#[test]
fn negative_threshold_makes_all_large() {
    let files = vec![("empty".to_string(), 0), ("b".to_string(), 5)];
    let sorted = partition_files(files, -1);
    assert!(sorted.small_files.is_empty());
    assert_eq!(sorted.large_files, vec!["empty", "b"]);
}

#[test]
fn push_file_sorts_one_file() {
    let mut files = UploadFiles::new(10);
    files.push_file("x".to_string(), 10);
    files.push_file("y".to_string(), 11);
    assert_eq!(files.small_files, vec!["x"]);
    assert_eq!(files.large_files, vec!["y"]);
}

#[test]
fn upload_key_joins_prefix_and_name() {
    assert_eq!(upload_key("/tmp/data/a.csv", "stage/path/").unwrap(), "stage/path/a.csv");
    assert_eq!(upload_key("b.csv", "").unwrap(), "b.csv");
    assert!(matches!(upload_key("/", "p/"), Err(SnowflakeApiError::InvalidLocalPath(_))));
}

#[test]
fn location_splits_at_first_slash() {
    assert_eq!(
        split_location("bucket/a/b/"),
        Some(("bucket".to_string(), "a/b/".to_string()))
    );
    assert_eq!(split_location("bucket"), None);
}

#[test]
fn aws_stage_gives_target() {
    let t = s3_target(aws("bucket/prefix/")).unwrap();
    assert_eq!(t.bucket_name, "bucket");
    assert_eq!(t.bucket_path, "prefix/");
    assert_eq!(t.region, "us-west-2");
    assert_eq!(t.aws_token, "token");
}

#[test]
fn stage_without_slash_is_invalid() {
    assert!(matches!(s3_target(aws("bucket")), Err(SnowflakeApiError::InvalidBucketPath(l)) if l == "bucket"));
}

#[test]
fn azure_stage_is_unimplemented() {
    let azure = PutGetStageInfo::Azure(AzurePutGetStageInfo {
        location_type: "AZURE".to_string(),
        location: "c/p/".to_string(),
        storage_account: "acct".to_string(),
        creds: AzureCredentials { azure_sas_token: "sas".to_string() },
    });
    assert!(matches!(s3_target(azure), Err(SnowflakeApiError::Unimplemented(_))));
}

#[test]
fn download_paths_concatenate() {
    let (src, dest) = download_paths("stage/", "/tmp/out/", "a.csv");
    assert_eq!(src, "stage/a.csv");
    assert_eq!(dest, "/tmp/out/a.csv");
}

#[test]
fn parallelism_is_capped_by_setting() {
    assert_eq!(upload_parallelism(8, 4), 4);
    assert_eq!(upload_parallelism(2, 4), 2);
    assert_eq!(upload_parallelism(0, 4), 4);
    assert_eq!(upload_parallelism(6, 0), 6);
    assert_eq!(upload_parallelism(-3, 0), 1);
}
