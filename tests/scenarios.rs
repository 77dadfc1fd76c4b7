use std::sync::Arc;

use arrow::array::{Array, Int32Array};
use arrow::datatypes::{DataType, Field, Schema};
use arrow::ipc::reader::StreamReader;
use arrow::ipc::writer::StreamWriter;
use arrow::record_batch::RecordBatch;
use base64::Engine;

use snowflake_api::api::{exec_request, SnowflakeApi};
use snowflake_api::query::{classify_statement, decode_rowset, StatementKind};
use snowflake_api::responses::{AuthResponse, BaseRestResponse, LoginResponseData, SessionInfo};
use snowflake_api::session::{tokens_from_login, TokenAction};
use snowflake_api::upload_files::{partition_files, upload_key};

fn ipc_stream_of_a() -> Vec<u8> {
    let schema = Arc::new(Schema::new(vec![Field::new("A", DataType::Int32, false)]));
    let batch = RecordBatch::try_new(schema.clone(), vec![Arc::new(Int32Array::from(vec![1, 2, 3]))]).unwrap();
    let mut bytes = Vec::new();
    {
        let mut writer = StreamWriter::try_new(&mut bytes, &schema).unwrap();
        writer.write(&batch).unwrap();
        writer.finish().unwrap();
    }
    bytes
}

#[test]
fn inline_arrow_rowset_decodes_to_one_batch() {
    let ipc = ipc_stream_of_a();
    let text = base64::engine::general_purpose::STANDARD.encode(&ipc);
    let bytes = decode_rowset(&text).unwrap();
    assert_eq!(bytes, ipc);
    let batches: Vec<RecordBatch> = StreamReader::try_new(bytes.as_slice(), None)
        .unwrap()
        .collect::<Result<_, _>>()
        .unwrap();
    assert_eq!(batches.len(), 1);
    let col = batches[0].column_by_name("A").unwrap();
    let ints = col.as_any().downcast_ref::<Int32Array>().unwrap();
    assert_eq!(ints.values().to_vec(), vec![1, 2, 3]);
}

#[test]
fn put_of_two_files_with_threshold_100() {
    let files = vec![("/tmp/a.csv".to_string(), 50), ("/tmp/b.csv".to_string(), 200)];
    let sorted = partition_files(files, 100);
    assert_eq!(sorted.small_files, vec!["/tmp/a.csv"]);
    assert_eq!(sorted.large_files, vec!["/tmp/b.csv"]);
    assert_eq!(upload_key(&sorted.small_files[0], "prefix/").unwrap(), "prefix/a.csv");
    assert_eq!(upload_key(&sorted.large_files[0], "prefix/").unwrap(), "prefix/b.csv");
    assert_eq!(classify_statement("PUT file:///tmp/*.csv @stage"), StatementKind::Put);
}

#[test]
fn login_then_first_query_has_sequence_one() {
    let mut api = SnowflakeApi::with_password_auth("acme", None, None, None, "jane", None, "pw");
    assert!(api.session.tokens.tokens.is_none());
    assert_eq!(api.session.tokens.next_action(api.session.tokens.expiry()), TokenAction::Login);
    let reply = AuthResponse::Login(BaseRestResponse {
        code: None,
        message: None,
        success: true,
        data: LoginResponseData {
            session_id: 1,
            token: "s".to_string(),
            master_token: "m".to_string(),
            server_version: "8".to_string(),
            parameters: vec![],
            session_info: SessionInfo {
                database_name: None,
                schema_name: None,
                warehouse_name: None,
                role_name: "PUBLIC".to_string(),
            },
            master_validity_in_seconds: 14400,
            validity_in_seconds: 3600,
        },
    });
    api.session.tokens.install(tokens_from_login(reply).unwrap());
    let parts = api.session.tokens.issue().unwrap();
    let body = exec_request("select 1", &parts);
    assert_eq!(body.sequence_id, 1);
}
