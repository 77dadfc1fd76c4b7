use std::collections::HashMap;

use snowflake_api::error::SnowflakeApiError;
use snowflake_api::query::{assemble_batches, decode_rowset, plan_query_result, QueryPlan};
use snowflake_api::responses::{
    BaseRestResponse, ExecErrorResponseData, ExecResponse, ExecResponseChunk, ExecShapes,
    ExecVariant, QueryExecResponseData, select_exec_variant, AuthShapes, AuthVariant,
    select_auth_variant,
};

fn query_reply(returned: i64, rowset_base64: Option<&str>, urls: &[&str]) -> ExecResponse {
    let mut headers = HashMap::new();
    headers.insert("x-amz-server-side-encryption".to_string(), "AES256".to_string());
    ExecResponse::Query(BaseRestResponse {
        code: None,
        message: None,
        success: true,
        data: QueryExecResponseData {
            parameters: vec![],
            rowtype: vec![],
            rowset: None,
            rowset_base64: rowset_base64.map(str::to_string),
            total: returned,
            returned,
            query_id: "q".to_string(),
            database_provider: None,
            final_database_name: None,
            final_schema_name: None,
            final_warehouse_name: None,
            final_role_name: "PUBLIC".to_string(),
            number_of_binds: None,
            statement_type_id: 4096,
            version: 1,
            chunks: urls
                .iter()
                .map(|u| ExecResponseChunk { url: u.to_string(), row_count: 1, uncompressed_size: 10 })
                .collect(),
            qrmk: None,
            chunk_headers: headers,
        },
    })
}

#[test]
fn zero_rows_is_empty() {
    assert!(matches!(plan_query_result(query_reply(0, Some(""), &[])), Ok(QueryPlan::Empty)));
}

#[test]
fn chunks_are_planned_in_server_order() {
    match plan_query_result(query_reply(5, Some(""), &["https://store/0", "https://store/1"])) {
        Ok(QueryPlan::Tabular { rowset_base64, chunk_urls, chunk_headers }) => {
            assert_eq!(rowset_base64, "");
            assert_eq!(chunk_urls, vec!["https://store/0", "https://store/1"]);
            assert_eq!(chunk_headers.get("x-amz-server-side-encryption").map(String::as_str), Some("AES256"));
        }
        _ => panic!("expected a tabular plan"),
    }
}

#[test]
fn no_rowset_is_broken() {
    assert!(matches!(plan_query_result(query_reply(3, None, &[])), Err(SnowflakeApiError::BrokenResponse)));
}

#[test]
fn error_reply_is_api_error() {
    let reply = ExecResponse::Error(BaseRestResponse {
        code: Some("0042".to_string()),
        message: Some("bad sql".to_string()),
        success: false,
        data: ExecErrorResponseData {
            age: 0,
            error_code: "0042".to_string(),
            internal_error: false,
            line: None,
            pos: None,
            query_id: "q".to_string(),
            sql_state: "42000".to_string(),
        },
    });
    match plan_query_result(reply) {
        Err(SnowflakeApiError::ApiError(code, message)) => {
            assert_eq!(code, "0042");
            assert_eq!(message, "bad sql");
        }
        _ => panic!("expected an API error"),
    }
}

#[test]
fn batches_keep_chunk_order() {
    let r = assemble_batches(vec![0], vec![vec![1, 2], vec![], vec![3]]);
    assert_eq!(r, vec![0, 1, 2, 3]);
}

#[test]
fn rowset_decodes_base64() {
    assert_eq!(decode_rowset("").unwrap(), Vec::<u8>::new());
    assert_eq!(decode_rowset("AQID").unwrap(), vec![1, 2, 3]);
    assert!(matches!(decode_rowset("@@@"), Err(SnowflakeApiError::ResponseDeserializationError(_))));
}

#[test]
fn put_get_shape_wins_over_query() {
    let shapes = ExecShapes { put_get: true, async_query: false, multi_statement: false, query: true, error: true };
    assert_eq!(select_exec_variant(shapes), Some(ExecVariant::PutGet));
    let shapes = ExecShapes { put_get: false, async_query: false, multi_statement: false, query: true, error: true };
    assert_eq!(select_exec_variant(shapes), Some(ExecVariant::Query));
    let none = ExecShapes { put_get: false, async_query: false, multi_statement: false, query: false, error: false };
    assert_eq!(select_exec_variant(none), None);
}

#[test]
fn auth_shapes_in_order() {
    let shapes = AuthShapes { login: false, auth: false, renew: true, close: true, error: true };
    assert_eq!(select_auth_variant(shapes), Some(AuthVariant::Renew));
}
