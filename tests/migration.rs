use snowflake_api::migration::split_query;

#[test]
fn test_split_query() {
    let input = "-- SET previous_role = CURRENT_ROLE();\n-- SET previous_database = CURRENT_DATABASE();\n\n\nUSE ROLE SYSADMIN;\nCREATE OR REPLACE DATABASE test_db;\n\n-- Assume Snowflake ACCOUNTADMIN role\nUSE ROLE ACCOUNTADMIN;\n\n-- Create a new role 'test_role'\nCREATE OR REPLACE ROLE test_role;\n\n-- Grant some privileges to 'test_role'\nGRANT USAGE ON DATABASE test_db TO ROLE test_role;\nGRANT USAGE ON SCHEMA test_db.public TO ROLE test_role;\n\n\n-- Create a file format for CSV files\nCREATE OR REPLACE FILE FORMAT my_csv_format\n  TYPE = 'CSV'\n  FIELD_DELIMITER = ','\n  SKIP_HEADER = 1;\n\n/*\nUSE ROLE IDENTIFIER($previous_role);\nUSE DATABASE IDENTIFIER($previous_database);\n*/";
    let expected = vec!["USE ROLE SYSADMIN", "CREATE OR REPLACE DATABASE test_db", "USE ROLE ACCOUNTADMIN", "CREATE OR REPLACE ROLE test_role", "GRANT USAGE ON DATABASE test_db TO ROLE test_role", "GRANT USAGE ON SCHEMA test_db.public TO ROLE test_role", "CREATE OR REPLACE FILE FORMAT my_csv_format TYPE = 'CSV' FIELD_DELIMITER = ',' SKIP_HEADER = 1"];
    assert_eq!(expected, split_query(input));
}

#[test]
fn split_query_drops_inline_block_comments() {
    assert_eq!(vec!["SELECT 1", "SELECT 2"], split_query("SELECT /* one */1; /* two */ SELECT 2;"));
}

#[test]
fn split_query_keeps_unclosed_comment() {
    assert_eq!(vec!["SELECT 1", "/* open"], split_query("SELECT 1; /* open"));
}

#[test]
fn split_query_of_blank_script_is_empty() {
    assert!(split_query("  \n\r\n -- only a comment\n").is_empty());
}

#[test]
fn split_query_joins_lines_with_spaces() {
    assert_eq!(vec!["SELECT a FROM t"], split_query("SELECT a\r\n  FROM t\n;"));
}
