use journai::connection::{ConnectionSettings, PostgresDatabase, CREATE_ENTRIES_MESSAGE_INDEX};
use journai::model::{llm_model, APIError, DbError};

fn settings() -> ConnectionSettings {
    ConnectionSettings {
        database_type: Some("postgresql".to_string()),
        user: None,
        password: None,
        host: None,
        port: None,
        database: None,
    }
}

#[test]
fn connection_url_uses_defaults() {
    let urls = PostgresDatabase::connection_urls(&settings()).unwrap();
    assert_eq!(urls.url, "postgres://journai@localhost:5432/journai");
    assert_eq!(urls.masked_url, urls.url);
}

#[test]
fn connection_url_masks_password() {
    let mut s = settings();
    s.user = Some("u".to_string());
    s.password = Some("secret".to_string());
    s.host = Some("db".to_string());
    s.port = Some("+06543".to_string());
    s.database = Some("logs".to_string());
    let urls = PostgresDatabase::connection_urls(&s).unwrap();
    assert_eq!(urls.url, "postgres://u:secret@db:6543/logs");
    assert_eq!(urls.masked_url, "postgres://u:***@db:6543/logs");
}

#[test]
fn connection_requires_postgres_and_valid_port() {
    let mut s = settings();
    s.database_type = None;
    match PostgresDatabase::connection_urls(&s) {
        Err(DbError::ConnectionFailure(m)) => {
            assert_eq!(m, "PostgreSQL was not selected as database type")
        }
        other => panic!("unexpected {:?}", other),
    }
    let mut s = settings();
    s.port = Some("65536".to_string());
    match PostgresDatabase::connection_urls(&s) {
        Err(DbError::ConnectionFailure(m)) => assert_eq!(m, "Invalid DATABASE_PORT value"),
        other => panic!("unexpected {:?}", other),
    }
}

#[test]
fn schema_skips_trigram_index_without_extension() {
    let all = PostgresDatabase::schema_statements(true);
    assert_eq!(all.len(), 8);
    let without = PostgresDatabase::schema_statements(false);
    assert_eq!(without.len(), 7);
    assert!(!without.contains(&CREATE_ENTRIES_MESSAGE_INDEX));
    assert!(all.contains(&CREATE_ENTRIES_MESSAGE_INDEX));
}

#[test]
fn model_setting_is_required() {
    assert_eq!(llm_model(Some("gpt".to_string())).unwrap(), "gpt");
    match llm_model(None) {
        Err(APIError::Other(m)) => assert_eq!(m, "JOURNAI_LLM_MODEL env variable is not defined"),
        other => panic!("unexpected {:?}", other),
    }
}
