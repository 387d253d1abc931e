use datasink::validation::{is_valid_database_url, validate_database_url, validate_database_url_with};

#[test]
fn test_validate_sqlite_urls() {
    assert_eq!(validate_database_url("sqlite://test.db").unwrap(), "sqlite://test.db");
    assert_eq!(validate_database_url("sqlite://data/test.db").unwrap(), "sqlite://data/test.db");
    assert_eq!(validate_database_url("test.db").unwrap(), "sqlite://test.db");
    assert_eq!(validate_database_url("test").unwrap(), "sqlite://test.db");
    assert_eq!(validate_database_url("data/test").unwrap(), "sqlite://data/test.db");
}

#[test]
fn test_validate_other_urls() {
    assert_eq!(validate_database_url("postgres://localhost/mydb").unwrap(), "postgres://localhost/mydb");
    assert_eq!(validate_database_url("mysql://localhost/mydb").unwrap(), "mysql://localhost/mydb");
}

#[test]
fn test_invalid_urls() {
    assert!(validate_database_url("invalid://test").is_err());
    assert!(validate_database_url("sqlite://").is_err());
}

#[test]
fn validate_error_messages() {
    assert_eq!(
        validate_database_url("sqlite://").unwrap_err(),
        "SQLite URL must specify a database file path"
    );
    assert_eq!(
        validate_database_url("invalid://test").unwrap_err(),
        "Unsupported database URL scheme: invalid://test"
    );
}

#[test]
fn validate_existing_file_keeps_name() {
    assert_eq!(validate_database_url_with("sqlite://mydata", true).unwrap(), "sqlite://mydata");
    assert_eq!(validate_database_url_with("mydata", true).unwrap(), "sqlite://mydata");
    assert_eq!(validate_database_url_with("mydata", false).unwrap(), "sqlite://mydata.db");
}

#[test]
fn validity_check() {
    assert!(is_valid_database_url("test.db"));
    assert!(!is_valid_database_url("ftp://host/file"));
}
