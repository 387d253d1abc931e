use datasink::cli::{find_or_create_db_url_among, Cli, Commands, ServerCommands};

fn cli(url: Option<&str>, name: Option<&str>) -> Cli {
    Cli {
        database_url: url.map(|s| s.to_string()),
        database_name: name.map(|s| s.to_string()),
        server_address: "http://127.0.0.1:50051".to_string(),
        verbose: false,
        command: Commands::Server { command: ServerCommands::Stop },
    }
}

#[test]
fn test_resolve_database_url_with_url() {
    let result = cli(Some("sqlite://custom.db"), None).resolve_database_url_with(None, None, &vec![]).unwrap();
    assert_eq!(result, "sqlite://custom.db");
}

#[test]
fn test_resolve_database_url_consistency_check_pass() {
    let result = cli(Some("sqlite://myapp.db"), Some("myapp"))
        .resolve_database_url_with(None, None, &vec![])
        .unwrap();
    assert_eq!(result, "sqlite://myapp.db");
}

#[test]
fn test_resolve_database_url_consistency_check_fail() {
    let result = cli(Some("sqlite://other.db"), Some("myapp")).resolve_database_url_with(None, None, &vec![]);
    assert!(result.is_err());
    assert!(result.unwrap_err().contains("Inconsistent database configuration"));
}

#[test]
fn test_resolve_database_url_default() {
    let result = cli(None, None).resolve_database_url_with(None, None, &vec![]).unwrap();
    assert_eq!(result, "sqlite://datasink.db");
}

#[test]
fn test_resolve_database_url_with_name() {
    let result = cli(None, Some("testdb")).resolve_database_url_with(None, None, &vec![]).unwrap();
    assert_eq!(result, "sqlite://testdb.db");
}

#[test]
fn test_case_insensitive_database_matching() {
    let files = vec!["notes.txt".to_string(), "TestDB.db".to_string()];
    assert_eq!(find_or_create_db_url_among("testdb", &files), "sqlite://TestDB.db");
}

#[test]
fn test_database_matching_no_file_exists() {
    assert_eq!(find_or_create_db_url_among("testdb", &vec![]), "sqlite://testdb.db");
}

#[test]
fn test_environment_variable_database_url() {
    let result = cli(None, None)
        .resolve_database_url_with(Some("sqlite://env.db".to_string()), None, &vec![])
        .unwrap();
    assert_eq!(result, "sqlite://env.db");
}

#[test]
fn test_environment_variable_database_name() {
    let result = cli(None, None).resolve_database_url_with(None, Some("envdb".to_string()), &vec![]);
    assert!(result.is_ok(), "resolve_database_url failed: {:?}", result);
    assert_eq!(result.unwrap(), "sqlite://envdb.db");
}

#[test]
fn command_line_wins_over_environment_and_path_suffix_agrees() {
    let result = cli(Some("sqlite://a.db"), None)
        .resolve_database_url_with(Some("sqlite://env.db".to_string()), None, &vec![])
        .unwrap();
    assert_eq!(result, "sqlite://a.db");
    let result = cli(Some("sqlite:///data/MyApp.db"), Some("myapp"))
        .resolve_database_url_with(None, None, &vec![])
        .unwrap();
    assert_eq!(result, "sqlite:///data/MyApp.db");
    let err = cli(Some("sqlite://other.db"), Some("myapp"))
        .resolve_database_url_with(None, None, &vec![])
        .unwrap_err();
    assert_eq!(
        err,
        "Inconsistent database configuration: URL 'sqlite://other.db' doesn't match name 'myapp'"
    );
}
