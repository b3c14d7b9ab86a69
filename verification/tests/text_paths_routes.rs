use syggrel_chat::database::{build_db_url, DatabaseConfig, DatabaseError};
use syggrel_chat::paths::get_database_path;
use syggrel_chat::routes::Route;
use syggrel_chat::text::{i32_to_string, u64_to_string};

#[test]
fn unsigned_decimal_rendering() {
    assert_eq!(u64_to_string(0), "0");
    assert_eq!(u64_to_string(7), "7");
    assert_eq!(u64_to_string(105), "105");
    assert_eq!(u64_to_string(10_000), "10000");
    assert_eq!(u64_to_string(u64::MAX), "18446744073709551615");
}

#[test]
fn signed_decimal_rendering() {
    assert_eq!(i32_to_string(0), "0");
    assert_eq!(i32_to_string(42), "42");
    assert_eq!(i32_to_string(-42), "-42");
    assert_eq!(i32_to_string(i32::MIN), "-2147483648");
    assert_eq!(i32_to_string(i32::MAX), "2147483647");
}

#[test]
fn db_url_holds_the_whole_configuration() {
    let config = DatabaseConfig {
        path: "/data/chat.db".to_string(),
        busy_timeout: 10_000,
        max_connections: Some(4),
    };
    assert_eq!(
        build_db_url(&config),
        "sqlite:/data/chat.db?mode=rwc&busy_timeout=10000&max_connections=4&journal_mode=WAL"
    );
}

#[test]
fn db_url_defaults_to_two_connections() {
    let config = DatabaseConfig {
        path: "chat.db".to_string(),
        busy_timeout: 500,
        max_connections: None,
    };
    assert_eq!(
        build_db_url(&config),
        "sqlite:chat.db?mode=rwc&busy_timeout=500&max_connections=2&journal_mode=WAL"
    );
}

#[test]
fn database_error_messages() {
    assert_eq!(
        DatabaseError::ConnectionFailed("refused".to_string()).message(),
        "Database connection failed: refused"
    );
    assert_eq!(
        DatabaseError::InvalidConfig("no path".to_string()).message(),
        "Invalid database configuration: no path"
    );
    assert_eq!(
        DatabaseError::MigrationFailed("ddl".to_string()).message(),
        "Database migration failed: ddl"
    );
    assert_eq!(
        DatabaseError::Timeout("10s".to_string()).message(),
        "Database operation timed out: 10s"
    );
}

#[test]
fn database_path_joins_the_config_dir() {
    assert_eq!(
        get_database_path("/home/alice/.config/syggrel-chat"),
        "/home/alice/.config/syggrel-chat/syggrel-chat.db"
    );
}

#[test]
fn database_path_keeps_a_trailing_separator() {
    assert_eq!(get_database_path("/tmp/"), "/tmp/syggrel-chat.db");
    assert_eq!(get_database_path(""), "/syggrel-chat.db");
}

#[test]
fn database_path_extension_is_db() {
    let path = get_database_path("/somewhere");
    assert!(path.ends_with("syggrel-chat.db"));
    assert_eq!(path.rsplit('.').next(), Some("db"));
}

#[test]
fn route_paths() {
    assert_eq!(Route::Home.path(), "/");
    assert_eq!(Route::Menu.path(), "/menu");
    assert_eq!(Route::Settings.path(), "/settings");
}
