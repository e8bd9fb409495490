use book_manager::error::AppError;
use book_manager::health::{health_check, health_check_db, log_level, Environment};
use book_manager::kv_store::{redis_url, RedisClient, RedisConfig};
use book_manager::text::decimal;

#[test]
fn service_is_healthy() {
    assert_eq!(health_check(), 200);
}

#[test]
fn database_health_follows_reachability() {
    assert_eq!(health_check_db(true), 200);
    assert_eq!(health_check_db(false), 500);
}

#[test]
fn log_level_per_environment() {
    assert_eq!(log_level(Environment::Development), "debug");
    assert_eq!(log_level(Environment::Production), "info");
}

#[test]
fn decimal_text_of_ports() {
    assert_eq!(decimal(0), "0");
    assert_eq!(decimal(9), "9");
    assert_eq!(decimal(10), "10");
    assert_eq!(decimal(6379), "6379");
    assert_eq!(decimal(65535), "65535");
}

#[test]
fn redis_url_names_host_and_port() {
    let config = RedisConfig { host: "localhost".to_string(), port: 6379 };
    assert_eq!(redis_url(&config), "redis://localhost:6379");
}

#[test]
fn redis_client_opens_for_a_host() {
    let config = RedisConfig { host: "127.0.0.1".to_string(), port: 6379 };
    assert!(RedisClient::new(&config).is_ok());
}

#[test]
fn redis_client_refuses_a_broken_host() {
    let config = RedisConfig { host: "[::1".to_string(), port: 6379 };
    match RedisClient::new(&config) {
        Err(AppError::KeyValueStoreError(_)) => {}
        Err(other) => panic!("unexpected error {:?}", other),
        Ok(_) => panic!("the URL should be refused"),
    }
}

fn sample_errors() -> Vec<(AppError, u16, bool)> {
    vec![
        (AppError::UnprocessableEntity("x".to_string()), 422, false),
        (AppError::EntityNotFound("x".to_string()), 404, false),
        (AppError::ValidationError(garde::Report::new()), 400, false),
        (AppError::TransactionError(sqlx::Error::RowNotFound), 500, true),
        (AppError::SpecificOperationError(sqlx::Error::PoolClosed), 500, true),
        (AppError::NoRowsAffectedError("x".to_string()), 500, true),
        (
            AppError::KeyValueStoreError(redis::RedisError::from((
                redis::ErrorKind::IoError,
                "down",
            ))),
            500,
            true,
        ),
        (AppError::BcryptError(bcrypt::BcryptError::CostNotAllowed(99)), 500, true),
        (
            AppError::ConvertToUuidError(uuid::Uuid::parse_str("bad").unwrap_err()),
            400,
            false,
        ),
        (AppError::UnauthenticatedError, 403, false),
        (AppError::UnauthorizedError, 401, false),
        (AppError::ForbiddenOperation, 403, false),
        (AppError::ConversionEntityError("x".to_string()), 500, true),
    ]
}

#[test]
fn each_error_has_its_status() {
    for (e, code, unexpected) in sample_errors() {
        assert_eq!(e.status_code(), code, "{:?}", e);
        assert_eq!(e.is_unexpected(), unexpected, "{:?}", e);
    }
}

#[test]
fn unexpected_errors_are_exactly_internal_errors() {
    for (e, _, _) in sample_errors() {
        assert_eq!(e.is_unexpected(), e.status_code() == 500);
        assert!(e.status_code() >= 400 && e.status_code() < 600);
    }
}

#[test]
fn redis_client_is_opened_on_the_configured_store() {
    let config = RedisConfig { host: "127.0.0.1".to_string(), port: 6380 };
    let client = RedisClient::new(&config).unwrap();
    match &client.client.get_connection_info().addr {
        redis::ConnectionAddr::Tcp(host, port) => {
            assert_eq!(host, "127.0.0.1");
            assert_eq!(*port, 6380);
        }
        other => panic!("unexpected address {:?}", other),
    }
}

#[test]
fn redis_client_error_is_the_open_error() {
    let config = RedisConfig { host: "[::1".to_string(), port: 6379 };
    let expected = redis::Client::open("redis://[::1:6379").unwrap_err();
    match RedisClient::new(&config) {
        Err(AppError::KeyValueStoreError(e)) => {
            assert_eq!(e.kind(), expected.kind());
            assert_eq!(e.to_string(), expected.to_string());
        }
        Err(other) => panic!("unexpected error {:?}", other),
        Ok(_) => panic!("the URL should be refused"),
    }
}
