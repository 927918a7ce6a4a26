use datacore::AppError;
use datacore::ConfigBuilder;
use datacore::Outcome;

#[test]
fn test_build_without_host_fails() {
    let outcome = ConfigBuilder::new().port(9090).build();
    match outcome {
        Outcome::Failure(AppError::InvalidInput(m)) => assert_eq!(m, "Host is required"),
        _ => panic!("expected an InvalidInput failure"),
    }
}

#[test]
fn test_build_with_host_applies_defaults() {
    let outcome = ConfigBuilder::new().host(String::from("x")).build();
    match outcome {
        Outcome::Success(config) => {
            assert_eq!(config.get_host(), "x");
            assert_eq!(config.get_port(), 8080);
            assert_eq!(config.get_timeout(), 30);
        }
        Outcome::Failure(_) => panic!("expected a configuration"),
    }
}

#[test]
fn test_build_with_all_fields() {
    let outcome = ConfigBuilder::new()
        .host(String::from("localhost"))
        .port(9090)
        .timeout(60)
        .build();
    match outcome {
        Outcome::Success(config) => {
            assert_eq!(config.get_host(), "localhost");
            assert_eq!(config.get_port(), 9090);
            assert_eq!(config.get_timeout(), 60);
        }
        Outcome::Failure(_) => panic!("expected a configuration"),
    }
}

#[test]
fn test_setter_overwrites_earlier_value() {
    let outcome = ConfigBuilder::new().host(String::from("a")).host(String::from("b")).build();
    match outcome {
        Outcome::Success(config) => assert_eq!(config.get_host(), "b"),
        Outcome::Failure(_) => panic!("expected a configuration"),
    }
}

#[test]
fn test_empty_builder_fails() {
    assert!(ConfigBuilder::new().build().is_err());
}
