use dr_core::config::{Defaults, Profile};
use dr_core::environment::Environment;
use dr_core::error::{Error, ErrorKind};
use dr_core::host::Host;
use dr_core::secrets::{Mask, Secret};

fn localhost() -> Host {
    match Host::parse("https://localhost:8081") {
        Ok(host) => host,
        Err(error) => panic!("{}", error.to_string()),
    }
}

fn token(text: &str) -> Secret<String> {
    Secret::Token(Mask::from(text))
}

fn pwd(text: &str) -> Secret<String> {
    Secret::Pwd(Mask::from(text))
}

fn made(res: Result<Profile, Error>) -> Profile {
    match res {
        Ok(profile) => profile,
        Err(error) => panic!("{:?}: {}", error.kind(), error.to_string()),
    }
}

fn failed(res: Result<Profile, Error>) -> Error {
    match res {
        Ok(profile) => panic!("made a profile for {}", profile.username),
        Err(error) => error,
    }
}

fn is_token(secret: Secret<String>, text: &str) -> bool {
    match secret {
        Secret::Token(mask) => mask.unwrap() == text,
        Secret::Pwd(_) => false,
    }
}

fn is_pwd(secret: Secret<String>, text: &str) -> bool {
    match secret {
        Secret::Token(_) => false,
        Secret::Pwd(mask) => mask.unwrap() == text,
    }
}

#[test]
fn token_alone_gives_a_token() {
    let env = Environment::new();
    let profile =
        made(Profile::from_envars(&env, Some("u"), Some(token("t")), None, Some(localhost()), None));
    assert!(is_token(profile.secret, "t"));
}

#[test]
fn password_alone_gives_a_password() {
    let env = Environment::new();
    let profile =
        made(Profile::from_envars(&env, Some("u"), None, Some(pwd("p")), Some(localhost()), None));
    assert!(is_pwd(profile.secret, "p"));
}

#[test]
fn slot_wins_over_tag() {
    let env = Environment::new();
    let profile = made(Profile::from_envars(
        &env,
        Some("u"),
        Some(pwd("t")),
        Some(token("p")),
        Some(localhost()),
        None,
    ));
    assert!(is_token(profile.secret, "t"));
    let profile =
        made(Profile::from_envars(&env, Some("u"), Some(pwd("t")), None, Some(localhost()), None));
    assert!(is_token(profile.secret, "t"));
    let profile =
        made(Profile::from_envars(&env, Some("u"), None, Some(token("p")), Some(localhost()), None));
    assert!(is_pwd(profile.secret, "p"));
}

#[test]
fn token_argument_wins_over_password_argument() {
    let env = Environment::new();
    let profile = made(Profile::from_envars(
        &env,
        Some("u"),
        Some(token("t")),
        Some(pwd("p")),
        Some(localhost()),
        None,
    ));
    assert!(is_token(profile.secret, "t"));
}

#[test]
fn arguments_win_over_secret_variables() {
    let mut env = Environment::new();
    env.set(Defaults::Token, "tok");
    env.set(Defaults::Pwd, "word");
    let profile =
        made(Profile::from_envars(&env, Some("u"), None, Some(pwd("p")), Some(localhost()), None));
    assert!(is_pwd(profile.secret, "p"));
    let profile =
        made(Profile::from_envars(&env, Some("u"), Some(token("t")), None, Some(localhost()), None));
    assert!(is_token(profile.secret, "t"));
}

#[test]
fn token_variable_wins_over_password_variable() {
    let mut env = Environment::new();
    env.set(Defaults::Token, "tok");
    env.set(Defaults::Pwd, "word");
    let profile = made(Profile::from_envars(&env, Some("u"), None, None, Some(localhost()), None));
    assert!(is_token(profile.secret, "tok"));
}

#[test]
fn password_variable_used_without_token_variable() {
    let mut env = Environment::new();
    env.set(Defaults::Pwd, "word");
    let profile = made(Profile::from_envars(&env, Some("u"), None, None, Some(localhost()), None));
    assert!(is_pwd(profile.secret, "word"));
}

#[test]
fn no_secret_anywhere_fails_on_the_password_variable() {
    let env = Environment::new();
    let error = failed(Profile::from_envars(&env, Some("u"), None, None, Some(localhost()), None));
    assert_eq!(error.kind(), ErrorKind::Environment(Defaults::Pwd));
    assert_eq!(error.message(), "environment variable not found");
}

#[test]
fn explicit_port_overlays_host_variable() {
    let mut env = Environment::new();
    env.set(Defaults::Host, "https://localhost:8081");
    let profile =
        made(Profile::from_envars(&env, Some("u"), Some(token("t")), None, None, Some(8082)));
    assert_eq!(profile.host.as_str(), "https://localhost:8082/");
    let expected = url::Url::parse("https://localhost:8082").expect("Should have been able to parse this test URL");
    assert_eq!(profile.host.as_str(), expected.as_str());
}

#[test]
fn explicit_port_wins_over_port_variable() {
    let mut env = Environment::new();
    env.set(Defaults::Port, "9000");
    let profile = made(Profile::from_envars(
        &env,
        Some("u"),
        Some(token("t")),
        None,
        Some(localhost()),
        Some(8082),
    ));
    assert_eq!(profile.host.as_str(), "https://localhost:8082/");
}

#[test]
fn port_variable_overlays_explicit_host() {
    let mut env = Environment::new();
    env.set(Defaults::Port, "9000");
    let profile =
        made(Profile::from_envars(&env, Some("u"), Some(token("t")), None, Some(localhost()), None));
    assert_eq!(profile.host.as_str(), "https://localhost:9000/");
}

#[test]
fn port_variable_that_writes_no_port_is_passed_over() {
    for text in ["", "http", "-1", "65536", " 80", "80.0"] {
        let mut env = Environment::new();
        env.set(Defaults::Port, text);
        let profile = made(Profile::from_envars(
            &env,
            Some("u"),
            Some(token("t")),
            None,
            Some(localhost()),
            None,
        ));
        assert_eq!(profile.host.as_str(), "https://localhost:8081/");
    }
}

#[test]
fn no_port_anywhere_leaves_the_host() {
    let mut env = Environment::new();
    env.set(Defaults::Host, "https://localhost:8081/sql");
    let profile = made(Profile::from_envars(&env, Some("u"), Some(token("t")), None, None, None));
    assert_eq!(profile.host.as_str(), "https://localhost:8081/sql");
}

#[test]
fn explicit_host_wins_over_host_variable() {
    let mut env = Environment::new();
    env.set(Defaults::Host, "this is no URL");
    let profile =
        made(Profile::from_envars(&env, Some("u"), Some(token("t")), None, Some(localhost()), None));
    assert_eq!(profile.host.as_str(), "https://localhost:8081/");
}

#[test]
fn explicit_username_wins_over_variable() {
    let mut env = Environment::new();
    env.set(Defaults::Username, "from-env");
    let profile = made(Profile::from_envars(
        &env,
        Some("given"),
        Some(token("t")),
        None,
        Some(localhost()),
        None,
    ));
    assert_eq!(profile.username, "given");
    let profile =
        made(Profile::from_envars(&env, None, Some(token("t")), None, Some(localhost()), None));
    assert_eq!(profile.username, "from-env");
}

#[test]
fn nothing_given_and_nothing_set_fails_on_the_username() {
    let env = Environment::new();
    let error = failed(Profile::from_envars(&env, None, None, None, None, None));
    assert_eq!(error.kind(), ErrorKind::Environment(Defaults::Username));
    assert_eq!(error.message(), "environment variable not found");
}

#[test]
fn errors_come_in_the_order_of_the_steps() {
    let mut env = Environment::new();
    env.set(Defaults::Host, "this is no URL");
    let error = failed(Profile::from_envars(&env, None, None, None, None, Some(1)));
    assert_eq!(error.kind(), ErrorKind::Environment(Defaults::Username));
    env.set(Defaults::Username, "u");
    let error = failed(Profile::from_envars(&env, None, None, None, None, Some(1)));
    assert_eq!(error.kind(), ErrorKind::Environment(Defaults::Pwd));
    env.set(Defaults::Pwd, "word");
    let error = failed(Profile::from_envars(&env, None, None, None, None, Some(1)));
    assert_eq!(error.kind(), ErrorKind::UrlParse);
    assert_eq!(error.message(), "relative URL without a base");
    env.remove(Defaults::Host);
    let error = failed(Profile::from_envars(&env, None, None, None, None, Some(1)));
    assert_eq!(error.kind(), ErrorKind::Environment(Defaults::Host));
    env.set(Defaults::Host, "mailto:rms@example.net");
    let error = failed(Profile::from_envars(&env, None, None, None, None, Some(1)));
    assert_eq!(error.kind(), ErrorKind::Invariant);
    assert_eq!(error.message(), "Should have set the port");
    let profile = made(Profile::from_envars(&env, None, None, None, None, None));
    assert_eq!(profile.host.as_str(), "mailto:rms@example.net");
    assert_eq!(profile.username, "u");
    assert!(is_pwd(profile.secret, "word"));
}

#[test]
fn host_that_takes_no_port_fails_on_the_port_variable_too() {
    let mut env = Environment::new();
    env.set(Defaults::Host, "file:///etc/hosts");
    env.set(Defaults::Port, "8082");
    let error = failed(Profile::from_envars(&env, Some("u"), Some(token("t")), None, None, None));
    assert_eq!(error.kind(), ErrorKind::Invariant);
}

#[test]
fn variable_without_text_fails_with_its_own_reason() {
    let env = Environment::capture(|name: &str| match name {
        "DR_USER" => Ok(String::from("u")),
        "DR_TOKEN" => Err(String::from("environment variable was not valid unicode: \"t\\xFF\"")),
        "DR_PWD" => Err(String::from("environment variable was not valid unicode: \"p\\xFF\"")),
        "DR_PORT" => Err(String::from("environment variable was not valid unicode: \"8\\xFF\"")),
        _ => Err(String::from("environment variable not found")),
    });
    let error = failed(Profile::from_envars(&env, None, None, None, Some(localhost()), None));
    assert_eq!(error.kind(), ErrorKind::Environment(Defaults::Pwd));
    assert_eq!(error.message(), "environment variable was not valid unicode: \"p\\xFF\"");
    let profile =
        made(Profile::from_envars(&env, None, Some(token("t")), None, Some(localhost()), None));
    assert_eq!(profile.host.as_str(), "https://localhost:8081/");
    let error = failed(Profile::from_envars(&env, None, Some(token("t")), None, None, None));
    assert_eq!(error.kind(), ErrorKind::Environment(Defaults::Host));
    assert_eq!(error.message(), "environment variable not found");
}

#[test]
fn host_variable_that_is_no_url_fails_with_the_parser_s_text() {
    for text in ["", "localhost", "//example.com", "https://", "http://[::1"] {
        let mut env = Environment::new();
        env.set(Defaults::Host, text);
        let error = failed(Profile::from_envars(&env, Some("u"), Some(token("t")), None, None, None));
        assert_eq!(error.kind(), ErrorKind::UrlParse);
        let expected = match url::Url::parse(text) {
            Ok(url) => panic!("{:?} was read as {}", text, url),
            Err(cause) => cause.to_string(),
        };
        assert_eq!(error.message(), expected);
        assert_eq!(error.to_string(), expected);
    }
}
