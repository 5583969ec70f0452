use bakatui::persistent::Persistent;
use bakatui::session::{
    bearer_header, caches_timetable, date_shift, Cache, Config, ConfigField, LoginError, LoginReply, LoginStep,
};

fn config(token: Option<&str>) -> Config {
    Config {
        url: "https://skola.cz/bakaweb".to_string(),
        user: "jan".to_string(),
        password: "heslo".to_string(),
        refresh_token: token.map(|t| t.to_string()),
    }
}

#[test]
fn login_request_with_password() {
    let r = config(None).login_request();
    assert_eq!(r.url, "https://skola.cz/bakaweb/api/login");
    assert_eq!(r.body, "client_id=ANDR&grant_type=password&username=jan&password=heslo");
}

#[test]
fn login_request_with_refresh_token() {
    let r = config(Some("tok")).login_request();
    assert_eq!(r.body, "client_id=ANDR&grant_type=refresh_token&refresh_token=tok");
}

#[test]
fn successful_login_stores_the_refresh_token() {
    let mut c = config(None);
    let step = c.handle_login_reply(LoginReply::Success {
        access_token: "acc".to_string(),
        refresh_token: "ref".to_string(),
    });
    assert!(matches!(step, LoginStep::Token(ref t) if t == "acc"));
    assert_eq!(c.refresh_token.as_deref(), Some("ref"));
}

#[test]
fn stale_refresh_token_retries_once_with_password() {
    let mut c = config(Some("old"));
    let invalid = || LoginReply::BadRequest { error_description: "The specified token is invalid.".to_string() };
    assert!(matches!(c.handle_login_reply(invalid()), LoginStep::Retry));
    assert!(c.refresh_token.is_none());
    assert_eq!(c.login_request().body, "client_id=ANDR&grant_type=password&username=jan&password=heslo");
    // a second such reply is a refused login
    assert!(matches!(c.handle_login_reply(invalid()), LoginStep::Fail(LoginError::BadLogin)));
}

#[test]
fn other_bad_requests_refuse_the_login() {
    let mut c = config(Some("t"));
    let step = c.handle_login_reply(LoginReply::BadRequest { error_description: "Wrong password".to_string() });
    assert!(matches!(step, LoginStep::Fail(LoginError::BadLogin)));
    assert_eq!(c.refresh_token.as_deref(), Some("t"));
}

#[test]
fn unexpected_and_failed_replies() {
    let mut c = config(None);
    match c.handle_login_reply(LoginReply::Unexpected { response: "Response { status: 500 }".to_string() }) {
        LoginStep::Fail(LoginError::Other(m)) => {
            assert_eq!(m, "Unexpected error while logging in: Response { status: 500 }")
        }
        _ => panic!("expected an error"),
    }
    match c.handle_login_reply(LoginReply::Failed { message: "connection refused".to_string() }) {
        LoginStep::Fail(LoginError::Other(m)) => assert_eq!(m, "connection refused"),
        _ => panic!("expected an error"),
    }
}

#[test]
fn failure_messages() {
    assert_eq!(
        LoginError::Other("boom".to_string()).failure_message(),
        "Login failed with unknown error, backend thread exiting. Error: boom"
    );
    assert_eq!(
        LoginError::BadLogin.failure_message(),
        "Login failed due to wrong credentials, please relaunch app and log in again"
    );
}

#[test]
fn forget_login_clears_everything() {
    let mut c = config(Some("t"));
    c.forget_login();
    assert!(c.url.is_empty() && c.user.is_empty() && c.password.is_empty());
    assert!(c.refresh_token.is_none());
}

#[test]
fn filling_the_settings() {
    let mut c = Config::default();
    assert!(c.is_missing(ConfigField::Url));
    assert!(c.is_missing(ConfigField::User));
    c.fill_field(ConfigField::Url, "  https://skola.cz \n");
    c.fill_field(ConfigField::User, "jan\n");
    c.fill_field(ConfigField::Password, "tajne heslo\r\n");
    assert_eq!(c.url, "https://skola.cz");
    assert_eq!(c.user, "jan");
    assert_eq!(c.password, "tajne heslo");
    assert!(!c.is_missing(ConfigField::Password));
    assert_eq!(ConfigField::Url.prompt(), "Zadej URL školy:");
    assert_eq!(ConfigField::User.prompt(), "Zadej uživatelské jméno:");
    assert_eq!(ConfigField::Password.prompt(), "Zadej heslo:");
}

#[test]
fn timetable_requests() {
    let c = config(None);
    assert_eq!(c.timetable_url("2024-09-02"), "https://skola.cz/bakaweb/api/3/timetable/actual?date=2024-09-02");
    assert_eq!(bearer_header("abc"), "Bearer abc");
    assert_eq!(date_shift(0), (0, true));
    assert_eq!(date_shift(1), (604800, true));
    assert_eq!(date_shift(-2), (1209600, false));
    assert!(caches_timetable(0));
    assert!(!caches_timetable(1));
    assert!(!caches_timetable(-1));
}

#[test]
fn persistent_holds_its_parts() {
    let p = Persistent::new(
        config(None),
        std::path::PathBuf::from("/tmp/config"),
        Cache { timetable_data: "{}".to_string() },
        std::path::PathBuf::from("/tmp/cache"),
    );
    assert_eq!(p.config.user, "jan");
    assert_eq!(p.cache.timetable_data, "{}");
    assert_eq!(p.config_path, std::path::PathBuf::from("/tmp/config"));
    assert_eq!(p.cache_path.to_str(), Some("/tmp/cache"));
    assert!(Cache::default().timetable_data.is_empty());
}
