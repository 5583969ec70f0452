//! The backend's decisions: the saved settings, the login exchange with the
//! school's server, and the requests for timetable data.

use vstd::prelude::*;

use crate::text::{concat_str, trim, trim_string};

verus! {

/// The saved settings: the school's address, the login and the last refresh token.
pub struct Config {
    pub url: String,
    pub user: String,
    pub password: String,
    pub refresh_token: Option<String>,
}

impl Default for Config {
    fn default() -> (c: Self)
        ensures
            c.url@.len() == 0,
            c.user@.len() == 0,
            c.password@.len() == 0,
            c.refresh_token is None,
    {
        Config { url: String::new(), user: String::new(), password: String::new(), refresh_token: None }
    }
}

/// The saved copy of this week's timetable document.
pub struct Cache {
    pub timetable_data: String,
}

impl Default for Cache {
    fn default() -> (c: Self)
        ensures
            c.timetable_data@.len() == 0,
    {
        Cache { timetable_data: String::new() }
    }
}

/// Why a login failed.
#[derive(Debug)]
pub enum LoginError {
    /// Anything but refused credentials, with a description.
    Other(String),
    /// The server refused the credentials.
    BadLogin,
}

/// A login request: where to post and the form body.
pub struct LoginRequest {
    pub url: String,
    pub body: String,
}

/// What the server answered to a login request.
pub enum LoginReply {
    /// A success status with the tokens of the reply body.
    Success { access_token: String, refresh_token: String },
    /// A `400 Bad Request` with the error description of the reply body.
    BadRequest { error_description: String },
    /// Any other status, with the reply written out for the user.
    Unexpected { response: String },
    /// The exchange failed (transport or an unreadable body), with the error's text.
    Failed { message: String },
}

/// What comes of a login reply.
pub enum LoginStep {
    /// Logged in, with this access token.
    Token(String),
    /// The refresh token was stale and is dropped: log in again.
    Retry,
    /// The login failed.
    Fail(LoginError),
}

/// The description with which the server rejects a stale refresh token.
pub open spec fn invalid_token_description() -> Seq<char> {
    "The specified token is invalid."@
}

/// The form body of a login: with the refresh token when there is one,
/// else with the user name and password.
pub open spec fn login_body(c: Config) -> Seq<char> {
    match c.refresh_token {
        Some(t) => "client_id=ANDR&grant_type=refresh_token&refresh_token="@ + t@,
        None => "client_id=ANDR&grant_type=password&username="@ + c.user@ + "&password="@
            + c.password@,
    }
}

/// The address a login is posted to.
pub open spec fn login_url(c: Config) -> Seq<char> {
    c.url@ + "/api/login"@
}

/// Whether a reply makes the login start over: a stale refresh token was used.
pub open spec fn retries(c: Config, reply: LoginReply) -> bool {
    &&& reply matches LoginReply::BadRequest { error_description } && error_description@
        == invalid_token_description()
    &&& c.refresh_token is Some
}

/// A field of the settings that the user is asked for.
#[derive(Clone, Copy, PartialEq, Eq, Debug)]
pub enum ConfigField {
    Url,
    User,
    Password,
}

impl ConfigField {
    /// The question the user is asked for this field.
    pub open spec fn spec_prompt(self) -> Seq<char> {
        match self {
            ConfigField::Url => "Zadej URL školy:"@,
            ConfigField::User => "Zadej uživatelské jméno:"@,
            ConfigField::Password => "Zadej heslo:"@,
        }
    }

    /// The question the user is asked for this field.
    pub fn prompt(&self) -> (s: String)
        ensures
            s@ == self.spec_prompt(),
    {
        match self {
            ConfigField::Url => String::from_str("Zadej URL školy:"),
            ConfigField::User => String::from_str("Zadej uživatelské jméno:"),
            ConfigField::Password => String::from_str("Zadej heslo:"),
        }
    }
}

impl Config {
    /// The value of a field.
    pub open spec fn field_value(self, f: ConfigField) -> Seq<char> {
        match f {
            ConfigField::Url => self.url@,
            ConfigField::User => self.user@,
            ConfigField::Password => self.password@,
        }
    }

    /// Whether a field is empty, so that the user must be asked for it.
    pub fn is_missing(&self, f: ConfigField) -> (b: bool)
        ensures
            b == (self.field_value(f).len() == 0),
    {
        match f {
            ConfigField::Url => self.url.as_str().is_empty(),
            ConfigField::User => self.user.as_str().is_empty(),
            ConfigField::Password => self.password.as_str().is_empty(),
        }
    }

    /// Takes the line the user typed for a field: it is appended to the
    /// field and the whole is trimmed of surrounding whitespace.
    pub fn fill_field(&mut self, f: ConfigField, line: &str)
        ensures
            final(self).field_value(f) == trim(old(self).field_value(f) + line@),
            forall|g: ConfigField| g != f ==> final(self).field_value(g) == old(self).field_value(g),
            final(self).refresh_token == old(self).refresh_token,
    {
        match f {
            ConfigField::Url => {
                let whole = concat_str(self.url.as_str(), line);
                self.url = trim_string(whole.as_str());
            },
            ConfigField::User => {
                let whole = concat_str(self.user.as_str(), line);
                self.user = trim_string(whole.as_str());
            },
            ConfigField::Password => {
                let whole = concat_str(self.password.as_str(), line);
                self.password = trim_string(whole.as_str());
            },
        }
    }

    /// The login request for these settings.
    pub fn login_request(&self) -> (r: LoginRequest)
        ensures
            r.url@ == login_url(*self),
            r.body@ == login_body(*self),
    {
        let body = match &self.refresh_token {
            Some(token) => concat_str("client_id=ANDR&grant_type=refresh_token&refresh_token=", token.as_str()),
            None => {
                let mut b = String::from_str("client_id=ANDR&grant_type=password&username=");
                b.append(self.user.as_str());
                b.append("&password=");
                b.append(self.password.as_str());
                b
            },
        };
        LoginRequest { url: concat_str(self.url.as_str(), "/api/login"), body }
    }

    /// Takes the server's reply to a login request. A success stores the new
    /// refresh token and yields the access token. A bad request that calls
    /// the refresh token invalid, when one was used, drops it so that the
    /// login is tried again with the password; any other bad request means
    /// refused credentials. Anything else is an error with a description.
    pub fn handle_login_reply(&mut self, reply: LoginReply) -> (r: LoginStep)
        ensures
            (r is Retry) == retries(*old(self), reply),
            match reply {
                LoginReply::Success { access_token, refresh_token } => {
                    &&& r == LoginStep::Token(access_token)
                    &&& *final(self) == (Config { refresh_token: Some(refresh_token), ..*old(self) })
                },
                LoginReply::BadRequest { error_description } => if retries(*old(self), reply) {
                    *final(self) == (Config { refresh_token: None, ..*old(self) })
                } else {
                    r == LoginStep::Fail(LoginError::BadLogin) && *final(self) == *old(self)
                },
                LoginReply::Unexpected { response } => {
                    &&& r matches LoginStep::Fail(LoginError::Other(m))
                    &&& m@ == "Unexpected error while logging in: "@ + response@
                    &&& *final(self) == *old(self)
                },
                LoginReply::Failed { message } => {
                    r == LoginStep::Fail(LoginError::Other(message)) && *final(self) == *old(self)
                },
            },
    {
        match reply {
            LoginReply::Success { access_token, refresh_token } => {
                self.refresh_token = Some(refresh_token);
                LoginStep::Token(access_token)
            },
            LoginReply::BadRequest { error_description } => {
                let invalid = String::from_str("The specified token is invalid.");
                if error_description == invalid && self.refresh_token.is_some() {
                    self.refresh_token = None;
                    LoginStep::Retry
                } else {
                    LoginStep::Fail(LoginError::BadLogin)
                }
            },
            LoginReply::Unexpected { response } => {
                LoginStep::Fail(LoginError::Other(concat_str("Unexpected error while logging in: ", response.as_str())))
            },
            LoginReply::Failed { message } => LoginStep::Fail(LoginError::Other(message)),
        }
    }

    /// Forgets the school's address, the login and the refresh token, so
    /// that the user is asked again on the next start.
    pub fn forget_login(&mut self)
        ensures
            final(self).url@.len() == 0,
            final(self).user@.len() == 0,
            final(self).password@.len() == 0,
            final(self).refresh_token is None,
    {
        self.url = String::new();
        self.user = String::new();
        self.password = String::new();
        self.refresh_token = None;
    }

    /// The address of the timetable of the week around `date` (`YYYY-MM-DD`).
    pub fn timetable_url(&self, date: &str) -> (s: String)
        ensures
            s@ == self.url@ + "/api/3/timetable/actual?date="@ + date@,
    {
        let mut s = concat_str(self.url.as_str(), "/api/3/timetable/actual?date=");
        s.append(date);
        s
    }
}

/// The line the user is shown when the login fails.
pub open spec fn login_failure_text(e: LoginError) -> Seq<char> {
    match e {
        LoginError::Other(msg) => "Login failed with unknown error, backend thread exiting. Error: "@ + msg@,
        LoginError::BadLogin => "Login failed due to wrong credentials, please relaunch app and log in again"@,
    }
}

impl LoginError {
    /// The line the user is shown when the login fails this way.
    pub fn failure_message(&self) -> (s: String)
        ensures
            s@ == login_failure_text(*self),
    {
        match self {
            LoginError::Other(msg) => concat_str(
                "Login failed with unknown error, backend thread exiting. Error: ",
                msg.as_str(),
            ),
            LoginError::BadLogin => String::from_str(
                "Login failed due to wrong credentials, please relaunch app and log in again",
            ),
        }
    }
}

/// The `Authorization` header that carries an access token.
pub fn bearer_header(access_token: &str) -> (s: String)
    ensures
        s@ == "Bearer "@ + access_token@,
{
    concat_str("Bearer ", access_token)
}

/// The seconds in a week.
pub const SECONDS_PER_WEEK: i64 = 604800;

/// How far from now the timetable of a week offset is asked for: the
/// distance in seconds, and whether it lies ahead (offsets from zero up) or
/// behind.
pub fn date_shift(week_modifier: i64) -> (r: (u64, bool))
    requires
        i64::MIN <= week_modifier * SECONDS_PER_WEEK <= i64::MAX,
    ensures
        r.0 == if week_modifier >= 0 {
            week_modifier * SECONDS_PER_WEEK
        } else {
            -(week_modifier * SECONDS_PER_WEEK)
        },
        r.1 == (week_modifier >= 0),
{
    let secs = week_modifier * 7 * 24 * 60 * 60;
    if secs >= 0 {
        (secs as u64, week_modifier >= 0)
    } else {
        assert(secs > i64::MIN) by (nonlinear_arith)
            requires
                secs == week_modifier * 604800,
                i64::MIN <= week_modifier * 604800;
        ((-secs) as u64, week_modifier >= 0)
    }
}

/// A login starts over at most once: the reply that makes it start over
/// leaves no refresh token, and without one no reply makes it start over.
pub proof fn lemma_login_retries_at_most_once(c: Config, first: LoginReply, second: LoginReply)
    requires
        retries(c, first),
    ensures
        !retries(Config { refresh_token: None, ..c }, second),
{
}

/// When the refresh token turns out to be stale, the next login request
/// logs in with the user name and password again.
pub proof fn lemma_stale_token_falls_back_to_password(c: Config, reply: LoginReply)
    requires
        retries(c, reply),
    ensures
        login_body(Config { refresh_token: None, ..c }) == "client_id=ANDR&grant_type=password&username="@
            + c.user@ + "&password="@ + c.password@,
        login_url(Config { refresh_token: None, ..c }) == login_url(c),
{
}

/// Whether a fetched timetable is saved as the cached copy: only the
/// current week's is.
pub fn caches_timetable(week_modifier: i64) -> (b: bool)
    ensures
        b == (week_modifier == 0),
{
    week_modifier == 0
}

} // verus!
