//! Connection settings, resolved from named values that were looked up
//! once at the start of a run.

use crate::error::BotError;
use crate::error::BotErrorView;
use crate::error::Field;
use crate::number::parse_port;
use crate::number::parse_seconds;
use crate::number::port_of;
use crate::number::seconds_of;
use vstd::prelude::*;

verus! {

/// What looking up one named value gave.
#[derive(Debug, PartialEq, Eq)]
pub enum Lookup {
    /// No value of that name exists.
    Unset,
    /// The value, as text.
    Text(String),
    /// A value exists but is not valid Unicode; holds a readable rendering
    /// of it.
    NotUnicode(String),
}

pub ghost enum LookupView {
    Unset,
    Text(Seq<char>),
    NotUnicode(Seq<char>),
}

impl View for Lookup {
    type V = LookupView;

    open spec fn view(&self) -> LookupView {
        match *self {
            Lookup::Unset => LookupView::Unset,
            Lookup::Text(text) => LookupView::Text(text@),
            Lookup::NotUnicode(raw) => LookupView::NotUnicode(raw@),
        }
    }
}

/// The nine named values a run reads, each as it was found.
#[derive(Debug, PartialEq, Eq)]
pub struct Environment {
    pub consumer_key: Lookup,
    pub consumer_secret: Lookup,
    pub token: Lookup,
    pub token_secret: Lookup,
    pub scheme: Lookup,
    pub host: Lookup,
    pub port: Lookup,
    pub request_timeout: Lookup,
    pub wait_timeout: Lookup,
}

pub ghost struct EnvironmentView {
    pub consumer_key: LookupView,
    pub consumer_secret: LookupView,
    pub token: LookupView,
    pub token_secret: LookupView,
    pub scheme: LookupView,
    pub host: LookupView,
    pub port: LookupView,
    pub request_timeout: LookupView,
    pub wait_timeout: LookupView,
}

impl View for Environment {
    type V = EnvironmentView;

    open spec fn view(&self) -> EnvironmentView {
        EnvironmentView {
            consumer_key: self.consumer_key@,
            consumer_secret: self.consumer_secret@,
            token: self.token@,
            token_secret: self.token_secret@,
            scheme: self.scheme@,
            host: self.host@,
            port: self.port@,
            request_timeout: self.request_timeout@,
            wait_timeout: self.wait_timeout@,
        }
    }
}

impl EnvironmentView {
    /// What was found for `field`.
    pub open spec fn get(self, field: Field) -> LookupView {
        match field {
            Field::ConsumerKey => self.consumer_key,
            Field::ConsumerSecret => self.consumer_secret,
            Field::Token => self.token,
            Field::TokenSecret => self.token_secret,
            Field::Scheme => self.scheme,
            Field::Host => self.host,
            Field::Port => self.port,
            Field::RequestTimeout => self.request_timeout,
            Field::WaitTimeout => self.wait_timeout,
        }
    }

    /// The same values, but for `field`, which is now `found`.
    pub open spec fn with(self, field: Field, found: LookupView) -> EnvironmentView {
        match field {
            Field::ConsumerKey => EnvironmentView { consumer_key: found, ..self },
            Field::ConsumerSecret => EnvironmentView { consumer_secret: found, ..self },
            Field::Token => EnvironmentView { token: found, ..self },
            Field::TokenSecret => EnvironmentView { token_secret: found, ..self },
            Field::Scheme => EnvironmentView { scheme: found, ..self },
            Field::Host => EnvironmentView { host: found, ..self },
            Field::Port => EnvironmentView { port: found, ..self },
            Field::RequestTimeout => EnvironmentView { request_timeout: found, ..self },
            Field::WaitTimeout => EnvironmentView { wait_timeout: found, ..self },
        }
    }

    /// Nothing is set.
    pub open spec fn unset() -> EnvironmentView {
        EnvironmentView {
            consumer_key: LookupView::Unset,
            consumer_secret: LookupView::Unset,
            token: LookupView::Unset,
            token_secret: LookupView::Unset,
            scheme: LookupView::Unset,
            host: LookupView::Unset,
            port: LookupView::Unset,
            request_timeout: LookupView::Unset,
            wait_timeout: LookupView::Unset,
        }
    }
}

impl Environment {
    /// An environment in which nothing is set.
    pub fn unset() -> (env: Environment)
        ensures
            env@ == EnvironmentView::unset(),
    {
        Environment {
            consumer_key: Lookup::Unset,
            consumer_secret: Lookup::Unset,
            token: Lookup::Unset,
            token_secret: Lookup::Unset,
            scheme: Lookup::Unset,
            host: Lookup::Unset,
            port: Lookup::Unset,
            request_timeout: Lookup::Unset,
            wait_timeout: Lookup::Unset,
        }
    }

    /// Records what was found for `field`, in place of what stood there.
    pub fn with(self, field: Field, found: Lookup) -> (env: Environment)
        ensures
            env@ == self@.with(field, found@),
    {
        let mut env = self;
        match field {
            Field::ConsumerKey => env.consumer_key = found,
            Field::ConsumerSecret => env.consumer_secret = found,
            Field::Token => env.token = found,
            Field::TokenSecret => env.token_secret = found,
            Field::Scheme => env.scheme = found,
            Field::Host => env.host = found,
            Field::Port => env.port = found,
            Field::RequestTimeout => env.request_timeout = found,
            Field::WaitTimeout => env.wait_timeout = found,
        }
        env
    }
}

/// The settings a connection is made with. An optional setting that is
/// `None` leaves the client's own default in force.
#[derive(Debug, PartialEq, Eq)]
pub struct ConnectionConfig {
    pub consumer_key: String,
    pub consumer_secret: String,
    pub token: String,
    pub token_secret: String,
    pub scheme: Option<String>,
    pub host: Option<String>,
    pub port: Option<u16>,
    pub request_timeout: Option<i64>,
    pub wait_timeout: Option<i64>,
}

pub ghost struct ConnectionConfigView {
    pub consumer_key: Seq<char>,
    pub consumer_secret: Seq<char>,
    pub token: Seq<char>,
    pub token_secret: Seq<char>,
    pub scheme: Option<Seq<char>>,
    pub host: Option<Seq<char>>,
    pub port: Option<u16>,
    pub request_timeout: Option<i64>,
    pub wait_timeout: Option<i64>,
}

/// An optional text, as a sequence of characters.
pub open spec fn text_view(text: Option<String>) -> Option<Seq<char>> {
    match text {
        Some(t) => Some(t@),
        None => None,
    }
}

impl View for ConnectionConfig {
    type V = ConnectionConfigView;

    open spec fn view(&self) -> ConnectionConfigView {
        ConnectionConfigView {
            consumer_key: self.consumer_key@,
            consumer_secret: self.consumer_secret@,
            token: self.token@,
            token_secret: self.token_secret@,
            scheme: text_view(self.scheme),
            host: text_view(self.host),
            port: self.port,
            request_timeout: self.request_timeout,
            wait_timeout: self.wait_timeout,
        }
    }
}

/// A required credential: the text that was found, unless none was found
/// or it is empty.
pub open spec fn required_value(field: Field, found: LookupView) -> Result<
    Seq<char>,
    BotErrorView,
> {
    match found {
        LookupView::Text(text) if text.len() > 0 => Ok(text),
        _ => Err(BotErrorView::MissingCredential(field)),
    }
}

/// An optional setting: the text that was found, if any. A value that is
/// not valid Unicode is an error.
pub open spec fn optional_value(field: Field, found: LookupView) -> Result<
    Option<Seq<char>>,
    BotErrorView,
> {
    match found {
        LookupView::Unset => Ok(None),
        LookupView::Text(text) => Ok(Some(text)),
        LookupView::NotUnicode(raw) => Err(BotErrorView::InvalidConfigValue(field, raw)),
    }
}

/// The port setting: absent, or a text that names a port.
pub open spec fn optional_port(found: LookupView) -> Result<Option<u16>, BotErrorView> {
    match optional_value(Field::Port, found) {
        Err(e) => Err(e),
        Ok(None) => Ok(None),
        Ok(Some(text)) => match port_of(text) {
            Some(port) => Ok(Some(port)),
            None => Err(BotErrorView::InvalidConfigValue(Field::Port, text)),
        },
    }
}

/// The longest timeout, in seconds: the most that a duration of the
/// client holds.
pub const MAX_TIMEOUT_SECONDS: i64 = 9223372036854775;

/// The shortest timeout, in seconds: the least that a duration of the
/// client holds.
pub const MIN_TIMEOUT_SECONDS: i64 = -9223372036854775;

/// The timeout that a text names: a count of seconds that a duration of
/// the client holds.
pub open spec fn timeout_of(s: Seq<char>) -> Option<i64> {
    match seconds_of(s) {
        Some(seconds) if MIN_TIMEOUT_SECONDS <= seconds <= MAX_TIMEOUT_SECONDS => Some(seconds),
        _ => None,
    }
}

/// A timeout setting: absent, or a text that names a timeout.
pub open spec fn optional_seconds(field: Field, found: LookupView) -> Result<
    Option<i64>,
    BotErrorView,
> {
    match optional_value(field, found) {
        Err(e) => Err(e),
        Ok(None) => Ok(None),
        Ok(Some(text)) => match timeout_of(text) {
            Some(seconds) => Ok(Some(seconds)),
            None => Err(BotErrorView::InvalidConfigValue(field, text)),
        },
    }
}

/// The error of the first setting that is at fault, in the order in which
/// the settings are read: the four credentials, then scheme, host, port,
/// request timeout and wait timeout.
pub open spec fn first_fault(env: EnvironmentView) -> Option<BotErrorView> {
    if let Err(e) = required_value(Field::ConsumerKey, env.consumer_key) {
        Some(e)
    } else if let Err(e) = required_value(Field::ConsumerSecret, env.consumer_secret) {
        Some(e)
    } else if let Err(e) = required_value(Field::Token, env.token) {
        Some(e)
    } else if let Err(e) = required_value(Field::TokenSecret, env.token_secret) {
        Some(e)
    } else if let Err(e) = optional_value(Field::Scheme, env.scheme) {
        Some(e)
    } else if let Err(e) = optional_value(Field::Host, env.host) {
        Some(e)
    } else if let Err(e) = optional_port(env.port) {
        Some(e)
    } else if let Err(e) = optional_seconds(Field::RequestTimeout, env.request_timeout) {
        Some(e)
    } else if let Err(e) = optional_seconds(Field::WaitTimeout, env.wait_timeout) {
        Some(e)
    } else {
        None
    }
}

/// What resolving `env` gives: the first fault, or else every setting as
/// it was found.
pub open spec fn resolved(env: EnvironmentView) -> Result<ConnectionConfigView, BotErrorView> {
    match first_fault(env) {
        Some(e) => Err(e),
        None => Ok(
            ConnectionConfigView {
                consumer_key: required_value(Field::ConsumerKey, env.consumer_key)->Ok_0,
                consumer_secret: required_value(Field::ConsumerSecret, env.consumer_secret)->Ok_0,
                token: required_value(Field::Token, env.token)->Ok_0,
                token_secret: required_value(Field::TokenSecret, env.token_secret)->Ok_0,
                scheme: optional_value(Field::Scheme, env.scheme)->Ok_0,
                host: optional_value(Field::Host, env.host)->Ok_0,
                port: optional_port(env.port)->Ok_0,
                request_timeout: optional_seconds(
                    Field::RequestTimeout,
                    env.request_timeout,
                )->Ok_0,
                wait_timeout: optional_seconds(Field::WaitTimeout, env.wait_timeout)->Ok_0,
            },
        ),
    }
}

/// Reads a required credential.
pub fn required_text(field: Field, found: Lookup) -> (result: Result<String, BotError>)
    ensures
        match result {
            Ok(text) => required_value(field, found@) == Ok::<Seq<char>, BotErrorView>(text@),
            Err(e) => required_value(field, found@) == Err::<Seq<char>, BotErrorView>(e@),
        },
{
    match found {
        Lookup::Text(text) => {
            if text.as_str().is_empty() {
                Err(BotError::MissingCredential(field))
            } else {
                Ok(text)
            }
        },
        _ => Err(BotError::MissingCredential(field)),
    }
}

/// Reads an optional setting: `None` where none is set.
pub fn opt_env_var(field: Field, found: Lookup) -> (result: Result<Option<String>, BotError>)
    ensures
        match result {
            Ok(text) => optional_value(field, found@) == Ok::<Option<Seq<char>>, BotErrorView>(
                text_view(text),
            ),
            Err(e) => optional_value(field, found@) == Err::<Option<Seq<char>>, BotErrorView>(e@),
        },
{
    match found {
        Lookup::Unset => Ok(None),
        Lookup::Text(text) => Ok(Some(text)),
        Lookup::NotUnicode(raw) => Err(BotError::InvalidConfigValue(field, raw)),
    }
}

/// Reads the port setting.
pub fn port_setting(found: Lookup) -> (result: Result<Option<u16>, BotError>)
    ensures
        match result {
            Ok(port) => optional_port(found@) == Ok::<Option<u16>, BotErrorView>(port),
            Err(e) => optional_port(found@) == Err::<Option<u16>, BotErrorView>(e@),
        },
{
    match opt_env_var(Field::Port, found) {
        Err(e) => Err(e),
        Ok(None) => Ok(None),
        Ok(Some(text)) => match parse_port(text.as_str()) {
            Some(port) => Ok(Some(port)),
            None => Err(BotError::InvalidConfigValue(Field::Port, text)),
        },
    }
}

/// Reads a timeout: a count of seconds between `MIN_TIMEOUT_SECONDS` and
/// `MAX_TIMEOUT_SECONDS`.
pub fn parse_timeout(text: &str) -> (seconds: Option<i64>)
    ensures
        seconds == timeout_of(text@),
{
    match parse_seconds(text) {
        Some(seconds) => if MIN_TIMEOUT_SECONDS <= seconds && seconds <= MAX_TIMEOUT_SECONDS {
            Some(seconds)
        } else {
            None
        },
        None => None,
    }
}

/// Reads a timeout setting, in seconds.
pub fn seconds_setting(field: Field, found: Lookup) -> (result: Result<Option<i64>, BotError>)
    ensures
        match result {
            Ok(seconds) => optional_seconds(field, found@) == Ok::<Option<i64>, BotErrorView>(
                seconds,
            ),
            Err(e) => optional_seconds(field, found@) == Err::<Option<i64>, BotErrorView>(e@),
        },
{
    match opt_env_var(field, found) {
        Err(e) => Err(e),
        Ok(None) => Ok(None),
        Ok(Some(text)) => match parse_timeout(text.as_str()) {
            Some(seconds) => Ok(Some(seconds)),
            None => Err(BotError::InvalidConfigValue(field, text)),
        },
    }
}

/// Resolves the connection settings from what was found. The settings are
/// read in a fixed order and the first fault ends the reading.
pub fn resolve(env: Environment) -> (result: Result<ConnectionConfig, BotError>)
    ensures
        match result {
            Ok(config) => resolved(env@) == Ok::<ConnectionConfigView, BotErrorView>(config@),
            Err(e) => resolved(env@) == Err::<ConnectionConfigView, BotErrorView>(e@),
        },
{
    let Environment {
        consumer_key,
        consumer_secret,
        token,
        token_secret,
        scheme,
        host,
        port,
        request_timeout,
        wait_timeout,
    } = env;
    let consumer_key = match required_text(Field::ConsumerKey, consumer_key) {
        Ok(text) => text,
        Err(e) => return Err(e),
    };
    let consumer_secret = match required_text(Field::ConsumerSecret, consumer_secret) {
        Ok(text) => text,
        Err(e) => return Err(e),
    };
    let token = match required_text(Field::Token, token) {
        Ok(text) => text,
        Err(e) => return Err(e),
    };
    let token_secret = match required_text(Field::TokenSecret, token_secret) {
        Ok(text) => text,
        Err(e) => return Err(e),
    };
    let scheme = match opt_env_var(Field::Scheme, scheme) {
        Ok(text) => text,
        Err(e) => return Err(e),
    };
    let host = match opt_env_var(Field::Host, host) {
        Ok(text) => text,
        Err(e) => return Err(e),
    };
    let port = match port_setting(port) {
        Ok(port) => port,
        Err(e) => return Err(e),
    };
    let request_timeout = match seconds_setting(Field::RequestTimeout, request_timeout) {
        Ok(seconds) => seconds,
        Err(e) => return Err(e),
    };
    let wait_timeout = match seconds_setting(Field::WaitTimeout, wait_timeout) {
        Ok(seconds) => seconds,
        Err(e) => return Err(e),
    };
    Ok(
        ConnectionConfig {
            consumer_key,
            consumer_secret,
            token,
            token_secret,
            scheme,
            host,
            port,
            request_timeout,
            wait_timeout,
        },
    )
}

/// With every credential set and no optional setting, resolving gives
/// the credentials exactly as they were found, and leaves every optional
/// setting at its default.
pub proof fn law_defaults_retained(
    env: EnvironmentView,
    consumer_key: Seq<char>,
    consumer_secret: Seq<char>,
    token: Seq<char>,
    token_secret: Seq<char>,
)
    requires
        consumer_key.len() > 0,
        consumer_secret.len() > 0,
        token.len() > 0,
        token_secret.len() > 0,
        env == EnvironmentView::unset().with(
            Field::ConsumerKey,
            LookupView::Text(consumer_key),
        ).with(Field::ConsumerSecret, LookupView::Text(consumer_secret)).with(
            Field::Token,
            LookupView::Text(token),
        ).with(Field::TokenSecret, LookupView::Text(token_secret)),
    ensures
        resolved(env) == Ok::<ConnectionConfigView, BotErrorView>(
            ConnectionConfigView {
                consumer_key,
                consumer_secret,
                token,
                token_secret,
                scheme: None,
                host: None,
                port: None,
                request_timeout: None,
                wait_timeout: None,
            },
        ),
{
}

/// Where a credential is missing or empty, resolving fails for want of a
/// credential and names one that is missing; where no other credential is
/// missing, it names that one.
pub proof fn law_missing_credential_named(env: EnvironmentView, field: Field)
    requires
        field.spec_is_required(),
        required_value(field, env.get(field)) is Err,
    ensures
        resolved(env) matches Err(BotErrorView::MissingCredential(named)) && named.spec_is_required()
            && required_value(named, env.get(named)) is Err,
        (forall|other: Field|
            other.spec_is_required() && other != field ==> #[trigger] required_value(
                other,
                env.get(other),
            ) is Ok) ==> resolved(env) == Err::<ConnectionConfigView, BotErrorView>(
            BotErrorView::MissingCredential(field),
        ),
{
    if forall|other: Field|
        other.spec_is_required() && other != field ==> #[trigger] required_value(
            other,
            env.get(other),
        ) is Ok {
        if field != Field::ConsumerKey {
            assert(required_value(Field::ConsumerKey, env.get(Field::ConsumerKey)) is Ok);
        }
        if field != Field::ConsumerSecret {
            assert(required_value(Field::ConsumerSecret, env.get(Field::ConsumerSecret)) is Ok);
        }
        if field != Field::Token {
            assert(required_value(Field::Token, env.get(Field::Token)) is Ok);
        }
        if field != Field::TokenSecret {
            assert(required_value(Field::TokenSecret, env.get(Field::TokenSecret)) is Ok);
        }
    }
}

/// Where the credentials are set and nothing is wrong with scheme and
/// host, a port that is set to a text which names no port makes resolving
/// fail with that field and that text.
pub proof fn law_invalid_port_reported(env: EnvironmentView, raw: Seq<char>)
    requires
        forall|field: Field|
            field.spec_is_required() ==> #[trigger] required_value(field, env.get(field)) is Ok,
        optional_value(Field::Scheme, env.scheme) is Ok,
        optional_value(Field::Host, env.host) is Ok,
        env.port == LookupView::Text(raw),
        port_of(raw) is None,
    ensures
        resolved(env) == Err::<ConnectionConfigView, BotErrorView>(
            BotErrorView::InvalidConfigValue(Field::Port, raw),
        ),
{
    assert(required_value(Field::ConsumerKey, env.get(Field::ConsumerKey)) is Ok);
    assert(required_value(Field::ConsumerSecret, env.get(Field::ConsumerSecret)) is Ok);
    assert(required_value(Field::Token, env.get(Field::Token)) is Ok);
    assert(required_value(Field::TokenSecret, env.get(Field::TokenSecret)) is Ok);
}

/// An error of resolving never holds the text of a credential: it either
/// names a credential that is missing, or holds an optional setting with
/// the text that was found for it.
pub proof fn law_errors_hold_no_credential(env: EnvironmentView)
    ensures
        match resolved(env) {
            Ok(_) => true,
            Err(BotErrorView::MissingCredential(field)) => field.spec_is_required(),
            Err(BotErrorView::InvalidConfigValue(field, raw)) => !field.spec_is_required() && (
            env.get(field) == LookupView::Text(raw) || env.get(field) == LookupView::NotUnicode(
                raw,
            )),
            Err(_) => false,
        },
{
}

} // verus!
