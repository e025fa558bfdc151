//! The errors a run can end with, and the names that give them context.

use vstd::prelude::*;
use vstd::string::*;

verus! {

/// A named setting of the connection configuration.
#[derive(Clone, Copy, Debug, PartialEq, Eq, Structural)]
pub enum Field {
    ConsumerKey,
    ConsumerSecret,
    Token,
    TokenSecret,
    Scheme,
    Host,
    Port,
    RequestTimeout,
    WaitTimeout,
}

/// A call made on the remote client.
#[derive(Clone, Copy, Debug, PartialEq, Eq, Structural)]
pub enum Operation {
    FetchState,
    UndoRetweet,
    Retweet,
    Publish,
}

/// Why a run was abandoned. Every error is fatal to the run.
#[derive(Debug, PartialEq, Eq)]
pub enum BotError {
    /// A required credential is absent, empty or unreadable.
    MissingCredential(Field),
    /// An optional setting is present but is not of the expected type.
    /// Holds the field and the raw text that was found.
    InvalidConfigValue(Field, String),
    /// The remote client could not be connected.
    ConnectionFailure,
    /// The candidate list is empty or holds a weight of zero.
    InvalidCandidateSet,
    /// A call on the remote client failed.
    RemoteCallFailure(Operation),
}

/// What a `BotError` says, with the raw text as a sequence of characters.
pub ghost enum BotErrorView {
    MissingCredential(Field),
    InvalidConfigValue(Field, Seq<char>),
    ConnectionFailure,
    InvalidCandidateSet,
    RemoteCallFailure(Operation),
}

impl View for BotError {
    type V = BotErrorView;

    open spec fn view(&self) -> BotErrorView {
        match *self {
            BotError::MissingCredential(field) => BotErrorView::MissingCredential(field),
            BotError::InvalidConfigValue(field, raw) => BotErrorView::InvalidConfigValue(
                field,
                raw@,
            ),
            BotError::ConnectionFailure => BotErrorView::ConnectionFailure,
            BotError::InvalidCandidateSet => BotErrorView::InvalidCandidateSet,
            BotError::RemoteCallFailure(operation) => BotErrorView::RemoteCallFailure(operation),
        }
    }
}

impl Field {
    /// The field's short name, as error messages give it.
    pub open spec fn spec_name(self) -> Seq<char> {
        match self {
            Field::ConsumerKey => "consumer key"@,
            Field::ConsumerSecret => "consumer secret"@,
            Field::Token => "token"@,
            Field::TokenSecret => "token secret"@,
            Field::Scheme => "scheme"@,
            Field::Host => "host"@,
            Field::Port => "port"@,
            Field::RequestTimeout => "request timeout"@,
            Field::WaitTimeout => "wait timeout"@,
        }
    }

    /// The name of the environment variable the field is read from.
    pub open spec fn spec_variable(self) -> Seq<char> {
        match self {
            Field::ConsumerKey => "TWITTER_CONSUMER_KEY"@,
            Field::ConsumerSecret => "TWITTER_CONSUMER_SECRET"@,
            Field::Token => "TWITTER_TOKEN"@,
            Field::TokenSecret => "TWITTER_TOKEN_SECRET"@,
            Field::Scheme => "GOLDCREST_SCHEME"@,
            Field::Host => "GOLDCREST_HOST"@,
            Field::Port => "GOLDCREST_PORT"@,
            Field::RequestTimeout => "GOLDCREST_REQUEST_TIMEOUT"@,
            Field::WaitTimeout => "GOLDCREST_WAIT_TIMEOUT"@,
        }
    }

    /// Whether a run cannot proceed without the field.
    pub open spec fn spec_is_required(self) -> bool {
        self == Field::ConsumerKey || self == Field::ConsumerSecret || self == Field::Token
            || self == Field::TokenSecret
    }

    pub fn name(self) -> (text: &'static str)
        ensures
            text@ == self.spec_name(),
    {
        match self {
            Field::ConsumerKey => "consumer key",
            Field::ConsumerSecret => "consumer secret",
            Field::Token => "token",
            Field::TokenSecret => "token secret",
            Field::Scheme => "scheme",
            Field::Host => "host",
            Field::Port => "port",
            Field::RequestTimeout => "request timeout",
            Field::WaitTimeout => "wait timeout",
        }
    }

    pub fn variable(self) -> (text: &'static str)
        ensures
            text@ == self.spec_variable(),
    {
        match self {
            Field::ConsumerKey => "TWITTER_CONSUMER_KEY",
            Field::ConsumerSecret => "TWITTER_CONSUMER_SECRET",
            Field::Token => "TWITTER_TOKEN",
            Field::TokenSecret => "TWITTER_TOKEN_SECRET",
            Field::Scheme => "GOLDCREST_SCHEME",
            Field::Host => "GOLDCREST_HOST",
            Field::Port => "GOLDCREST_PORT",
            Field::RequestTimeout => "GOLDCREST_REQUEST_TIMEOUT",
            Field::WaitTimeout => "GOLDCREST_WAIT_TIMEOUT",
        }
    }

    pub fn is_required(self) -> (required: bool)
        ensures
            required == self.spec_is_required(),
    {
        match self {
            Field::ConsumerKey | Field::ConsumerSecret | Field::Token | Field::TokenSecret => true,
            _ => false,
        }
    }
}

impl Operation {
    /// The operation's name, as error messages give it.
    pub open spec fn spec_name(self) -> Seq<char> {
        match self {
            Operation::FetchState => "fetch tweet"@,
            Operation::UndoRetweet => "undo retweet"@,
            Operation::Retweet => "retweet"@,
            Operation::Publish => "send tweet"@,
        }
    }

    pub fn name(self) -> (text: &'static str)
        ensures
            text@ == self.spec_name(),
    {
        match self {
            Operation::FetchState => "fetch tweet",
            Operation::UndoRetweet => "undo retweet",
            Operation::Retweet => "retweet",
            Operation::Publish => "send tweet",
        }
    }
}

impl BotErrorView {
    /// The description of the error that a person reads.
    pub open spec fn message(self) -> Seq<char> {
        match self {
            BotErrorView::MissingCredential(field) => "twitter "@ + field.spec_name()
                + " missing or invalid"@,
            BotErrorView::InvalidConfigValue(field, raw) => "invalid "@ + field.spec_name()
                + " \""@ + raw + "\""@,
            BotErrorView::ConnectionFailure => "failed to connect to goldcrest"@,
            BotErrorView::InvalidCandidateSet => "no candidate to select from"@,
            BotErrorView::RemoteCallFailure(operation) => "failed to "@ + operation.spec_name(),
        }
    }
}

impl BotError {
    /// Describes the error for the person who runs the bot. A missing
    /// credential is described by its name alone.
    pub fn message(&self) -> (text: String)
        ensures
            text@ == self@.message(),
    {
        match self {
            BotError::MissingCredential(field) => {
                let mut text = String::from_str("twitter ");
                text.append(field.name());
                text.append(" missing or invalid");
                text
            },
            BotError::InvalidConfigValue(field, raw) => {
                let mut text = String::from_str("invalid ");
                text.append(field.name());
                text.append(" \"");
                text.append(raw.as_str());
                text.append("\"");
                text
            },
            BotError::ConnectionFailure => String::from_str("failed to connect to goldcrest"),
            BotError::InvalidCandidateSet => String::from_str("no candidate to select from"),
            BotError::RemoteCallFailure(operation) => {
                let mut text = String::from_str("failed to ");
                text.append(operation.name());
                text
            },
        }
    }
}

} // verus!
