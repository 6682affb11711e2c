//! Configuration of an `Api` handle and the handle itself: a shared token
//! and connector through which requests reach the Telegram server.

use std::sync::Arc;
use vstd::prelude::*;

use crate::stream::{NewUpdatesStream, UpdatesStream};

verus! {

/// `Arc::clone`: a second pointer to the same allocation, so the value
/// reached through it is the one reached through `a`.
#[verifier::external_body]
fn share<T>(a: &Arc<T>) -> (r: Arc<T>)
    ensures
        r == *a,
{
    Arc::clone(a)
}

struct ApiInner<C> {
    token: String,
    connector: C,
}

/// Main type for sending requests to the Telegram bot API: the bot's token
/// and the connector that carries requests, shared between clones.
pub struct Api<C>(Arc<ApiInner<C>>);

/// Which connector an `Api` is built with: the default one, or one given.
#[derive(Debug)]
pub enum ConnectorConfig<C> {
    Default,
    Specified(C),
}

impl<C> Default for ConnectorConfig<C> {
    fn default() -> (r: Self)
        ensures
            r is Default,
    {
        ConnectorConfig::Default
    }
}

impl<C> ConnectorConfig<C> {
    /// A configuration that uses `connector`.
    pub fn new(connector: C) -> (r: Self)
        ensures
            r == ConnectorConfig::Specified(connector),
    {
        ConnectorConfig::Specified(connector)
    }

    /// The configured connector: the one given, or for `Default` what
    /// `default_connector` makes (it is called exactly then).
    pub fn take<E, F: FnOnce() -> Result<C, E>>(self, default_connector: F) -> (r: Result<C, E>)
        requires
            self is Default ==> default_connector.requires(()),
        ensures
            match self {
                ConnectorConfig::Default => default_connector.ensures((), r),
                ConnectorConfig::Specified(c) => r == Ok::<C, E>(c),
            },
    {
        match self {
            ConnectorConfig::Default => default_connector(),
            ConnectorConfig::Specified(connector) => Ok(connector),
        }
    }
}

/// Configuration for an `Api`: the token and the connector to use.
#[derive(Debug)]
pub struct Config<C> {
    token: String,
    connector: ConnectorConfig<C>,
}

impl<C> Config<C> {
    /// The token this configuration builds an `Api` with.
    pub closed spec fn token_view(&self) -> Seq<char> {
        self.token@
    }

    /// The connector this configuration builds an `Api` with.
    pub closed spec fn connector_config(&self) -> ConnectorConfig<C> {
        self.connector
    }

    /// Set connector type for an `Api`; the token is kept.
    pub fn connector(self, connector: C) -> (r: Config<C>)
        ensures
            r.token_view() == self.token_view(),
            r.connector_config() == ConnectorConfig::Specified(connector),
    {
        Config { token: self.token, connector: ConnectorConfig::new(connector) }
    }

    /// Create new `Api` instance with the configured token and connector.
    /// It fails only where the default connector is asked for and
    /// `default_connector` fails, with its error.
    pub fn build<E, F: FnOnce() -> Result<C, E>>(self, default_connector: F) -> (r: Result<Api<C>, E>)
        requires
            self.connector_config() is Default ==> default_connector.requires(()),
        ensures
            match r {
                Ok(api) => {
                    &&& api.token_view() == self.token_view()
                    &&& match self.connector_config() {
                        ConnectorConfig::Default => default_connector.ensures(
                            (),
                            Ok::<C, E>(api.connector_view()),
                        ),
                        ConnectorConfig::Specified(c) => api.connector_view() == c,
                    }
                },
                Err(e) => {
                    &&& self.connector_config() is Default
                    &&& default_connector.ensures((), Err::<C, E>(e))
                },
            },
    {
        let token = self.token;
        match self.connector.take(default_connector) {
            Ok(connector) => Ok(Api(Arc::new(ApiInner { token, connector }))),
            Err(e) => Err(e),
        }
    }
}

impl<C> Clone for Api<C> {
    /// Another handle to the same token and connector.
    fn clone(&self) -> (r: Self)
        ensures
            r.token_view() == self.token_view(),
            r.connector_view() == self.connector_view(),
    {
        Api(share(&self.0))
    }
}

impl<C> Api<C> {
    /// The bot's token.
    pub closed spec fn token_view(&self) -> Seq<char> {
        self.0.token@
    }

    /// The connector requests go through.
    pub closed spec fn connector_view(&self) -> C {
        self.0.connector
    }

    /// Start construction of the `Api` instance: the given token and the
    /// default connector.
    pub fn configure(token: &str) -> (r: Config<C>)
        ensures
            r.token_view() == token@,
            r.connector_config() is Default,
    {
        Config { token: token.to_owned(), connector: ConnectorConfig::Default }
    }

    /// The bot's token.
    pub fn token(&self) -> (t: &str)
        ensures
            t@ == self.token_view(),
    {
        self.0.token.as_str()
    }

    /// The connector requests go through.
    pub fn connector(&self) -> (c: &C)
        ensures
            *c == self.connector_view(),
    {
        &self.0.connector
    }

    /// Create a stream which produces updates from the Telegram server,
    /// through a handle to this `Api`.
    pub fn stream<U>(&self) -> (s: UpdatesStream<C, U>)
        ensures
            s.api().token_view() == self.token_view(),
            s.api().connector_view() == self.connector_view(),
            s@ == UpdatesStream::<C, U>::initial_state(),
    {
        <UpdatesStream<C, U> as NewUpdatesStream<C>>::new(self.clone())
    }
}

/// What a request sent with a time limit resolves to, from what the limit
/// gave: `None` where the time ran out first, else the response, success
/// or failure.
pub fn settle_timeout<T, E>(outcome: Option<Result<T, E>>) -> (r: Result<Option<T>, E>)
    ensures
        match outcome {
            None => r == Ok::<Option<T>, E>(None),
            Some(Ok(t)) => r == Ok::<Option<T>, E>(Some(t)),
            Some(Err(e)) => r == Err::<Option<T>, E>(e),
        },
{
    match outcome {
        None => Ok(None),
        Some(Ok(result)) => Ok(Some(result)),
        Some(Err(error)) => Err(error),
    }
}

} // verus!
