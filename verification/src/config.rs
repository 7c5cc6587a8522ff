//! The configuration of the client and the connection that it asks for.

use vstd::prelude::*;
use vstd::string::StringExecFns;

verus! {

/// The client identifier that every session presents.
pub const CLIENT_ID: &'static str = "rumqtt-sync";

/// The keep-alive interval of the wire protocol, in seconds.
pub const KEEP_ALIVE_SECONDS: u64 = 5;

/// How many requests may wait between the client and its connection.
pub const REQUEST_CAPACITY: usize = 10;

/// What the program is configured with. Read once at start and never changed.
#[derive(Clone, Debug, PartialEq, Eq)]
pub struct BrokerConfig {
    pub mqtt_server: String,
    pub mqtt_port: u16,
    pub mqtt_username: Option<String>,
    pub mqtt_password: Option<String>,
    pub mqtt_topic: String,
    /// Seconds between two resets of the dedup store.
    pub cleaning_cycle: u64,
}

/// A [`BrokerConfig`] as the contracts see it.
pub struct BrokerConfigView {
    pub mqtt_server: Seq<char>,
    pub mqtt_port: u16,
    pub mqtt_username: Option<Seq<char>>,
    pub mqtt_password: Option<Seq<char>>,
    pub mqtt_topic: Seq<char>,
    pub cleaning_cycle: u64,
}

impl View for BrokerConfig {
    type V = BrokerConfigView;

    open spec fn view(&self) -> BrokerConfigView {
        BrokerConfigView {
            mqtt_server: self.mqtt_server@,
            mqtt_port: self.mqtt_port,
            mqtt_username: match self.mqtt_username {
                Some(name) => Some(name@),
                None => None,
            },
            mqtt_password: match self.mqtt_password {
                Some(password) => Some(password@),
                None => None,
            },
            mqtt_topic: self.mqtt_topic@,
            cleaning_cycle: self.cleaning_cycle,
        }
    }
}

/// The delivery quality of a subscription.
#[derive(Clone, Copy, Debug, PartialEq, Eq, Structural)]
pub enum Delivery {
    AtMostOnce,
    AtLeastOnce,
    ExactlyOnce,
}

/// A user name with its password.
#[derive(Clone, Debug, PartialEq, Eq)]
pub struct Credentials {
    pub username: String,
    pub password: String,
}

/// Everything that one connection attempt needs: whom to connect to, as
/// whom, and what to subscribe to.
#[derive(Clone, Debug, PartialEq, Eq)]
pub struct ConnectRequest {
    pub client_id: String,
    pub server: String,
    pub port: u16,
    pub keep_alive_seconds: u64,
    pub request_capacity: usize,
    pub credentials: Option<Credentials>,
    pub topic: String,
    pub delivery: Delivery,
}

/// A [`ConnectRequest`] as the contracts see it. The credentials are the
/// user name and the password, in that order.
pub struct ConnectRequestView {
    pub client_id: Seq<char>,
    pub server: Seq<char>,
    pub port: u16,
    pub keep_alive_seconds: u64,
    pub request_capacity: usize,
    pub credentials: Option<(Seq<char>, Seq<char>)>,
    pub topic: Seq<char>,
    pub delivery: Delivery,
}

impl View for ConnectRequest {
    type V = ConnectRequestView;

    open spec fn view(&self) -> ConnectRequestView {
        ConnectRequestView {
            client_id: self.client_id@,
            server: self.server@,
            port: self.port,
            keep_alive_seconds: self.keep_alive_seconds,
            request_capacity: self.request_capacity,
            credentials: match self.credentials {
                Some(login) => Some((login.username@, login.password@)),
                None => None,
            },
            topic: self.topic@,
            delivery: self.delivery,
        }
    }
}

/// The credentials that a configuration gives: both parts or none. A user
/// name without a password, or a password without a user name, gives none.
pub open spec fn credentials_of(config: BrokerConfigView) -> Option<(Seq<char>, Seq<char>)> {
    match (config.mqtt_username, config.mqtt_password) {
        (Some(username), Some(password)) => Some((username, password)),
        _ => None,
    }
}

/// The connection that a configuration asks for.
pub open spec fn connect_request_of(config: BrokerConfigView) -> ConnectRequestView {
    ConnectRequestView {
        client_id: CLIENT_ID@,
        server: config.mqtt_server,
        port: config.mqtt_port,
        keep_alive_seconds: KEEP_ALIVE_SECONDS,
        request_capacity: REQUEST_CAPACITY,
        credentials: credentials_of(config),
        topic: config.mqtt_topic,
        delivery: Delivery::AtMostOnce,
    }
}

/// Builds the request for one connection attempt.
///
/// The session is authenticated exactly when the configuration holds both a
/// user name and a password; otherwise it is anonymous.
pub fn connect_request(config: &BrokerConfig) -> (request: ConnectRequest)
    ensures
        request@ == connect_request_of(config@),
{
    let credentials = match (&config.mqtt_username, &config.mqtt_password) {
        (Some(username), Some(password)) => Some(
            Credentials { username: username.clone(), password: password.clone() },
        ),
        _ => None,
    };
    ConnectRequest {
        client_id: String::from_str(CLIENT_ID),
        server: config.mqtt_server.clone(),
        port: config.mqtt_port,
        keep_alive_seconds: KEEP_ALIVE_SECONDS,
        request_capacity: REQUEST_CAPACITY,
        credentials,
        topic: config.mqtt_topic.clone(),
        delivery: Delivery::AtMostOnce,
    }
}

} // verus!
