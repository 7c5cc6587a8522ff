use notify_listener::config::{
    connect_request, BrokerConfig, ConnectRequest, Credentials, Delivery, CLIENT_ID,
    KEEP_ALIVE_SECONDS, REQUEST_CAPACITY,
};

fn config(username: Option<&str>, password: Option<&str>) -> BrokerConfig {
    BrokerConfig {
        mqtt_server: "broker.example".to_string(),
        mqtt_port: 1883,
        mqtt_username: username.map(str::to_string),
        mqtt_password: password.map(str::to_string),
        mqtt_topic: "notify".to_string(),
        cleaning_cycle: 60,
    }
}

#[test]
fn fixed_parts_of_a_request() {
    assert_eq!(CLIENT_ID, "rumqtt-sync");
    assert_eq!(KEEP_ALIVE_SECONDS, 5);
    assert_eq!(REQUEST_CAPACITY, 10);
}

#[test]
fn both_credentials_make_an_authenticated_request() {
    let request = connect_request(&config(Some("user"), Some("secret")));
    assert_eq!(
        request,
        ConnectRequest {
            client_id: "rumqtt-sync".to_string(),
            server: "broker.example".to_string(),
            port: 1883,
            keep_alive_seconds: 5,
            request_capacity: 10,
            credentials: Some(Credentials {
                username: "user".to_string(),
                password: "secret".to_string(),
            }),
            topic: "notify".to_string(),
            delivery: Delivery::AtMostOnce,
        }
    );
}

#[test]
fn one_credential_alone_makes_an_anonymous_request() {
    assert_eq!(connect_request(&config(Some("user"), None)).credentials, None);
    assert_eq!(connect_request(&config(None, Some("secret"))).credentials, None);
    assert_eq!(connect_request(&config(None, None)).credentials, None);
}

#[test]
fn empty_credentials_are_still_credentials() {
    let request = connect_request(&config(Some(""), Some("")));
    assert_eq!(
        request.credentials,
        Some(Credentials { username: String::new(), password: String::new() })
    );
}

#[test]
fn request_leaves_the_configuration_untouched() {
    let before = config(Some("u"), Some("p"));
    let copy = before.clone();
    let first = connect_request(&before);
    let second = connect_request(&before);
    assert_eq!(before, copy);
    assert_eq!(first, second);
}
