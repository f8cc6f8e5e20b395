use soroban_cli::commands::config::locator::{ConfigLocator, Error};
use soroban_cli::commands::config::network::Network;
use soroban_cli::commands::config::secret::Secret;

fn net(rpc_url: &str, passphrase: &str) -> Network {
    Network { rpc_url: rpc_url.to_string(), network_passphrase: passphrase.to_string() }
}

fn key(text: &str) -> Secret {
    Secret::SecretKey { secret_key: text.to_string() }
}

#[test]
fn read_network_of_an_empty_store_is_not_found() {
    let store = ConfigLocator::new();
    assert_eq!(store.read_network("alpha"), Err(Error::NotFound("alpha".to_string())));
    assert!(store.list_networks().is_empty());
}

#[test]
fn read_network_returns_what_was_written() {
    let mut store = ConfigLocator::new();
    assert_eq!(store.write_network("alpha", &net("https://a", "PA")), Ok(()));
    assert_eq!(store.write_network("beta", &net("https://b", "PB")), Ok(()));
    assert_eq!(store.read_network("alpha"), Ok(net("https://a", "PA")));
    assert_eq!(store.read_network("beta"), Ok(net("https://b", "PB")));
    assert_eq!(store.read_network("Alpha"), Err(Error::NotFound("Alpha".to_string())));
}

#[test]
fn write_network_overwrites_by_name() {
    let mut store = ConfigLocator::new();
    store.write_network("alpha", &net("https://a", "PA")).unwrap();
    store.write_network("alpha", &net("https://a2", "PA2")).unwrap();
    assert_eq!(store.read_network("alpha"), Ok(net("https://a2", "PA2")));
    assert_eq!(store.list_networks(), vec!["alpha".to_string()]);
}

#[test]
fn write_identity_overwrites_silently() {
    let mut store = ConfigLocator::new();
    assert_eq!(store.write_identity("alice", &key("S1")), Ok(()));
    assert!(store.read_identity("alice").ok().unwrap() == key("S1"));
    assert_eq!(store.write_identity("alice", &key("S2")), Ok(()));
    assert!(store.read_identity("alice").ok().unwrap() == key("S2"));
}

#[test]
fn write_identity_is_idempotent() {
    let mut once = ConfigLocator::new();
    once.write_identity("alice", &key("S1")).unwrap();
    let mut twice = ConfigLocator::new();
    twice.write_identity("alice", &key("S1")).unwrap();
    twice.write_identity("alice", &key("S1")).unwrap();
    assert!(once.read_identity("alice").ok() == twice.read_identity("alice").ok());
    assert!(matches!(twice.read_identity("bob"), Err(Error::NotFound(name)) if name == "bob"));
}

#[test]
fn identities_and_networks_are_kept_apart() {
    let mut store = ConfigLocator::new();
    store.write_identity("alpha", &key("S1")).unwrap();
    assert_eq!(store.read_network("alpha"), Err(Error::NotFound("alpha".to_string())));
    store.write_network("beta", &net("https://b", "PB")).unwrap();
    assert!(matches!(store.read_identity("beta"), Err(Error::NotFound(_))));
    assert!(store.read_identity("alpha").ok().unwrap() == key("S1"));
}

#[test]
fn remove_network_takes_it_out() {
    let mut store = ConfigLocator::new();
    store.write_network("alpha", &net("https://a", "PA")).unwrap();
    store.write_network("beta", &net("https://b", "PB")).unwrap();
    assert_eq!(store.remove_network("alpha"), Ok(()));
    assert_eq!(store.read_network("alpha"), Err(Error::NotFound("alpha".to_string())));
    assert_eq!(store.read_network("beta"), Ok(net("https://b", "PB")));
    assert_eq!(store.remove_network("alpha"), Err(Error::NotFound("alpha".to_string())));
    assert_eq!(store.list_networks(), vec!["beta".to_string()]);
}
