use soroban_cli::commands::config::locator;
use soroban_cli::commands::config::locator::ConfigLocator;
use soroban_cli::commands::config::network::add;
use soroban_cli::commands::config::network::ls;
use soroban_cli::commands::config::network::rm;
use soroban_cli::commands::config::network::{Args, Cmd, Error, Network};

fn net(rpc_url: &str, passphrase: &str) -> Network {
    Network { rpc_url: rpc_url.to_string(), network_passphrase: passphrase.to_string() }
}

fn args(rpc_url: Option<&str>, passphrase: Option<&str>, network: Option<&str>) -> Args {
    Args {
        rpc_url: rpc_url.map(|s| s.to_string()),
        network_passphrase: passphrase.map(|s| s.to_string()),
        network: network.map(|s| s.to_string()),
    }
}

fn store_with_alpha() -> ConfigLocator {
    let mut store = ConfigLocator::new();
    store.write_network("alpha", &net("https://a", "PA")).unwrap();
    store
}

#[test]
fn named_network_is_read_from_the_store() {
    let store = store_with_alpha();
    assert_eq!(args(None, None, Some("alpha")).get(&store), Ok(net("https://a", "PA")));
}

#[test]
fn named_network_takes_precedence_over_explicit_fields() {
    let store = store_with_alpha();
    let both = args(Some("https://x"), Some("P"), Some("alpha"));
    assert_eq!(both.get(&store), Ok(net("https://a", "PA")));
    let url_only = args(Some("https://x"), None, Some("alpha"));
    assert_eq!(url_only.get(&store), Ok(net("https://a", "PA")));
    let passphrase_only = args(None, Some("P"), Some("alpha"));
    assert_eq!(passphrase_only.get(&store), Ok(net("https://a", "PA")));
}

#[test]
fn named_network_that_is_not_saved_is_not_found() {
    let store = store_with_alpha();
    let expected = Err(Error::Config(locator::Error::NotFound("beta".to_string())));
    assert_eq!(args(None, None, Some("beta")).get(&store), expected);
    // the explicit fields are no fallback
    assert_eq!(args(Some("https://x"), Some("P"), Some("beta")).get(&store), expected);
}

#[test]
fn explicit_network_is_returned_unchanged() {
    let store = store_with_alpha();
    assert_eq!(args(Some("https://x"), Some("P"), None).get(&store), Ok(net("https://x", "P")));
    let empty = ConfigLocator::new();
    assert_eq!(args(Some("https://x"), Some("P"), None).get(&empty), Ok(net("https://x", "P")));
}

#[test]
fn explicit_network_is_not_validated() {
    let store = ConfigLocator::new();
    assert_eq!(args(Some("not a url"), Some(""), None).get(&store), Ok(net("not a url", "")));
}

#[test]
fn no_network_is_rejected() {
    let store = store_with_alpha();
    let none = args(None, None, None);
    assert!(none.is_no_network());
    assert_eq!(none.get(&store), Err(Error::NetworkRequired));
    assert!(Args::default().is_no_network());
    assert_eq!(Args::default().get(&ConfigLocator::new()), Err(Error::NetworkRequired));
}

#[test]
fn partial_network_is_rejected() {
    let store = store_with_alpha();
    let url_only = args(Some("https://x"), None, None);
    assert!(!url_only.is_no_network());
    assert_eq!(url_only.get(&store), Err(Error::NetworkRequired));
    let passphrase_only = args(None, Some("P"), None);
    assert!(!passphrase_only.is_no_network());
    assert_eq!(passphrase_only.get(&store), Err(Error::NetworkRequired));
}

#[test]
fn is_no_network_is_false_once_anything_is_set() {
    assert!(!args(Some("https://x"), Some("P"), None).is_no_network());
    assert!(!args(None, None, Some("alpha")).is_no_network());
    assert!(!args(Some(""), None, None).is_no_network());
    assert!(!args(Some("https://x"), Some("P"), Some("alpha")).is_no_network());
}

#[test]
fn futurenet_is_the_documented_network() {
    let network = Network::futurenet();
    assert_eq!(network.rpc_url, "https://rpc-futurenet.stellar.org:443");
    assert_eq!(network.network_passphrase, "Test SDF Future Network ; October 2022");
}

#[test]
fn network_clone_is_equal() {
    let network = net("https://a", "PA");
    assert_eq!(network.clone(), network);
}

#[test]
fn add_saves_the_network() {
    let mut store = ConfigLocator::new();
    let cmd = Cmd::Add(add::Cmd { name: "alpha".to_string(), network: net("https://a", "PA") });
    assert_eq!(cmd.run(&mut store), Ok(Vec::<String>::new()));
    assert_eq!(store.read_network("alpha"), Ok(net("https://a", "PA")));
    let again = Cmd::Add(add::Cmd { name: "alpha".to_string(), network: net("https://b", "PB") });
    assert_eq!(again.run(&mut store), Ok(Vec::<String>::new()));
    assert_eq!(store.read_network("alpha"), Ok(net("https://b", "PB")));
}

#[test]
fn rm_removes_the_network() {
    let mut store = store_with_alpha();
    let cmd = Cmd::Rm(rm::Cmd { name: "alpha".to_string() });
    assert_eq!(cmd.run(&mut store), Ok(Vec::<String>::new()));
    assert_eq!(
        cmd.run(&mut store),
        Err(Error::Config(locator::Error::NotFound("alpha".to_string())))
    );
    assert!(store.list_networks().is_empty());
}

#[test]
fn ls_lists_the_saved_names() {
    let mut store = store_with_alpha();
    store.write_network("beta", &net("https://b", "PB")).unwrap();
    let mut lines = Cmd::Ls(ls::Cmd {}).run(&mut store).unwrap();
    lines.sort();
    assert_eq!(lines, vec!["alpha".to_string(), "beta".to_string()]);
    assert_eq!(store.read_network("alpha"), Ok(net("https://a", "PA")));
    assert_eq!(Cmd::Ls(ls::Cmd {}).run(&mut ConfigLocator::new()), Ok(Vec::<String>::new()));
}
