use soroban_cli::commands::config::network::Network;
use soroban_cli::table::Table;

fn network(rpc_url: &str, passphrase: &str) -> Network {
    Network { rpc_url: rpc_url.to_string(), network_passphrase: passphrase.to_string() }
}

#[test]
fn table_starts_empty() {
    let table: Table<Network> = Table::new();
    assert!(table.get("alpha").is_none());
    assert!(table.names().is_empty());
}

#[test]
fn table_insert_then_get() {
    let mut table: Table<Network> = Table::new();
    table.insert("alpha".to_string(), network("https://a", "PA"));
    table.insert("beta".to_string(), network("https://b", "PB"));
    assert_eq!(table.get("alpha"), Some(&network("https://a", "PA")));
    assert_eq!(table.get("beta"), Some(&network("https://b", "PB")));
    assert!(table.get("gamma").is_none());
    assert!(table.get("alph").is_none());
    assert!(table.get("").is_none());
}

#[test]
fn table_insert_replaces_by_name() {
    let mut table: Table<Network> = Table::new();
    table.insert("alpha".to_string(), network("https://a", "PA"));
    table.insert("beta".to_string(), network("https://b", "PB"));
    table.insert("alpha".to_string(), network("https://a2", "PA2"));
    assert_eq!(table.get("alpha"), Some(&network("https://a2", "PA2")));
    assert_eq!(table.get("beta"), Some(&network("https://b", "PB")));
    let mut names = table.names();
    names.sort();
    assert_eq!(names, vec!["alpha".to_string(), "beta".to_string()]);
}

#[test]
fn table_remove_takes_one_entry_out() {
    let mut table: Table<Network> = Table::new();
    table.insert("alpha".to_string(), network("https://a", "PA"));
    table.insert("beta".to_string(), network("https://b", "PB"));
    table.insert("gamma".to_string(), network("https://c", "PC"));
    assert!(table.remove("beta"));
    assert!(!table.remove("beta"));
    assert!(!table.remove("delta"));
    assert!(table.get("beta").is_none());
    assert_eq!(table.get("alpha"), Some(&network("https://a", "PA")));
    assert_eq!(table.get("gamma"), Some(&network("https://c", "PC")));
    assert_eq!(table.names().len(), 2);
}

#[test]
fn table_names_lists_each_name_once() {
    let mut table: Table<Network> = Table::new();
    for name in ["a", "b", "a", "c", "b", "a"] {
        table.insert(name.to_string(), network(name, name));
    }
    let mut names = table.names();
    names.sort();
    assert_eq!(names, vec!["a".to_string(), "b".to_string(), "c".to_string()]);
}
