use soroban_cli::commands::config::identity::generate::{Cmd, Error};
use soroban_cli::commands::config::locator;
use soroban_cli::commands::config::locator::ConfigLocator;
use soroban_cli::commands::config::network;
use soroban_cli::commands::config::network::{Args, Network};
use soroban_cli::commands::config::secret;
use soroban_cli::commands::config::secret::Secret;

const TEST_PHRASE: &str =
    "coral light army gather adapt blossom school alcohol coral light army giggle";
const TEST_SECRET_KEY: &str = "SC36BWNUOCZAO7DMEJNNKFV6BOTPJP7IG5PSHLUOLT6DZFRU3D3XGIXW";
const TEST_ADDRESS: &str = "GDIY6AQQ75WMD4W46EYB7O6UYMHOCGQHLAQGQTKHDX4J2DYQCHVCR4W4";

fn cmd(name: &str) -> Cmd {
    Cmd {
        name: name.to_string(),
        seed: None,
        as_secret: false,
        hd_path: None,
        default_seed: true,
        network: Args::default(),
    }
}

fn explicit(rpc_url: &str, passphrase: &str) -> Args {
    Args {
        rpc_url: Some(rpc_url.to_string()),
        network_passphrase: Some(passphrase.to_string()),
        network: None,
    }
}

fn named(name: &str) -> Args {
    Args { rpc_url: None, network_passphrase: None, network: Some(name.to_string()) }
}

fn saved(store: &ConfigLocator, name: &str) -> Secret {
    match store.read_identity(name) {
        Ok(secret) => secret,
        Err(e) => panic!("no identity was saved: {:?}", e),
    }
}

fn phrase(words: &str) -> Secret {
    Secret::SeedPhrase { seed_phrase: words.to_string() }
}

fn key(text: &str) -> Secret {
    Secret::SecretKey { secret_key: text.to_string() }
}

#[test]
fn default_seed_saves_the_test_phrase() {
    let mut store = ConfigLocator::new();
    assert_eq!(cmd("alice").run(&mut store), Ok(None));
    assert!(saved(&store, "alice") == phrase(TEST_PHRASE));
}

#[test]
fn seed_saves_the_phrase_of_the_seed() {
    let mut store = ConfigLocator::new();
    let mut generate = cmd("alice");
    generate.default_seed = false;
    generate.seed = Some("0000000000000000".to_string());
    assert_eq!(generate.run(&mut store), Ok(None));
    assert!(saved(&store, "alice") == phrase(TEST_PHRASE));
}

#[test]
fn default_seed_takes_precedence_over_seed() {
    let mut store = ConfigLocator::new();
    let mut generate = cmd("alice");
    generate.seed = Some("too short".to_string());
    assert_eq!(generate.run(&mut store), Ok(None));
    assert!(saved(&store, "alice") == phrase(TEST_PHRASE));
}

#[test]
fn invalid_seed_saves_nothing() {
    let mut store = ConfigLocator::new();
    let mut generate = cmd("alice");
    generate.default_seed = false;
    generate.seed = Some("too short".to_string());
    generate.network = explicit("https://rpc", "P");
    assert_eq!(generate.run(&mut store), Err(Error::Secret(secret::Error::InvalidSeed)));
    assert!(store.read_identity("alice").is_err());
}

#[test]
fn without_seed_a_random_phrase_is_saved() {
    let mut store = ConfigLocator::new();
    let mut generate = cmd("alice");
    generate.default_seed = false;
    assert_eq!(generate.run(&mut store), Ok(None));
    let first = saved(&store, "alice");
    assert!(matches!(&first, Secret::SeedPhrase { seed_phrase } if seed_phrase.split(' ').count() == 12));
    generate.name = "bob".to_string();
    assert_eq!(generate.run(&mut store), Ok(None));
    assert!(saved(&store, "bob") != first);
}

#[test]
fn as_secret_saves_the_private_key() {
    let mut store = ConfigLocator::new();
    let mut generate = cmd("alice");
    generate.as_secret = true;
    assert_eq!(generate.run(&mut store), Ok(None));
    assert!(saved(&store, "alice") == key(TEST_SECRET_KEY));
}

#[test]
fn as_secret_at_an_hd_path_saves_that_key() {
    let mut store = ConfigLocator::new();
    let mut generate = cmd("alice");
    generate.as_secret = true;
    generate.hd_path = Some(1);
    assert_eq!(generate.run(&mut store), Ok(None));
    let expected = phrase(TEST_PHRASE).private_key(Some(1)).ok().unwrap().to_string();
    assert!(expected != TEST_SECRET_KEY);
    assert!(saved(&store, "alice") == key(&expected));
}

#[test]
fn as_secret_with_an_hd_path_out_of_range_saves_nothing() {
    let mut store = ConfigLocator::new();
    let mut generate = cmd("alice");
    generate.as_secret = true;
    generate.hd_path = Some(secret::MAX_HD_PATH + 1);
    assert_eq!(generate.run(&mut store), Err(Error::Secret(secret::Error::InvalidHdPath)));
    assert!(store.read_identity("alice").is_err());
}

#[test]
fn generating_overwrites_an_identity_of_the_name() {
    let mut store = ConfigLocator::new();
    store.write_identity("alice", &key("old")).unwrap();
    store.write_identity("bob", &key("kept")).unwrap();
    assert_eq!(cmd("alice").run(&mut store), Ok(None));
    assert!(saved(&store, "alice") == phrase(TEST_PHRASE));
    assert!(saved(&store, "bob") == key("kept"));
}

#[test]
fn explicit_network_begins_funding() {
    let mut store = ConfigLocator::new();
    let mut generate = cmd("alice");
    generate.network = explicit("https://rpc", "P");
    let query = generate.run(&mut store).unwrap().unwrap();
    assert_eq!(query.rpc_url, "https://rpc");
    assert_eq!(query.address, TEST_ADDRESS);
    assert!(saved(&store, "alice") == phrase(TEST_PHRASE));
}

#[test]
fn named_network_begins_funding() {
    let mut store = ConfigLocator::new();
    let alpha = Network { rpc_url: "https://a".to_string(), network_passphrase: "PA".to_string() };
    store.write_network("alpha", &alpha).unwrap();
    let mut generate = cmd("alice");
    generate.network = named("alpha");
    generate.hd_path = Some(3);
    let query = generate.run(&mut store).unwrap().unwrap();
    assert_eq!(query.rpc_url, "https://a");
    let expected = phrase(TEST_PHRASE).public_key(Some(3)).ok().unwrap().to_string();
    assert_eq!(query.address, expected);
    assert!(query.address != TEST_ADDRESS);
}

#[test]
fn unknown_network_fails_after_the_identity_is_saved() {
    let mut store = ConfigLocator::new();
    let mut generate = cmd("alice");
    generate.network = named("alpha");
    assert_eq!(
        generate.run(&mut store),
        Err(Error::Network(network::Error::Config(locator::Error::NotFound("alpha".to_string()))))
    );
    assert!(saved(&store, "alice") == phrase(TEST_PHRASE));
}

#[test]
fn partial_network_fails_after_the_identity_is_saved() {
    let mut store = ConfigLocator::new();
    let mut generate = cmd("alice");
    generate.network.rpc_url = Some("https://rpc".to_string());
    assert_eq!(generate.run(&mut store), Err(Error::Network(network::Error::NetworkRequired)));
    assert!(saved(&store, "alice") == phrase(TEST_PHRASE));
}

#[test]
fn as_secret_with_network_funds_the_address_of_the_key() {
    let mut store = ConfigLocator::new();
    let mut generate = cmd("alice");
    generate.as_secret = true;
    generate.network = explicit("https://rpc", "P");
    let query = generate.run(&mut store).unwrap().unwrap();
    assert_eq!(query.address, TEST_ADDRESS);
    assert!(saved(&store, "alice") == key(TEST_SECRET_KEY));
}

#[test]
fn as_secret_with_hd_path_and_network_saves_the_key_and_cannot_fund() {
    let mut store = ConfigLocator::new();
    let mut generate = cmd("alice");
    generate.as_secret = true;
    generate.hd_path = Some(0);
    generate.network = explicit("https://rpc", "P");
    assert_eq!(generate.run(&mut store), Err(Error::Secret(secret::Error::HdPathNotApplicable)));
    assert!(saved(&store, "alice") == key(TEST_SECRET_KEY));

    generate.hd_path = Some(5);
    assert_eq!(generate.run(&mut store), Err(Error::Secret(secret::Error::HdPathNotApplicable)));
    let fifth = phrase(TEST_PHRASE).private_key(Some(5)).ok().unwrap();
    assert!(saved(&store, "alice") == key(&fifth.to_string()));
}

#[test]
fn as_secret_with_hd_path_fails_before_the_network_is_looked_up() {
    let mut store = ConfigLocator::new();
    let mut generate = cmd("alice");
    generate.as_secret = true;
    generate.hd_path = Some(1);
    generate.network = named("alpha");
    assert_eq!(generate.run(&mut store), Err(Error::Secret(secret::Error::HdPathNotApplicable)));
    assert!(store.read_identity("alice").is_ok());
}

#[test]
fn as_secret_with_hd_path_and_no_network_saves_that_key() {
    let mut store = ConfigLocator::new();
    let mut generate = cmd("alice");
    generate.as_secret = true;
    generate.hd_path = Some(5);
    assert_eq!(generate.run(&mut store), Ok(None));
    let fifth = phrase(TEST_PHRASE).private_key(Some(5)).ok().unwrap();
    assert!(saved(&store, "alice") == key(&fifth.to_string()));
}

#[test]
fn funding_asks_the_saved_secret_for_its_address() {
    let store = ConfigLocator::new();
    let mut generate = cmd("alice");
    assert_eq!(generate.funding(&phrase(TEST_PHRASE), &store), Ok(None));
    generate.network = explicit("https://rpc", "P");
    let query = generate.funding(&phrase(TEST_PHRASE), &store).unwrap().unwrap();
    assert_eq!(query.rpc_url, "https://rpc");
    assert_eq!(query.address, TEST_ADDRESS);
    let query = generate.funding(&key(TEST_SECRET_KEY), &store).unwrap().unwrap();
    assert_eq!(query.address, TEST_ADDRESS);
    generate.hd_path = Some(2);
    let query = generate.funding(&phrase(TEST_PHRASE), &store).unwrap().unwrap();
    assert_eq!(query.address, phrase(TEST_PHRASE).public_key(Some(2)).ok().unwrap().to_string());
    assert_eq!(
        generate.funding(&key(TEST_SECRET_KEY), &store),
        Err(Error::Secret(secret::Error::HdPathNotApplicable))
    );
    generate.hd_path = None;
    generate.network = named("alpha");
    assert_eq!(
        generate.funding(&phrase(TEST_PHRASE), &store),
        Err(Error::Network(network::Error::Config(locator::Error::NotFound("alpha".to_string()))))
    );
}

#[test]
fn saving_without_network_then_funding_is_generating() {
    let mut whole = ConfigLocator::new();
    let mut generate = cmd("alice");
    generate.hd_path = Some(3);
    generate.network = explicit("https://rpc", "P");
    let at_once = generate.run(&mut whole);

    let mut steps = ConfigLocator::new();
    let mut quiet = generate.clone();
    quiet.network = Args::default();
    assert_eq!(quiet.run(&mut steps), Ok(None));
    let secret = saved(&steps, "alice");
    assert_eq!(generate.funding(&secret, &steps), at_once);
    assert!(saved(&whole, "alice") == secret);
}

#[test]
fn save_of_a_raw_key_with_an_hd_path_fails() {
    let raw = key(TEST_SECRET_KEY);
    let mut store = ConfigLocator::new();
    let mut generate = cmd("alice");
    generate.hd_path = Some(0);
    generate.network = explicit("https://rpc", "P");
    // saved as it is, and no address can be derived at an HD path
    assert_eq!(
        generate.save(Ok(raw.clone()), &mut store),
        Err(Error::Secret(secret::Error::HdPathNotApplicable))
    );
    assert!(saved(&store, "alice") == raw);
    // as a secret key nothing is saved: no key can be derived at an HD path
    generate.as_secret = true;
    generate.name = "bob".to_string();
    assert_eq!(
        generate.save(Ok(raw.clone()), &mut store),
        Err(Error::Secret(secret::Error::HdPathNotApplicable))
    );
    assert!(store.read_identity("bob").is_err());
    // without an HD path the raw key is saved and its address is funded
    generate.hd_path = None;
    let query = generate.save(Ok(raw.clone()), &mut store).unwrap().unwrap();
    assert_eq!(query.address, TEST_ADDRESS);
    assert!(saved(&store, "bob") == raw);
}

#[test]
fn save_takes_the_seed_phrase_as_given() {
    let words = "illness spike retreat truth genius clock brain pass fit cave bargain toe";
    let mut store = ConfigLocator::new();
    let mut generate = cmd("alice");
    generate.network = explicit("https://rpc", "P");
    let query = generate.save(Ok(phrase(words)), &mut store).unwrap().unwrap();
    assert_eq!(query.address, "GDRXE2BQUC3AZNPVFSCEZ76NJ3WWL25FYFK6RGZGIEKWE4SOOHSUJUJ6");
    assert!(saved(&store, "alice") == phrase(words));
    let mut other = ConfigLocator::new();
    assert_eq!(
        generate.save(Err(secret::Error::InvalidSeed), &mut other),
        Err(Error::Secret(secret::Error::InvalidSeed))
    );
    assert!(other.read_identity("alice").is_err());
}

#[test]
fn save_of_an_invalid_phrase_fails_only_where_a_key_is_needed() {
    let mut store = ConfigLocator::new();
    let mut generate = cmd("alice");
    assert_eq!(generate.save(Ok(phrase("no mnemonic")), &mut store), Ok(None));
    assert!(saved(&store, "alice") == phrase("no mnemonic"));
    generate.network = explicit("https://rpc", "P");
    assert_eq!(
        generate.save(Ok(phrase("no mnemonic")), &mut store),
        Err(Error::Secret(secret::Error::InvalidSeedPhrase))
    );
}
