use lightning_js::setup::{
    assemble_setup, derive_vss_identifier, generate_mnemonic, node_setup, parse_network,
    read_wallet, MdkNodeOptions, Network, OptionsError, Wallet,
};

const WORDS: &str = "abandon abandon abandon abandon abandon abandon abandon abandon abandon \
                     abandon abandon about";

/// The SHA-256 hash of the words.
const IDENTIFIER: &str = "c557eec878dfd852ba3f88087c4f350f09c55537ab5e549c3cd14320ec3cef38";

/// The generator of the curve, in compressed and in uncompressed form.
const KEY: &str = "0279be667ef9dcbbac55a06295ce870b07029bfcdb2dce28d959f2815b16f81798";
const LONG_KEY: &str = "0479be667ef9dcbbac55a06295ce870b07029bfcdb2dce28d959f2815b16f81798\
                        483ada7726a3c4655da4fbfc0e1108a8fd17b448a68554199c47d08ffb10d4b8";

fn options() -> MdkNodeOptions {
    MdkNodeOptions {
        network: "mainnet".to_string(),
        mdk_api_key: "key".to_string(),
        vss_url: "https://vss".to_string(),
        esplora_url: "https://esplora".to_string(),
        rgs_url: "https://rgs".to_string(),
        mnemonic: WORDS.to_string(),
        lsp_node_id: KEY.to_string(),
        lsp_address: "10.0.0.1:9735".to_string(),
    }
}

#[test]
fn networks_are_known_by_name() {
    assert_eq!(parse_network(&"mainnet".to_string()), Network::Bitcoin);
    assert_eq!(parse_network(&"testnet".to_string()), Network::Testnet);
    assert_eq!(parse_network(&"signet".to_string()), Network::Signet);
    assert_eq!(parse_network(&"regtest".to_string()), Network::Regtest);
    assert_eq!(parse_network(&"Mainnet".to_string()), Network::Signet);
    assert_eq!(parse_network(&String::new()), Network::Signet);
}

#[test]
fn the_identifier_is_the_hash_of_the_words() {
    assert_eq!(derive_vss_identifier(WORDS), IDENTIFIER);
    assert_eq!(
        derive_vss_identifier(""),
        "e3b0c44298fc1c149afbf4c8996fb92427ae41e4649b934ca495991b7852b855"
    );
}

#[test]
fn a_new_mnemonic_can_be_used() {
    let mnemonic = generate_mnemonic();
    assert_eq!(mnemonic.split(' ').count(), 24);
    assert_eq!(read_wallet(&mnemonic).unwrap().phrase, mnemonic);
    assert_ne!(generate_mnemonic(), mnemonic);
    let mut fresh = options();
    fresh.mnemonic = mnemonic.clone();
    assert_eq!(node_setup(fresh).unwrap().mnemonic, mnemonic);
}

#[test]
fn the_words_count_and_not_the_spaces_between_them() {
    let spaced = format!("  {}  ", WORDS.replace(' ', "   "));
    let wallet = read_wallet(&spaced).unwrap();
    assert_eq!(wallet.phrase, WORDS);
    assert_eq!(wallet.vss_identifier, IDENTIFIER);
}

#[test]
fn the_setup_follows_the_options() {
    let setup = node_setup(options()).unwrap();
    assert_eq!(setup.network, Network::Bitcoin);
    assert!(!setup.anchor_channels);
    assert_eq!(setup.esplora_url, "https://esplora");
    assert_eq!(setup.rgs_url, "https://rgs");
    assert_eq!(setup.vss_url, "https://vss");
    assert_eq!(setup.mnemonic, WORDS);
    assert_eq!(setup.vss_identifier, IDENTIFIER);
    assert_eq!(setup.lsp_node_id[0], 2);
    assert_eq!(setup.lsp_node_id[1], 0x79);
    assert_eq!(setup.lsp_node_id[32], 0x98);
    assert_eq!(setup.lsp_address, "10.0.0.1:9735");
    assert_eq!(
        setup.vss_headers,
        vec![("Authorization".to_string(), "Bearer key".to_string())]
    );
}

#[test]
fn both_forms_of_a_public_key_are_the_same_key() {
    let mut long = options();
    long.lsp_node_id = LONG_KEY.to_string();
    assert_eq!(
        node_setup(long).unwrap().lsp_node_id,
        node_setup(options()).unwrap().lsp_node_id
    );
}

#[test]
fn an_address_is_kept_as_it_was_written() {
    for address in ["lsp.example:9735", "[::1]:80", "1.2.3.4:+80"] {
        let mut other = options();
        other.lsp_address = address.to_string();
        assert_eq!(node_setup(other).unwrap().lsp_address, address);
    }
    for address in ["", "lsp.example", "lsp.example:", "lsp.example:65536", "a b:1", "x.onion:1"] {
        let mut other = options();
        other.lsp_address = address.to_string();
        assert_eq!(node_setup(other), Err(OptionsError::LspAddress), "{address:?}");
    }
}

#[test]
fn the_first_option_that_cannot_be_used_is_told() {
    let mut bad = options();
    bad.lsp_address = "nowhere".to_string();
    assert_eq!(node_setup(bad.clone()), Err(OptionsError::LspAddress));
    bad.lsp_node_id = KEY[..64].to_string();
    assert_eq!(node_setup(bad.clone()), Err(OptionsError::LspNodeId));
    bad.mnemonic = WORDS.replace("about", "abandon");
    assert_eq!(node_setup(bad), Err(OptionsError::Mnemonic));
}

#[test]
fn a_setup_is_assembled_from_what_was_read() {
    let wallet = Wallet { phrase: "p".to_string(), vss_identifier: "v".to_string() };
    let setup =
        assemble_setup(options(), Some(wallet.clone()), Some([3; 33]), true).unwrap();
    assert_eq!(setup.mnemonic, "p");
    assert_eq!(setup.vss_identifier, "v");
    assert_eq!(setup.lsp_node_id, [3; 33]);
    assert_eq!(setup.lsp_address, "10.0.0.1:9735");
    assert_eq!(assemble_setup(options(), None, None, false), Err(OptionsError::Mnemonic));
    assert_eq!(
        assemble_setup(options(), Some(wallet.clone()), None, false),
        Err(OptionsError::LspNodeId)
    );
    assert_eq!(
        assemble_setup(options(), Some(wallet), Some([3; 33]), false),
        Err(OptionsError::LspAddress)
    );
}
