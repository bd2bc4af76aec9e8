//! From the caller's options to what the node is built from.

use vstd::prelude::*;

use crate::ldk;
use crate::text;

verus! {

#[derive(Clone, PartialEq, Eq, Debug)]
pub struct MdkNodeOptions {
    pub network: String,
    pub mdk_api_key: String,
    pub vss_url: String,
    pub esplora_url: String,
    pub rgs_url: String,
    pub mnemonic: String,
    pub lsp_node_id: String,
    pub lsp_address: String,
}

#[derive(Clone, Copy, PartialEq, Eq, Debug, Structural)]
pub enum Network {
    Bitcoin,
    Testnet,
    Signet,
    Regtest,
}

/// What the node is built from.
#[derive(Clone, PartialEq, Eq, Debug)]
pub struct NodeSetup {
    pub network: Network,
    /// Whether channels with anchor outputs are offered.
    pub anchor_channels: bool,
    pub esplora_url: String,
    pub rgs_url: String,
    /// The words of the mnemonic, with one space between two of them.
    pub mnemonic: String,
    /// The public key of the liquidity provider, in compressed form.
    pub lsp_node_id: [u8; 33],
    /// The address of the liquidity provider, as the caller wrote it.
    pub lsp_address: String,
    pub vss_url: String,
    /// Where the node's state is kept in the versioned store.
    pub vss_identifier: String,
    /// The headers of each request to the versioned store.
    pub vss_headers: Vec<(String, String)>,
}

/// Which option cannot be used.
#[derive(Clone, Copy, PartialEq, Eq, Debug, Structural)]
pub enum OptionsError {
    Mnemonic,
    LspNodeId,
    LspAddress,
}

/// The network that a name stands for. A name that is not known stands for the signet.
pub open spec fn network_named(name: Seq<char>) -> Network {
    if name == "mainnet"@ {
        Network::Bitcoin
    } else if name == "testnet"@ {
        Network::Testnet
    } else if name == "regtest"@ {
        Network::Regtest
    } else {
        Network::Signet
    }
}

/// Where the state of a node with this mnemonic is kept: the SHA-256 hash of its words, in
/// hexadecimal.
pub open spec fn vss_identifier(phrase: Seq<char>) -> Seq<char> {
    text::hex(ldk::sha256_digest(vstd::utf8::encode_utf8(phrase)))
}

/// What is taken from the options as it stands: the network, the addresses of the services and
/// of the liquidity provider, and the key with which each request to the versioned store is authorized.
/// Channels with anchor outputs are never offered.
pub open spec fn follows_options(setup: NodeSetup, options: MdkNodeOptions) -> bool {
    &&& setup.network == network_named(options.network@)
    &&& !setup.anchor_channels
    &&& setup.esplora_url == options.esplora_url
    &&& setup.rgs_url == options.rgs_url
    &&& setup.lsp_address == options.lsp_address
    &&& setup.vss_url == options.vss_url
    &&& setup.vss_headers.len() == 1
    &&& setup.vss_headers[0].0@ == "Authorization"@
    &&& setup.vss_headers[0].1@ == "Bearer "@ + options.mdk_api_key@
}

/// The network that a name stands for.
pub fn parse_network(name: &String) -> (res: Network)
    ensures
        res == network_named(name@),
{
    if *name == "mainnet".to_string() {
        Network::Bitcoin
    } else if *name == "testnet".to_string() {
        Network::Testnet
    } else if *name == "regtest".to_string() {
        Network::Regtest
    } else {
        Network::Signet
    }
}

/// Makes a new mnemonic of 24 words from the machine's randomness. It can be used in the
/// options as it is.
pub fn generate_mnemonic() -> (res: String)
    ensures
        ldk::mnemonic_phrase(res@) == Some(res@),
        text::fields(res@, ' ').len() == 24,
{
    ldk::random_mnemonic()
}

/// Where the state of a node with these words is kept.
pub fn derive_vss_identifier(mnemonic: &str) -> (res: String)
    ensures
        res@ == vss_identifier(mnemonic@),
{
    let digest = ldk::sha256_of(mnemonic.as_bytes());
    text::bytes_to_hex(&digest)
}

/// A mnemonic as it was read.
#[derive(Clone, PartialEq, Eq, Debug)]
pub struct Wallet {
    /// The words, with one space between two of them.
    pub phrase: String,
    /// Where the node's state is kept.
    pub vss_identifier: String,
}

/// Reads a mnemonic.
pub fn read_wallet(mnemonic: &str) -> (res: Option<Wallet>)
    ensures
        res is Some <==> ldk::mnemonic_phrase(mnemonic@) is Some,
        res matches Some(wallet) ==> {
            &&& wallet.phrase@ == ldk::mnemonic_phrase(mnemonic@)->0
            &&& wallet.vss_identifier@ == vss_identifier(wallet.phrase@)
            // The words can be used as a mnemonic again.
            &&& ldk::mnemonic_phrase(wallet.phrase@) == Some(wallet.phrase@)
        },
{
    match ldk::read_mnemonic(mnemonic) {
        Some(phrase) => {
            let vss_identifier = derive_vss_identifier(&phrase);
            Some(Wallet { phrase, vss_identifier })
        },
        None => None,
    }
}

/// What the node is built from, once the mnemonic and the node id were read and the address was
/// looked at. The first of these that could not be read is reported.
pub fn assemble_setup(
    options: MdkNodeOptions,
    wallet: Option<Wallet>,
    lsp_node_id: Option<[u8; 33]>,
    address_reads: bool,
) -> (res: Result<NodeSetup, OptionsError>)
    ensures
        match (wallet, lsp_node_id, address_reads) {
            (None, _, _) => res == Err::<NodeSetup, OptionsError>(OptionsError::Mnemonic),
            (Some(_), None, _) => res == Err::<NodeSetup, OptionsError>(OptionsError::LspNodeId),
            (Some(_), Some(_), false) => res == Err::<NodeSetup, OptionsError>(
                OptionsError::LspAddress,
            ),
            (Some(wallet), Some(key), true) => {
                &&& res is Ok
                &&& res->Ok_0.mnemonic == wallet.phrase
                &&& res->Ok_0.vss_identifier == wallet.vss_identifier
                &&& res->Ok_0.lsp_node_id == key
            },
        },
        res matches Ok(setup) ==> follows_options(setup, options),
{
    let network = parse_network(&options.network);
    let wallet = match wallet {
        Some(wallet) => wallet,
        None => {
            return Err(OptionsError::Mnemonic);
        },
    };
    let lsp_node_id = match lsp_node_id {
        Some(lsp_node_id) => lsp_node_id,
        None => {
            return Err(OptionsError::LspNodeId);
        },
    };
    if !address_reads {
        return Err(OptionsError::LspAddress);
    }
    let mut bearer = "Bearer ".to_string();
    bearer.append(&options.mdk_api_key);
    let mut vss_headers: Vec<(String, String)> = Vec::new();
    vss_headers.push(("Authorization".to_string(), bearer));
    Ok(
        NodeSetup {
            network,
            anchor_channels: false,
            esplora_url: options.esplora_url,
            rgs_url: options.rgs_url,
            mnemonic: wallet.phrase,
            lsp_node_id,
            lsp_address: options.lsp_address,
            vss_url: options.vss_url,
            vss_identifier: wallet.vss_identifier,
            vss_headers,
        },
    )
}

/// What the node is built from. The first option that cannot be used, in the order of the
/// mnemonic, the node id and the address of the liquidity provider, is reported.
pub fn node_setup(options: MdkNodeOptions) -> (res: Result<NodeSetup, OptionsError>)
    ensures
        match (
            ldk::mnemonic_phrase(options.mnemonic@),
            ldk::public_key(options.lsp_node_id@),
            ldk::is_socket_address(options.lsp_address@),
        ) {
            (None, _, _) => res == Err::<NodeSetup, OptionsError>(OptionsError::Mnemonic),
            (Some(_), None, _) => res == Err::<NodeSetup, OptionsError>(OptionsError::LspNodeId),
            (Some(_), Some(_), false) => res == Err::<NodeSetup, OptionsError>(
                OptionsError::LspAddress,
            ),
            (Some(phrase), Some(key), true) => {
                &&& res is Ok
                &&& res->Ok_0.mnemonic@ == phrase
                &&& res->Ok_0.vss_identifier@ == vss_identifier(phrase)
                &&& res->Ok_0.lsp_node_id@ == key
            },
        },
        res matches Ok(setup) ==> {
            &&& follows_options(setup, options)
            // The words can be used as the mnemonic again.
            &&& ldk::mnemonic_phrase(setup.mnemonic@) == Some(setup.mnemonic@)
        },
{
    let wallet = read_wallet(&options.mnemonic);
    let lsp_node_id = ldk::read_public_key(&options.lsp_node_id);
    let address_reads = ldk::reads_as_socket_address(&options.lsp_address);
    assemble_setup(options, wallet, lsp_node_id, address_reads)
}

/// Three networks are known by exactly one name each, and every other name stands for the signet.
pub proof fn law_a_network_has_one_name(name: Seq<char>)
    ensures
        network_named(name) is Bitcoin <==> name == "mainnet"@,
        network_named(name) is Testnet <==> name == "testnet"@,
        network_named(name) is Regtest <==> name == "regtest"@,
        network_named(name) is Signet <==> name != "mainnet"@ && name != "testnet"@ && name
            != "regtest"@,
{
    reveal_strlit("mainnet");
    reveal_strlit("testnet");
    reveal_strlit("regtest");
    assert("mainnet"@[0] == 'm' && "testnet"@[0] == 't' && "regtest"@[0] == 'r');
    if name =~= "mainnet"@ {
        assert(name == "mainnet"@);
    }
    if name =~= "testnet"@ {
        assert(name == "testnet"@);
    }
    if name =~= "regtest"@ {
        assert(name == "regtest"@);
    }
}

/// Where a node's state is kept is the whole SHA-256 hash of its words in UTF-8, in hexadecimal:
/// the same for the same words, and different where the hashes differ.
pub proof fn law_the_identifier_is_the_hash_of_the_words(phrase: Seq<char>, other: Seq<char>)
    ensures
        vss_identifier(phrase) == text::hex(
            ldk::sha256_digest(vstd::utf8::encode_utf8(phrase)),
        ),
        vss_identifier(phrase) == vss_identifier(other) <==> ldk::sha256_digest(
            vstd::utf8::encode_utf8(phrase),
        ) == ldk::sha256_digest(vstd::utf8::encode_utf8(other)),
{
    if vss_identifier(phrase) == vss_identifier(other) {
        text::law_hex_is_injective(
            ldk::sha256_digest(vstd::utf8::encode_utf8(phrase)),
            ldk::sha256_digest(vstd::utf8::encode_utf8(other)),
        );
    }
}

/// A setup takes each option where it belongs and unchanged, authorizes requests to the store
/// with the whole key and nothing else, and never offers channels with anchor outputs.
pub proof fn law_a_setup_takes_each_option_as_it_stands(setup: NodeSetup, options: MdkNodeOptions)
    requires
        follows_options(setup, options),
    ensures
        setup.network is Bitcoin <==> options.network@ == "mainnet"@,
        setup.network is Testnet <==> options.network@ == "testnet"@,
        setup.network is Regtest <==> options.network@ == "regtest"@,
        !setup.anchor_channels,
        setup.esplora_url@ == options.esplora_url@,
        setup.rgs_url@ == options.rgs_url@,
        setup.lsp_address@ == options.lsp_address@,
        setup.vss_url@ == options.vss_url@,
        setup.vss_headers@.len() == 1,
        setup.vss_headers@[0].0@ == "Authorization"@,
        setup.vss_headers@[0].1@ == "Bearer "@ + options.mdk_api_key@,
{
    law_a_network_has_one_name(options.network@);
}

} // verus!
