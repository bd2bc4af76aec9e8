//! The calls into the Lightning and Bitcoin crates. What they promise is stated here and not
//! proved; everything that is made of it elsewhere is proved.

use std::str::FromStr;

use bitcoin_payment_instructions::amount::Amount;
use ldk_node::bip39::Mnemonic;
use ldk_node::bitcoin::hashes;
use ldk_node::bitcoin::secp256k1::PublicKey;
use ldk_node::generate_entropy_mnemonic;
use ldk_node::lightning::ln::msgs::SocketAddress;
use ldk_node::lightning::offers::offer::Offer;
use ldk_node::lightning_invoice::{Bolt11Invoice, Description};
use vstd::prelude::*;

use crate::event::PaymentHash;
use crate::invoice::{Invoice, InvoiceView};
use crate::text;

verus! {

/// The largest amount that there can be: 21 million bitcoin, in millisatoshi.
pub const MAX_MSAT: u64 = 2_100_000_000_000_000_000;

/// The longest description of an invoice, in bytes.
pub const MAX_DESCRIPTION_BYTES: usize = 639;

/// What `Bolt11Invoice::from_str` reads from a text, seen through the accessors of the invoice:
/// nothing where the text is no valid BOLT 11 invoice.
pub uninterp spec fn bolt11_invoice(input: Seq<char>) -> Option<InvoiceView>;

/// Whether `Offer::from_str` reads a text as a BOLT 12 offer.
pub uninterp spec fn is_offer(input: Seq<char>) -> bool;

/// The words that `Mnemonic::from_str` reads from a text, with one space between two of them:
/// nothing where the text is no valid BIP 39 mnemonic.
pub uninterp spec fn mnemonic_phrase(input: Seq<char>) -> Option<Seq<char>>;

/// The SHA-256 hash of some bytes.
pub uninterp spec fn sha256_digest(input: Seq<u8>) -> Seq<u8>;

/// The compressed form of the public key that `PublicKey::from_str` reads from a text: nothing
/// where the text is no public key in hexadecimal.
pub uninterp spec fn public_key(input: Seq<char>) -> Option<Seq<u8>>;

/// Whether `SocketAddress::from_str` reads a text as an address with a port.
pub uninterp spec fn is_socket_address(input: Seq<char>) -> bool;

/// `Bolt11Invoice::from_str` of lightning-invoice, and the accessors `to_string`,
/// `payment_hash`, `amount_milli_satoshis`, `expires_at` and `route_hints`: what they give is a
/// function of the text alone.
#[verifier::external_body]
pub(crate) fn read_bolt11(input: &str) -> (res: Option<Invoice>)
    ensures
        res is Some <==> bolt11_invoice(input@) is Some,
        res matches Some(invoice) ==> invoice@ == bolt11_invoice(input@)->0,
{
    match Bolt11Invoice::from_str(input) {
        Ok(invoice) => Some(Invoice {
            bolt11: invoice.to_string(),
            payment_hash: invoice.payment_hash().to_string(),
            amount_msat: invoice.amount_milli_satoshis(),
            expires_at: invoice.expires_at().map(|expiry| expiry.as_secs()),
            route_hints: invoice.route_hints().iter()
                .map(|hint| hint.0.iter().map(|hop| hop.short_channel_id).collect())
                .collect(),
        }),
        Err(_) => None,
    }
}

/// `Offer::from_str` of lightning: whether it reads an offer is a function of the text alone.
#[verifier::external_body]
pub(crate) fn reads_as_offer(input: &str) -> (res: bool)
    ensures
        res == is_offer(input@),
{
    Offer::from_str(input).is_ok()
}

/// `Mnemonic::from_str` and `Mnemonic::to_string` of bip39: the words are a function of the text
/// alone, and read back as themselves.
#[verifier::external_body]
pub(crate) fn read_mnemonic(input: &str) -> (res: Option<String>)
    ensures
        res is Some <==> mnemonic_phrase(input@) is Some,
        res matches Some(phrase) ==> phrase@ == mnemonic_phrase(input@)->0,
        res matches Some(phrase) ==> mnemonic_phrase(phrase@) == Some(phrase@),
{
    match Mnemonic::from_str(input) {
        Ok(mnemonic) => Some(mnemonic.to_string()),
        Err(_) => None,
    }
}

/// `generate_entropy_mnemonic` of ldk-node, without a word count: some 24 words, with one space
/// between two of them, that read back as themselves. Which words they are is left to chance.
#[verifier::external_body]
pub(crate) fn random_mnemonic() -> (res: String)
    ensures
        mnemonic_phrase(res@) == Some(res@),
        text::fields(res@, ' ').len() == 24,
{
    generate_entropy_mnemonic(None).to_string()
}

/// `sha256::Hash::hash` of bitcoin_hashes: 32 bytes that are a function of the input alone.
#[verifier::external_body]
pub(crate) fn sha256_of(input: &[u8]) -> (res: [u8; 32])
    ensures
        res@ == sha256_digest(input@),
{
    let digest = <hashes::sha256::Hash as hashes::Hash>::hash(input);
    hashes::Hash::to_byte_array(digest)
}

/// `PublicKey::from_str` and `PublicKey::serialize` of secp256k1: the 33 bytes of the key are a
/// function of the text alone.
#[verifier::external_body]
pub(crate) fn read_public_key(input: &str) -> (res: Option<[u8; 33]>)
    ensures
        res is Some <==> public_key(input@) is Some,
        res matches Some(key) ==> key@ == public_key(input@)->0,
{
    match PublicKey::from_str(input) {
        Ok(key) => Some(key.serialize()),
        Err(_) => None,
    }
}

/// `SocketAddress::from_str` of lightning: whether it reads an address is a function of the text
/// alone.
#[verifier::external_body]
pub(crate) fn reads_as_socket_address(input: &str) -> (res: bool)
    ensures
        res == is_socket_address(input@),
{
    SocketAddress::from_str(input).is_ok()
}

/// `Description::new` of lightning-invoice: takes a description of at most
/// `MAX_DESCRIPTION_BYTES` bytes of UTF-8 as it is, and refuses a longer one.
#[verifier::external_body]
pub(crate) fn checked_description(description: String) -> (res: Option<String>)
    ensures
        res is Some <==> vstd::utf8::encode_utf8(description@).len() <= MAX_DESCRIPTION_BYTES,
        res matches Some(accepted) ==> accepted@ == description@,
{
    match Description::new(description) {
        Ok(accepted) => Some(accepted.into_inner().0),
        Err(_) => None,
    }
}

/// `Amount::from_milli_sats` of bitcoin-payment-instructions: takes an amount of at most
/// `MAX_MSAT` as it is, and refuses a larger one.
#[verifier::external_body]
pub(crate) fn checked_amount(msat: u64) -> (res: Option<u64>)
    ensures
        res == if msat <= MAX_MSAT {
            Some(msat)
        } else {
            None
        },
{
    match Amount::from_milli_sats(msat) {
        Ok(amount) => Some(amount.milli_sats()),
        Err(_) => None,
    }
}

/// `PaymentHash::to_string` of lightning-types: the bytes of the hash in lowercase hexadecimal.
#[verifier::external_body]
pub(crate) fn payment_hash_to_string(hash: &PaymentHash) -> (res: String)
    ensures
        res@ == text::hex(hash@),
{
    ldk_node::lightning_types::payment::PaymentHash(hash.0).to_string()
}

} // verus!
