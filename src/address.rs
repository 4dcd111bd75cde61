//! Legacy Base58Check addresses of pay-to-public-key-hash and
//! pay-to-script-hash locking scripts.
use crate::script::{
    is_p2pkh_bytes, is_p2sh_bytes, is_p2wsh_bytes, Script, OP_CHECKSIG, OP_DUP, OP_EQUAL, OP_EQUALVERIFY,
    OP_HASH160, OP_PUSHBYTES_20,
};
use vstd::prelude::*;

verus! {

/// The deployment an address is rendered for.
#[derive(Clone, Copy, Debug, PartialEq, Eq, Structural)]
pub enum Network {
    Bitcoin,
    Testnet,
    Regtest,
    Signet,
    Liquid,
    LiquidTestnet,
    LiquidRegtest,
}

/// The address parameter sets of the confidential-extension chains.
#[derive(Clone, Copy, Debug, PartialEq, Eq, Structural)]
pub enum AddressParamsKind {
    Liquid,
    LiquidTestnet,
    Elements,
}

/// Each confidential-extension network has its parameter set.
pub open spec fn address_params_spec(network: Network) -> Option<AddressParamsKind> {
    match network {
        Network::Liquid => Some(AddressParamsKind::Liquid),
        Network::LiquidTestnet => Some(AddressParamsKind::LiquidTestnet),
        Network::LiquidRegtest => Some(AddressParamsKind::Elements),
        _ => None,
    }
}

/// The address parameters of a confidential-extension network; none for the
/// other networks.
pub fn address_params_for(network: Network) -> (r: Option<AddressParamsKind>)
    ensures
        r == address_params_spec(network),
{
    match network {
        Network::Liquid => Some(AddressParamsKind::Liquid),
        Network::LiquidTestnet => Some(AddressParamsKind::LiquidTestnet),
        Network::LiquidRegtest => Some(AddressParamsKind::Elements),
        _ => None,
    }
}

/// The two locking-script patterns that have a legacy address.
#[derive(Clone, Copy, Debug, PartialEq, Eq, Structural)]
pub enum AddressKind {
    P2pkh,
    P2sh,
}

/// Version byte of a mainnet pay-to-public-key-hash address.
pub const MAINNET_P2PKH_VERSION: u8 = 16;

/// Version byte of a mainnet pay-to-script-hash address.
pub const MAINNET_P2SH_VERSION: u8 = 5;

/// Version byte of a pay-to-public-key-hash address on every other network.
pub const TESTNET_P2PKH_VERSION: u8 = 111;

/// Version byte of a pay-to-script-hash address on every other network.
pub const TESTNET_P2SH_VERSION: u8 = 196;

/// Mainnet has its own version bytes; every other network shares the test
/// network's.
pub open spec fn version_byte_spec(network: Network, kind: AddressKind) -> u8 {
    match (network, kind) {
        (Network::Bitcoin, AddressKind::P2pkh) => MAINNET_P2PKH_VERSION,
        (Network::Bitcoin, AddressKind::P2sh) => MAINNET_P2SH_VERSION,
        (_, AddressKind::P2pkh) => TESTNET_P2PKH_VERSION,
        (_, AddressKind::P2sh) => TESTNET_P2SH_VERSION,
    }
}

/// The version byte of an address of `kind` on `network`.
pub fn version_byte_for(network: Network, kind: AddressKind) -> (r: u8)
    ensures
        r == version_byte_spec(network, kind),
{
    match (network, kind) {
        (Network::Bitcoin, AddressKind::P2pkh) => MAINNET_P2PKH_VERSION,
        (Network::Bitcoin, AddressKind::P2sh) => MAINNET_P2SH_VERSION,
        (_, AddressKind::P2pkh) => TESTNET_P2PKH_VERSION,
        (_, AddressKind::P2sh) => TESTNET_P2SH_VERSION,
    }
}

/// What an address encodes: the version byte, then the 20-byte hash that the
/// locking script commits to.
pub open spec fn address_payload(s: Seq<u8>, network: Network) -> Option<Seq<u8>> {
    if is_p2pkh_bytes(s) {
        Some(seq![version_byte_spec(network, AddressKind::P2pkh)] + s.subrange(3, 23))
    } else if is_p2sh_bytes(s) {
        Some(seq![version_byte_spec(network, AddressKind::P2sh)] + s.subrange(2, 22))
    } else {
        None
    }
}

/// The address string of a locking script, where it has one.
pub open spec fn address_of(s: Seq<u8>, network: Network) -> Option<Seq<char>> {
    match address_payload(s, network) {
        Some(p) => Some(base58check_of(p)),
        None => None,
    }
}

/// Whether `addr` is the Base58Check text of `version` followed by `hash`.
pub open spec fn decodes_to(addr: Seq<char>, version: u8, hash: Seq<u8>) -> bool {
    base58check_of(seq![version] + hash) == addr
}

/// `OP_DUP OP_HASH160 <hash> OP_EQUALVERIFY OP_CHECKSIG`
pub open spec fn p2pkh_script_of(hash: Seq<u8>) -> Seq<u8> {
    seq![OP_DUP, OP_HASH160, OP_PUSHBYTES_20] + hash + seq![OP_EQUALVERIFY, OP_CHECKSIG]
}

/// `OP_HASH160 <hash> OP_EQUAL`
pub open spec fn p2sh_script_of(hash: Seq<u8>) -> Seq<u8> {
    seq![OP_HASH160, OP_PUSHBYTES_20] + hash + seq![OP_EQUAL]
}

/// The Base58Check text of `data`: the data followed by the first four bytes
/// of its double SHA-256, in the 58-character alphabet.
pub uninterp spec fn base58check_of(data: Seq<u8>) -> Seq<char>;

/// Relies on bitcoin's `base58::encode_check`, which appends the checksum and
/// encodes the result.
#[verifier::external_body]
fn encode_check(data: &Vec<u8>) -> (r: String)
    ensures
        r@ == base58check_of(data@),
{
    bitcoin::base58::encode_check(data.as_slice())
}

/// Relies on bitcoin's `base58::decode_check`, which inverts `encode_check`:
/// the text that encodes some data decodes to that data.
#[verifier::external_body]
fn decode_check(s: &str) -> (r: Option<Vec<u8>>)
    ensures
        forall|d: Seq<u8>| #[trigger] base58check_of(d) == s@ ==> r is Some && r->Some_0@ == d,
{
    bitcoin::base58::decode_check(s).ok()
}

/// The unblinded address text that the confidential-extension model gives a
/// locking script under `params`.
pub uninterp spec fn elements_address_of(script: Seq<u8>, params: AddressParamsKind) -> Seq<char>;

/// Relies on elements' `Address::from_script`, with no blinding key, and on the
/// address's `Display`. Its source gives an address to every
/// pay-to-public-key-hash, pay-to-script-hash and pay-to-witness-script-hash
/// script.
#[verifier::external_body]
fn elements_address(script: &[u8], params: AddressParamsKind) -> (r: Option<String>)
    ensures
        r is Some ==> r->Some_0@ == elements_address_of(script@, params),
        is_p2pkh_bytes(script@) || is_p2sh_bytes(script@) || is_p2wsh_bytes(script@) ==> r is Some,
{
    let p = match params {
        AddressParamsKind::Liquid => &elements::AddressParams::LIQUID,
        AddressParamsKind::LiquidTestnet => &elements::AddressParams::LIQUID_TESTNET,
        AddressParamsKind::Elements => &elements::AddressParams::ELEMENTS,
    };
    let s = elements::Script::from(script.to_vec());
    elements::Address::from_script(&s, None, p).map(|a| a.to_string())
}

/// `version` followed by the 20 bytes of `bytes` from `start` on.
fn versioned_hash(version: u8, bytes: &[u8], start: usize) -> (r: Vec<u8>)
    requires
        start + 20 <= bytes@.len(),
    ensures
        r@ == seq![version] + bytes@.subrange(start as int, start + 20),
{
    let mut r: Vec<u8> = Vec::new();
    r.push(version);
    let n: usize = bytes.len();
    assert(start + 20 <= n);
    let end: usize = start + 20;
    let mut i: usize = start;
    while i < end
        invariant
            end == start + 20,
            start <= i <= end,
            start + 20 <= bytes@.len(),
            r@ == seq![version] + bytes@.subrange(start as int, i as int),
        decreases end - i,
    {
        r.push(bytes[i]);
        i = i + 1;
        assert(r@ =~= seq![version] + bytes@.subrange(start as int, i as int));
    }
    r
}

/// Renders a locking script as an address string.
pub trait ScriptToAddr {
    fn to_address_str(&self, network: Network) -> Option<String>;
}

impl ScriptToAddr for Script {
    /// The Base58Check address of a pay-to-public-key-hash or
    /// pay-to-script-hash script on `network`; no address for any other script.
    fn to_address_str(&self, network: Network) -> (r: Option<String>)
        ensures
            r is Some == address_of(self@, network) is Some,
            r is Some ==> r->Some_0@ == address_of(self@, network)->Some_0,
    {
        let bytes = self.as_bytes();
        if self.is_p2pkh() {
            let data = versioned_hash(version_byte_for(network, AddressKind::P2pkh), bytes, 3);
            Some(encode_check(&data))
        } else if self.is_p2sh() {
            let data = versioned_hash(version_byte_for(network, AddressKind::P2sh), bytes, 2);
            Some(encode_check(&data))
        } else {
            None
        }
    }
}

/// A locking script of the confidential-extension model, whose addresses follow
/// that model's own rules.
#[derive(Clone, Debug)]
pub struct ElementsScript {
    script: Script,
}

impl View for ElementsScript {
    type V = Seq<u8>;

    closed spec fn view(&self) -> Seq<u8> {
        self.script@
    }
}

impl ElementsScript {
    /// A script holding exactly `bytes`.
    pub fn from_bytes(bytes: Vec<u8>) -> (r: ElementsScript)
        ensures
            r@ == bytes@,
    {
        ElementsScript { script: Script::from_bytes(bytes) }
    }

    /// The same bytes as a script of the base model, which classifies and
    /// decodes them alike.
    pub fn as_script(&self) -> (r: &Script)
        ensures
            r@ == self@,
    {
        &self.script
    }
}

impl ScriptToAddr for ElementsScript {
    /// On a confidential-extension network, the unblinded address under that
    /// network's parameters, which pay-to-public-key-hash, pay-to-script-hash
    /// and pay-to-witness-script-hash scripts always have; on any other
    /// network, none.
    fn to_address_str(&self, network: Network) -> (r: Option<String>)
        ensures
            address_params_spec(network) is None ==> r is None,
            address_params_spec(network) is Some ==> {
                &&& r is Some ==> r->Some_0@ == elements_address_of(
                    self@,
                    address_params_spec(network)->Some_0,
                )
                &&& is_p2pkh_bytes(self@) || is_p2sh_bytes(self@) || is_p2wsh_bytes(self@)
                    ==> r is Some
            },
    {
        match address_params_for(network) {
            Some(params) => elements_address(self.script.as_bytes(), params),
            None => None,
        }
    }
}

/// Decodes a Base58Check address into its version byte and the bytes after it.
/// The text of a version byte and a hash decodes to them.
pub fn decode_address(addr: &str) -> (r: Option<(u8, Vec<u8>)>)
    ensures
        forall|version: u8, hash: Seq<u8>|
            #[trigger] decodes_to(addr@, version, hash) ==> r is Some && r->Some_0.0 == version
                && r->Some_0.1@ == hash,
{
    match decode_check(addr) {
        Some(mut d) => {
            if d.len() > 0 {
                let rest = d.split_off(1);
                assert forall|version: u8, hash: Seq<u8>|
                    #[trigger] decodes_to(addr@, version, hash) implies d[0] == version && rest@
                        == hash by {
                    let p = seq![version] + hash;
                    assert(base58check_of(p) == addr@);
                    assert(p[0] == version);
                    assert(p.drop_first() =~= hash);
                };
                Some((d[0], rest))
            } else {
                assert forall|version: u8, hash: Seq<u8>|
                    !(#[trigger] decodes_to(addr@, version, hash)) by {
                    if decodes_to(addr@, version, hash) {
                        assert(base58check_of(seq![version] + hash) == addr@);
                    }
                };
                None
            }
        },
        None => {
            assert forall|version: u8, hash: Seq<u8>|
                !(#[trigger] decodes_to(addr@, version, hash)) by {
                if decodes_to(addr@, version, hash) {
                    assert(base58check_of(seq![version] + hash) == addr@);
                }
            };
            None
        },
    }
}

/// Every pay-to-public-key-hash script has an address on every network, and
/// that address decodes to the network's version byte and bytes 3..23 of the
/// script.
pub proof fn lemma_p2pkh_address_payload(s: Seq<u8>, network: Network)
    requires
        is_p2pkh_bytes(s),
    ensures
        address_of(s, network) is Some,
        decodes_to(
            address_of(s, network)->Some_0,
            version_byte_spec(network, AddressKind::P2pkh),
            s.subrange(3, 23),
        ),
{
}

/// A 20-byte hash rendered as a mainnet pay-to-public-key-hash address decodes
/// back to version 16 and that hash.
pub proof fn lemma_mainnet_p2pkh_round_trip(hash: Seq<u8>)
    requires
        hash.len() == 20,
    ensures
        address_of(p2pkh_script_of(hash), Network::Bitcoin) is Some,
        decodes_to(address_of(p2pkh_script_of(hash), Network::Bitcoin)->Some_0, 16, hash),
{
    let s = p2pkh_script_of(hash);
    assert(s.subrange(3, 23) =~= hash);
}

/// A 20-byte hash rendered as a testnet pay-to-script-hash address decodes
/// back to version 196 and that hash.
pub proof fn lemma_testnet_p2sh_round_trip(hash: Seq<u8>)
    requires
        hash.len() == 20,
    ensures
        address_of(p2sh_script_of(hash), Network::Testnet) is Some,
        decodes_to(address_of(p2sh_script_of(hash), Network::Testnet)->Some_0, 196, hash),
{
    let s = p2sh_script_of(hash);
    assert(s.subrange(2, 22) =~= hash);
}

} // verus!
