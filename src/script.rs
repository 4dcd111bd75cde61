//! Scripts as byte strings, and the classification of locking-script patterns.
use vstd::prelude::*;

verus! {

/// `OP_DUP`
pub const OP_DUP: u8 = 0x76;

/// `OP_HASH160`
pub const OP_HASH160: u8 = 0xa9;

/// `OP_EQUAL`
pub const OP_EQUAL: u8 = 0x87;

/// `OP_EQUALVERIFY`
pub const OP_EQUALVERIFY: u8 = 0x88;

/// `OP_CHECKSIG`
pub const OP_CHECKSIG: u8 = 0xac;

/// `OP_PUSHBYTES_20`
pub const OP_PUSHBYTES_20: u8 = 0x14;

/// `OP_PUSHBYTES_32`
pub const OP_PUSHBYTES_32: u8 = 0x20;

/// `OP_0`, which also marks witness version 0.
pub const OP_0: u8 = 0x00;

/// `OP_DUP OP_HASH160 <20 bytes> OP_EQUALVERIFY OP_CHECKSIG`
pub open spec fn is_p2pkh_bytes(s: Seq<u8>) -> bool {
    &&& s.len() == 25
    &&& s[0] == OP_DUP
    &&& s[1] == OP_HASH160
    &&& s[2] == OP_PUSHBYTES_20
    &&& s[23] == OP_EQUALVERIFY
    &&& s[24] == OP_CHECKSIG
}

/// `OP_HASH160 <20 bytes> OP_EQUAL`
pub open spec fn is_p2sh_bytes(s: Seq<u8>) -> bool {
    &&& s.len() == 23
    &&& s[0] == OP_HASH160
    &&& s[1] == OP_PUSHBYTES_20
    &&& s[22] == OP_EQUAL
}

/// `OP_0 <32 bytes>`: a version 0 witness program of script-hash length.
pub open spec fn is_p2wsh_bytes(s: Seq<u8>) -> bool {
    &&& s.len() == 34
    &&& s[0] == OP_0
    &&& s[1] == OP_PUSHBYTES_32
}

/// An immutable locking or unlocking program.
#[derive(Clone, Debug)]
pub struct Script {
    bytes: Vec<u8>,
}

impl View for Script {
    type V = Seq<u8>;

    closed spec fn view(&self) -> Seq<u8> {
        self.bytes@
    }
}

impl Script {
    /// A script holding exactly `bytes`.
    pub fn from_bytes(bytes: Vec<u8>) -> (r: Script)
        ensures
            r@ == bytes@,
    {
        Script { bytes }
    }

    /// The script's bytes.
    pub fn as_bytes(&self) -> (r: &[u8])
        ensures
            r@ == self@,
    {
        self.bytes.as_slice()
    }

    /// Its length in bytes.
    pub fn len(&self) -> (r: usize)
        ensures
            r == self@.len(),
    {
        self.bytes.len()
    }

    /// Whether the script is a pay-to-public-key-hash locking script.
    pub fn is_p2pkh(&self) -> (r: bool)
        ensures
            r == is_p2pkh_bytes(self@),
    {
        let b = &self.bytes;
        b.len() == 25 && b[0] == OP_DUP && b[1] == OP_HASH160 && b[2] == OP_PUSHBYTES_20
            && b[23] == OP_EQUALVERIFY && b[24] == OP_CHECKSIG
    }

    /// Whether the script is a pay-to-script-hash locking script.
    pub fn is_p2sh(&self) -> (r: bool)
        ensures
            r == is_p2sh_bytes(self@),
    {
        let b = &self.bytes;
        b.len() == 23 && b[0] == OP_HASH160 && b[1] == OP_PUSHBYTES_20 && b[22] == OP_EQUAL
    }

    /// Whether the script is a pay-to-witness-script-hash locking script.
    pub fn is_p2wsh(&self) -> (r: bool)
        ensures
            r == is_p2wsh_bytes(self@),
    {
        let b = &self.bytes;
        b.len() == 34 && b[0] == OP_0 && b[1] == OP_PUSHBYTES_32
    }
}

/// The two patterns are exclusive: a pay-to-script-hash script is never
/// classified as pay-to-public-key-hash.
pub proof fn lemma_p2sh_excludes_p2pkh(s: Seq<u8>)
    requires
        s.len() == 23,
        s[0] == OP_HASH160,
        s[1] == OP_PUSHBYTES_20,
        s[22] == OP_EQUAL,
    ensures
        is_p2sh_bytes(s),
        !is_p2pkh_bytes(s),
{
}

} // verus!
