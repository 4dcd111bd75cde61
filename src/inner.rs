//! Recovery of the redeem script and the witness script that govern a spend.
use crate::instruction::{last_push, last_push_of};
use crate::script::{is_p2sh_bytes, is_p2wsh_bytes, Script};
use vstd::prelude::*;

verus! {

/// A transaction input: its unlocking script and its witness stack, the
/// outermost element last.
#[derive(Clone, Debug)]
pub struct TxIn {
    pub script_sig: Script,
    pub witness: Vec<Vec<u8>>,
}

/// A transaction output: its locking script.
#[derive(Clone, Debug)]
pub struct TxOut {
    pub script_pubkey: Script,
}

/// The scripts that a spend reveals behind a wrapped locking script.
#[derive(Clone, Debug)]
pub struct InnerScripts {
    pub redeem_script: Option<Script>,
    pub witness_script: Option<Script>,
}

/// The witness stack as a sequence of byte strings.
pub open spec fn witness_view(w: Seq<Vec<u8>>) -> Seq<Seq<u8>> {
    w.map_values(|e: Vec<u8>| e@)
}

/// The bytes of an optional script.
pub open spec fn opt_script_view(o: Option<Script>) -> Option<Seq<u8>> {
    match o {
        Some(s) => Some(s@),
        None => None,
    }
}

/// A pay-to-script-hash spend reveals its redeem script as the payload of the
/// last push of its unlocking script.
pub open spec fn redeem_script_of(script_sig: Seq<u8>, script_pubkey: Seq<u8>) -> Option<Seq<u8>> {
    if is_p2sh_bytes(script_pubkey) {
        last_push_of(script_sig)
    } else {
        None
    }
}

/// Whether the spend carries a witness script: the spent output is
/// pay-to-witness-script-hash, directly or through its redeem script.
pub open spec fn witness_script_applies(script_sig: Seq<u8>, script_pubkey: Seq<u8>) -> bool {
    is_p2wsh_bytes(script_pubkey) || match redeem_script_of(script_sig, script_pubkey) {
        Some(r) => is_p2wsh_bytes(r),
        None => false,
    }
}

/// Where it applies, the witness script is the last element of the witness
/// stack.
pub open spec fn witness_script_of(
    script_sig: Seq<u8>,
    witness: Seq<Seq<u8>>,
    script_pubkey: Seq<u8>,
) -> Option<Seq<u8>> {
    if witness_script_applies(script_sig, script_pubkey) && witness.len() > 0 {
        Some(witness.last())
    } else {
        None
    }
}

/// Returns the redeem script of a pay-to-script-hash spend and the witness
/// script of a pay-to-witness-script-hash spend, wrapped or not.
pub fn get_innerscripts(txin: &TxIn, prevout: &TxOut) -> (r: InnerScripts)
    ensures
        opt_script_view(r.redeem_script) == redeem_script_of(
            txin.script_sig@,
            prevout.script_pubkey@,
        ),
        opt_script_view(r.witness_script) == witness_script_of(
            txin.script_sig@,
            witness_view(txin.witness@),
            prevout.script_pubkey@,
        ),
{
    let redeem_script = if prevout.script_pubkey.is_p2sh() {
        match last_push(&txin.script_sig) {
            Some(d) => Some(Script::from_bytes(d)),
            None => None,
        }
    } else {
        None
    };
    let applies = prevout.script_pubkey.is_p2wsh() || match &redeem_script {
        Some(s) => s.is_p2wsh(),
        None => false,
    };
    let n = txin.witness.len();
    let witness_script = if applies && n > 0 {
        Some(Script::from_bytes(txin.witness[n - 1].clone()))
    } else {
        None
    };
    InnerScripts { redeem_script, witness_script }
}

/// A pay-to-script-hash spend whose unlocking script ends with a push of a
/// script yields that script as its redeem script.
pub proof fn lemma_p2sh_redeem_script(script_sig: Seq<u8>, script_pubkey: Seq<u8>, pushed: Seq<u8>)
    requires
        is_p2sh_bytes(script_pubkey),
        last_push_of(script_sig) == Some(pushed),
    ensures
        redeem_script_of(script_sig, script_pubkey) == Some(pushed),
{
}

/// A pay-to-script-hash spend whose redeem script is itself
/// pay-to-witness-script-hash yields both scripts: the witness script is the
/// last element of a non-empty witness stack.
pub proof fn lemma_p2sh_wrapped_p2wsh(
    script_sig: Seq<u8>,
    witness: Seq<Seq<u8>>,
    script_pubkey: Seq<u8>,
    pushed: Seq<u8>,
)
    requires
        is_p2sh_bytes(script_pubkey),
        last_push_of(script_sig) == Some(pushed),
        is_p2wsh_bytes(pushed),
        witness.len() > 0,
    ensures
        redeem_script_of(script_sig, script_pubkey) == Some(pushed),
        witness_script_of(script_sig, witness, script_pubkey) == Some(witness.last()),
{
}

/// An output that is neither pay-to-script-hash nor pay-to-witness-script-hash
/// yields no inner script, whatever the input holds.
pub proof fn lemma_unwrapped_output_has_no_inner_scripts(
    script_sig: Seq<u8>,
    witness: Seq<Seq<u8>>,
    script_pubkey: Seq<u8>,
)
    requires
        !is_p2sh_bytes(script_pubkey),
        !is_p2wsh_bytes(script_pubkey),
    ensures
        redeem_script_of(script_sig, script_pubkey) is None,
        witness_script_of(script_sig, witness, script_pubkey) is None,
{
}

} // verus!
