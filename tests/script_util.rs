use script_util::address::{
    address_params_for, decode_address, version_byte_for, AddressKind, AddressParamsKind,
    ElementsScript, Network, ScriptToAddr,
};
use script_util::disasm::ScriptToAsm;
use script_util::inner::{get_innerscripts, TxIn, TxOut};
use script_util::script::Script;

fn hash20() -> Vec<u8> {
    (0u8..20).collect()
}

fn p2pkh(hash: &[u8]) -> Script {
    let mut b = vec![0x76, 0xa9, 0x14];
    b.extend_from_slice(hash);
    b.extend_from_slice(&[0x88, 0xac]);
    Script::from_bytes(b)
}

fn p2sh(hash: &[u8]) -> Script {
    let mut b = vec![0xa9, 0x14];
    b.extend_from_slice(hash);
    b.push(0x87);
    Script::from_bytes(b)
}

fn p2wsh(program: &[u8]) -> Script {
    let mut b = vec![0x00, 0x20];
    b.extend_from_slice(program);
    Script::from_bytes(b)
}

fn push(data: &[u8]) -> Vec<u8> {
    let mut b = vec![data.len() as u8];
    b.extend_from_slice(data);
    b
}

#[test]
fn classifies_p2pkh() {
    let s = p2pkh(&hash20());
    assert_eq!(s.len(), 25);
    assert!(s.is_p2pkh());
    assert!(!s.is_p2sh());
    assert!(!s.is_p2wsh());
}

#[test]
fn classifies_p2sh_exclusively() {
    let s = p2sh(&hash20());
    assert_eq!(s.len(), 23);
    assert!(s.is_p2sh());
    assert!(!s.is_p2pkh());
    assert!(!s.is_p2wsh());
}

#[test]
fn classifies_p2wsh() {
    let s = p2wsh(&[7u8; 32]);
    assert!(s.is_p2wsh());
    assert!(!s.is_p2sh());
    assert!(!s.is_p2pkh());
    let short = Script::from_bytes(vec![0x00, 0x20, 1, 2, 3]);
    assert!(!short.is_p2wsh());
}

#[test]
fn reordered_pattern_is_not_classified() {
    let mut b = p2pkh(&hash20()).as_bytes().to_vec();
    b.swap(23, 24);
    let s = Script::from_bytes(b);
    assert!(!s.is_p2pkh());
    assert_eq!(s.to_address_str(Network::Bitcoin), None);
}

#[test]
fn version_bytes() {
    assert_eq!(version_byte_for(Network::Bitcoin, AddressKind::P2pkh), 16);
    assert_eq!(version_byte_for(Network::Bitcoin, AddressKind::P2sh), 5);
    assert_eq!(version_byte_for(Network::Testnet, AddressKind::P2pkh), 111);
    assert_eq!(version_byte_for(Network::Testnet, AddressKind::P2sh), 196);
    assert_eq!(version_byte_for(Network::Regtest, AddressKind::P2sh), 196);
    assert_eq!(version_byte_for(Network::Signet, AddressKind::P2pkh), 111);
}

#[test]
fn mainnet_p2pkh_address() {
    let addr = p2pkh(&hash20()).to_address_str(Network::Bitcoin).unwrap();
    assert_eq!(addr, "7SQfxmMEhETVQuHwTQ3XMS11AkrcJwJS18");
}

#[test]
fn mainnet_p2pkh_round_trip() {
    let addr = p2pkh(&hash20()).to_address_str(Network::Bitcoin).unwrap();
    let (version, hash) = decode_address(&addr).unwrap();
    assert_eq!(version, 16);
    assert_eq!(hash, hash20());
}

#[test]
fn p2pkh_payload_is_bytes_3_to_23() {
    let s = p2pkh(&[0xab; 20]);
    let addr = s.to_address_str(Network::Regtest).unwrap();
    let (version, hash) = decode_address(&addr).unwrap();
    assert_eq!(version, 111);
    assert_eq!(hash.as_slice(), &s.as_bytes()[3..23]);
}

#[test]
fn mainnet_p2sh_address() {
    let addr = p2sh(&hash20()).to_address_str(Network::Bitcoin).unwrap();
    assert_eq!(addr, "31h38a54tFMrR8kzBnP2241MFD2EUHtGha");
}

#[test]
fn testnet_p2pkh_address() {
    let addr = p2pkh(&hash20()).to_address_str(Network::Testnet).unwrap();
    assert_eq!(addr, "mfWyW5fc9NUj75YAnFgoRLrjxgLDn2MMth");
}

#[test]
fn testnet_p2sh_round_trip() {
    let addr = p2sh(&hash20()).to_address_str(Network::Testnet).unwrap();
    assert_eq!(addr, "2MsFFCK16VhsCcvPXruztdzzcTZEQCbNKjJ");
    let (version, hash) = decode_address(&addr).unwrap();
    assert_eq!(version, 196);
    assert_eq!(hash, hash20());
}

#[test]
fn other_scripts_have_no_address() {
    assert_eq!(p2wsh(&[1u8; 32]).to_address_str(Network::Bitcoin), None);
    assert_eq!(Script::from_bytes(vec![]).to_address_str(Network::Testnet), None);
}

#[test]
fn leading_zero_byte_gives_leading_one() {
    let mut data = vec![0u8];
    data.extend(hash20());
    let (version, hash) = decode_address("112D2adLM3UKy4Z4giRbReR6gjWuvHUqB").unwrap();
    assert_eq!(version, data[0]);
    assert_eq!(hash, data[1..].to_vec());
}

#[test]
fn bad_checksum_does_not_decode() {
    assert!(decode_address("7SQfxmMEhETVQuHwTQ3XMS11AkrcJwJS19").is_none());
    assert!(decode_address("0OIl").is_none());
}

#[test]
fn p2sh_redeem_script_from_last_push() {
    let redeem = p2sh(&[9u8; 20]);
    let mut sig = push(&[1, 2, 3]);
    sig.extend(push(redeem.as_bytes()));
    let txin = TxIn { script_sig: Script::from_bytes(sig), witness: vec![] };
    let prevout = TxOut { script_pubkey: p2sh(&hash20()) };
    let r = get_innerscripts(&txin, &prevout);
    assert_eq!(r.redeem_script.unwrap().as_bytes(), redeem.as_bytes());
    assert!(r.witness_script.is_none());
}

#[test]
fn p2sh_wrapped_p2wsh() {
    let redeem = p2wsh(&[5u8; 32]);
    let txin = TxIn {
        script_sig: Script::from_bytes(push(redeem.as_bytes())),
        witness: vec![vec![1, 2], vec![0x51, 0xae]],
    };
    let prevout = TxOut { script_pubkey: p2sh(&hash20()) };
    let r = get_innerscripts(&txin, &prevout);
    assert_eq!(r.redeem_script.unwrap().as_bytes(), redeem.as_bytes());
    assert_eq!(r.witness_script.unwrap().as_bytes(), &[0x51, 0xae]);
}

#[test]
fn native_p2wsh_witness_script() {
    let txin = TxIn {
        script_sig: Script::from_bytes(vec![]),
        witness: vec![vec![], vec![0xac]],
    };
    let prevout = TxOut { script_pubkey: p2wsh(&[3u8; 32]) };
    let r = get_innerscripts(&txin, &prevout);
    assert!(r.redeem_script.is_none());
    assert_eq!(r.witness_script.unwrap().as_bytes(), &[0xac]);
}

#[test]
fn p2wsh_with_empty_witness() {
    let txin = TxIn { script_sig: Script::from_bytes(vec![]), witness: vec![] };
    let prevout = TxOut { script_pubkey: p2wsh(&[3u8; 32]) };
    let r = get_innerscripts(&txin, &prevout);
    assert!(r.redeem_script.is_none());
    assert!(r.witness_script.is_none());
}

#[test]
fn unwrapped_output_has_no_inner_scripts() {
    let redeem = p2wsh(&[5u8; 32]);
    let txin = TxIn {
        script_sig: Script::from_bytes(push(redeem.as_bytes())),
        witness: vec![vec![0x51]],
    };
    let prevout = TxOut { script_pubkey: p2pkh(&hash20()) };
    let r = get_innerscripts(&txin, &prevout);
    assert!(r.redeem_script.is_none());
    assert!(r.witness_script.is_none());
}

#[test]
fn p2sh_script_sig_ending_with_opcode() {
    let mut sig = push(&[1, 2, 3]);
    sig.push(0x87);
    let txin = TxIn { script_sig: Script::from_bytes(sig), witness: vec![vec![1]] };
    let prevout = TxOut { script_pubkey: p2sh(&hash20()) };
    let r = get_innerscripts(&txin, &prevout);
    assert!(r.redeem_script.is_none());
    assert!(r.witness_script.is_none());
}

#[test]
fn p2sh_truncated_script_sig() {
    let mut sig = push(&[1, 2, 3]);
    sig.extend_from_slice(&[0x05, 0x01]);
    let txin = TxIn { script_sig: Script::from_bytes(sig), witness: vec![] };
    let prevout = TxOut { script_pubkey: p2sh(&hash20()) };
    let r = get_innerscripts(&txin, &prevout);
    assert!(r.redeem_script.is_none());
}

#[test]
fn p2sh_empty_script_sig() {
    let txin = TxIn { script_sig: Script::from_bytes(vec![]), witness: vec![] };
    let prevout = TxOut { script_pubkey: p2sh(&hash20()) };
    assert!(get_innerscripts(&txin, &prevout).redeem_script.is_none());
}

#[test]
fn p2sh_redeem_via_pushdata1() {
    let payload = vec![0x42u8; 80];
    let mut sig = vec![0x4c, 80];
    sig.extend_from_slice(&payload);
    let txin = TxIn { script_sig: Script::from_bytes(sig), witness: vec![] };
    let prevout = TxOut { script_pubkey: p2sh(&hash20()) };
    let r = get_innerscripts(&txin, &prevout);
    assert_eq!(r.redeem_script.unwrap().as_bytes(), payload.as_slice());
}

#[test]
fn nested_p2sh_is_not_unwrapped() {
    let redeem = p2sh(&[9u8; 20]);
    let txin = TxIn {
        script_sig: Script::from_bytes(push(redeem.as_bytes())),
        witness: vec![vec![0x51]],
    };
    let prevout = TxOut { script_pubkey: p2sh(&hash20()) };
    let r = get_innerscripts(&txin, &prevout);
    assert_eq!(r.redeem_script.unwrap().as_bytes(), redeem.as_bytes());
    assert!(r.witness_script.is_none());
}

#[test]
fn disassembles_opcode_and_push() {
    let s = Script::from_bytes(vec![0x76, 0x04, 0xde, 0xad, 0xbe, 0xef]);
    let text = s.to_asm();
    assert_eq!(text, "OP_DUP deadbeef");
    assert_eq!(text.split(' ').count(), 2);
}

#[test]
fn disassembles_p2pkh() {
    let s = p2pkh(&hash20());
    assert_eq!(
        s.to_asm(),
        "OP_DUP OP_HASH160 000102030405060708090a0b0c0d0e0f10111213 OP_EQUALVERIFY OP_CHECKSIG"
    );
}

#[test]
fn disassembles_empty_script() {
    assert_eq!(Script::from_bytes(vec![]).to_asm(), "");
}

#[test]
fn disassembles_empty_push_and_pushnum() {
    let s = Script::from_bytes(vec![0x00, 0x51, 0x6a]);
    assert_eq!(s.to_asm(), "OP_0 OP_PUSHNUM_1 OP_RETURN");
}

#[test]
fn disassembly_marks_truncated_push() {
    let s = Script::from_bytes(vec![0x87, 0x03, 0x01]);
    assert_eq!(s.to_asm(), "OP_EQUAL <invalid>");
    assert_eq!(Script::from_bytes(vec![0x4d, 0x01]).to_asm(), "<invalid>");
}

#[test]
fn disassembles_pushdata2() {
    let s = Script::from_bytes(vec![0x4d, 0x02, 0x00, 0xff, 0x10, 0xac]);
    assert_eq!(s.to_asm(), "ff10 OP_CHECKSIG");
}

#[test]
fn liquid_p2pkh_address() {
    let s = ElementsScript::from_bytes(p2pkh(&hash20()).as_bytes().to_vec());
    let addr = s.to_address_str(Network::Liquid).unwrap();
    assert_eq!(addr, "PwGQLDa3odTQwg1VTbhbEaAFySRHT7LUYT");
}

#[test]
fn liquid_testnet_p2sh_address() {
    let s = ElementsScript::from_bytes(p2sh(&hash20()).as_bytes().to_vec());
    let addr = s.to_address_str(Network::LiquidTestnet).unwrap();
    assert_eq!(addr, "8eRUv6F6pmr7sCiCXf3UoopN4GdSSt6SgR");
}

#[test]
fn elements_regtest_p2wsh_address() {
    let s = ElementsScript::from_bytes(p2wsh(&[3u8; 32]).as_bytes().to_vec());
    let addr = s.to_address_str(Network::LiquidRegtest).unwrap();
    assert!(addr.starts_with("ert1q"));
}

#[test]
fn elements_script_on_base_network_has_no_address() {
    let s = ElementsScript::from_bytes(p2pkh(&hash20()).as_bytes().to_vec());
    assert_eq!(s.to_address_str(Network::Bitcoin), None);
}

#[test]
fn elements_other_script_has_no_address() {
    let s = ElementsScript::from_bytes(vec![0x6a, 0x01, 0x02]);
    assert_eq!(s.to_address_str(Network::Liquid), None);
}

#[test]
fn elements_script_disassembles_like_base() {
    let s = ElementsScript::from_bytes(vec![0x76, 0x04, 0xde, 0xad, 0xbe, 0xef]);
    assert_eq!(s.to_asm(), "OP_DUP deadbeef");
}

#[test]
fn address_params_per_network() {
    assert_eq!(address_params_for(Network::Liquid), Some(AddressParamsKind::Liquid));
    assert_eq!(address_params_for(Network::LiquidTestnet), Some(AddressParamsKind::LiquidTestnet));
    assert_eq!(address_params_for(Network::LiquidRegtest), Some(AddressParamsKind::Elements));
    assert_eq!(address_params_for(Network::Bitcoin), None);
}
