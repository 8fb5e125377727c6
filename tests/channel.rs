use bitcoin::consensus::{deserialize, serialize};
use bitcoin::secp256k1::{PublicKey, Secp256k1, SecretKey};
use channel_tx::error::ChannelError;
use channel_tx::keys::{generate_revocation_privkey, generate_revocation_pubkey};
use channel_tx::order::{bytes_less, order, Output};
use channel_tx::script::{
    build_htlc_offerer_witness_script, p2wpkh_output_script, p2wsh_output_script, to_local,
    two_of_two_multisig_witness_script,
};
use channel_tx::tx::{
    build_commitment_transaction, build_funding_transaction, build_htlc_commitment_transaction,
    build_htlc_timeout_transaction, build_output, build_refund_transaction, build_transaction,
    Transaction, TxInput,
};

fn secret(b: u8) -> Vec<u8> {
    vec![b; 32]
}

fn point(b: u8) -> Vec<u8> {
    let sk = SecretKey::from_slice(&secret(b)).unwrap();
    PublicKey::from_secret_key(&Secp256k1::new(), &sk).serialize().to_vec()
}

fn point_of(secret: &[u8]) -> Vec<u8> {
    let sk = SecretKey::from_slice(secret).unwrap();
    PublicKey::from_secret_key(&Secp256k1::new(), &sk).serialize().to_vec()
}

fn hex(s: &str) -> Vec<u8> {
    (0..s.len() / 2).map(|i| u8::from_str_radix(&s[2 * i..2 * i + 2], 16).unwrap()).collect()
}

fn txin(sequence: u32) -> TxInput {
    TxInput { previous_txid: vec![7u8; 32], previous_vout: 1, sequence }
}

fn pairs(tx: &Transaction) -> Vec<(u64, Vec<u8>)> {
    tx.outputs.iter().map(|o| (o.value, o.script_pubkey.clone())).collect()
}

fn to_bitcoin(tx: &Transaction) -> bitcoin::Transaction {
    bitcoin::Transaction {
        version: bitcoin::transaction::Version(tx.version),
        lock_time: bitcoin::absolute::LockTime::from_consensus(tx.lock_time),
        input: tx
            .inputs
            .iter()
            .map(|i| bitcoin::TxIn {
                previous_output: bitcoin::OutPoint {
                    txid: <bitcoin::Txid as bitcoin::hashes::Hash>::from_slice(&i.previous_txid).unwrap(),
                    vout: i.previous_vout,
                },
                script_sig: bitcoin::ScriptBuf::new(),
                sequence: bitcoin::Sequence(i.sequence),
                witness: bitcoin::Witness::new(),
            })
            .collect(),
        output: tx
            .outputs
            .iter()
            .map(|o| bitcoin::TxOut {
                value: bitcoin::Amount::from_sat(o.value),
                script_pubkey: bitcoin::ScriptBuf::from_bytes(o.script_pubkey.clone()),
            })
            .collect(),
    }
}

fn wsh(script: &[u8]) -> Vec<u8> {
    bitcoin::ScriptBuf::new_p2wsh(&bitcoin::Script::from_bytes(script).wscript_hash()).into_bytes()
}

fn wpkh(key: &[u8]) -> Vec<u8> {
    let pk = bitcoin::CompressedPublicKey::from_slice(key).unwrap();
    bitcoin::ScriptBuf::new_p2wpkh(&pk.wpubkey_hash()).into_bytes()
}

#[test]
fn multisig_script_keeps_caller_order() {
    let a = point(1);
    let b = point(2);
    let mut expected = vec![0x52, 0x21];
    expected.extend_from_slice(&a);
    expected.push(0x21);
    expected.extend_from_slice(&b);
    expected.extend_from_slice(&[0x52, 0xae]);
    assert_eq!(two_of_two_multisig_witness_script(&a, &b), expected);
    let swapped = two_of_two_multisig_witness_script(&b, &a);
    assert_ne!(swapped, expected);
    assert_eq!(&swapped[2..35], &b[..]);
}

#[test]
fn multisig_script_matches_bitcoin_builder() {
    let a = point(3);
    let b = point(4);
    let ka = bitcoin::PublicKey::from_slice(&a).unwrap();
    let kb = bitcoin::PublicKey::from_slice(&b).unwrap();
    let expected = bitcoin::script::Builder::new()
        .push_int(2)
        .push_key(&ka)
        .push_key(&kb)
        .push_int(2)
        .push_opcode(bitcoin::opcodes::all::OP_CHECKMULTISIG)
        .into_script();
    assert_eq!(two_of_two_multisig_witness_script(&a, &b), expected.into_bytes());
}

#[test]
fn to_local_matches_bitcoin_builder() {
    let rev = point(5);
    let delayed = point(6);
    let kr = bitcoin::PublicKey::from_slice(&rev).unwrap();
    let kd = bitcoin::PublicKey::from_slice(&delayed).unwrap();
    for delay in [0i64, 1, 16, 17, 127, 128, 144, 255, 256, 300, 32767, 32768, 40000, 65535] {
        let expected = bitcoin::script::Builder::new()
            .push_opcode(bitcoin::opcodes::all::OP_IF)
            .push_key(&kr)
            .push_opcode(bitcoin::opcodes::all::OP_ELSE)
            .push_int(delay)
            .push_opcode(bitcoin::opcodes::all::OP_CSV)
            .push_opcode(bitcoin::opcodes::all::OP_DROP)
            .push_key(&kd)
            .push_opcode(bitcoin::opcodes::all::OP_ENDIF)
            .push_opcode(bitcoin::opcodes::all::OP_CHECKSIG)
            .into_script();
        assert_eq!(to_local(&rev, &delayed, delay).unwrap(), expected.into_bytes());
    }
}

#[test]
fn to_local_delay_144_bytes() {
    let rev = point(5);
    let delayed = point(6);
    let mut expected = vec![0x63, 0x21];
    expected.extend_from_slice(&rev);
    expected.extend_from_slice(&[0x67, 0x02, 0x90, 0x00, 0xb2, 0x75, 0x21]);
    expected.extend_from_slice(&delayed);
    expected.extend_from_slice(&[0x68, 0xac]);
    assert_eq!(to_local(&rev, &delayed, 144).unwrap(), expected);
}

#[test]
fn to_local_rejects_delay_out_of_range() {
    let rev = point(5);
    let delayed = point(6);
    assert_eq!(to_local(&rev, &delayed, -1), Err(ChannelError::InvalidDelay));
    assert_eq!(to_local(&rev, &delayed, 65536), Err(ChannelError::InvalidDelay));
}

#[test]
fn offered_htlc_script_matches_bitcoin_builder() {
    let rev = point(7);
    let remote = point(8);
    let local = point(9);
    let ph = [0xabu8; 20];
    let kr = bitcoin::PublicKey::from_slice(&rev).unwrap();
    let expected = bitcoin::script::Builder::new()
        .push_opcode(bitcoin::opcodes::all::OP_DUP)
        .push_opcode(bitcoin::opcodes::all::OP_HASH160)
        .push_slice(<bitcoin::PubkeyHash as bitcoin::hashes::Hash>::to_byte_array(kr.pubkey_hash()))
        .push_opcode(bitcoin::opcodes::all::OP_EQUAL)
        .push_opcode(bitcoin::opcodes::all::OP_IF)
        .push_opcode(bitcoin::opcodes::all::OP_CHECKSIG)
        .push_opcode(bitcoin::opcodes::all::OP_ELSE)
        .push_key(&bitcoin::PublicKey::from_slice(&remote).unwrap())
        .push_opcode(bitcoin::opcodes::all::OP_SWAP)
        .push_opcode(bitcoin::opcodes::all::OP_SIZE)
        .push_int(32)
        .push_opcode(bitcoin::opcodes::all::OP_EQUAL)
        .push_opcode(bitcoin::opcodes::all::OP_NOTIF)
        .push_opcode(bitcoin::opcodes::all::OP_DROP)
        .push_int(2)
        .push_opcode(bitcoin::opcodes::all::OP_SWAP)
        .push_key(&bitcoin::PublicKey::from_slice(&local).unwrap())
        .push_int(2)
        .push_opcode(bitcoin::opcodes::all::OP_CHECKMULTISIG)
        .push_opcode(bitcoin::opcodes::all::OP_ELSE)
        .push_opcode(bitcoin::opcodes::all::OP_HASH160)
        .push_slice(ph)
        .push_opcode(bitcoin::opcodes::all::OP_EQUALVERIFY)
        .push_opcode(bitcoin::opcodes::all::OP_CHECKSIG)
        .push_opcode(bitcoin::opcodes::all::OP_ENDIF)
        .push_opcode(bitcoin::opcodes::all::OP_ENDIF)
        .into_script();
    assert_eq!(build_htlc_offerer_witness_script(&rev, &remote, &local, &ph), expected.into_bytes());
}

#[test]
fn witness_output_scripts_match_bitcoin() {
    let script = two_of_two_multisig_witness_script(&point(1), &point(2));
    let out = p2wsh_output_script(&script);
    assert_eq!(out.len(), 34);
    assert_eq!(out, wsh(&script));
    let key = point(3);
    let out = p2wpkh_output_script(&key);
    assert_eq!(out.len(), 22);
    assert_eq!(out, wpkh(&key));
}

#[test]
fn revocation_pubkey_is_symmetric() {
    for (x, y) in [(1u8, 2u8), (3, 9), (0x42, 0x17)] {
        let a = point(x);
        let b = point(y);
        let ab = generate_revocation_pubkey(&a, &b).unwrap();
        let ba = generate_revocation_pubkey(&b, &a).unwrap();
        assert_eq!(ab, ba);
        assert_eq!(ab.len(), 33);
    }
}

#[test]
fn revocation_privkey_matches_pubkey() {
    for (x, y) in [(1u8, 2u8), (5, 11), (0x33, 0x71)] {
        let pcs = secret(x);
        let base = secret(y);
        let privkey = generate_revocation_privkey(&pcs, &base).unwrap();
        let expected = generate_revocation_pubkey(&point_of(&base), &point_of(&pcs)).unwrap();
        assert_eq!(point_of(&privkey), expected);
    }
}

#[test]
fn revocation_keys_known_vector() {
    let base = hex("000102030405060708090a0b0c0d0e0f101112131415161718191a1b1c1d1e1f");
    let pcs = hex("1f1e1d1c1b1a191817161514131211100f0e0d0c0b0a09080706050403020100");
    let basepoint = hex("036d6caac248af96f6afa7f904f550253a0f3ef3f5aa2fe6838a95b216691468e2");
    let pcp = hex("025f7117a78150fe2ef97db7cfc83bd57b2e2c0d0dd25eaf467a4a1c2a45ce1486");
    assert_eq!(point_of(&base), basepoint);
    assert_eq!(point_of(&pcs), pcp);
    assert_eq!(
        generate_revocation_pubkey(&basepoint, &pcp).unwrap(),
        hex("02916e326636d19c33f13e8c0c3a03dd157f332f3e99c317c141dd865eb01f8ff0")
    );
    assert_eq!(
        generate_revocation_privkey(&pcs, &base).unwrap(),
        hex("d09ffff62ddb2297ab000cc85bcb4283fdeb6aa052affbc9dddcf33b61078110")
    );
}

#[test]
fn revocation_rejects_invalid_material() {
    let good = point(1);
    assert_eq!(generate_revocation_pubkey(&vec![0u8; 33], &good), Err(ChannelError::InvalidPoint));
    assert_eq!(generate_revocation_pubkey(&good, &vec![5u8; 33]), Err(ChannelError::InvalidPoint));
    assert_eq!(generate_revocation_privkey(&vec![0u8; 32], &secret(1)), Err(ChannelError::InvalidScalar));
    assert_eq!(generate_revocation_privkey(&secret(1), &vec![0xffu8; 32]), Err(ChannelError::InvalidScalar));
}

#[test]
fn bytes_order_is_lexicographic() {
    assert!(bytes_less(&vec![1, 2], &vec![1, 3]));
    assert!(bytes_less(&vec![1, 2], &vec![1, 2, 0]));
    assert!(!bytes_less(&vec![1, 2], &vec![1, 2]));
    assert!(!bytes_less(&vec![2], &vec![1, 9, 9]));
    assert!(bytes_less(&vec![], &vec![0]));
}

fn sample_outputs() -> Vec<(u64, Vec<u8>)> {
    vec![(500, vec![3, 1]), (100, vec![9]), (500, vec![2, 7, 7]), (100, vec![1, 0]), (0, vec![])]
}

fn ordered(pairs_in: &[(u64, Vec<u8>)]) -> Vec<(u64, Vec<u8>)> {
    let outs: Vec<Output> = pairs_in.iter().map(|(v, s)| build_output(*v, s.clone())).collect();
    order(outs).into_iter().map(|o| (o.value, o.script_pubkey)).collect()
}

#[test]
fn order_sorts_by_value_then_script() {
    let r = ordered(&sample_outputs());
    assert_eq!(
        r,
        vec![(0, vec![]), (100, vec![1, 0]), (100, vec![9]), (500, vec![2, 7, 7]), (500, vec![3, 1])]
    );
}

#[test]
fn order_ignores_input_order_and_is_idempotent() {
    let base = sample_outputs();
    let expected = ordered(&base);
    let mut rev = base.clone();
    rev.reverse();
    assert_eq!(ordered(&rev), expected);
    let mut rot = base.clone();
    rot.rotate_left(2);
    assert_eq!(ordered(&rot), expected);
    assert_eq!(ordered(&expected), expected);
}

#[test]
fn order_keeps_equal_outputs() {
    let r = ordered(&[(5, vec![1]), (5, vec![1]), (4, vec![1])]);
    assert_eq!(r, vec![(4, vec![1]), (5, vec![1]), (5, vec![1])]);
    assert!(ordered(&[]).is_empty());
}

#[test]
fn build_transaction_keeps_parts() {
    let tx = build_transaction(2, 9, vec![txin(3)], vec![build_output(2, vec![1]), build_output(1, vec![0])]);
    assert_eq!(tx.version, 2);
    assert_eq!(tx.lock_time, 9);
    assert_eq!(tx.inputs.len(), 1);
    assert_eq!(tx.inputs[0].sequence, 3);
    assert_eq!(pairs(&tx), vec![(2, vec![1]), (1, vec![0])]);
}

#[test]
fn funding_pays_multisig_hash() {
    let a = point(1);
    let b = point(2);
    let tx = build_funding_transaction(vec![txin(0), txin(5)], &a, &b, 1_000_000);
    assert_eq!(tx.version, 2);
    assert_eq!(tx.lock_time, 0);
    assert_eq!(tx.inputs.len(), 2);
    assert_eq!(pairs(&tx), vec![(1_000_000, wsh(&two_of_two_multisig_witness_script(&a, &b)))]);
}

#[test]
fn refund_puts_smaller_balance_first() {
    let alice = point(1);
    let bob = point(2);
    let tx = build_refund_transaction(txin(0), &alice, &bob, 300, 700).unwrap();
    assert_eq!(pairs(&tx), vec![(300, wpkh(&alice)), (700, wpkh(&bob))]);
    let tx = build_refund_transaction(txin(0), &bob, &alice, 700, 300).unwrap();
    assert_eq!(pairs(&tx), vec![(300, wpkh(&alice)), (700, wpkh(&bob))]);
    assert_eq!(tx.lock_time, 0);
    assert_eq!(tx.version, 2);
}

#[test]
fn refund_rejects_overflowing_total() {
    let r = build_refund_transaction(txin(0), &point(1), &point(2), u64::MAX, 1);
    assert!(matches!(r, Err(ChannelError::AmountOverflow)));
    assert!(build_refund_transaction(txin(0), &point(1), &point(2), u64::MAX, 0).is_ok());
}

#[test]
fn commitment_outputs() {
    let rev = point(1);
    let delayed = point(2);
    let remote = point(3);
    let tx = build_commitment_transaction(txin(0), &rev, &delayed, &remote, 144, 9000, 1000).unwrap();
    let local_script = wsh(&to_local(&rev, &delayed, 144).unwrap());
    assert_eq!(pairs(&tx), vec![(1000, wpkh(&remote)), (9000, local_script)]);
    assert!(matches!(
        build_commitment_transaction(txin(0), &rev, &delayed, &remote, 70000, 1, 1),
        Err(ChannelError::InvalidDelay)
    ));
    assert!(matches!(
        build_commitment_transaction(txin(0), &rev, &delayed, &remote, 144, u64::MAX, 1),
        Err(ChannelError::AmountOverflow)
    ));
}

fn htlc_commitment(local_amount: u64, remote_amount: u64) -> Result<Transaction, ChannelError> {
    build_htlc_commitment_transaction(
        txin(0),
        &point(1),
        &point(2),
        &point(3),
        &point(4),
        &point(5),
        144,
        &[0x11; 20],
        5000,
        local_amount,
        remote_amount,
    )
}

#[test]
fn htlc_commitment_is_deterministic_and_ordered() {
    let t1 = htlc_commitment(8000, 2000).unwrap();
    let t2 = htlc_commitment(8000, 2000).unwrap();
    assert_eq!(serialize(&to_bitcoin(&t1)), serialize(&to_bitcoin(&t2)));
    let values: Vec<u64> = t1.outputs.iter().map(|o| o.value).collect();
    assert_eq!(values, vec![2000, 5000, 8000]);
    let htlc = wsh(&build_htlc_offerer_witness_script(&point(1), &point(2), &point(3), &[0x11; 20]));
    let local = wsh(&to_local(&point(1), &point(4), 144).unwrap());
    let remote = wpkh(&point(5));
    assert_eq!(pairs(&t1), vec![(2000, remote.clone()), (5000, htlc.clone()), (8000, local.clone())]);
    // The same three outputs, supplied in another order, order the same way.
    let shuffled = vec![(5000, htlc), (8000, local), (2000, remote)];
    assert_eq!(ordered(&shuffled), pairs(&t1));
}

#[test]
fn htlc_commitment_errors() {
    assert!(matches!(htlc_commitment(u64::MAX - 5000, 1), Err(ChannelError::AmountOverflow)));
    assert!(htlc_commitment(u64::MAX - 5001, 1).is_ok());
    let r = build_htlc_commitment_transaction(
        txin(0), &point(1), &point(2), &point(3), &point(4), &point(5), -5, &[0; 20], 1, 1, 1,
    );
    assert!(matches!(r, Err(ChannelError::InvalidDelay)));
}

#[test]
fn htlc_timeout_sets_locktime() {
    let rev = point(1);
    let delayed = point(2);
    let tx = build_htlc_timeout_transaction(txin(0xFFFF_FFFF), &rev, &delayed, 144, 500000, 4000).unwrap();
    assert_eq!(tx.lock_time, 500000);
    assert_eq!(tx.inputs.len(), 1);
    assert_ne!(tx.inputs[0].sequence, 0xFFFF_FFFF);
    assert_eq!(pairs(&tx), vec![(4000, wsh(&to_local(&rev, &delayed, 144).unwrap()))]);
    let tx = build_htlc_timeout_transaction(txin(0), &rev, &delayed, 144, 500000, 4000).unwrap();
    assert_eq!(tx.inputs[0].sequence, 0);
    assert_eq!(to_bitcoin(&tx).lock_time.to_consensus_u32(), 500000);
    assert!(matches!(
        build_htlc_timeout_transaction(txin(0), &rev, &delayed, 65536, 500000, 4000),
        Err(ChannelError::InvalidDelay)
    ));
}

#[test]
fn serialized_transaction_round_trips() {
    let tx = htlc_commitment(8000, 2000).unwrap();
    let bytes = serialize(&to_bitcoin(&tx));
    let parsed: bitcoin::Transaction = deserialize(&bytes).unwrap();
    let reparsed: Vec<(u64, Vec<u8>)> =
        parsed.output.iter().map(|o| (o.value.to_sat(), o.script_pubkey.to_bytes())).collect();
    assert_eq!(reparsed, pairs(&tx));
    assert_eq!(parsed.input.len(), 1);
    assert_eq!(parsed.input[0].sequence.0, tx.inputs[0].sequence);
    assert_eq!(parsed.input[0].previous_output.vout, 1);
    assert_eq!(parsed.lock_time.to_consensus_u32(), tx.lock_time);
}
