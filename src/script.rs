//! Script templates of the channel: two-of-two multisig, revocable to-local,
//! offered HTLC, and their witness output scripts.
use vstd::prelude::*;

use crate::error::ChannelError;
use crate::keys::{sha256, sha256_of};

verus! {

pub const OP_0: u8 = 0x00;
pub const OP_PUSHNUM_1_BASE: u8 = 0x50;
pub const OP_2: u8 = 0x52;
pub const OP_IF: u8 = 0x63;
pub const OP_NOTIF: u8 = 0x64;
pub const OP_ELSE: u8 = 0x67;
pub const OP_ENDIF: u8 = 0x68;
pub const OP_DROP: u8 = 0x75;
pub const OP_DUP: u8 = 0x76;
pub const OP_SWAP: u8 = 0x7c;
pub const OP_SIZE: u8 = 0x82;
pub const OP_EQUAL: u8 = 0x87;
pub const OP_EQUALVERIFY: u8 = 0x88;
pub const OP_HASH160: u8 = 0xa9;
pub const OP_CHECKSIG: u8 = 0xac;
pub const OP_CHECKMULTISIG: u8 = 0xae;
pub const OP_CSV: u8 = 0xb2;

/// The largest relative delay, in blocks, that a to-local script accepts.
pub const MAX_DELAY: i64 = 65535;

/// The RIPEMD-160 of the SHA-256 digest of `data`.
pub uninterp spec fn hash160_of(data: Seq<u8>) -> Seq<u8>;

/// Relies on `bitcoin::hashes::hash160::Hash::hash`: the 20-byte HASH160 digest.
#[verifier::external_body]
fn hash160(data: &Vec<u8>) -> (r: Vec<u8>)
    ensures
        r@ == hash160_of(data@),
        r@.len() == 20,
{
    let h = <bitcoin::hashes::hash160::Hash as bitcoin::hashes::Hash>::hash(data);
    bitcoin::hashes::Hash::to_byte_array(h).to_vec()
}

/// Relies on `bitcoin::script::write_scriptint`: a number in `17..=65535` takes
/// one to three bytes, little endian, with a zero byte added where the top bit
/// of the last one is set.
#[verifier::external_body]
fn scriptint(n: i64) -> (r: Vec<u8>)
    requires
        17 <= n <= MAX_DELAY,
    ensures
        r@ == small_scriptint(n as int),
{
    let mut buf = [0u8; 8];
    let len = bitcoin::script::write_scriptint(&mut buf, n);
    buf[..len].to_vec()
}

/// Script-number bytes of `n` in `17..=65535`.
pub open spec fn small_scriptint(n: int) -> Seq<u8> {
    if n < 0x80 {
        seq![n as u8]
    } else if n < 0x100 {
        seq![n as u8, 0u8]
    } else if n < 0x8000 {
        seq![(n % 256) as u8, (n / 256) as u8]
    } else {
        seq![(n % 256) as u8, (n / 256) as u8, 0u8]
    }
}

/// A compressed public key: 33 bytes.
pub open spec fn is_compressed_key(k: Seq<u8>) -> bool {
    k.len() == 33
}

/// A direct push of `d` (at most 75 bytes): its length, then its bytes.
pub open spec fn push_data(d: Seq<u8>) -> Seq<u8> {
    seq![d.len() as u8] + d
}

/// The minimal push of the number `n`, for `0 <= n <= 65535`.
pub open spec fn push_int(n: int) -> Seq<u8> {
    if n == 0 {
        seq![OP_0]
    } else if n <= 16 {
        seq![(OP_PUSHNUM_1_BASE + n) as u8]
    } else {
        push_data(small_scriptint(n))
    }
}

/// `OP_2 <a> <b> OP_2 OP_CHECKMULTISIG`, keys in the order given.
pub open spec fn multisig_script(a: Seq<u8>, b: Seq<u8>) -> Seq<u8> {
    seq![OP_2] + push_data(a) + push_data(b) + seq![OP_2, OP_CHECKMULTISIG]
}

/// `OP_IF <revocation> OP_ELSE <delay> OP_CSV OP_DROP <delayed> OP_ENDIF OP_CHECKSIG`.
pub open spec fn to_local_script(revocation: Seq<u8>, delayed: Seq<u8>, delay: int) -> Seq<u8> {
    seq![OP_IF] + push_data(revocation) + seq![OP_ELSE] + push_int(delay) + seq![OP_CSV, OP_DROP]
        + push_data(delayed) + seq![OP_ENDIF, OP_CHECKSIG]
}

/// The offered-HTLC script: spendable with the revocation key, or by the remote
/// HTLC key together with the preimage of `payment_hash160`, or by both HTLC
/// keys (the timeout path).
pub open spec fn offered_htlc_script(
    revocation: Seq<u8>,
    remote_htlc: Seq<u8>,
    local_htlc: Seq<u8>,
    payment_hash160: Seq<u8>,
) -> Seq<u8> {
    seq![OP_DUP, OP_HASH160] + push_data(hash160_of(revocation)) + seq![
        OP_EQUAL,
        OP_IF,
        OP_CHECKSIG,
        OP_ELSE,
    ] + push_data(remote_htlc) + seq![OP_SWAP, OP_SIZE] + push_int(32) + seq![
        OP_EQUAL,
        OP_NOTIF,
        OP_DROP,
        OP_2,
        OP_SWAP,
    ] + push_data(local_htlc) + seq![OP_2, OP_CHECKMULTISIG, OP_ELSE, OP_HASH160] + push_data(
        payment_hash160,
    ) + seq![OP_EQUALVERIFY, OP_CHECKSIG, OP_ENDIF, OP_ENDIF]
}

/// The version-0 witness output script paying to the hash of `script`.
pub open spec fn p2wsh_script(script: Seq<u8>) -> Seq<u8> {
    seq![OP_0, 32u8] + sha256_of(script)
}

/// The version-0 witness output script paying to the hash of the key `key`.
pub open spec fn p2wpkh_script(key: Seq<u8>) -> Seq<u8> {
    seq![OP_0, 20u8] + hash160_of(key)
}

fn append(r: &mut Vec<u8>, d: &Vec<u8>)
    ensures
        final(r)@ == old(r)@ + d@,
{
    let mut i: usize = 0;
    while i < d.len()
        invariant
            i <= d.len(),
            r@ == old(r)@ + d@.subrange(0, i as int),
        decreases d.len() - i,
    {
        r.push(d[i]);
        i = i + 1;
    }
    assert(d@.subrange(0, d@.len() as int) =~= d@);
}

fn append_push(r: &mut Vec<u8>, d: &Vec<u8>)
    requires
        d@.len() <= 75,
    ensures
        final(r)@ == old(r)@ + push_data(d@),
{
    r.push(d.len() as u8);
    append(r, d);
    assert(final(r)@ =~= old(r)@ + push_data(d@));
}

fn append_int(r: &mut Vec<u8>, n: i64)
    requires
        0 <= n <= MAX_DELAY,
    ensures
        final(r)@ == old(r)@ + push_int(n as int),
{
    if n == 0 {
        r.push(OP_0);
    } else if n <= 16 {
        r.push(OP_PUSHNUM_1_BASE + n as u8);
    } else {
        let d = scriptint(n);
        append_push(r, &d);
    }
    assert(final(r)@ =~= old(r)@ + push_int(n as int));
}

/// The two-of-two multisig witness script `OP_2 <pubkey1> <pubkey2> OP_2
/// OP_CHECKMULTISIG`, keys in the order given, not sorted.
pub fn two_of_two_multisig_witness_script(pubkey1: &Vec<u8>, pubkey2: &Vec<u8>) -> (r: Vec<u8>)
    requires
        is_compressed_key(pubkey1@),
        is_compressed_key(pubkey2@),
    ensures
        r@ == multisig_script(pubkey1@, pubkey2@),
{
    let mut r: Vec<u8> = Vec::new();
    r.push(OP_2);
    append_push(&mut r, pubkey1);
    append_push(&mut r, pubkey2);
    r.push(OP_2);
    r.push(OP_CHECKMULTISIG);
    assert(r@ =~= multisig_script(pubkey1@, pubkey2@));
    r
}

/// The revocable to-local witness script: spendable at once with the
/// revocation key, or after `to_self_delay` blocks with the delayed key.
pub fn to_local(
    revocation_key: &Vec<u8>,
    to_local_delayed_pubkey: &Vec<u8>,
    to_self_delay: i64,
) -> (r: Result<Vec<u8>, ChannelError>)
    requires
        is_compressed_key(revocation_key@),
        is_compressed_key(to_local_delayed_pubkey@),
    ensures
        0 <= to_self_delay <= MAX_DELAY ==> (r matches Ok(s) && s@ == to_local_script(
            revocation_key@,
            to_local_delayed_pubkey@,
            to_self_delay as int,
        )),
        !(0 <= to_self_delay <= MAX_DELAY) ==> r == Err::<Vec<u8>, ChannelError>(
            ChannelError::InvalidDelay,
        ),
{
    if to_self_delay < 0 || to_self_delay > MAX_DELAY {
        return Err(ChannelError::InvalidDelay);
    }
    let mut r: Vec<u8> = Vec::new();
    r.push(OP_IF);
    append_push(&mut r, revocation_key);
    r.push(OP_ELSE);
    append_int(&mut r, to_self_delay);
    r.push(OP_CSV);
    r.push(OP_DROP);
    append_push(&mut r, to_local_delayed_pubkey);
    r.push(OP_ENDIF);
    r.push(OP_CHECKSIG);
    assert(r@ =~= to_local_script(revocation_key@, to_local_delayed_pubkey@, to_self_delay as int));
    Ok(r)
}

/// The offered-HTLC witness script.
pub fn build_htlc_offerer_witness_script(
    revocation_pubkey: &Vec<u8>,
    remote_htlc_pubkey: &Vec<u8>,
    local_htlc_pubkey: &Vec<u8>,
    payment_hash160: &[u8; 20],
) -> (r: Vec<u8>)
    requires
        is_compressed_key(revocation_pubkey@),
        is_compressed_key(remote_htlc_pubkey@),
        is_compressed_key(local_htlc_pubkey@),
    ensures
        r@ == offered_htlc_script(
            revocation_pubkey@,
            remote_htlc_pubkey@,
            local_htlc_pubkey@,
            payment_hash160@,
        ),
{
    let mut ph: Vec<u8> = Vec::new();
    let mut i: usize = 0;
    while i < 20
        invariant
            i <= 20,
            ph@ == payment_hash160@.subrange(0, i as int),
        decreases 20 - i,
    {
        ph.push(payment_hash160[i]);
        i = i + 1;
    }
    assert(ph@ =~= payment_hash160@);
    let mut r: Vec<u8> = Vec::new();
    r.push(OP_DUP);
    r.push(OP_HASH160);
    append_push(&mut r, &hash160(revocation_pubkey));
    r.push(OP_EQUAL);
    r.push(OP_IF);
    r.push(OP_CHECKSIG);
    r.push(OP_ELSE);
    append_push(&mut r, remote_htlc_pubkey);
    r.push(OP_SWAP);
    r.push(OP_SIZE);
    append_int(&mut r, 32);
    r.push(OP_EQUAL);
    r.push(OP_NOTIF);
    r.push(OP_DROP);
    r.push(OP_2);
    r.push(OP_SWAP);
    append_push(&mut r, local_htlc_pubkey);
    r.push(OP_2);
    r.push(OP_CHECKMULTISIG);
    r.push(OP_ELSE);
    r.push(OP_HASH160);
    append_push(&mut r, &ph);
    r.push(OP_EQUALVERIFY);
    r.push(OP_CHECKSIG);
    r.push(OP_ENDIF);
    r.push(OP_ENDIF);
    assert(r@ =~= offered_htlc_script(
        revocation_pubkey@,
        remote_htlc_pubkey@,
        local_htlc_pubkey@,
        payment_hash160@,
    ));
    r
}

/// The witness output script that pays to `witness_script`.
pub fn p2wsh_output_script(witness_script: &Vec<u8>) -> (r: Vec<u8>)
    ensures
        r@ == p2wsh_script(witness_script@),
{
    let mut r: Vec<u8> = Vec::new();
    r.push(OP_0);
    r.push(32u8);
    append(&mut r, &sha256(witness_script));
    assert(r@ =~= p2wsh_script(witness_script@));
    r
}

/// The witness output script that pays to the compressed key `pubkey`.
pub fn p2wpkh_output_script(pubkey: &Vec<u8>) -> (r: Vec<u8>)
    requires
        is_compressed_key(pubkey@),
    ensures
        r@ == p2wpkh_script(pubkey@),
{
    let mut r: Vec<u8> = Vec::new();
    r.push(OP_0);
    r.push(20u8);
    append(&mut r, &hash160(pubkey));
    assert(r@ =~= p2wpkh_script(pubkey@));
    r
}

} // verus!
