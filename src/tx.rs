//! Unsigned channel transactions: funding, refund, commitment, HTLC
//! commitment and HTLC timeout.
use vstd::prelude::*;

use crate::error::ChannelError;
use crate::order::{
    is_ordering_of, lemma_order_permutation_invariant, order, outputs_model, Output,
};
use crate::script::{
    build_htlc_offerer_witness_script, is_compressed_key, multisig_script, offered_htlc_script,
    p2wpkh_output_script, p2wpkh_script, p2wsh_output_script, p2wsh_script, to_local,
    to_local_script, two_of_two_multisig_witness_script, MAX_DELAY,
};

verus! {

/// The transaction version of every channel transaction.
pub const TX_VERSION: i32 = 2;

/// The sequence number that disables absolute locktime.
pub const SEQUENCE_FINAL: u32 = 0xFFFF_FFFF;

/// The largest sequence number that keeps absolute locktime in force, with no
/// relative-locktime or replacement signal.
pub const SEQUENCE_LOCKTIME_NO_RBF: u32 = 0xFFFF_FFFE;

/// A reference to a previous output being spent, with its sequence number.
/// Its witness is always empty: the transaction is unsigned.
pub struct TxInput {
    pub previous_txid: Vec<u8>,
    pub previous_vout: u32,
    pub sequence: u32,
}

impl View for TxInput {
    type V = (Seq<u8>, u32, u32);

    open spec fn view(&self) -> (Seq<u8>, u32, u32) {
        (self.previous_txid@, self.previous_vout, self.sequence)
    }
}

/// An unsigned transaction.
pub struct Transaction {
    pub version: i32,
    pub lock_time: u32,
    pub inputs: Vec<TxInput>,
    pub outputs: Vec<Output>,
}

/// The models of a sequence of inputs.
pub open spec fn inputs_model(s: Seq<TxInput>) -> Seq<(Seq<u8>, u32, u32)> {
    s.map_values(|i: TxInput| i@)
}

/// Whether `tx` is an unsigned channel transaction with lock time `lock_time`,
/// the inputs `inputs`, and the outputs `outputs` in output order.
pub open spec fn is_channel_tx(
    tx: Transaction,
    lock_time: u32,
    inputs: Seq<(Seq<u8>, u32, u32)>,
    outputs: Seq<(u64, Seq<u8>)>,
) -> bool {
    &&& tx.version == TX_VERSION
    &&& tx.lock_time == lock_time
    &&& inputs_model(tx.inputs@) == inputs
    &&& is_ordering_of(outputs_model(tx.outputs@), outputs)
}

/// A channel transaction is determined by its lock time, inputs, and the
/// outputs it holds, whatever order those outputs were supplied in: two
/// transactions built from the same parts agree in version, lock time, inputs
/// and the values and scripts of their outputs, position by position.
pub proof fn lemma_channel_tx_determined(
    t1: Transaction,
    t2: Transaction,
    lock_time: u32,
    inputs: Seq<(Seq<u8>, u32, u32)>,
    outputs1: Seq<(u64, Seq<u8>)>,
    outputs2: Seq<(u64, Seq<u8>)>,
)
    requires
        outputs1.to_multiset() == outputs2.to_multiset(),
        is_channel_tx(t1, lock_time, inputs, outputs1),
        is_channel_tx(t2, lock_time, inputs, outputs2),
    ensures
        t1.version == t2.version,
        t1.lock_time == t2.lock_time,
        inputs_model(t1.inputs@) == inputs_model(t2.inputs@),
        outputs_model(t1.outputs@) == outputs_model(t2.outputs@),
{
    lemma_order_permutation_invariant(
        outputs1,
        outputs2,
        outputs_model(t1.outputs@),
        outputs_model(t2.outputs@),
    );
}

/// An output of `value` locked by `script_pubkey`.
pub fn build_output(value: u64, script_pubkey: Vec<u8>) -> (r: Output)
    ensures
        r@ == (value, script_pubkey@),
{
    Output { value, script_pubkey }
}

/// An unsigned transaction of the parts given, outputs kept in the order given.
pub fn build_transaction(
    version: i32,
    lock_time: u32,
    inputs: Vec<TxInput>,
    outputs: Vec<Output>,
) -> (r: Transaction)
    ensures
        r.version == version,
        r.lock_time == lock_time,
        inputs_model(r.inputs@) == inputs_model(inputs@),
        outputs_model(r.outputs@) == outputs_model(outputs@),
{
    Transaction { version, lock_time, inputs, outputs }
}

fn single_input(txin: TxInput) -> (r: Vec<TxInput>)
    ensures
        inputs_model(r@) == seq![txin@],
{
    let mut r: Vec<TxInput> = Vec::new();
    r.push(txin);
    assert(inputs_model(r@) =~= seq![txin@]);
    r
}

/// The funding transaction: one output of `amount` paying to the two-of-two
/// multisig script of the two keys.
pub fn build_funding_transaction(
    txins: Vec<TxInput>,
    alice_pubkey: &Vec<u8>,
    bob_pubkey: &Vec<u8>,
    amount: u64,
) -> (r: Transaction)
    requires
        is_compressed_key(alice_pubkey@),
        is_compressed_key(bob_pubkey@),
    ensures
        is_channel_tx(
            r,
            0,
            inputs_model(txins@),
            seq![(amount, p2wsh_script(multisig_script(alice_pubkey@, bob_pubkey@)))],
        ),
{
    let witness_script = two_of_two_multisig_witness_script(alice_pubkey, bob_pubkey);
    let output = build_output(amount, p2wsh_output_script(&witness_script));
    let mut outputs: Vec<Output> = Vec::new();
    outputs.push(output);
    let ghost expected = outputs_model(outputs@);
    let r = build_transaction(TX_VERSION, 0, txins, order(outputs));
    assert(expected =~= seq![(amount, p2wsh_script(multisig_script(alice_pubkey@, bob_pubkey@)))]);
    r
}

/// The refund transaction: each party's balance paid to its key hash, outputs
/// in output order. Fails when the two balances together overflow.
pub fn build_refund_transaction(
    funding_txin: TxInput,
    alice_pubkey: &Vec<u8>,
    bob_pubkey: &Vec<u8>,
    alice_balance: u64,
    bob_balance: u64,
) -> (r: Result<Transaction, ChannelError>)
    requires
        is_compressed_key(alice_pubkey@),
        is_compressed_key(bob_pubkey@),
    ensures
        alice_balance + bob_balance <= u64::MAX ==> (r matches Ok(tx) && is_channel_tx(
            tx,
            0,
            seq![funding_txin@],
            seq![
                (alice_balance, p2wpkh_script(alice_pubkey@)),
                (bob_balance, p2wpkh_script(bob_pubkey@)),
            ],
        )),
        alice_balance + bob_balance > u64::MAX ==> r == Err::<Transaction, ChannelError>(
            ChannelError::AmountOverflow,
        ),
{
    if alice_balance > u64::MAX - bob_balance {
        return Err(ChannelError::AmountOverflow);
    }
    let alice_output = build_output(alice_balance, p2wpkh_output_script(alice_pubkey));
    let bob_output = build_output(bob_balance, p2wpkh_output_script(bob_pubkey));
    let mut outputs: Vec<Output> = Vec::new();
    outputs.push(alice_output);
    outputs.push(bob_output);
    let ghost expected = outputs_model(outputs@);
    assert(expected =~= seq![
        (alice_balance, p2wpkh_script(alice_pubkey@)),
        (bob_balance, p2wpkh_script(bob_pubkey@)),
    ]);
    Ok(build_transaction(TX_VERSION, 0, single_input(funding_txin), order(outputs)))
}

/// The commitment transaction: the local balance paid to the revocable
/// to-local script, the remote balance to the remote key hash, outputs in
/// output order. Fails on a delay out of range, then on an overflowing total.
pub fn build_commitment_transaction(
    funding_txin: TxInput,
    revocation_pubkey: &Vec<u8>,
    to_local_delayed_pubkey: &Vec<u8>,
    remote_pubkey: &Vec<u8>,
    to_self_delay: i64,
    local_amount: u64,
    remote_amount: u64,
) -> (r: Result<Transaction, ChannelError>)
    requires
        is_compressed_key(revocation_pubkey@),
        is_compressed_key(to_local_delayed_pubkey@),
        is_compressed_key(remote_pubkey@),
    ensures
        !(0 <= to_self_delay <= MAX_DELAY) ==> r == Err::<Transaction, ChannelError>(
            ChannelError::InvalidDelay,
        ),
        0 <= to_self_delay <= MAX_DELAY && local_amount + remote_amount > u64::MAX ==> r == Err::<
            Transaction,
            ChannelError,
        >(ChannelError::AmountOverflow),
        0 <= to_self_delay <= MAX_DELAY && local_amount + remote_amount <= u64::MAX ==> (r matches Ok(
            tx,
        ) && is_channel_tx(
            tx,
            0,
            seq![funding_txin@],
            seq![
                (
                    local_amount,
                    p2wsh_script(
                        to_local_script(
                            revocation_pubkey@,
                            to_local_delayed_pubkey@,
                            to_self_delay as int,
                        ),
                    ),
                ),
                (remote_amount, p2wpkh_script(remote_pubkey@)),
            ],
        )),
{
    let local_script = match to_local(revocation_pubkey, to_local_delayed_pubkey, to_self_delay) {
        Ok(s) => s,
        Err(e) => return Err(e),
    };
    if local_amount > u64::MAX - remote_amount {
        return Err(ChannelError::AmountOverflow);
    }
    let local_output = build_output(local_amount, p2wsh_output_script(&local_script));
    let remote_output = build_output(remote_amount, p2wpkh_output_script(remote_pubkey));
    let mut outputs: Vec<Output> = Vec::new();
    outputs.push(local_output);
    outputs.push(remote_output);
    let ghost expected = outputs_model(outputs@);
    assert(expected =~= seq![
        (
            local_amount,
            p2wsh_script(
                to_local_script(revocation_pubkey@, to_local_delayed_pubkey@, to_self_delay as int),
            ),
        ),
        (remote_amount, p2wpkh_script(remote_pubkey@)),
    ]);
    Ok(build_transaction(TX_VERSION, 0, single_input(funding_txin), order(outputs)))
}

/// The HTLC commitment transaction: the commitment outputs and an output of
/// `htlc_amount` paying to the offered-HTLC script, in output order. Fails on
/// a delay out of range, then on an overflowing total.
pub fn build_htlc_commitment_transaction(
    funding_txin: TxInput,
    revocation_pubkey: &Vec<u8>,
    remote_htlc_pubkey: &Vec<u8>,
    local_htlc_pubkey: &Vec<u8>,
    to_local_delayed_pubkey: &Vec<u8>,
    remote_pubkey: &Vec<u8>,
    to_self_delay: i64,
    payment_hash160: &[u8; 20],
    htlc_amount: u64,
    local_amount: u64,
    remote_amount: u64,
) -> (r: Result<Transaction, ChannelError>)
    requires
        is_compressed_key(revocation_pubkey@),
        is_compressed_key(remote_htlc_pubkey@),
        is_compressed_key(local_htlc_pubkey@),
        is_compressed_key(to_local_delayed_pubkey@),
        is_compressed_key(remote_pubkey@),
    ensures
        !(0 <= to_self_delay <= MAX_DELAY) ==> r == Err::<Transaction, ChannelError>(
            ChannelError::InvalidDelay,
        ),
        0 <= to_self_delay <= MAX_DELAY && htlc_amount + local_amount + remote_amount > u64::MAX
            ==> r == Err::<Transaction, ChannelError>(ChannelError::AmountOverflow),
        0 <= to_self_delay <= MAX_DELAY && htlc_amount + local_amount + remote_amount <= u64::MAX
            ==> (r matches Ok(tx) && is_channel_tx(
            tx,
            0,
            seq![funding_txin@],
            seq![
                (
                    local_amount,
                    p2wsh_script(
                        to_local_script(
                            revocation_pubkey@,
                            to_local_delayed_pubkey@,
                            to_self_delay as int,
                        ),
                    ),
                ),
                (remote_amount, p2wpkh_script(remote_pubkey@)),
                (
                    htlc_amount,
                    p2wsh_script(
                        offered_htlc_script(
                            revocation_pubkey@,
                            remote_htlc_pubkey@,
                            local_htlc_pubkey@,
                            payment_hash160@,
                        ),
                    ),
                ),
            ],
        )),
{
    let local_script = match to_local(revocation_pubkey, to_local_delayed_pubkey, to_self_delay) {
        Ok(s) => s,
        Err(e) => return Err(e),
    };
    if local_amount > u64::MAX - remote_amount || htlc_amount > u64::MAX - local_amount
        - remote_amount {
        return Err(ChannelError::AmountOverflow);
    }
    let local_output = build_output(local_amount, p2wsh_output_script(&local_script));
    let remote_output = build_output(remote_amount, p2wpkh_output_script(remote_pubkey));
    let htlc_script = build_htlc_offerer_witness_script(
        revocation_pubkey,
        remote_htlc_pubkey,
        local_htlc_pubkey,
        payment_hash160,
    );
    let htlc_output = build_output(htlc_amount, p2wsh_output_script(&htlc_script));
    let mut outputs: Vec<Output> = Vec::new();
    outputs.push(local_output);
    outputs.push(remote_output);
    outputs.push(htlc_output);
    let ghost expected = outputs_model(outputs@);
    assert(expected =~= seq![
        (
            local_amount,
            p2wsh_script(
                to_local_script(revocation_pubkey@, to_local_delayed_pubkey@, to_self_delay as int),
            ),
        ),
        (remote_amount, p2wpkh_script(remote_pubkey@)),
        (
            htlc_amount,
            p2wsh_script(
                offered_htlc_script(
                    revocation_pubkey@,
                    remote_htlc_pubkey@,
                    local_htlc_pubkey@,
                    payment_hash160@,
                ),
            ),
        ),
    ]);
    Ok(build_transaction(TX_VERSION, 0, single_input(funding_txin), order(outputs)))
}

/// The input of an HTLC timeout transaction: a sequence number that would
/// disable the lock time is lowered to the largest one that keeps it.
pub open spec fn timeout_input(txin: (Seq<u8>, u32, u32)) -> (Seq<u8>, u32, u32) {
    if txin.2 == SEQUENCE_FINAL {
        (txin.0, txin.1, SEQUENCE_LOCKTIME_NO_RBF)
    } else {
        txin
    }
}

/// The HTLC timeout transaction: `htlc_amount` paid to the revocable to-local
/// script, with lock time `cltv_expiry`. Its one input never carries the
/// sequence number that disables the lock time. Fails on a delay out of range.
pub fn build_htlc_timeout_transaction(
    htlc_txin: TxInput,
    revocation_pubkey: &Vec<u8>,
    to_local_delayed_pubkey: &Vec<u8>,
    to_self_delay: i64,
    cltv_expiry: u32,
    htlc_amount: u64,
) -> (r: Result<Transaction, ChannelError>)
    requires
        is_compressed_key(revocation_pubkey@),
        is_compressed_key(to_local_delayed_pubkey@),
    ensures
        !(0 <= to_self_delay <= MAX_DELAY) ==> r == Err::<Transaction, ChannelError>(
            ChannelError::InvalidDelay,
        ),
        0 <= to_self_delay <= MAX_DELAY ==> (r matches Ok(tx) && is_channel_tx(
            tx,
            cltv_expiry,
            seq![timeout_input(htlc_txin@)],
            seq![
                (
                    htlc_amount,
                    p2wsh_script(
                        to_local_script(
                            revocation_pubkey@,
                            to_local_delayed_pubkey@,
                            to_self_delay as int,
                        ),
                    ),
                ),
            ],
        ) && tx.inputs@.len() == 1 && tx.inputs@[0].sequence != SEQUENCE_FINAL),
{
    let local_script = match to_local(revocation_pubkey, to_local_delayed_pubkey, to_self_delay) {
        Ok(s) => s,
        Err(e) => return Err(e),
    };
    let output = build_output(htlc_amount, p2wsh_output_script(&local_script));
    let mut outputs: Vec<Output> = Vec::new();
    outputs.push(output);
    let ghost expected = outputs_model(outputs@);
    assert(expected =~= seq![
        (
            htlc_amount,
            p2wsh_script(
                to_local_script(revocation_pubkey@, to_local_delayed_pubkey@, to_self_delay as int),
            ),
        ),
    ]);
    let mut txin = htlc_txin;
    if txin.sequence == SEQUENCE_FINAL {
        txin.sequence = SEQUENCE_LOCKTIME_NO_RBF;
    }
    let mut tx = build_transaction(TX_VERSION, 0, single_input(txin), order(outputs));
    tx.lock_time = cltv_expiry;
    assert(inputs_model(tx.inputs@).len() == tx.inputs@.len());
    assert(inputs_model(tx.inputs@)[0] == tx.inputs@[0]@);
    Ok(tx)
}

} // verus!
