//! Batches of transfers: their validation, the proposal message that a
//! multi-signature wallet votes on, and the run that executes each transfer
//! in turn.

use vstd::prelude::*;
use vstd::utf8::encode_utf8;
use crate::crypto::PrincipalId;
use crate::hexcodec::{hex_encode, hex_lower, hex_decode_spec, HexError, lemma_hex_round_trip};
use crate::text::{decimal, push_str, push_chars, push_decimal, string_from_chars};
use crate::ledger::IcpTransferArgs;
use crate::evm::{TransferEvmArgs, nonce_failure_message};

verus! {

/// The most transfers a batch may hold.
pub const MAX_BATCH_TRANSACTIONS: usize = 50;

/// One transfer of a batch.
#[derive(Debug)]
pub enum TransactionType {
    IcpTransfer {
        amount: u64,
        to_principal: PrincipalId,
        to_subaccount: Option<[u8; 32]>,
        memo: Option<u64>,
    },
    EvmTransfer { to: String, value: u128, chain_id: u64, gas_price: u128, gas_limit: u64 },
}

/// A batch of transfers proposed to a wallet.
#[derive(Debug)]
pub struct BatchTransaction {
    pub id: String,
    pub transactions: Vec<TransactionType>,
    pub description: String,
    pub created_at: u64,
    pub created_by: PrincipalId,
}

/// Why a batch of `count` transfers is refused, if it is.
pub open spec fn batch_size_error(count: nat) -> Option<Seq<char>> {
    if count == 0 {
        Some("Batch cannot be empty"@)
    } else if count > MAX_BATCH_TRANSACTIONS {
        Some("Batch too large (max 50 transactions)"@)
    } else {
        None
    }
}

/// The message proposed for a batch with id `id` whose encoding is
/// `encoded`: the hexadecimal text of the UTF-8 bytes of
/// `BATCH::<id>::<hex of encoded>`.
pub open spec fn batch_message(id: Seq<char>, encoded: Seq<u8>) -> Seq<char> {
    hex_lower(encode_utf8(framed_batch(id, encoded)))
}

/// The text that a proposal message carries: `BATCH::<id>::<hex of encoded>`.
pub open spec fn framed_batch(id: Seq<char>, encoded: Seq<u8>) -> Seq<char> {
    "BATCH::"@ + id + "::"@ + hex_lower(encoded)
}

/// What proposing a batch comes to: a refused size, or a failed encoding, or
/// the message to propose.
pub open spec fn batch_proposal_result(
    id: Seq<char>,
    count: nat,
    encoded: Result<Seq<u8>, Seq<char>>,
) -> Result<Seq<char>, Seq<char>> {
    match batch_size_error(count) {
        Some(e) => Err(e),
        None => match encoded {
            Err(e) => Err("Serialization failed: "@ + e),
            Ok(bytes) => Ok(batch_message(id, bytes)),
        },
    }
}

pub open spec fn bytes_result(r: Result<Vec<u8>, String>) -> Result<Seq<u8>, Seq<char>> {
    match r {
        Ok(b) => Ok(b@),
        Err(e) => Err(e@),
    }
}

pub open spec fn text_result(r: Result<String, String>) -> Result<Seq<char>, Seq<char>> {
    match r {
        Ok(s) => Ok(s@),
        Err(e) => Err(e@),
    }
}

/// Checks the size of a batch: it holds at least one transfer and at most fifty.
pub fn validate_batch(batch: &BatchTransaction) -> (res: Result<(), String>)
    ensures
        res is Ok <==> batch_size_error(batch.transactions@.len()) is None,
        res matches Err(e) ==> batch_size_error(batch.transactions@.len()) == Some(e@),
{
    if batch.transactions.len() == 0 {
        return Err(String::from_str("Batch cannot be empty"));
    }
    if batch.transactions.len() > MAX_BATCH_TRANSACTIONS {
        return Err(String::from_str("Batch too large (max 50 transactions)"));
    }
    Ok(())
}

/// The message to propose for `batch`, given its Candid encoding (or why
/// encoding failed): the size is checked first.
pub fn batch_proposal(batch: &BatchTransaction, encoded: Result<Vec<u8>, String>) -> (res: Result<String, String>)
    ensures
        text_result(res) == batch_proposal_result(
            batch.id@,
            batch.transactions@.len(),
            bytes_result(encoded),
        ),
{
    validate_batch(batch)?;
    match encoded {
        Err(e) => {
            let mut out: Vec<char> = Vec::new();
            push_str(&mut out, "Serialization failed: ");
            push_str(&mut out, e.as_str());
            Err(string_from_chars(&out))
        },
        Ok(bytes) => {
            let inner_hex = hex_encode(bytes.as_slice());
            let mut out: Vec<char> = Vec::new();
            push_str(&mut out, "BATCH::");
            push_str(&mut out, batch.id.as_str());
            push_str(&mut out, "::");
            push_str(&mut out, inner_hex.as_str());
            let text = string_from_chars(&out);
            Ok(hex_encode(text.as_str().as_bytes()))
        },
    }
}

/// The answer once a batch has been proposed.
pub fn batch_proposed_message() -> (res: String)
    ensures
        res@ == "Proposal for batch transaction created successfully"@,
{
    String::from_str("Proposal for batch transaction created successfully")
}

/// What one transfer of a run gave: its result text, or its error.
pub type Outcome = Result<Seq<char>, Seq<char>>;

/// The number of EVM transfers among the first `i` transfers.
pub open spec fn evm_before(txs: Seq<TransactionType>, i: int) -> nat
    decreases i,
{
    if i <= 0 {
        0
    } else {
        evm_before(txs, i - 1) + if txs[i - 1] is EvmTransfer {
            1nat
        } else {
            0nat
        }
    }
}

/// The chain of the first EVM transfer, if there is one.
pub open spec fn first_evm_chain(txs: Seq<TransactionType>) -> Option<u64>
    decreases txs.len(),
{
    if txs.len() == 0 {
        None
    } else {
        match txs[0] {
            TransactionType::EvmTransfer { chain_id, .. } => Some(chain_id),
            _ => first_evm_chain(txs.drop_first()),
        }
    }
}

/// The nonce of the transfer at `i`: the fetched count plus the number of
/// EVM transfers before it; none where no count was fetched.
pub open spec fn nonce_for(base: Option<u64>, txs: Seq<TransactionType>, i: int) -> Option<u64> {
    match base {
        Some(b) => Some((b + evm_before(txs, i)) as u64),
        None => None,
    }
}

/// The detail line of the transfer at `i` (counted from one in the text).
pub open spec fn detail_line(i: int, o: Outcome) -> Seq<char> {
    "TX"@ + decimal((i + 1) as nat) + match o {
        Ok(r) => ": SUCCESS - "@ + r,
        Err(e) => ": FAILED - "@ + e,
    }
}

/// The number of transfers that succeeded.
pub open spec fn successes(os: Seq<Outcome>) -> nat
    decreases os.len(),
{
    if os.len() == 0 {
        0
    } else {
        successes(os.drop_last()) + if os.last() is Ok {
            1nat
        } else {
            0nat
        }
    }
}

/// The number of transfers that failed.
pub open spec fn failures(os: Seq<Outcome>) -> nat
    decreases os.len(),
{
    if os.len() == 0 {
        0
    } else {
        failures(os.drop_last()) + if os.last() is Err {
            1nat
        } else {
            0nat
        }
    }
}

/// The detail lines of all transfers so far.
pub open spec fn detail_lines(os: Seq<Outcome>) -> Seq<Seq<char>> {
    Seq::new(os.len(), |k: int| detail_line(k, os[k]))
}

/// Lines joined by line breaks.
pub open spec fn join_lines(lines: Seq<Seq<char>>) -> Seq<char>
    decreases lines.len(),
{
    if lines.len() == 0 {
        seq![]
    } else if lines.len() == 1 {
        lines[0]
    } else {
        join_lines(lines.drop_last()) + "\n"@ + lines.last()
    }
}

/// The report of a finished batch of `n` transfers: a summary of successes
/// and failures, then one detail line per transfer.
pub open spec fn batch_report(id: Seq<char>, n: nat, os: Seq<Outcome>) -> Seq<char> {
    "Batch "@ + id + " completed: "@ + decimal(successes(os)) + "/"@ + decimal(n)
        + " successful, "@ + decimal(failures(os)) + "/"@ + decimal(n) + " failed"@
        + "\nDetails:\n"@ + join_lines(detail_lines(os))
}

/// What a batch run asks its driver to do next.
#[derive(Debug)]
pub enum BatchAction {
    /// Fetch the transaction count of the wallet's address on `chain_id`.
    FetchNonce { chain_id: u64 },
    /// Perform the ICP transfer at `index`.
    TransferIcp { index: usize, args: IcpTransferArgs },
    /// Perform the EVM transfer at `index`, with `nonce` where one is known.
    TransferEvm { index: usize, args: TransferEvmArgs, nonce: Option<u64> },
    /// The batch is over, with its report or the reason it stopped.
    Finished(Result<String, String>),
}

/// `a` performs the transfer at `i` of `txs` for wallet `wallet`, with the
/// nonce that `base` gives it.
pub open spec fn is_transfer_action(
    wallet: Seq<char>,
    txs: Seq<TransactionType>,
    base: Option<u64>,
    i: int,
    a: BatchAction,
) -> bool {
    match txs[i] {
        TransactionType::IcpTransfer { amount, to_principal, to_subaccount, memo } => {
            &&& a matches BatchAction::TransferIcp { index, args }
            &&& index == i
            &&& args.amount_e8s == amount
            &&& args.to_principal@ == to_principal@
            &&& args.to_subaccount == to_subaccount
        },
        TransactionType::EvmTransfer { to, value, chain_id, gas_price, gas_limit } => {
            &&& a matches BatchAction::TransferEvm { index, args, nonce }
            &&& index == i
            &&& args.wallet_id@ == wallet
            &&& args.to@ == to@
            &&& args.value == value
            &&& args.chain_id == chain_id
            &&& args.gas_price == gas_price
            &&& args.gas_limit == gas_limit
            &&& nonce == nonce_for(base, txs, i)
        },
    }
}

/// The execution of a batch: a fetch of the starting nonce where the batch
/// holds an EVM transfer, then every transfer in order, each on its own (a
/// failure stops nothing), then the report.
pub struct BatchRun {
    wallet_id: String,
    batch_id: String,
    transactions: Vec<TransactionType>,
    nonce_base: Option<u64>,
    awaiting_nonce: bool,
    finished: bool,
    next: usize,
    nonce_offset: u64,
    success_count: usize,
    failure_count: usize,
    details: Vec<char>,
    outcomes: Ghost<Seq<Outcome>>,
}

impl BatchRun {
    /// The transfers of the batch.
    pub closed spec fn txs(&self) -> Seq<TransactionType> {
        self.transactions@
    }

    /// The outcomes of the transfers performed so far, in order.
    pub closed spec fn outcomes(&self) -> Seq<Outcome> {
        self.outcomes@
    }

    /// The fetched transaction count, once known.
    pub closed spec fn nonce_base(&self) -> Option<u64> {
        self.nonce_base
    }

    pub closed spec fn wallet(&self) -> Seq<char> {
        self.wallet_id@
    }

    pub closed spec fn batch_id(&self) -> Seq<char> {
        self.batch_id@
    }

    /// The run waits for the starting nonce.
    pub closed spec fn is_awaiting_nonce(&self) -> bool {
        self.awaiting_nonce && !self.finished
    }

    /// The run waits for the outcome of the transfer at `outcomes().len()`.
    pub closed spec fn is_awaiting_transfer(&self) -> bool {
        !self.awaiting_nonce && !self.finished
    }

    /// The run is over.
    pub closed spec fn is_finished(&self) -> bool {
        self.finished
    }

    /// The run's counters, report text and phase agree with its outcomes.
    pub closed spec fn well_formed(&self) -> bool {
        &&& self.consistent()
        &&& !self.finished && !self.awaiting_nonce ==> self.next < self.transactions@.len()
    }

    /// The run's counters and report text agree with its outcomes.
    closed spec fn consistent(&self) -> bool {
        &&& self.next == self.outcomes@.len()
        &&& self.next <= self.transactions@.len()
        &&& self.success_count == successes(self.outcomes@)
        &&& self.failure_count == failures(self.outcomes@)
        &&& self.details@ == join_lines(detail_lines(self.outcomes@))
        &&& self.nonce_offset == evm_before(self.transactions@, self.next as int)
        &&& self.awaiting_nonce ==> self.next == 0 && self.nonce_base is None
        &&& (self.nonce_base matches Some(b) ==> b + evm_before(
            self.transactions@,
            self.transactions@.len() as int,
        ) <= u64::MAX + 1)
        &&& self.awaiting_nonce ==> self.transactions@.len() > 0
        &&& self.finished ==> !self.awaiting_nonce
    }
}

/// After a step, `a` is what `run` asks for: the transfer at its position,
/// or, once every transfer is done, the report of the batch.
pub open spec fn is_next_action(run: BatchRun, a: BatchAction) -> bool {
    if run.outcomes().len() == run.txs().len() {
        &&& run.is_finished()
        &&& a matches BatchAction::Finished(Ok(report))
        &&& report@ == batch_report(run.batch_id(), run.txs().len(), run.outcomes())
    } else {
        &&& run.is_awaiting_transfer()
        &&& is_transfer_action(
            run.wallet(),
            run.txs(),
            run.nonce_base(),
            run.outcomes().len() as int,
            a,
        )
    }
}

/// The count of EVM transfers grows with the position.
pub proof fn lemma_evm_before_monotone(txs: Seq<TransactionType>, i: int, j: int)
    requires
        0 <= i <= j,
    ensures
        evm_before(txs, i) <= evm_before(txs, j),
    decreases j - i,
{
    if i < j {
        lemma_evm_before_monotone(txs, i, j - 1);
    }
}

/// No more EVM transfers precede a position than transfers do.
pub proof fn lemma_evm_before_bounded(txs: Seq<TransactionType>, i: int)
    requires
        0 <= i,
    ensures
        evm_before(txs, i) <= i,
    decreases i,
{
    if i > 0 {
        lemma_evm_before_bounded(txs, i - 1);
    }
}

/// Every transfer of a run either succeeded or failed: the two counts of a
/// report add up to the number of transfers performed.
pub proof fn lemma_outcome_counts(os: Seq<Outcome>)
    ensures
        successes(os) + failures(os) == os.len(),
    decreases os.len(),
{
    if os.len() > 0 {
        lemma_outcome_counts(os.drop_last());
    }
}

proof fn lemma_outcomes_push(os: Seq<Outcome>, o: Outcome)
    ensures
        successes(os.push(o)) == successes(os) + if o is Ok {
            1nat
        } else {
            0nat
        },
        failures(os.push(o)) == failures(os) + if o is Err {
            1nat
        } else {
            0nat
        },
        detail_lines(os.push(o)) == detail_lines(os).push(detail_line(os.len() as int, o)),
{
    assert(os.push(o).drop_last() =~= os);
    assert(detail_lines(os.push(o)) =~= detail_lines(os).push(detail_line(os.len() as int, o)));
}

/// Finds the chain of the first EVM transfer.
fn find_first_evm_chain(txs: &Vec<TransactionType>) -> (res: Option<u64>)
    ensures
        res == first_evm_chain(txs@),
{
    let n = txs.len();
    let mut i: usize = 0;
    assert(txs@.subrange(0, n as int) =~= txs@);
    while i < n
        invariant
            n == txs@.len(),
            i <= n,
            first_evm_chain(txs@) == first_evm_chain(txs@.subrange(i as int, n as int)),
        decreases n - i,
    {
        let ghost rest = txs@.subrange(i as int, n as int);
        assert(rest[0] == txs@[i as int]);
        match &txs[i] {
            TransactionType::EvmTransfer { chain_id, .. } => {
                return Some(*chain_id);
            },
            _ => {},
        }
        assert(rest.drop_first() =~= txs@.subrange(i + 1, n as int));
        i = i + 1;
    }
    None
}

/// The number of EVM transfers among the first `i` transfers.
fn count_evm_before(txs: &Vec<TransactionType>, i: usize) -> (res: usize)
    requires
        i <= txs@.len(),
    ensures
        res == evm_before(txs@, i as int),
{
    let mut k: usize = 0;
    let mut count: usize = 0;
    while k < i
        invariant
            i <= txs@.len(),
            k <= i,
            count == evm_before(txs@, k as int),
        decreases i - k,
    {
        proof {
            lemma_evm_before_bounded(txs@, k as int);
        }
        match &txs[k] {
            TransactionType::EvmTransfer { .. } => {
                count = count + 1;
            },
            _ => {},
        }
        k = k + 1;
    }
    count
}

impl BatchRun {
    /// The transfer at position `i`, as an action.
    fn transfer_action(&self, i: usize) -> (a: BatchAction)
        requires
            self.consistent(),
            i == self.next,
            i < self.transactions@.len(),
        ensures
            is_transfer_action(self.wallet(), self.txs(), self.nonce_base(), i as int, a),
    {
        match &self.transactions[i] {
            TransactionType::IcpTransfer { amount, to_principal, to_subaccount, memo } => {
                BatchAction::TransferIcp {
                    index: i,
                    args: IcpTransferArgs {
                        amount_e8s: *amount,
                        to_principal: to_principal.duplicate(),
                        to_subaccount: *to_subaccount,
                    },
                }
            },
            TransactionType::EvmTransfer { to, value, chain_id, gas_price, gas_limit } => {
                let nonce = match self.nonce_base {
                    Some(b) => {
                        proof {
                            lemma_evm_before_monotone(
                                self.transactions@,
                                i + 1,
                                self.transactions@.len() as int,
                            );
                        }
                        Some(b + self.nonce_offset)
                    },
                    None => None,
                };
                BatchAction::TransferEvm {
                    index: i,
                    args: TransferEvmArgs {
                        wallet_id: self.wallet_id.clone(),
                        to: to.clone(),
                        value: *value,
                        chain_id: *chain_id,
                        gas_price: *gas_price,
                        gas_limit: *gas_limit,
                    },
                    nonce,
                }
            },
        }
    }

    /// The report of the finished batch.
    fn report(&self) -> (res: String)
        requires
            self.consistent(),
        ensures
            res@ == batch_report(self.batch_id(), self.txs().len(), self.outcomes()),
    {
        let n = self.transactions.len();
        let mut out: Vec<char> = Vec::new();
        push_str(&mut out, "Batch ");
        push_str(&mut out, self.batch_id.as_str());
        push_str(&mut out, " completed: ");
        push_decimal(&mut out, self.success_count as u64);
        push_str(&mut out, "/");
        push_decimal(&mut out, n as u64);
        push_str(&mut out, " successful, ");
        push_decimal(&mut out, self.failure_count as u64);
        push_str(&mut out, "/");
        push_decimal(&mut out, n as u64);
        push_str(&mut out, " failed");
        push_str(&mut out, "\nDetails:\n");
        push_chars(&mut out, &self.details);
        string_from_chars(&out)
    }

    /// The next action once `outcomes().len()` transfers are done.
    fn advance(&mut self) -> (a: BatchAction)
        requires
            old(self).consistent(),
            !old(self).awaiting_nonce,
        ensures
            final(self).well_formed(),
            final(self).txs() == old(self).txs(),
            final(self).outcomes() == old(self).outcomes(),
            final(self).nonce_base() == old(self).nonce_base(),
            final(self).wallet() == old(self).wallet(),
            final(self).batch_id() == old(self).batch_id(),
            is_next_action(*final(self), a),
    {
        if self.next == self.transactions.len() {
            self.finished = true;
            BatchAction::Finished(Ok(self.report()))
        } else {
            self.finished = false;
            self.transfer_action(self.next)
        }
    }

    /// Starts the run of `batch` for the wallet `wallet_id`: it first asks for
    /// the nonce on the chain of the first EVM transfer, if there is one, and
    /// otherwise goes straight to the first transfer (or to the report of an
    /// empty batch).
    pub fn start(wallet_id: String, batch: BatchTransaction) -> (res: (BatchRun, BatchAction))
        ensures
            res.0.well_formed(),
            res.0.txs() == batch.transactions@,
            res.0.wallet() == wallet_id@,
            res.0.batch_id() == batch.id@,
            res.0.outcomes() == Seq::<Outcome>::empty(),
            res.0.nonce_base() is None,
            first_evm_chain(batch.transactions@) matches Some(c) ==> res.0.is_awaiting_nonce()
                && res.1 == (BatchAction::FetchNonce { chain_id: c }),
            first_evm_chain(batch.transactions@) is None ==> is_next_action(res.0, res.1),
    {
        let first_chain = find_first_evm_chain(&batch.transactions);
        let mut run = BatchRun {
            wallet_id,
            batch_id: batch.id,
            transactions: batch.transactions,
            nonce_base: None,
            awaiting_nonce: false,
            finished: false,
            next: 0,
            nonce_offset: 0,
            success_count: 0,
            failure_count: 0,
            details: Vec::new(),
            outcomes: Ghost(Seq::empty()),
        };
        assert(detail_lines(Seq::<Outcome>::empty()) =~= Seq::<Seq<char>>::empty());
        assert(run.details@ =~= join_lines(detail_lines(run.outcomes@)));
        proof {
            if first_chain is Some {
                assert(run.transactions@.len() > 0);
            }
        }
        match first_chain {
            Some(chain_id) => {
                run.awaiting_nonce = true;
                (run, BatchAction::FetchNonce { chain_id })
            },
            None => {
                let a = run.advance();
                (run, a)
            },
        }
    }

    /// Whether `count`, as the starting nonce, leaves room for a nonce for
    /// every EVM transfer of the batch.
    pub fn nonce_fits(&self, count: u64) -> (res: bool)
        requires
            self.well_formed(),
        ensures
            res <==> count + evm_before(self.txs(), self.txs().len() as int) <= u64::MAX + 1,
    {
        let total = count_evm_before(&self.transactions, self.transactions.len());
        if total == 0 {
            true
        } else {
            count <= u64::MAX - ((total - 1) as u64)
        }
    }

    /// Takes the fetched transaction count: a failed fetch ends the batch with
    /// `Failed to get nonce: <error>`; otherwise the count is the nonce of the
    /// first EVM transfer and the run goes to the first transfer.
    pub fn on_nonce(&mut self, fetched: Result<u64, String>) -> (a: BatchAction)
        requires
            old(self).well_formed(),
            old(self).is_awaiting_nonce(),
            fetched matches Ok(n) ==> n + evm_before(old(self).txs(), old(self).txs().len() as int)
                <= u64::MAX + 1,
        ensures
            final(self).well_formed(),
            final(self).txs() == old(self).txs(),
            final(self).outcomes() == old(self).outcomes(),
            final(self).wallet() == old(self).wallet(),
            final(self).batch_id() == old(self).batch_id(),
            fetched matches Err(e) ==> final(self).is_finished() && (a matches BatchAction::Finished(
                Err(m),
            ) && m@ == "Failed to get nonce: "@ + e@),
            fetched matches Ok(n) ==> final(self).nonce_base() == Some(n) && is_next_action(
                *final(self),
                a,
            ),
    {
        match fetched {
            Err(e) => {
                self.awaiting_nonce = false;
                self.finished = true;
                BatchAction::Finished(Err(nonce_failure_message(e.as_str())))
            },
            Ok(n) => {
                self.awaiting_nonce = false;
                self.nonce_base = Some(n);
                self.advance()
            },
        }
    }

    /// Takes the outcome of the transfer in progress (its result text, or its
    /// error), records it, and goes to the next transfer or to the report.
    pub fn on_transfer(&mut self, outcome: Result<String, String>) -> (a: BatchAction)
        requires
            old(self).well_formed(),
            old(self).is_awaiting_transfer(),
        ensures
            final(self).well_formed(),
            final(self).txs() == old(self).txs(),
            final(self).outcomes() == old(self).outcomes().push(text_result(outcome)),
            final(self).nonce_base() == old(self).nonce_base(),
            final(self).wallet() == old(self).wallet(),
            final(self).batch_id() == old(self).batch_id(),
            is_next_action(*final(self), a),
    {
        let i = self.next;
        let count = self.transactions.len();
        assert(i < count);
        let ghost os = self.outcomes@;
        let ghost o = text_result(outcome);
        let mut line: Vec<char> = Vec::new();
        push_str(&mut line, "TX");
        push_decimal(&mut line, (i + 1) as u64);
        match &outcome {
            Ok(r) => {
                push_str(&mut line, ": SUCCESS - ");
                push_str(&mut line, r.as_str());
            },
            Err(e) => {
                push_str(&mut line, ": FAILED - ");
                push_str(&mut line, e.as_str());
            },
        }
        assert(line@ =~= detail_line(i as int, o));
        proof {
            lemma_outcomes_push(os, o);
            lemma_outcome_counts(os);
            lemma_evm_before_bounded(self.transactions@, i as int);
            lemma_evm_before_bounded(self.transactions@, i + 1);
        }
        if i > 0 {
            push_str(&mut self.details, "\n");
        }
        push_chars(&mut self.details, &line);
        proof {
            let ls = detail_lines(os.push(o));
            assert(ls.drop_last() =~= detail_lines(os));
            if i == 0 {
                assert(detail_lines(os) =~= Seq::<Seq<char>>::empty());
            }
        }
        match &outcome {
            Ok(_) => {
                self.success_count = self.success_count + 1;
            },
            Err(_) => {
                self.failure_count = self.failure_count + 1;
            },
        }
        match &self.transactions[i] {
            TransactionType::EvmTransfer { .. } => {
                self.nonce_offset = self.nonce_offset + 1;
            },
            _ => {},
        }
        self.next = i + 1;
        self.outcomes = Ghost(os.push(o));
        self.advance()
    }
}

/// The transfer at `i` is the first EVM transfer of `txs`.
pub open spec fn is_first_evm(txs: Seq<TransactionType>, i: int) -> bool {
    &&& 0 <= i < txs.len()
    &&& txs[i] is EvmTransfer
    &&& forall|k: int| 0 <= k < i ==> !(#[trigger] txs[k] is EvmTransfer)
}

/// The nonce is fetched on the chain of the first EVM transfer, and that
/// transfer gets the fetched count itself as its nonce.
pub proof fn lemma_first_evm_transfer(txs: Seq<TransactionType>, i: int, count: u64)
    requires
        is_first_evm(txs, i),
    ensures
        first_evm_chain(txs) == Some(txs[i]->EvmTransfer_chain_id),
        nonce_for(Some(count), txs, i) == Some(count),
    decreases i,
{
    lemma_no_evm_before(txs, i);
    if i > 0 {
        let rest = txs.drop_first();
        assert forall|k: int| 0 <= k < i - 1 implies !(#[trigger] rest[k] is EvmTransfer) by {
            assert(rest[k] == txs[k + 1]);
        }
        assert(!(txs[0] is EvmTransfer));
        lemma_first_evm_transfer(rest, i - 1, count);
    }
}

proof fn lemma_no_evm_before(txs: Seq<TransactionType>, i: int)
    requires
        0 <= i <= txs.len(),
        forall|k: int| 0 <= k < i ==> !(#[trigger] txs[k] is EvmTransfer),
    ensures
        evm_before(txs, i) == 0,
    decreases i,
{
    if i > 0 {
        lemma_no_evm_before(txs, i - 1);
    }
}

/// Each EVM transfer of a batch gets its own nonce: a later EVM transfer gets
/// a larger one, as long as the nonces fit in 64 bits.
pub proof fn lemma_nonces_increase(txs: Seq<TransactionType>, count: u64, i: int, j: int)
    requires
        0 <= i < j < txs.len(),
        txs[i] is EvmTransfer,
        txs[j] is EvmTransfer,
        count + evm_before(txs, txs.len() as int) <= u64::MAX + 1,
    ensures
        nonce_for(Some(count), txs, i)->0 < nonce_for(Some(count), txs, j)->0,
{
    lemma_evm_before_monotone(txs, i + 1, j);
    lemma_evm_before_monotone(txs, j + 1, txs.len() as int);
}

/// Once the nonce is known (or none is needed), a batch never ends in an
/// error: transfers that fail are reported, and the run ends with its report.
pub proof fn lemma_run_reports_after_any_outcome(run: BatchRun, a: BatchAction)
    requires
        is_next_action(run, a),
    ensures
        !(a matches BatchAction::Finished(Err(_))),
{
}

/// A proposal message carries its batch without loss: for a batch of 1 to 50
/// transfers, hex-decoding the proposed message gives the UTF-8 bytes of
/// `BATCH::<id>::<hex of the encoding>`, and hex-decoding that last part gives
/// the encoding back.
pub proof fn lemma_proposal_message_round_trip(id: Seq<char>, count: nat, encoded: Seq<u8>)
    requires
        1 <= count <= MAX_BATCH_TRANSACTIONS,
    ensures
        batch_proposal_result(id, count, Ok(encoded)) == Ok::<Seq<char>, Seq<char>>(
            batch_message(id, encoded),
        ),
        hex_decode_spec(encode_utf8(batch_message(id, encoded))) == Ok::<Seq<u8>, HexError>(
            encode_utf8(framed_batch(id, encoded)),
        ),
        hex_decode_spec(encode_utf8(hex_lower(encoded))) == Ok::<Seq<u8>, HexError>(encoded),
{
    lemma_hex_round_trip(encode_utf8(framed_batch(id, encoded)));
    lemma_hex_round_trip(encoded);
}

/// A batch is accepted exactly when it holds from 1 to 50 transfers; every
/// empty batch is refused as empty and every batch of more than 50 as too large.
pub proof fn lemma_batch_size_bounds(count: nat)
    ensures
        batch_size_error(count) is None <==> 1 <= count <= 50,
        count == 0 ==> batch_size_error(count) == Some("Batch cannot be empty"@),
        count > 50 ==> batch_size_error(count) == Some("Batch too large (max 50 transactions)"@),
{
}

} // verus!
