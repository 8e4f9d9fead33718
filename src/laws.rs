use vstd::prelude::*;

use crate::outside::token_program_bytes;
use crate::processor::{
    authority_key, close_outcome, commands_of, open_outcome, opened_record, settle_error,
    settle_outcome, Call, LedgerCommand, OpenAccounts, TradeAccounts,
};
use crate::state::{EscrowError, RecordAccount};

verus! {

/// Token balances after the ledger carries out one command: a transfer moves
/// the amount, a close removes the account, an owner change moves nothing.
pub open spec fn apply_command(bal: Map<Seq<u8>, int>, c: LedgerCommand) -> Map<Seq<u8>, int> {
    match c {
        LedgerCommand::SetOwner { .. } => bal,
        LedgerCommand::Transfer { source, destination, amount, .. } => {
            let debited = bal.insert(source@, bal[source@] - amount);
            debited.insert(destination@, debited[destination@] + amount)
        },
        LedgerCommand::Close { account, .. } => bal.remove(account@),
    }
}

/// Token balances after the ledger carries out commands in order.
pub open spec fn apply_commands(bal: Map<Seq<u8>, int>, cs: Seq<LedgerCommand>) -> Map<
    Seq<u8>,
    int,
>
    decreases cs.len(),
{
    if cs.len() == 0 {
        bal
    } else {
        apply_commands(apply_command(bal, cs[0]), cs.drop_first())
    }
}

/// The four token accounts of a trade and the custody account are distinct
/// accounts of the ledger.
pub open spec fn distinct_trade_accounts(a: TradeAccounts, bal: Map<Seq<u8>, int>) -> bool {
    let k = seq![
        a.taker_send_account@,
        a.taker_receive_account@,
        a.custody_account@,
        a.initializer_receive_account@,
    ];
    &&& forall|i: int, j: int| 0 <= i < j < 4 ==> k[i] != k[j]
    &&& forall|i: int| 0 <= i < 4 ==> bal.contains_key(#[trigger] k[i])
}

/// A valid `open` (signed by the initializer, receiving account owned by the
/// token program, rent-exempt and uninitialized record, custody authority
/// found) records exactly the supplied parties and amount, and hands the
/// custody account to the custody authority.
pub proof fn open_records_the_deal(
    a: OpenAccounts,
    before: RecordAccount,
    after: RecordAccount,
    rent_exempt: bool,
    amount: u64,
    authority: Option<(Seq<u8>, u8)>,
    r: Result<Vec<Call>, EscrowError>,
)
    requires
        open_outcome(a, before, after, rent_exempt, amount, authority, r),
        a.initializer_is_signer,
        a.receive_account_owner@ == token_program_bytes(),
        rent_exempt,
        before.data is Some,
        !before.data->0.is_initialized,
        authority is Some,
        a.token_program@ == token_program_bytes(),
    ensures
        r is Ok,
        after.data is Some && opened_record(after.data->0, a, amount),
        r->Ok_0@.len() == 1,
        r->Ok_0@[0].command matches LedgerCommand::SetOwner { account, new_owner, owner }
            && account@ == a.custody_account@ && new_owner@ == authority_key(authority)
            && owner@ == a.initializer@,
{
}

/// `open` on a record that already holds a deal fails with
/// `AlreadyInitialized` and leaves the record as it was, once the signature,
/// owner and rent checks before it pass.
pub proof fn open_refuses_initialized_record(
    a: OpenAccounts,
    before: RecordAccount,
    after: RecordAccount,
    rent_exempt: bool,
    amount: u64,
    authority: Option<(Seq<u8>, u8)>,
    r: Result<Vec<Call>, EscrowError>,
)
    requires
        open_outcome(a, before, after, rent_exempt, amount, authority, r),
        a.initializer_is_signer,
        a.receive_account_owner@ == token_program_bytes(),
        rent_exempt,
        before.data is Some,
        before.data->0.is_initialized,
    ensures
        r == Err::<Vec<Call>, EscrowError>(EscrowError::AlreadyInitialized),
        after == before,
{
}

/// `open` without the initializer's signature fails with `MissingSignature`
/// and changes nothing.
pub proof fn open_requires_signature(
    a: OpenAccounts,
    before: RecordAccount,
    after: RecordAccount,
    rent_exempt: bool,
    amount: u64,
    authority: Option<(Seq<u8>, u8)>,
    r: Result<Vec<Call>, EscrowError>,
)
    requires
        open_outcome(a, before, after, rent_exempt, amount, authority, r),
        !a.initializer_is_signer,
    ensures
        r == Err::<Vec<Call>, EscrowError>(EscrowError::MissingSignature),
        after == before,
{
}

/// Balances after a valid settlement: the custody account's whole balance
/// goes to the taker's receive account, the expected amount goes from the
/// taker's send account to the initializer's receive account, and the custody
/// account is closed; closing the escrow then empties the record account and
/// credits its lamports to the initializer.
pub proof fn settle_moves_assets(
    a: TradeAccounts,
    custody_amount: Option<u64>,
    taker_amount: Option<u64>,
    before: RecordAccount,
    amount: u64,
    authority: Option<(Seq<u8>, u8)>,
    r: Result<Vec<Call>, EscrowError>,
    after: RecordAccount,
    lamports_before: u64,
    lamports_after: u64,
    closed: Result<(), EscrowError>,
    bal: Map<Seq<u8>, int>,
)
    requires
        settle_outcome(a, custody_amount, taker_amount, before, amount, authority, r),
        settle_error(a, custody_amount, taker_amount, before, amount, authority) is None,
        close_outcome(before, after, lamports_before, lamports_after, closed),
        closed is Ok,
        distinct_trade_accounts(a, bal),
        bal[a.custody_account@] == amount,
    ensures
        ({
            let moved = apply_commands(bal, commands_of(r->Ok_0@));
            let expected = before.data->0.expected_amount;
            &&& moved[a.taker_receive_account@] == bal[a.taker_receive_account@] + amount
            &&& moved[a.taker_send_account@] == bal[a.taker_send_account@] - expected
            &&& moved[a.initializer_receive_account@] == bal[a.initializer_receive_account@]
                + expected
            &&& !moved.contains_key(a.custody_account@)
        }),
        after.lamports == 0,
        after.data is None,
        lamports_after == lamports_before + before.lamports,
{
    settle_balances(a, before.data->0.expected_amount, amount, authority_key(authority),
        commands_of(r->Ok_0@), bal);
}

proof fn settle_balances(
    a: TradeAccounts,
    expected: u64,
    amount: u64,
    authority: Seq<u8>,
    cs: Seq<LedgerCommand>,
    bal: Map<Seq<u8>, int>,
)
    requires
        cs.len() == 3,
        cs[0] matches LedgerCommand::Transfer { source, destination, amount: n, .. }
            && source@ == a.taker_send_account@ && destination@ == a.initializer_receive_account@
            && n == expected,
        cs[1] matches LedgerCommand::Transfer { source, destination, amount: n, .. }
            && source@ == a.custody_account@ && destination@ == a.taker_receive_account@
            && n == amount,
        cs[2] matches LedgerCommand::Close { account, .. } && account@ == a.custody_account@,
        distinct_trade_accounts(a, bal),
    ensures
        ({
            let moved = apply_commands(bal, cs);
            &&& moved[a.taker_receive_account@] == bal[a.taker_receive_account@] + amount
            &&& moved[a.taker_send_account@] == bal[a.taker_send_account@] - expected
            &&& moved[a.initializer_receive_account@] == bal[a.initializer_receive_account@]
                + expected
            &&& !moved.contains_key(a.custody_account@)
        }),
{
    let k = seq![
        a.taker_send_account@,
        a.taker_receive_account@,
        a.custody_account@,
        a.initializer_receive_account@,
    ];
    assert(k[0] != k[1] && k[0] != k[2] && k[0] != k[3] && k[1] != k[2] && k[1] != k[3] && k[2]
        != k[3]);
    let b1 = apply_command(bal, cs[0]);
    let b2 = apply_command(b1, cs[1]);
    let b3 = apply_command(b2, cs[2]);
    assert(cs.drop_first().drop_first().drop_first().len() == 0);
    assert(apply_commands(b3, cs.drop_first().drop_first().drop_first()) == b3);
    assert(apply_commands(b2, cs.drop_first().drop_first()) == b3);
    assert(apply_commands(b1, cs.drop_first()) == b3);
    assert(apply_commands(bal, cs) == b3);
}

/// `settle` fails with `AmountMismatch`, and asks for no ledger call, where
/// the custody account's balance differs from the asserted amount (once the
/// taker has signed and the custody account's data decodes).
pub proof fn settle_refuses_wrong_custody_amount(
    a: TradeAccounts,
    custody_amount: Option<u64>,
    taker_amount: Option<u64>,
    rec: RecordAccount,
    amount: u64,
    authority: Option<(Seq<u8>, u8)>,
    r: Result<Vec<Call>, EscrowError>,
)
    requires
        settle_outcome(a, custody_amount, taker_amount, rec, amount, authority, r),
        a.taker_is_signer,
        custody_amount is Some,
        custody_amount->0 != amount,
    ensures
        r == Err::<Vec<Call>, EscrowError>(EscrowError::AmountMismatch),
{
}

/// `settle` fails with `InvalidAccountData`, and asks for no ledger call,
/// where the supplied initializer, custody account or initializer's receive
/// account is not the one the record holds (once the checks before pass).
pub proof fn settle_refuses_wrong_identity(
    a: TradeAccounts,
    custody_amount: Option<u64>,
    taker_amount: Option<u64>,
    rec: RecordAccount,
    amount: u64,
    authority: Option<(Seq<u8>, u8)>,
    r: Result<Vec<Call>, EscrowError>,
)
    requires
        settle_outcome(a, custody_amount, taker_amount, rec, amount, authority, r),
        a.taker_is_signer,
        custody_amount == Some(amount),
        rec.data is Some,
        rec.data->0.is_initialized,
        taker_amount is Some,
        taker_amount->0 >= rec.data->0.expected_amount,
        rec.data->0.initializer@ != a.initializer@
            || rec.data->0.custody_account@ != a.custody_account@
            || rec.data->0.initializer_receive_account@ != a.initializer_receive_account@,
    ensures
        r == Err::<Vec<Call>, EscrowError>(EscrowError::InvalidAccountData),
{
}

/// Replaying a settlement after it succeeded and the escrow was closed fails,
/// whatever the custody and taker accounts then hold.
pub proof fn settle_replay_fails(
    a: TradeAccounts,
    custody_amount: Option<u64>,
    taker_amount: Option<u64>,
    before: RecordAccount,
    amount: u64,
    authority: Option<(Seq<u8>, u8)>,
    r: Result<Vec<Call>, EscrowError>,
    after: RecordAccount,
    lamports_before: u64,
    lamports_after: u64,
    closed: Result<(), EscrowError>,
    custody_again: Option<u64>,
    taker_again: Option<u64>,
    r_again: Result<Vec<Call>, EscrowError>,
)
    requires
        settle_outcome(a, custody_amount, taker_amount, before, amount, authority, r),
        r is Ok,
        close_outcome(before, after, lamports_before, lamports_after, closed),
        closed is Ok,
        settle_outcome(a, custody_again, taker_again, after, amount, authority, r_again),
    ensures
        r_again is Err,
{
}

/// An `open` followed by the settlement of that deal conserves each asset
/// across the four token accounts and the custody account: asset X only moves
/// from custody to the taker, asset Y only from the taker to the initializer.
pub proof fn open_then_settle_conserves(
    oa: OpenAccounts,
    ta: TradeAccounts,
    record0: RecordAccount,
    record1: RecordAccount,
    rent_exempt: bool,
    amount: u64,
    authority: Option<(Seq<u8>, u8)>,
    opened: Result<Vec<Call>, EscrowError>,
    custody_amount: Option<u64>,
    taker_amount: Option<u64>,
    asserted: u64,
    settled: Result<Vec<Call>, EscrowError>,
    bal: Map<Seq<u8>, int>,
)
    requires
        open_outcome(oa, record0, record1, rent_exempt, amount, authority, opened),
        opened is Ok,
        settle_outcome(ta, custody_amount, taker_amount, record1, asserted, authority, settled),
        settled is Ok,
        distinct_trade_accounts(ta, bal),
        bal[ta.custody_account@] == asserted,
    ensures
        ({
            let after_open = apply_commands(bal, commands_of(opened->Ok_0@));
            let end = apply_commands(after_open, commands_of(settled->Ok_0@));
            &&& after_open == bal
            &&& end[ta.taker_receive_account@] == bal[ta.custody_account@]
                + bal[ta.taker_receive_account@]
            &&& end[ta.taker_send_account@] + end[ta.initializer_receive_account@]
                == bal[ta.taker_send_account@] + bal[ta.initializer_receive_account@]
            &&& end[ta.initializer_receive_account@] == bal[ta.initializer_receive_account@]
                + amount
            &&& !end.contains_key(ta.custody_account@)
        }),
{
    let ocs = commands_of(opened->Ok_0@);
    assert(ocs.drop_first().len() == 0);
    assert(apply_commands(bal, ocs) == apply_commands(apply_command(bal, ocs[0]), ocs.drop_first()));
    settle_balances(ta, record1.data->0.expected_amount, asserted, authority_key(authority),
        commands_of(settled->Ok_0@), bal);
}

} // verus!
