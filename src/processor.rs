use vstd::prelude::*;
use solana_program::instruction::Instruction;

use crate::instruction::{decoded_instruction, EscrowInstruction};
use crate::key::Key;
use crate::outside::{
    close_instruction, escrow_authority, find_escrow_authority, set_owner_instruction,
    token_account_amount, token_program_bytes, token_program_key, transfer_instruction,
    unpack_token_amount,
};
use crate::state::{EscrowError, EscrowRecord, RecordAccount};

verus! {

/// A command issued to the token ledger.
#[derive(Clone, Copy, Debug, PartialEq, Eq)]
pub enum LedgerCommand {
    /// Hand ownership of `account` from `owner` to `new_owner`.
    SetOwner { account: Key, new_owner: Key, owner: Key },
    /// Move `amount` tokens from `source` to `destination`, authorized by `authority`.
    Transfer { source: Key, destination: Key, authority: Key, amount: u64 },
    /// Close the empty `account`, sending its deposit to `destination`.
    Close { account: Key, destination: Key, owner: Key },
}

/// One call into the token ledger: the command, the encoded instruction, and
/// the bump seed of the custody authority where the program signs for it.
pub struct Call {
    pub command: LedgerCommand,
    pub authority_bump: Option<u8>,
    pub instruction: Instruction,
}

/// The accounts of `open`, in their positional order.
#[derive(Clone, Copy, Debug)]
pub struct OpenAccounts {
    pub initializer: Key,
    pub initializer_is_signer: bool,
    pub custody_account: Key,
    pub receive_account: Key,
    pub receive_account_owner: Key,
    pub token_program: Key,
}

/// The accounts of `settle`, in their positional order.
#[derive(Clone, Copy, Debug)]
pub struct TradeAccounts {
    pub taker: Key,
    pub taker_is_signer: bool,
    pub taker_send_account: Key,
    pub taker_receive_account: Key,
    pub custody_account: Key,
    pub initializer: Key,
    pub initializer_receive_account: Key,
    pub token_program: Key,
}

/// The accounts handed to one operation, with what the ledger reports of
/// them: the record account's rent exemption for `open`, the token account
/// data of the custody account and of the taker's send account for `settle`.
pub enum OperationAccounts {
    Open { accounts: OpenAccounts, rent_exempt: bool },
    Trade { accounts: TradeAccounts, custody_data: Vec<u8>, taker_send_data: Vec<u8> },
}

/// The first check of `open` that fails, if any.
pub open spec fn open_error(
    a: OpenAccounts,
    rec: RecordAccount,
    rent_exempt: bool,
    authority: Option<(Seq<u8>, u8)>,
) -> Option<EscrowError> {
    if !a.initializer_is_signer {
        Some(EscrowError::MissingSignature)
    } else if a.receive_account_owner@ != token_program_bytes() {
        Some(EscrowError::IncorrectProgramId)
    } else if !rent_exempt {
        Some(EscrowError::NotRentExempt)
    } else if rec.data is None {
        Some(EscrowError::InvalidAccountData)
    } else if rec.data->0.is_initialized {
        Some(EscrowError::AlreadyInitialized)
    } else if authority is None {
        Some(EscrowError::InvalidSeeds)
    } else if a.token_program@ != token_program_bytes() {
        Some(EscrowError::IncorrectProgramId)
    } else {
        None
    }
}

/// The record that `open` writes: the deal's parties, custody and terms.
pub open spec fn opened_record(r: EscrowRecord, a: OpenAccounts, amount: u64) -> bool {
    &&& r.is_initialized
    &&& r.initializer@ == a.initializer@
    &&& r.custody_account@ == a.custody_account@
    &&& r.initializer_receive_account@ == a.receive_account@
    &&& r.expected_amount == amount
}

/// The first check of `settle` that fails, if any.
pub open spec fn settle_error(
    a: TradeAccounts,
    custody_amount: Option<u64>,
    taker_amount: Option<u64>,
    rec: RecordAccount,
    amount: u64,
    authority: Option<(Seq<u8>, u8)>,
) -> Option<EscrowError> {
    if !a.taker_is_signer {
        Some(EscrowError::MissingSignature)
    } else if custody_amount is None {
        Some(EscrowError::InvalidAccountData)
    } else if custody_amount->0 != amount {
        Some(EscrowError::AmountMismatch)
    } else if rec.data is None {
        Some(EscrowError::InvalidAccountData)
    } else if !rec.data->0.is_initialized {
        Some(EscrowError::UninitializedAccount)
    } else if taker_amount is None {
        Some(EscrowError::InvalidAccountData)
    } else if taker_amount->0 < rec.data->0.expected_amount {
        Some(EscrowError::AmountMismatch)
    } else if rec.data->0.initializer@ != a.initializer@ {
        Some(EscrowError::InvalidAccountData)
    } else if rec.data->0.custody_account@ != a.custody_account@ {
        Some(EscrowError::InvalidAccountData)
    } else if rec.data->0.initializer_receive_account@ != a.initializer_receive_account@ {
        Some(EscrowError::InvalidAccountData)
    } else if authority is None {
        Some(EscrowError::InvalidSeeds)
    } else if a.token_program@ != token_program_bytes() {
        Some(EscrowError::IncorrectProgramId)
    } else {
        None
    }
}

/// The three commands of a settlement, in the order they are issued.
pub open spec fn settle_commands(
    c: Seq<LedgerCommand>,
    a: TradeAccounts,
    rec: EscrowRecord,
    amount: u64,
    authority: Seq<u8>,
) -> bool {
    &&& c.len() == 3
    &&& c[0] matches LedgerCommand::Transfer { source, destination, authority: auth, amount: n }
        && source@ == a.taker_send_account@ && destination@ == a.initializer_receive_account@
        && auth@ == a.taker@ && n == rec.expected_amount
    &&& c[1] matches LedgerCommand::Transfer { source, destination, authority: auth, amount: n }
        && source@ == a.custody_account@ && destination@ == a.taker_receive_account@
        && auth@ == authority && n == amount
    &&& c[2] matches LedgerCommand::Close { account, destination, owner }
        && account@ == a.custody_account@ && destination@ == a.initializer@ && owner@ == authority
}

/// The commands of a sequence of calls.
pub open spec fn commands_of(calls: Seq<Call>) -> Seq<LedgerCommand> {
    Seq::new(calls.len(), |i: int| calls[i].command)
}

fn instruction_for(token_program: &Key, command: &LedgerCommand) -> (r: Result<Instruction, EscrowError>)
    ensures
        r is Ok <==> token_program@ == token_program_bytes(),
        r is Err ==> r->Err_0 == EscrowError::IncorrectProgramId,
{
    let built = match command {
        LedgerCommand::SetOwner { account, new_owner, owner } => set_owner_instruction(
            token_program,
            account,
            new_owner,
            owner,
        ),
        LedgerCommand::Transfer { source, destination, authority, amount } => transfer_instruction(
            token_program,
            source,
            destination,
            authority,
            *amount,
        ),
        LedgerCommand::Close { account, destination, owner } => close_instruction(
            token_program,
            account,
            destination,
            owner,
        ),
    };
    match built {
        Ok(ix) => Ok(ix),
        Err(_) => Err(EscrowError::IncorrectProgramId),
    }
}

fn call_for(token_program: &Key, command: LedgerCommand, authority_bump: Option<u8>) -> (r: Result<Call, EscrowError>)
    ensures
        r is Ok <==> token_program@ == token_program_bytes(),
        r is Err ==> r->Err_0 == EscrowError::IncorrectProgramId,
        r is Ok ==> r->Ok_0.command == command && r->Ok_0.authority_bump == authority_bump,
{
    let instruction = instruction_for(token_program, &command)?;
    Ok(Call { command, authority_bump, instruction })
}

pub open spec fn authority_view(authority: Option<(Key, u8)>) -> Option<(Seq<u8>, u8)> {
    match authority {
        Some((k, b)) => Some((k@, b)),
        None => None,
    }
}

/// The address of a found custody authority.
pub open spec fn authority_key(authority: Option<(Seq<u8>, u8)>) -> Seq<u8> {
    match authority {
        Some((k, _)) => k,
        None => Seq::empty(),
    }
}

/// The bump seed of a found custody authority.
pub open spec fn authority_bump(authority: Option<(Seq<u8>, u8)>) -> u8 {
    match authority {
        Some((_, b)) => b,
        None => 0,
    }
}

/// What `open` does: on the first failing check that error and nothing
/// changed; else the deal written into the record and one call that hands the
/// custody account from the initializer to the custody authority.
pub open spec fn open_outcome(
    a: OpenAccounts,
    before: RecordAccount,
    after: RecordAccount,
    rent_exempt: bool,
    amount: u64,
    authority: Option<(Seq<u8>, u8)>,
    r: Result<Vec<Call>, EscrowError>,
) -> bool {
    match open_error(a, before, rent_exempt, authority) {
        Some(e) => r == Err::<Vec<Call>, EscrowError>(e) && after == before,
        None => {
            &&& r is Ok
            &&& after.lamports == before.lamports
            &&& after.data is Some
            &&& opened_record(after.data->0, a, amount)
            &&& r->Ok_0@.len() == 1
            &&& r->Ok_0@[0].authority_bump is None
            &&& r->Ok_0@[0].command matches LedgerCommand::SetOwner { account, new_owner, owner }
                && account@ == a.custody_account@ && new_owner@ == authority_key(authority)
                && owner@ == a.initializer@
        },
    }
}

/// What `settle` does: the first failing check's error, or else the three
/// ledger calls of the trade.
pub open spec fn settle_outcome(
    a: TradeAccounts,
    custody_amount: Option<u64>,
    taker_amount: Option<u64>,
    rec: RecordAccount,
    amount: u64,
    authority: Option<(Seq<u8>, u8)>,
    r: Result<Vec<Call>, EscrowError>,
) -> bool {
    match settle_error(a, custody_amount, taker_amount, rec, amount, authority) {
        Some(e) => r == Err::<Vec<Call>, EscrowError>(e),
        None => {
            &&& r is Ok
            &&& settle_commands(commands_of(r->Ok_0@), a, rec.data->0, amount, authority_key(authority))
            &&& r->Ok_0@[0].authority_bump is None
            &&& r->Ok_0@[1].authority_bump == Some(authority_bump(authority))
            &&& r->Ok_0@[2].authority_bump == Some(authority_bump(authority))
        },
    }
}

/// What closing the record account does once the ledger calls are made: its
/// lamports go to the initializer and its data is cleared, unless the
/// initializer's balance would overflow, which changes nothing.
pub open spec fn close_outcome(
    before: RecordAccount,
    after: RecordAccount,
    lamports_before: u64,
    lamports_after: u64,
    r: Result<(), EscrowError>,
) -> bool {
    if lamports_before + before.lamports > u64::MAX {
        &&& r == Err::<(), EscrowError>(EscrowError::Overflow)
        &&& after == before
        &&& lamports_after == lamports_before
    } else {
        &&& r is Ok
        &&& lamports_after == lamports_before + before.lamports
        &&& after.lamports == 0
        &&& after.data is None
    }
}

/// The escrow state machine.
pub struct Processor;

impl Processor {
    /// Decodes the instruction and runs the operation it names on the given
    /// accounts; accounts of the other operation are `InvalidInstruction`. A
    /// settlement leaves the record as it is: `close_escrow` ends it once the
    /// returned calls are made.
    pub fn process(
        program_id: &Key,
        accounts: &OperationAccounts,
        record: &mut RecordAccount,
        instruction_data: &[u8],
    ) -> (r: Result<Vec<Call>, EscrowError>)
        ensures
            match (decoded_instruction(instruction_data@), accounts) {
                (
                    Some(EscrowInstruction::InitEscrow { amount }),
                    OperationAccounts::Open { accounts: a, rent_exempt },
                ) => {
                    open_outcome(*a, *old(record), *final(record), *rent_exempt, amount,
                        escrow_authority(program_id@), r)
                },
                (
                    Some(EscrowInstruction::Exchange { amount }),
                    OperationAccounts::Trade { accounts: a, custody_data, taker_send_data },
                ) => {
                    &&& settle_outcome(*a, token_account_amount(custody_data@),
                        token_account_amount(taker_send_data@), *old(record), amount,
                        escrow_authority(program_id@), r)
                    &&& *final(record) == *old(record)
                },
                _ => {
                    &&& r == Err::<Vec<Call>, EscrowError>(EscrowError::InvalidInstruction)
                    &&& *final(record) == *old(record)
                },
            },
    {
        let instruction = match EscrowInstruction::unpack(instruction_data) {
            Ok(i) => i,
            Err(e) => {
                return Err(e);
            },
        };
        match (instruction, accounts) {
            (EscrowInstruction::InitEscrow { amount }, OperationAccounts::Open { accounts, rent_exempt }) => {
                Self::process_init_escrow(accounts, record, *rent_exempt, amount, program_id)
            },
            (
                EscrowInstruction::Exchange { amount },
                OperationAccounts::Trade { accounts, custody_data, taker_send_data },
            ) => Self::process_trade(accounts, custody_data, taker_send_data, record, amount, program_id),
            _ => Err(EscrowError::InvalidInstruction),
        }
    }

    /// Opens an escrow: checks the accounts, writes the deal into the record,
    /// and returns the call that hands the custody account to `authority`, the
    /// program-derived custody authority and its bump seed.
    pub fn open_with(
        accounts: &OpenAccounts,
        record: &mut RecordAccount,
        rent_exempt: bool,
        amount: u64,
        authority: Option<(Key, u8)>,
    ) -> (r: Result<Vec<Call>, EscrowError>)
        ensures
            open_outcome(*accounts, *old(record), *final(record), rent_exempt, amount,
                authority_view(authority), r),
    {
        if !accounts.initializer_is_signer {
            return Err(EscrowError::MissingSignature);
        }
        let ledger = token_program_key();
        if !accounts.receive_account_owner.same(&ledger) {
            return Err(EscrowError::IncorrectProgramId);
        }
        if !rent_exempt {
            return Err(EscrowError::NotRentExempt);
        }
        let current = match record.data {
            Some(rec) => rec,
            None => {
                return Err(EscrowError::InvalidAccountData);
            },
        };
        if current.is_initialized {
            return Err(EscrowError::AlreadyInitialized);
        }
        let (pda, _bump) = match authority {
            Some(found) => found,
            None => {
                return Err(EscrowError::InvalidSeeds);
            },
        };
        let command = LedgerCommand::SetOwner {
            account: accounts.custody_account,
            new_owner: pda,
            owner: accounts.initializer,
        };
        let call = call_for(&accounts.token_program, command, None)?;
        record.data = Some(
            EscrowRecord {
                is_initialized: true,
                initializer: accounts.initializer,
                custody_account: accounts.custody_account,
                initializer_receive_account: accounts.receive_account,
                expected_amount: amount,
            },
        );
        let mut calls: Vec<Call> = Vec::new();
        calls.push(call);
        Ok(calls)
    }

    /// Settles an escrow, given the decoded balances of the custody account
    /// and of the taker's send account and the custody authority: checks the
    /// accounts against the record and returns the three ledger calls, which
    /// pay the initializer, release custody to the taker and close custody.
    pub fn settle_with(
        accounts: &TradeAccounts,
        custody_amount: Option<u64>,
        taker_amount: Option<u64>,
        record: &RecordAccount,
        amount: u64,
        authority: Option<(Key, u8)>,
    ) -> (r: Result<Vec<Call>, EscrowError>)
        ensures
            settle_outcome(*accounts, custody_amount, taker_amount, *record, amount,
                authority_view(authority), r),
    {
        if !accounts.taker_is_signer {
            return Err(EscrowError::MissingSignature);
        }
        let held = match custody_amount {
            Some(n) => n,
            None => {
                return Err(EscrowError::InvalidAccountData);
            },
        };
        if held != amount {
            return Err(EscrowError::AmountMismatch);
        }
        let rec = match record.data {
            Some(rec) => rec,
            None => {
                return Err(EscrowError::InvalidAccountData);
            },
        };
        if !rec.is_initialized {
            return Err(EscrowError::UninitializedAccount);
        }
        let available = match taker_amount {
            Some(n) => n,
            None => {
                return Err(EscrowError::InvalidAccountData);
            },
        };
        if available < rec.expected_amount {
            return Err(EscrowError::AmountMismatch);
        }
        if !rec.initializer.same(&accounts.initializer) {
            return Err(EscrowError::InvalidAccountData);
        }
        if !rec.custody_account.same(&accounts.custody_account) {
            return Err(EscrowError::InvalidAccountData);
        }
        if !rec.initializer_receive_account.same(&accounts.initializer_receive_account) {
            return Err(EscrowError::InvalidAccountData);
        }
        let (pda, bump) = match authority {
            Some(found) => found,
            None => {
                return Err(EscrowError::InvalidSeeds);
            },
        };
        let pay = call_for(
            &accounts.token_program,
            LedgerCommand::Transfer {
                source: accounts.taker_send_account,
                destination: accounts.initializer_receive_account,
                authority: accounts.taker,
                amount: rec.expected_amount,
            },
            None,
        )?;
        let release = call_for(
            &accounts.token_program,
            LedgerCommand::Transfer {
                source: accounts.custody_account,
                destination: accounts.taker_receive_account,
                authority: pda,
                amount,
            },
            Some(bump),
        )?;
        let close = call_for(
            &accounts.token_program,
            LedgerCommand::Close {
                account: accounts.custody_account,
                destination: accounts.initializer,
                owner: pda,
            },
            Some(bump),
        )?;
        let mut calls: Vec<Call> = Vec::new();
        calls.push(pay);
        calls.push(release);
        calls.push(close);
        proof {
            assert(commands_of(calls@) =~= seq![calls@[0].command, calls@[1].command, calls@[2].command]);
        }
        Ok(calls)
    }

    /// Opens an escrow for the program `program_id`, deriving its custody
    /// authority from the seed "escrow". `rent_exempt` is the ledger's answer
    /// on whether the record account's balance covers its storage.
    pub fn process_init_escrow(
        accounts: &OpenAccounts,
        record: &mut RecordAccount,
        rent_exempt: bool,
        amount: u64,
        program_id: &Key,
    ) -> (r: Result<Vec<Call>, EscrowError>)
        ensures
            open_outcome(*accounts, *old(record), *final(record), rent_exempt, amount,
                escrow_authority(program_id@), r),
    {
        let authority = find_escrow_authority(program_id);
        Self::open_with(accounts, record, rent_exempt, amount, authority)
    }

    /// Settles an escrow for the program `program_id`, reading the balances of
    /// the custody account and of the taker's send account from their data.
    pub fn process_trade(
        accounts: &TradeAccounts,
        custody_data: &Vec<u8>,
        taker_send_data: &Vec<u8>,
        record: &RecordAccount,
        amount: u64,
        program_id: &Key,
    ) -> (r: Result<Vec<Call>, EscrowError>)
        ensures
            settle_outcome(*accounts, token_account_amount(custody_data@),
                token_account_amount(taker_send_data@), *record, amount,
                escrow_authority(program_id@), r),
    {
        let custody_amount = unpack_token_amount(custody_data);
        let taker_amount = unpack_token_amount(taker_send_data);
        let authority = find_escrow_authority(program_id);
        Self::settle_with(accounts, custody_amount, taker_amount, record, amount, authority)
    }

    /// The last step of a settlement, after its ledger calls: credits the
    /// record account's lamports to the initializer, with an overflow check,
    /// and destroys the record.
    pub fn close_escrow(record: &mut RecordAccount, initializer_lamports: &mut u64) -> (r: Result<
        (),
        EscrowError,
    >)
        ensures
            close_outcome(*old(record), *final(record), *old(initializer_lamports),
                *final(initializer_lamports), r),
    {
        let credited = match initializer_lamports.checked_add(record.lamports) {
            Some(n) => n,
            None => {
                return Err(EscrowError::Overflow);
            },
        };
        *initializer_lamports = credited;
        record.lamports = 0;
        record.data = None;
        Ok(())
    }
}

} // verus!