use vstd::prelude::*;

use crate::instruction::{le_u64, read_u64_le, write_u64_le};
use crate::key::Key;

verus! {

/// Why an escrow operation was refused.
#[derive(Clone, Copy, Debug, PartialEq, Eq, Structural)]
pub enum EscrowError {
    /// A party that must authorize the call did not sign it.
    MissingSignature,
    /// An account is not owned by, or is not, the token ledger program.
    IncorrectProgramId,
    /// The escrow record account lacks the deposit for permanent storage.
    NotRentExempt,
    /// The escrow record already describes a deal.
    AlreadyInitialized,
    /// The escrow record holds no deal.
    UninitializedAccount,
    /// An asserted or available amount disagrees with what the deal needs.
    AmountMismatch,
    /// An account's data or identity is not what the escrow recorded.
    InvalidAccountData,
    /// Crediting lamports would exceed the range of a u64.
    Overflow,
    /// No program-derived custody authority exists for this program.
    InvalidSeeds,
    /// The instruction payload is malformed or its tag unknown.
    InvalidInstruction,
}

/// The persisted description of one pending trade.
#[derive(Clone, Copy, Debug, PartialEq, Eq)]
pub struct EscrowRecord {
    pub is_initialized: bool,
    pub initializer: Key,
    pub custody_account: Key,
    pub initializer_receive_account: Key,
    pub expected_amount: u64,
}

/// Size in bytes of a stored escrow record.
pub const RECORD_LEN: usize = 105;

/// `data` is the stored form of `r`: the initialized flag as 0 or 1, the
/// three addresses, then the expected amount in little-endian order.
pub open spec fn stores(data: Seq<u8>, r: EscrowRecord) -> bool {
    &&& data.len() == RECORD_LEN
    &&& data[0] == (if r.is_initialized { 1u8 } else { 0u8 })
    &&& data.subrange(1, 33) == r.initializer@
    &&& data.subrange(33, 65) == r.custody_account@
    &&& data.subrange(65, 97) == r.initializer_receive_account@
    &&& le_u64(data.subrange(97, 105)) == r.expected_amount
}

/// Data of the record's length whose flag byte is 0 or 1 holds a record.
pub open spec fn holds_record(data: Seq<u8>) -> bool {
    data.len() == RECORD_LEN && data[0] <= 1
}

impl EscrowRecord {
    /// Decodes stored record data; other lengths and flag bytes are refused.
    pub fn unpack(data: &[u8]) -> (r: Option<EscrowRecord>)
        ensures
            r is Some <==> holds_record(data@),
            r is Some ==> stores(data@, r->0),
    {
        if data.len() != RECORD_LEN || data[0] > 1 {
            return None;
        }
        Some(
            EscrowRecord {
                is_initialized: data[0] == 1,
                initializer: Key::from_slice(data, 1),
                custody_account: Key::from_slice(data, 33),
                initializer_receive_account: Key::from_slice(data, 65),
                expected_amount: read_u64_le(data, 97),
            },
        )
    }

    /// The stored form of the record.
    pub fn pack(&self) -> (r: Vec<u8>)
        ensures
            stores(r@, *self),
    {
        let mut out: Vec<u8> = Vec::new();
        out.push(if self.is_initialized { 1u8 } else { 0u8 });
        self.initializer.write_to(&mut out);
        self.custody_account.write_to(&mut out);
        self.initializer_receive_account.write_to(&mut out);
        let ghost before = out@;
        assert(before.len() == 97);
        assert(before[0] == (if self.is_initialized { 1u8 } else { 0u8 }));
        write_u64_le(&mut out, self.expected_amount);
        assert(out@.subrange(0, 97) == before);
        assert(out@.subrange(1, 33) =~= before.subrange(1, 33));
        assert(out@.subrange(33, 65) =~= before.subrange(33, 65));
        assert(out@.subrange(65, 97) =~= before.subrange(65, 97));
        assert(before.subrange(1, 33) =~= self.initializer@);
        assert(before.subrange(33, 65) =~= self.custody_account@);
        assert(before.subrange(65, 97) =~= self.initializer_receive_account@);
        assert(out@[0] == before[0]);
        out
    }

    /// The all-zero record that a freshly allocated account holds.
    pub fn zeroed() -> (r: EscrowRecord)
        ensures
            !r.is_initialized,
            r.initializer@ == Seq::new(32, |i: int| 0u8),
            r.custody_account@ == Seq::new(32, |i: int| 0u8),
            r.initializer_receive_account@ == Seq::new(32, |i: int| 0u8),
            r.expected_amount == 0,
    {
        let z = Key::new([0u8; 32]);
        assert(z@ =~= Seq::new(32, |i: int| 0u8));
        EscrowRecord {
            is_initialized: false,
            initializer: z,
            custody_account: z,
            initializer_receive_account: z,
            expected_amount: 0,
        }
    }
}

/// The escrow record's account: its lamport balance and the record its data
/// holds, `None` where the data holds no record (empty, or of another size).
#[derive(Clone, Copy, Debug, PartialEq, Eq)]
pub struct RecordAccount {
    pub lamports: u64,
    pub data: Option<EscrowRecord>,
}

impl RecordAccount {
    /// The record account as its lamports and stored data describe it.
    pub fn from_parts(lamports: u64, data: &[u8]) -> (r: RecordAccount)
        ensures
            r.lamports == lamports,
            r.data is Some <==> holds_record(data@),
            r.data is Some ==> stores(data@, r.data->0),
    {
        RecordAccount { lamports, data: EscrowRecord::unpack(data) }
    }

    /// The data to store: the packed record, or nothing once it is destroyed.
    pub fn data_bytes(&self) -> (r: Vec<u8>)
        ensures
            self.data is Some ==> stores(r@, self.data->0),
            self.data is None ==> r@.len() == 0,
    {
        match self.data {
            Some(rec) => rec.pack(),
            None => Vec::new(),
        }
    }
}

} // verus!
