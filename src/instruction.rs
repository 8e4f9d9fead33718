use vstd::prelude::*;

use crate::state::EscrowError;

verus! {

/// Little-endian reading of eight bytes.
pub open spec fn le_u64(b: Seq<u8>) -> int {
    b[0] + 256 * (b[1] + 256 * (b[2] + 256 * (b[3] + 256 * (b[4] + 256 * (b[5] + 256 * (b[6]
        + 256 * b[7] as int) as int) as int) as int) as int) as int) as int
}

/// Reads the little-endian u64 at `data[start..start + 8]`.
pub fn read_u64_le(data: &[u8], start: usize) -> (r: u64)
    requires
        start + 8 <= data@.len(),
    ensures
        r == le_u64(data@.subrange(start as int, start + 8)),
{
    let ghost b = data@.subrange(start as int, start + 8);
    let _n: usize = data.len();
    let v7 = data[start + 7] as u64;
    let b6 = data[start + 6] as u64;
    assert(v7 * 256 + b6 <= 65535) by (nonlinear_arith)
        requires v7 <= 255, b6 <= 255;
    let v6 = v7 * 256 + b6;
    let b5 = data[start + 5] as u64;
    assert(v6 * 256 + b5 <= 16777215) by (nonlinear_arith)
        requires v6 <= 65535, b5 <= 255;
    let v5 = v6 * 256 + b5;
    let b4 = data[start + 4] as u64;
    assert(v5 * 256 + b4 <= 4294967295) by (nonlinear_arith)
        requires v5 <= 16777215, b4 <= 255;
    let v4 = v5 * 256 + b4;
    let b3 = data[start + 3] as u64;
    assert(v4 * 256 + b3 <= 1099511627775) by (nonlinear_arith)
        requires v4 <= 4294967295, b3 <= 255;
    let v3 = v4 * 256 + b3;
    let b2 = data[start + 2] as u64;
    assert(v3 * 256 + b2 <= 281474976710655) by (nonlinear_arith)
        requires v3 <= 1099511627775, b2 <= 255;
    let v2 = v3 * 256 + b2;
    let b1 = data[start + 1] as u64;
    assert(v2 * 256 + b1 <= 72057594037927935) by (nonlinear_arith)
        requires v2 <= 281474976710655, b1 <= 255;
    let v1 = v2 * 256 + b1;
    let b0 = data[start] as u64;
    assert(v1 * 256 + b0 <= 18446744073709551615) by (nonlinear_arith)
        requires v1 <= 72057594037927935, b0 <= 255;
    let v0 = v1 * 256 + b0;
    assert(b[0] == b0 && b[1] == b1 && b[2] == b2 && b[3] == b3 && b[4] == b4 && b[5] == b5
        && b[6] == b6 && b[7] == v7);
    v0
}

/// Appends the eight little-endian bytes of `v` to `out`.
pub fn write_u64_le(out: &mut Vec<u8>, v: u64)
    ensures
        final(out)@.len() == old(out)@.len() + 8,
        final(out)@.subrange(0, old(out)@.len() as int) == old(out)@,
        le_u64(final(out)@.subrange(old(out)@.len() as int, old(out)@.len() + 8int)) == v,
{
    let ghost start = out@.len();
    let q0 = v;
    let q1 = q0 / 256;
    let q2 = q1 / 256;
    let q3 = q2 / 256;
    let q4 = q3 / 256;
    let q5 = q4 / 256;
    let q6 = q5 / 256;
    let q7 = q6 / 256;
    assert(q7 < 256) by {
        assert(q1 <= 72057594037927935);
        assert(q2 <= 281474976710655);
        assert(q3 <= 1099511627775);
        assert(q4 <= 4294967295);
        assert(q5 <= 16777215);
        assert(q6 <= 65535);
    }
    out.push((q0 % 256) as u8);
    out.push((q1 % 256) as u8);
    out.push((q2 % 256) as u8);
    out.push((q3 % 256) as u8);
    out.push((q4 % 256) as u8);
    out.push((q5 % 256) as u8);
    out.push((q6 % 256) as u8);
    out.push(q7 as u8);
    let ghost b = out@.subrange(start as int, start + 8int);
    assert(b[0] == q0 % 256 && b[1] == q1 % 256 && b[2] == q2 % 256 && b[3] == q3 % 256 && b[4]
        == q4 % 256 && b[5] == q5 % 256 && b[6] == q6 % 256 && b[7] == q7);
    assert(out@.subrange(0, start as int) =~= old(out)@);
}

/// An operation requested of the escrow program.
#[derive(Clone, Copy, Debug, PartialEq, Eq, Structural)]
pub enum EscrowInstruction {
    /// Open an escrow expecting `amount` of the counter-asset in return.
    InitEscrow { amount: u64 },
    /// Settle an escrow whose custody account holds `amount`.
    Exchange { amount: u64 },
}

/// The operation that an instruction payload encodes: a tag byte (0 opens,
/// 1 settles) followed by an eight-byte little-endian amount.
pub open spec fn decoded_instruction(input: Seq<u8>) -> Option<EscrowInstruction> {
    if input.len() < 9 {
        None
    } else if input[0] == 0 {
        Some(EscrowInstruction::InitEscrow { amount: le_u64(input.subrange(1, 9)) as u64 })
    } else if input[0] == 1 {
        Some(EscrowInstruction::Exchange { amount: le_u64(input.subrange(1, 9)) as u64 })
    } else {
        None
    }
}

impl EscrowInstruction {
    /// Decodes an instruction payload; an unknown tag or a payload too short
    /// for the amount is `InvalidInstruction`.
    pub fn unpack(input: &[u8]) -> (r: Result<EscrowInstruction, EscrowError>)
        ensures
            match decoded_instruction(input@) {
                Some(i) => r == Ok::<EscrowInstruction, EscrowError>(i),
                None => r == Err::<EscrowInstruction, EscrowError>(EscrowError::InvalidInstruction),
            },
    {
        if input.len() < 9 {
            return Err(EscrowError::InvalidInstruction);
        }
        let amount = read_u64_le(input, 1);
        if input[0] == 0 {
            Ok(EscrowInstruction::InitEscrow { amount })
        } else if input[0] == 1 {
            Ok(EscrowInstruction::Exchange { amount })
        } else {
            Err(EscrowError::InvalidInstruction)
        }
    }
}

} // verus!
