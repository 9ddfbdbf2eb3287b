//! Checks of the matrix dialect operations.

use cuda_oxide::warp::movmatrix_trans_b16;
use cuda_oxide::wmma::{MmaM16N8K16F32Bf16Op, MovmatrixTransB16Op, RegisterType, VerifyError};
use pliron::builtin::types::{IntegerType, Signedness};
use pliron::context::Context;

const I32: RegisterType = RegisterType::Integer { width: 32 };
const I16: RegisterType = RegisterType::Integer { width: 16 };
const F32: RegisterType = RegisterType::Float32;

fn mma_operands() -> Vec<RegisterType> {
    vec![F32, F32, F32, F32, I32, I32, I32, I32, I32, I32]
}

#[test]
fn integer_types_give_their_width() {
    let ctx = Context::new();
    for width in [1, 16, 32, 64] {
        let ty = IntegerType::get(&ctx, width, Signedness::Signless);
        assert_eq!(RegisterType::integer(&*ty.deref(&ctx)), RegisterType::Integer { width });
    }
}

#[test]
fn movmatrix_takes_one_packed_register() {
    let check = |operands: Vec<RegisterType>, results: Vec<RegisterType>| {
        MovmatrixTransB16Op::new(operands, results).verify()
    };
    assert_eq!(check(vec![I32], vec![I32]), Ok(()));
    assert_eq!(check(vec![], vec![I32]), Err(VerifyError::MovmatrixArity));
    assert_eq!(check(vec![I32], vec![]), Err(VerifyError::MovmatrixArity));
    assert_eq!(check(vec![I32, I32], vec![I32]), Err(VerifyError::MovmatrixArity));
    assert_eq!(check(vec![I16], vec![I16]), Err(VerifyError::MovmatrixOperand));
    assert_eq!(check(vec![F32], vec![I32]), Err(VerifyError::MovmatrixOperand));
    assert_eq!(check(vec![I32], vec![RegisterType::Other]), Err(VerifyError::MovmatrixResult));
}

#[test]
fn movmatrix_messages() {
    assert_eq!(
        VerifyError::MovmatrixArity.message(),
        "nvvm.movmatrix_trans_b16 requires one operand and one result"
    );
    assert_eq!(
        VerifyError::MovmatrixOperand.message(),
        "nvvm.movmatrix_trans_b16 operand must be a 32-bit integer"
    );
    assert_eq!(
        VerifyError::MovmatrixResult.message(),
        "nvvm.movmatrix_trans_b16 result must be a 32-bit integer"
    );
}

#[test]
fn mma_takes_ten_registers_and_gives_four() {
    let op = MmaM16N8K16F32Bf16Op::new(mma_operands(), vec![F32; 4]);
    assert_eq!(op.verify(), Ok(()));

    let op = MmaM16N8K16F32Bf16Op::new(vec![F32; 11], vec![F32; 4]);
    assert_eq!(op.verify(), Err(VerifyError::MmaOperandCount { got: 11 }));

    let op = MmaM16N8K16F32Bf16Op::new(mma_operands(), vec![F32; 3]);
    assert_eq!(op.verify(), Err(VerifyError::MmaResultCount));
}

#[test]
fn mma_names_the_first_wrong_register() {
    for index in 0..10 {
        let mut operands = mma_operands();
        operands[index] = I16;
        operands[9] = RegisterType::Other;
        let expected = if index < 4 {
            VerifyError::MmaAccumulator { index }
        } else {
            VerifyError::MmaPacked { index }
        };
        assert_eq!(MmaM16N8K16F32Bf16Op::new(operands, vec![]).verify(), Err(expected));
    }
    for index in 0..4 {
        let mut results = vec![F32; 4];
        results[index] = I32;
        results[3] = I32;
        assert_eq!(
            MmaM16N8K16F32Bf16Op::new(mma_operands(), results).verify(),
            Err(VerifyError::MmaResult { index })
        );
    }
}

#[test]
fn mma_messages() {
    assert_eq!(
        VerifyError::MmaOperandCount { got: 12 }.message(),
        "nvvm.mma_m16n8k16_f32_bf16 requires 10 register operands, got 12"
    );
    assert_eq!(
        VerifyError::MmaAccumulator { index: 3 }.message(),
        "nvvm.mma_m16n8k16_f32_bf16 C operand 3 must be f32"
    );
    assert_eq!(
        VerifyError::MmaPacked { index: 9 }.message(),
        "nvvm.mma_m16n8k16_f32_bf16 packed operand 9 must be i32"
    );
    assert_eq!(
        VerifyError::MmaResultCount.message(),
        "nvvm.mma_m16n8k16_f32_bf16 requires 4 f32 results"
    );
    assert_eq!(
        VerifyError::MmaResult { index: 0 }.message(),
        "nvvm.mma_m16n8k16_f32_bf16 result 0 must be f32"
    );
}

/// The registers of a warp that hold `matrix[row][col] = 256 * row + col`.
fn numbered() -> [u32; 32] {
    let mut registers = [0u32; 32];
    for row in 0..8u32 {
        for k in 0..4u32 {
            let low = 256 * row + 2 * k;
            let high = 256 * row + 2 * k + 1;
            registers[(4 * row + k) as usize] = low | (high << 16);
        }
    }
    registers
}

#[test]
fn transpose_exchanges_rows_and_columns() {
    let transposed = movmatrix_trans_b16(&numbered());
    // Lane 4*c + k holds [matrix[2*k][c], matrix[2*k + 1][c]].
    assert_eq!(transposed[0], 0x0100_0000);
    assert_eq!(transposed[3], 0x0700_0600);
    assert_eq!(transposed[4], 0x0101_0001);
    assert_eq!(transposed[31], 0x0707_0607);
    for c in 0..8u32 {
        for k in 0..4u32 {
            let low = 256 * (2 * k) + c;
            let high = 256 * (2 * k + 1) + c;
            assert_eq!(transposed[(4 * c + k) as usize], low | (high << 16));
        }
    }
}

#[test]
fn transposing_twice_gives_back_the_registers() {
    let mut registers = [0u32; 32];
    for (lane, register) in registers.iter_mut().enumerate() {
        *register = 0x9e37_79b9u32.wrapping_mul(lane as u32 + 1);
    }
    assert_ne!(movmatrix_trans_b16(&registers), registers);
    assert_eq!(movmatrix_trans_b16(&movmatrix_trans_b16(&registers)), registers);
}
