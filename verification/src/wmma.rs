//! Warp-level matrix dialect operations: which operands and results they take.

use pliron::builtin::types::IntegerType;
use vstd::prelude::*;
use crate::text::{decimal, decimal_text};

verus! {

/// Declares pliron's integer type. Nothing inside it is seen but its width.
#[verifier::external_type_specification]
#[verifier::external_body]
pub struct ExIntegerType(IntegerType);

/// The width, in bits, of an integer type.
pub uninterp spec fn integer_width(ty: IntegerType) -> u32;

/// Calls [`IntegerType::width`], which reads the width that the type was made
/// with.
#[verifier::external_body]
fn width_of(ty: &IntegerType) -> (width: u32)
    ensures
        width == integer_width(*ty),
{
    ty.width()
}

/// The type of an operand or of a result, as far as matrix operations tell
/// types apart.
#[derive(Clone, Copy, Debug, PartialEq, Eq, Structural)]
pub enum RegisterType {
    /// An integer, of whatever signedness.
    Integer { width: u32 },
    /// A 32-bit float.
    Float32,
    /// Anything else.
    Other,
}

/// A 32-bit integer register, which packs two 16-bit elements.
pub open spec fn packed() -> RegisterType {
    RegisterType::Integer { width: 32 }
}

impl RegisterType {
    /// The type of an integer register.
    pub fn integer(ty: &IntegerType) -> (register: RegisterType)
        ensures
            register == (RegisterType::Integer { width: integer_width(*ty) }),
    {
        RegisterType::Integer { width: width_of(ty) }
    }

    fn is_packed(&self) -> (result: bool)
        ensures
            result == (*self == packed()),
    {
        match self {
            RegisterType::Integer { width } => *width == 32,
            _ => false,
        }
    }

    fn is_float32(&self) -> (result: bool)
        ensures
            result == (*self == RegisterType::Float32),
    {
        match self {
            RegisterType::Float32 => true,
            _ => false,
        }
    }
}

/// What is wrong with an operation.
#[derive(Clone, Copy, Debug, PartialEq, Eq, Structural)]
pub enum VerifyError {
    /// A transpose has another number of operands or results.
    MovmatrixArity,
    /// The operand of a transpose has the wrong type.
    MovmatrixOperand,
    /// The result of a transpose has the wrong type.
    MovmatrixResult,
    /// A multiplication has another number of operands.
    MmaOperandCount { got: usize },
    /// An accumulator operand of a multiplication has the wrong type.
    MmaAccumulator { index: usize },
    /// A packed operand of a multiplication has the wrong type.
    MmaPacked { index: usize },
    /// A multiplication has another number of results.
    MmaResultCount,
    /// A result of a multiplication has the wrong type.
    MmaResult { index: usize },
}

impl VerifyError {
    /// The text that is shown for the error.
    pub open spec fn text(self) -> Seq<char> {
        match self {
            VerifyError::MovmatrixArity => {
                "nvvm.movmatrix_trans_b16 requires one operand and one result"@
            },
            VerifyError::MovmatrixOperand => {
                "nvvm.movmatrix_trans_b16 operand must be a 32-bit integer"@
            },
            VerifyError::MovmatrixResult => {
                "nvvm.movmatrix_trans_b16 result must be a 32-bit integer"@
            },
            VerifyError::MmaOperandCount { got } => {
                "nvvm.mma_m16n8k16_f32_bf16 requires 10 register operands, got "@ + decimal(
                    got as nat,
                )
            },
            VerifyError::MmaAccumulator { index } => {
                "nvvm.mma_m16n8k16_f32_bf16 C operand "@ + decimal(index as nat)
                    + " must be f32"@
            },
            VerifyError::MmaPacked { index } => {
                "nvvm.mma_m16n8k16_f32_bf16 packed operand "@ + decimal(index as nat)
                    + " must be i32"@
            },
            VerifyError::MmaResultCount => "nvvm.mma_m16n8k16_f32_bf16 requires 4 f32 results"@,
            VerifyError::MmaResult { index } => {
                "nvvm.mma_m16n8k16_f32_bf16 result "@ + decimal(index as nat) + " must be f32"@
            },
        }
    }

    /// The text that is shown for the error.
    pub fn message(&self) -> (text: String)
        ensures
            text@ == self.text(),
    {
        match self {
            VerifyError::MovmatrixArity => String::from_str(
                "nvvm.movmatrix_trans_b16 requires one operand and one result",
            ),
            VerifyError::MovmatrixOperand => String::from_str(
                "nvvm.movmatrix_trans_b16 operand must be a 32-bit integer",
            ),
            VerifyError::MovmatrixResult => String::from_str(
                "nvvm.movmatrix_trans_b16 result must be a 32-bit integer",
            ),
            VerifyError::MmaOperandCount { got } => {
                let count = decimal_text(*got as u64);
                String::from_str(
                    "nvvm.mma_m16n8k16_f32_bf16 requires 10 register operands, got ",
                ).concat(count.as_str())
            },
            VerifyError::MmaAccumulator { index } => {
                let place = decimal_text(*index as u64);
                String::from_str("nvvm.mma_m16n8k16_f32_bf16 C operand ").concat(
                    place.as_str(),
                ).concat(" must be f32")
            },
            VerifyError::MmaPacked { index } => {
                let place = decimal_text(*index as u64);
                String::from_str("nvvm.mma_m16n8k16_f32_bf16 packed operand ").concat(
                    place.as_str(),
                ).concat(" must be i32")
            },
            VerifyError::MmaResultCount => String::from_str(
                "nvvm.mma_m16n8k16_f32_bf16 requires 4 f32 results",
            ),
            VerifyError::MmaResult { index } => {
                let place = decimal_text(*index as u64);
                String::from_str("nvvm.mma_m16n8k16_f32_bf16 result ").concat(
                    place.as_str(),
                ).concat(" must be f32")
            },
        }
    }
}

/// In-register 8x8 matrix transpose (movmatrix.sync.aligned.m8n8.trans.b16).
#[derive(Debug)]
pub struct MovmatrixTransB16Op {
    /// The types of the operands.
    pub operands: Vec<RegisterType>,
    /// The types of the results.
    pub results: Vec<RegisterType>,
}

/// What is wrong with a transpose of these operands and results, if anything.
pub open spec fn movmatrix_error(
    operands: Seq<RegisterType>,
    results: Seq<RegisterType>,
) -> Option<VerifyError> {
    if operands.len() != 1 || results.len() != 1 {
        Some(VerifyError::MovmatrixArity)
    } else if operands[0] != packed() {
        Some(VerifyError::MovmatrixOperand)
    } else if results[0] != packed() {
        Some(VerifyError::MovmatrixResult)
    } else {
        None
    }
}

/// A transpose is as it should be if and only if it has one operand and one
/// result and both are integers of 32 bits. What is wrong is told in the
/// order: their numbers, the operand, the result.
pub proof fn law_movmatrix_takes_packed_registers(
    operands: Seq<RegisterType>,
    results: Seq<RegisterType>,
)
    ensures
        movmatrix_error(operands, results) is None <==> operands.len() == 1 && results.len() == 1
            && operands[0] == (RegisterType::Integer { width: 32 }) && results[0] == (
        RegisterType::Integer { width: 32 }),
        movmatrix_error(operands, results) == Some(VerifyError::MovmatrixArity) <==> operands.len()
            != 1 || results.len() != 1,
        movmatrix_error(operands, results) == Some(VerifyError::MovmatrixOperand)
            <==> operands.len() == 1 && results.len() == 1 && operands[0] != (
        RegisterType::Integer { width: 32 }),
        movmatrix_error(operands, results) == Some(VerifyError::MovmatrixResult)
            <==> operands.len() == 1 && results.len() == 1 && operands[0] == (
        RegisterType::Integer { width: 32 }) && results[0] != (RegisterType::Integer { width: 32 }),
{
}

impl MovmatrixTransB16Op {
    /// The operation with operands and results of these types.
    pub fn new(operands: Vec<RegisterType>, results: Vec<RegisterType>) -> (op: Self)
        ensures
            op.operands@ == operands@,
            op.results@ == results@,
    {
        MovmatrixTransB16Op { operands, results }
    }

    /// Checks the operation: one operand and one result, each a 32-bit integer.
    pub fn verify(&self) -> (result: Result<(), VerifyError>)
        ensures
            result == (match movmatrix_error(self.operands@, self.results@) {
                Some(error) => Err(error),
                None => Ok(()),
            }),
            result is Ok <==> self.operands.len() == 1 && self.results.len() == 1
                && self.operands[0] == (RegisterType::Integer { width: 32 }) && self.results[0] == (
            RegisterType::Integer { width: 32 }),
            result == Err::<(), VerifyError>(VerifyError::MovmatrixArity) <==> self.operands.len()
                != 1 || self.results.len() != 1,
            result == Err::<(), VerifyError>(VerifyError::MovmatrixOperand) <==> self.operands.len()
                == 1 && self.results.len() == 1 && self.operands[0] != (RegisterType::Integer {
                width: 32,
            }),
    {
        if self.operands.len() != 1 || self.results.len() != 1 {
            return Err(VerifyError::MovmatrixArity);
        }
        if !self.operands[0].is_packed() {
            return Err(VerifyError::MovmatrixOperand);
        }
        if !self.results[0].is_packed() {
            return Err(VerifyError::MovmatrixResult);
        }
        Ok(())
    }
}

/// Register-only warp MMA: m16n8k16 with f32 accumulator and bf16 inputs.
///
/// # Operands
///
/// - operands 0-3: four f32 C accumulator registers
/// - operands 4-7: four i32 A fragment registers, each packing two BF16 values
/// - operands 8-9: two i32 B fragment registers, each packing two BF16 values
///
/// # Results
///
/// - results 0-3: four f32 D accumulator registers
#[derive(Debug)]
pub struct MmaM16N8K16F32Bf16Op {
    /// The types of the operands.
    pub operands: Vec<RegisterType>,
    /// The types of the results.
    pub results: Vec<RegisterType>,
}

/// The type that the operand at `index` of a multiplication has.
pub open spec fn mma_operand_type(index: int) -> RegisterType {
    if index < 4 {
        RegisterType::Float32
    } else {
        packed()
    }
}

/// The operands before `index` have the types that those of a multiplication
/// have.
pub open spec fn mma_operands_fit(operands: Seq<RegisterType>, index: int) -> bool {
    forall|i: int| 0 <= i < index ==> #[trigger] operands[i] == mma_operand_type(i)
}

/// The results before `index` have the types that those of a multiplication
/// have.
pub open spec fn mma_results_fit(results: Seq<RegisterType>, index: int) -> bool {
    forall|i: int| 0 <= i < index ==> #[trigger] results[i] == RegisterType::Float32
}

/// A multiplication of these operands and results is as it should be.
pub open spec fn mma_is_valid(operands: Seq<RegisterType>, results: Seq<RegisterType>) -> bool {
    &&& operands.len() == 10
    &&& mma_operands_fit(operands, 10)
    &&& results.len() == 4
    &&& mma_results_fit(results, 4)
}

/// `error` is the first thing that is wrong with a multiplication of these
/// operands and results, in the order: the number of operands, their types by
/// index, the number of results, their types by index.
pub open spec fn is_mma_error(
    operands: Seq<RegisterType>,
    results: Seq<RegisterType>,
    error: VerifyError,
) -> bool {
    match error {
        VerifyError::MmaOperandCount { got } => got == operands.len() && got != 10,
        VerifyError::MmaAccumulator { index } => {
            &&& operands.len() == 10
            &&& index < 4
            &&& mma_operands_fit(operands, index as int)
            &&& operands[index as int] != RegisterType::Float32
        },
        VerifyError::MmaPacked { index } => {
            &&& operands.len() == 10
            &&& 4 <= index < 10
            &&& mma_operands_fit(operands, index as int)
            &&& operands[index as int] != packed()
        },
        VerifyError::MmaResultCount => {
            &&& operands.len() == 10
            &&& mma_operands_fit(operands, 10)
            &&& results.len() != 4
        },
        VerifyError::MmaResult { index } => {
            &&& operands.len() == 10
            &&& mma_operands_fit(operands, 10)
            &&& results.len() == 4
            &&& index < 4
            &&& mma_results_fit(results, index as int)
            &&& results[index as int] != RegisterType::Float32
        },
        _ => false,
    }
}

impl MmaM16N8K16F32Bf16Op {
    /// The operation with operands and results of these types.
    pub fn new(operands: Vec<RegisterType>, results: Vec<RegisterType>) -> (op: Self)
        ensures
            op.operands@ == operands@,
            op.results@ == results@,
    {
        MmaM16N8K16F32Bf16Op { operands, results }
    }

    /// Checks the operation: four f32 and six i32 operands, four f32 results.
    pub fn verify(&self) -> (result: Result<(), VerifyError>)
        ensures
            result is Ok <==> mma_is_valid(self.operands@, self.results@),
            result matches Err(error) ==> is_mma_error(self.operands@, self.results@, error),
            result is Ok <==> {
                &&& self.operands.len() == 10
                &&& self.results.len() == 4
                &&& forall|i: int|
                    0 <= i < 10 ==> #[trigger] self.operands[i] == (if i < 4 {
                        RegisterType::Float32
                    } else {
                        RegisterType::Integer { width: 32 }
                    })
                &&& forall|i: int| 0 <= i < 4 ==> #[trigger] self.results[i] == RegisterType::Float32
            },
    {
        if self.operands.len() != 10 {
            return Err(VerifyError::MmaOperandCount { got: self.operands.len() });
        }
        let mut index: usize = 0;
        while index < 4
            invariant
                self.operands@.len() == 10,
                index <= 4,
                mma_operands_fit(self.operands@, index as int),
            decreases 4 - index,
        {
            if !self.operands[index].is_float32() {
                assert(self.operands@[index as int] != mma_operand_type(index as int));
                return Err(VerifyError::MmaAccumulator { index });
            }
            index = index + 1;
        }
        while index < self.operands.len()
            invariant
                self.operands@.len() == 10,
                4 <= index <= 10,
                mma_operands_fit(self.operands@, index as int),
            decreases 10 - index,
        {
            if !self.operands[index].is_packed() {
                assert(self.operands@[index as int] != mma_operand_type(index as int));
                return Err(VerifyError::MmaPacked { index });
            }
            index = index + 1;
        }
        if self.results.len() != 4 {
            return Err(VerifyError::MmaResultCount);
        }
        let mut place: usize = 0;
        while place < 4
            invariant
                self.operands@.len() == 10,
                mma_operands_fit(self.operands@, 10),
                self.results@.len() == 4,
                place <= 4,
                mma_results_fit(self.results@, place as int),
            decreases 4 - place,
        {
            if !self.results[place].is_float32() {
                assert(self.results@[place as int] != RegisterType::Float32);
                return Err(VerifyError::MmaResult { index: place });
            }
            place = place + 1;
        }
        Ok(())
    }
}

/// A multiplication is as it should be if and only if it has ten operands, four
/// 32-bit floats and six integers of 32 bits, and four results, all of them
/// 32-bit floats.
pub proof fn law_mma_takes_floats_and_packed_registers(
    operands: Seq<RegisterType>,
    results: Seq<RegisterType>,
)
    ensures
        mma_is_valid(operands, results) <==> {
            &&& operands.len() == 10
            &&& results.len() == 4
            &&& forall|i: int| 0 <= i < 4 ==> #[trigger] operands[i] == RegisterType::Float32
            &&& forall|i: int|
                4 <= i < 10 ==> #[trigger] operands[i] == (RegisterType::Integer { width: 32 })
            &&& forall|i: int| 0 <= i < 4 ==> #[trigger] results[i] == RegisterType::Float32
        },
{
}

/// What is wrong with a multiplication is the first thing that is: the number
/// of operands, an operand, the number of results, a result.
pub proof fn law_mma_error_is_first(
    operands: Seq<RegisterType>,
    results: Seq<RegisterType>,
    error: VerifyError,
)
    requires
        is_mma_error(operands, results, error),
    ensures
        operands.len() != 10 ==> (error matches VerifyError::MmaOperandCount { got } && got
            == operands.len()),
        operands.len() == 10 ==> match error {
            VerifyError::MmaAccumulator { index } => {
                &&& index < 4
                &&& operands[index as int] != RegisterType::Float32
                &&& forall|i: int| 0 <= i < index ==> #[trigger] operands[i] == RegisterType::Float32
            },
            VerifyError::MmaPacked { index } => {
                &&& 4 <= index < 10
                &&& operands[index as int] != (RegisterType::Integer { width: 32 })
                &&& forall|i: int| 0 <= i < 4 ==> #[trigger] operands[i] == RegisterType::Float32
                &&& forall|i: int|
                    4 <= i < index ==> #[trigger] operands[i] == (RegisterType::Integer { width: 32 })
            },
            VerifyError::MmaResultCount => {
                &&& results.len() != 4
                &&& forall|i: int| 0 <= i < 4 ==> #[trigger] operands[i] == RegisterType::Float32
                &&& forall|i: int|
                    4 <= i < 10 ==> #[trigger] operands[i] == (RegisterType::Integer { width: 32 })
            },
            VerifyError::MmaResult { index } => {
                &&& results.len() == 4
                &&& index < 4
                &&& results[index as int] != RegisterType::Float32
                &&& forall|i: int| 0 <= i < index ==> #[trigger] results[i] == RegisterType::Float32
                &&& forall|i: int| 0 <= i < 4 ==> #[trigger] operands[i] == RegisterType::Float32
                &&& forall|i: int|
                    4 <= i < 10 ==> #[trigger] operands[i] == (RegisterType::Integer { width: 32 })
            },
            _ => false,
        },
{
}

/// What every error says, with the number or the index that it holds.
pub proof fn law_verify_error_texts(n: usize)
    ensures
        VerifyError::MovmatrixArity.text()
            == "nvvm.movmatrix_trans_b16 requires one operand and one result"@,
        VerifyError::MovmatrixOperand.text()
            == "nvvm.movmatrix_trans_b16 operand must be a 32-bit integer"@,
        VerifyError::MovmatrixResult.text()
            == "nvvm.movmatrix_trans_b16 result must be a 32-bit integer"@,
        (VerifyError::MmaOperandCount { got: n }).text()
            == "nvvm.mma_m16n8k16_f32_bf16 requires 10 register operands, got "@ + decimal(
            n as nat,
        ),
        (VerifyError::MmaAccumulator { index: n }).text()
            == "nvvm.mma_m16n8k16_f32_bf16 C operand "@ + decimal(n as nat) + " must be f32"@,
        (VerifyError::MmaPacked { index: n }).text()
            == "nvvm.mma_m16n8k16_f32_bf16 packed operand "@ + decimal(n as nat)
            + " must be i32"@,
        VerifyError::MmaResultCount.text() == "nvvm.mma_m16n8k16_f32_bf16 requires 4 f32 results"@,
        (VerifyError::MmaResult { index: n }).text() == "nvvm.mma_m16n8k16_f32_bf16 result "@
            + decimal(n as nat) + " must be f32"@,
{
}

/// The index that an error names, if it names one.
spec fn mma_error_place(error: VerifyError) -> int {
    match error {
        VerifyError::MmaAccumulator { index } => index as int,
        VerifyError::MmaPacked { index } => index as int,
        VerifyError::MmaResult { index } => index as int,
        _ => 0,
    }
}

/// A multiplication has at most one first error, and none if it is valid: the
/// error that [`MmaM16N8K16F32Bf16Op::verify`] gives is the only one it could.
pub proof fn law_mma_error_is_unique(
    operands: Seq<RegisterType>,
    results: Seq<RegisterType>,
    a: VerifyError,
    b: VerifyError,
)
    requires
        is_mma_error(operands, results, a),
        is_mma_error(operands, results, b),
    ensures
        a == b,
        !mma_is_valid(operands, results),
{
    if operands.len() == 10 {
        let i = mma_error_place(a);
        let j = mma_error_place(b);
        // Each error is about one operand or one result; the other error says
        // that it fits.
        assert(operands[i] == operands[i] && results[i] == results[i]);
        assert(operands[j] == operands[j] && results[j] == results[j]);
    }
}

} // verus!
