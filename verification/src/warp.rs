//! Warp-level matrix operations on registers, by what they do to the registers
//! of all 32 lanes.

use vstd::prelude::*;

verus! {

/// An element of 16 bits that `register` packs: the low one (0) or the high
/// one (1).
pub open spec fn packed_element(register: u32, which: int) -> int {
    if which == 0 {
        register as int % 0x1_0000
    } else {
        register as int / 0x1_0000
    }
}

/// An element of the 8×8 matrix that a warp's registers hold. Lane
/// `4 * row + k` packs `matrix[row][2 * k]` and `matrix[row][2 * k + 1]`.
pub open spec fn element(registers: Seq<u32>, row: int, col: int) -> int {
    packed_element(registers[4 * row + col / 2], col % 2)
}

/// The matrix in `d` is that in `a`, transposed.
pub open spec fn is_transposed(a: Seq<u32>, d: Seq<u32>) -> bool {
    &&& a.len() == 32
    &&& d.len() == 32
    &&& forall|row: int, col: int|
        0 <= row < 8 && 0 <= col < 8 ==> #[trigger] element(d, row, col) == element(a, col, row)
}

/// Lane `lane` of `d` packs its pair of the transposed matrix.
spec fn is_transposed_at(a: Seq<u32>, d: Seq<u32>, lane: int) -> bool {
    let row = lane / 4;
    let k = lane % 4;
    &&& packed_element(d[lane], 0) == element(a, 2 * k, row)
    &&& packed_element(d[lane], 1) == element(a, 2 * k + 1, row)
}

fn element_at(registers: &[u32; 32], row: usize, col: usize) -> (value: u32)
    requires
        row < 8,
        col < 8,
    ensures
        value == element(registers@, row as int, col as int),
        value < 0x1_0000,
{
    let register: u32 = registers[4 * row + col / 2];
    if col % 2 == 0 {
        register % 0x1_0000
    } else {
        register / 0x1_0000
    }
}

/// Transpose an 8×8 matrix of b16 elements in-register across the warp.
///
/// Each lane provides one register of `a` that packs two elements of the
/// matrix, and receives one register with the pair of the transposed matrix.
///
/// ```text
/// input  lane 4*r + k: [matrix[r][2*k], matrix[r][2*k + 1]]
/// output lane 4*c + k: [matrix[2*k][c], matrix[2*k + 1][c]]
/// ```
#[must_use]
pub fn movmatrix_trans_b16(a: &[u32; 32]) -> (d: [u32; 32])
    ensures
        is_transposed(a@, d@),
        forall|c: int, k: int|
            0 <= c < 8 && 0 <= k < 4 ==> {
                &&& #[trigger] d[4 * c + k] as int % 0x1_0000 == (if c % 2 == 0 {
                    a[8 * k + c / 2] as int % 0x1_0000
                } else {
                    a[8 * k + c / 2] as int / 0x1_0000
                })
                &&& d[4 * c + k] as int / 0x1_0000 == (if c % 2 == 0 {
                    a[8 * k + 4 + c / 2] as int % 0x1_0000
                } else {
                    a[8 * k + 4 + c / 2] as int / 0x1_0000
                })
            },
{
    let mut d: [u32; 32] = [0u32; 32];
    let mut lane: usize = 0;
    while lane < 32
        invariant
            lane <= 32,
            forall|done: int| 0 <= done < lane ==> #[trigger] is_transposed_at(a@, d@, done),
        decreases 32 - lane,
    {
        let k: usize = lane % 4;
        let low: u32 = element_at(a, 2 * k, lane / 4);
        let high: u32 = element_at(a, 2 * k + 1, lane / 4);
        let ghost before = d@;
        d[lane] = low + high * 0x1_0000;
        proof {
            assert forall|done: int| 0 <= done < lane + 1 implies #[trigger] is_transposed_at(
                a@,
                d@,
                done,
            ) by {
                if done < lane {
                    assert(is_transposed_at(a@, before, done));
                }
            }
        }
        lane += 1;
    }
    proof {
        assert forall|row: int, col: int| 0 <= row < 8 && 0 <= col < 8 implies #[trigger] element(
            d@,
            row,
            col,
        ) == element(a@, col, row) by {
            let lane = 4 * row + col / 2;
            assert(is_transposed_at(a@, d@, lane));
            assert(lane / 4 == row && lane % 4 == col / 2);
        }
        assert forall|c: int, k: int| 0 <= c < 8 && 0 <= k < 4 implies {
            &&& #[trigger] d[4 * c + k] as int % 0x1_0000 == (if c % 2 == 0 {
                a[8 * k + c / 2] as int % 0x1_0000
            } else {
                a[8 * k + c / 2] as int / 0x1_0000
            })
            &&& d[4 * c + k] as int / 0x1_0000 == (if c % 2 == 0 {
                a[8 * k + 4 + c / 2] as int % 0x1_0000
            } else {
                a[8 * k + 4 + c / 2] as int / 0x1_0000
            })
        } by {
            law_transposed_registers(a@, d@, c, k);
        }
    }
    d
}

/// Lane `4 * c + k` of the transposed matrix holds, low and high, the elements
/// of column `c` of rows `2 * k` and `2 * k + 1`. Those are the halves, low for
/// an even column and high for an odd one, of two registers four lanes apart.
pub proof fn law_transposed_registers(a: Seq<u32>, d: Seq<u32>, c: int, k: int)
    requires
        is_transposed(a, d),
        0 <= c < 8,
        0 <= k < 4,
    ensures
        a.len() == 32,
        d.len() == 32,
        d[4 * c + k] as int % 0x1_0000 == (if c % 2 == 0 {
            a[8 * k + c / 2] as int % 0x1_0000
        } else {
            a[8 * k + c / 2] as int / 0x1_0000
        }),
        d[4 * c + k] as int / 0x1_0000 == (if c % 2 == 0 {
            a[8 * k + 4 + c / 2] as int % 0x1_0000
        } else {
            a[8 * k + 4 + c / 2] as int / 0x1_0000
        }),
{
    assert(element(d, c, 2 * k) == element(a, 2 * k, c));
    assert(element(d, c, 2 * k + 1) == element(a, 2 * k + 1, c));
    assert(4 * c + 2 * k / 2 == 4 * c + k && 4 * c + (2 * k + 1) / 2 == 4 * c + k);
    assert(4 * (2 * k) + c / 2 == 8 * k + c / 2);
    assert(4 * (2 * k + 1) + c / 2 == 8 * k + 4 + c / 2);
}

proof fn lemma_same_elements(a: Seq<u32>, b: Seq<u32>)
    requires
        a.len() == 32,
        b.len() == 32,
        forall|row: int, col: int|
            0 <= row < 8 && 0 <= col < 8 ==> #[trigger] element(a, row, col) == element(b, row, col),
    ensures
        a == b,
{
    assert forall|lane: int| 0 <= lane < 32 implies a[lane] == b[lane] by {
        let row = lane / 4;
        let col = 2 * (lane % 4);
        assert(element(a, row, col) == element(b, row, col));
        assert(element(a, row, col + 1) == element(b, row, col + 1));
        assert(4 * row + col / 2 == lane && 4 * row + (col + 1) / 2 == lane);
    }
    assert(a =~= b);
}

/// A matrix has one transposed matrix.
pub proof fn law_transposed_is_unique(a: Seq<u32>, d: Seq<u32>, e: Seq<u32>)
    requires
        is_transposed(a, d),
        is_transposed(a, e),
    ensures
        d == e,
{
    lemma_same_elements(d, e);
}

/// Transposing twice gives back the matrix.
pub proof fn law_transposing_twice_gives_back(a: Seq<u32>, d: Seq<u32>, e: Seq<u32>)
    requires
        is_transposed(a, d),
        is_transposed(d, e),
    ensures
        e == a,
{
    assert forall|row: int, col: int| 0 <= row < 8 && 0 <= col < 8 implies #[trigger] element(
        e,
        row,
        col,
    ) == element(a, row, col) by {
        assert(element(d, col, row) == element(a, row, col));
    }
    lemma_same_elements(e, a);
}

} // verus!
