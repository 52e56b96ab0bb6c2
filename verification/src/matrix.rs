//! The 3x3 transpose drill.

use vstd::prelude::*;
use vstd::array::group_array_axioms;
use vstd::string::StringExecFns;
use crate::decimal::{spec_i32_string, i32_to_string};

verus! {

/// Whether `t` holds the entries of `m` with the indices swapped.
pub open spec fn spec_is_transpose(t: [[i32; 3]; 3], m: [[i32; 3]; 3]) -> bool {
    forall|i: int, j: int|
        0 <= i < 3 && 0 <= j < 3 ==> #[trigger] t@[i]@[j] == m@[j]@[i]
}

pub fn transpose(matrix: [[i32; 3]; 3]) -> (r: [[i32; 3]; 3])
    ensures
        spec_is_transpose(r, matrix),
{
    let r: [[i32; 3]; 3] = [
        [matrix[0][0], matrix[1][0], matrix[2][0]],
        [matrix[0][1], matrix[1][1], matrix[2][1]],
        [matrix[0][2], matrix[1][2], matrix[2][2]],
    ];
    proof {
        broadcast use group_array_axioms;

        assert forall|i: int, j: int| 0 <= i < 3 && 0 <= j < 3 implies #[trigger] r@[i]@[j]
            == matrix@[j]@[i] by {
            assert(r@.len() == 3);
        }
    }
    r
}

/// Transposing is an involution: a matrix whose entries are those of `m`
/// with the indices swapped, transposed once more, is `m` again.
pub proof fn lemma_transpose_involution(m: [[i32; 3]; 3], t: [[i32; 3]; 3], u: [[i32; 3]; 3])
    requires
        spec_is_transpose(t, m),
        spec_is_transpose(u, t),
    ensures
        u == m,
{
    broadcast use group_array_axioms;

    assert forall|i: int| 0 <= i < 3 implies u@[i] == m@[i] by {
        assert forall|j: int| 0 <= j < 3 implies u@[i]@[j] == m@[i]@[j] by {
            assert(u@[i]@[j] == t@[j]@[i]);
            assert(t@[j]@[i] == m@[i]@[j]);
        }
        assert(u@[i] =~= m@[i]);
    }
    assert(u =~= m);
}

/// The text of one printed row: each entry's decimal notation followed by a
/// space.
pub open spec fn spec_row_text(row: Seq<i32>) -> Seq<char>
    decreases row.len(),
{
    if row.len() == 0 {
        Seq::<char>::empty()
    } else {
        spec_i32_string(row[0] as int) + seq![' '] + spec_row_text(row.skip(1))
    }
}

fn push_entry(line: &mut String, x: i32)
    ensures
        final(line)@ == old(line)@ + spec_i32_string(x as int) + seq![' '],
{
    let t = i32_to_string(x);
    line.append(t.as_str());
    crate::decimal::push_char(line, ' ');
    assert(line@ =~= old(line)@ + spec_i32_string(x as int) + seq![' ']);
}

/// The lines that the exercise prints for a matrix: one per row.
pub fn pretty_print(matrix: &[[i32; 3]; 3]) -> (r: Vec<String>)
    ensures
        r@.len() == 3,
        forall|i: int| 0 <= i < 3 ==> #[trigger] r@[i]@ == spec_row_text(matrix@[i]@),
{
    proof {
        broadcast use group_array_axioms;
    }
    let mut r: Vec<String> = Vec::new();
    let mut i: usize = 0;
    while i < 3
        invariant
            i <= 3,
            r@.len() == i,
            forall|k: int| 0 <= k < i ==> #[trigger] r@[k]@ == spec_row_text(matrix@[k]@),
        decreases 3 - i,
    {
        let row = &matrix[i];
        let mut line = String::new();
        push_entry(&mut line, row[0]);
        push_entry(&mut line, row[1]);
        push_entry(&mut line, row[2]);
        proof {
            broadcast use group_array_axioms;

            let rv = matrix@[i as int]@;
            assert(rv.len() == 3);
            let tail1 = rv.skip(1);
            let tail2 = tail1.skip(1);
            let tail3 = tail2.skip(1);
            assert(tail3 =~= Seq::<i32>::empty());
            assert(spec_row_text(tail3) == Seq::<char>::empty());
            assert(tail2[0] == rv[2] && tail2.len() == 1);
            assert(spec_row_text(tail2) == spec_i32_string(rv[2] as int) + seq![' ']
                + spec_row_text(tail3));
            assert(tail1[0] == rv[1] && tail1.len() == 2);
            assert(spec_row_text(tail1) == spec_i32_string(rv[1] as int) + seq![' ']
                + spec_row_text(tail2));
            assert(spec_row_text(rv) == spec_i32_string(rv[0] as int) + seq![' ']
                + spec_row_text(tail1));
            assert(line@ =~= spec_row_text(rv));
        }
        r.push(line);
        i = i + 1;
    }
    r
}

} // verus!
