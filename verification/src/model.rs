//! Exact-arithmetic semantics of the compute kernels.
//!
//! Each kernel's numeric effect is stated here over mathematical integers:
//! what the elementwise multiply, the two reduction stages, the DIA
//! matrix-vector product and the vector updates compute.  Reference
//! implementations over 64-bit integers are proved against these
//! definitions, so the reduction tree and the stride arithmetic are checked
//! exactly; the device's single-precision round-off is the one thing this
//! model leaves out.
use vstd::prelude::*;
use crate::kernels::saxpy_update_div::Operation;

verus! {

/// A sequence of machine integers, as mathematical integers.
pub open spec fn to_ints(s: Seq<i64>) -> Seq<int> {
    s.map(|_i: int, v: i64| v as int)
}

/// Every element lies in `[-bound, bound]`.
pub open spec fn all_bounded(s: Seq<int>, bound: int) -> bool {
    forall|i: int| 0 <= i < s.len() ==> -bound <= #[trigger] s[i] <= bound
}

/// The sum of a sequence.
pub open spec fn sum_seq(s: Seq<int>) -> int
    decreases s.len(),
{
    if s.len() == 0 {
        0
    } else {
        sum_seq(s.drop_last()) + s.last()
    }
}

/// Elementwise product of two equally long vectors.
pub open spec fn mul_pointwise(x: Seq<int>, y: Seq<int>) -> Seq<int> {
    Seq::new(x.len(), |i: int| x[i] * y[i])
}

/// The dot product `x . y`.
pub open spec fn dot_int(x: Seq<int>, y: Seq<int>) -> int {
    sum_seq(mul_pointwise(x, y))
}

/// The partial sums of the block reduction: each block of `b` consecutive
/// elements (the last one possibly shorter) reduced to its sum.
pub open spec fn block_sums(s: Seq<int>, b: int) -> Seq<int>
    decreases s.len(),
    when b >= 1
{
    if s.len() == 0 {
        Seq::empty()
    } else if s.len() <= b {
        seq![sum_seq(s)]
    } else {
        seq![sum_seq(s.take(b))] + block_sums(s.skip(b), b)
    }
}

/// The sum of a one-element sequence is its element.
pub proof fn lemma_sum_singleton(v: int)
    ensures
        sum_seq(seq![v]) == v,
{
    reveal_with_fuel(sum_seq, 2);
    assert(seq![v].drop_last() =~= Seq::<int>::empty());
    assert(sum_seq(seq![v].drop_last()) == 0);
}

/// Sums concatenate: `sum(a + b) == sum(a) + sum(b)`.
pub proof fn lemma_sum_append(a: Seq<int>, b: Seq<int>)
    ensures
        sum_seq(a + b) == sum_seq(a) + sum_seq(b),
    decreases b.len(),
{
    if b.len() == 0 {
        assert(a + b =~= a);
    } else {
        lemma_sum_append(a, b.drop_last());
        assert((a + b).drop_last() =~= a + b.drop_last());
    }
}

/// Splitting a sequence anywhere splits its sum.
pub proof fn lemma_sum_split(s: Seq<int>, k: int)
    requires
        0 <= k <= s.len(),
    ensures
        sum_seq(s) == sum_seq(s.take(k)) + sum_seq(s.skip(k)),
{
    assert(s =~= s.take(k) + s.skip(k));
    lemma_sum_append(s.take(k), s.skip(k));
}

/// The block reduction loses nothing: the partial sums of any block size
/// add up to the sum of the whole vector.
pub proof fn lemma_block_sums_total(s: Seq<int>, b: int)
    requires
        b >= 1,
    ensures
        sum_seq(block_sums(s, b)) == sum_seq(s),
    decreases s.len(),
{
    if s.len() == 0 {
        assert(sum_seq(block_sums(s, b)) == 0);
    } else if s.len() <= b {
        lemma_sum_singleton(sum_seq(s));
    } else {
        lemma_block_sums_total(s.skip(b), b);
        lemma_sum_split(s, b);
        lemma_sum_singleton(sum_seq(s.take(b)));
        lemma_sum_append(seq![sum_seq(s.take(b))], block_sums(s.skip(b), b));
    }
}

/// The three-stage dot-product pipeline is exact: multiplying elementwise,
/// reducing blocks of any size to partial sums, and summing the partial sums
/// yields exactly `x . y`.
pub proof fn lemma_dot_reduction_exact(x: Seq<int>, y: Seq<int>, b: int)
    requires
        b >= 1,
        x.len() == y.len(),
    ensures
        sum_seq(block_sums(mul_pointwise(x, y), b)) == dot_int(x, y),
{
    lemma_block_sums_total(mul_pointwise(x, y), b);
}

/// The contribution of diagonal `k` to row `i` of the DIA product `A * x`:
/// zero when the column `i + offsets[k]` falls outside the matrix.
pub open spec fn dia_term(
    data: Seq<int>,
    offsets: Seq<int>,
    num_rows: int,
    x: Seq<int>,
    i: int,
    k: int,
) -> int {
    let j = i + offsets[k];
    if 0 <= j < num_rows {
        data[k * num_rows + i] * x[j]
    } else {
        0
    }
}

/// The sum of the first `k` diagonal contributions to row `i`.
pub open spec fn dia_terms(
    data: Seq<int>,
    offsets: Seq<int>,
    num_rows: int,
    x: Seq<int>,
    i: int,
    k: int,
) -> int
    decreases k,
{
    if k <= 0 {
        0
    } else {
        dia_terms(data, offsets, num_rows, x, i, k - 1) + dia_term(
            data,
            offsets,
            num_rows,
            x,
            i,
            k - 1,
        )
    }
}

/// Row `i` of the DIA product: all stored diagonals contribute.
pub open spec fn spmv_row(
    data: Seq<int>,
    offsets: Seq<int>,
    num_rows: int,
    x: Seq<int>,
    i: int,
) -> int {
    dia_terms(data, offsets, num_rows, x, i, offsets.len() as int)
}

/// The DIA matrix-vector product `A * x`.
pub open spec fn spmv_spec(data: Seq<int>, offsets: Seq<int>, num_rows: int, x: Seq<int>) -> Seq<
    int,
> {
    Seq::new(num_rows as nat, |i: int| spmv_row(data, offsets, num_rows, x, i))
}

/// The diagonal values of the identity matrix in 5-diagonal storage: one on
/// the main diagonal (stored third), zero everywhere else.
pub open spec fn identity_dia_data(m: int) -> Seq<int> {
    Seq::new((5 * m) as nat, |idx: int| if 2 * m <= idx < 3 * m { 1int } else { 0int })
}

/// Multiplying by the 5-diagonal identity descriptor returns the input
/// vector exactly, whatever the size and whatever the off-diagonal offsets:
/// the off-diagonals hold zeros, so only the main diagonal contributes.
pub proof fn lemma_spmv_identity(offsets: Seq<int>, m: int, x: Seq<int>)
    requires
        offsets.len() == 5,
        offsets[2] == 0,
        m >= 0,
        x.len() == m,
    ensures
        spmv_spec(identity_dia_data(m), offsets, m, x) == x,
{
    let data = identity_dia_data(m);
    assert forall|i: int| 0 <= i < m implies spmv_row(data, offsets, m, x, i) == x[i] by {
        reveal_with_fuel(dia_terms, 6);
        assert(data[2 * m + i] == 1);
        assert(data[0 * m + i] == 0);
        assert(data[1 * m + i] == 0);
        assert(data[3 * m + i] == 0);
        assert(data[4 * m + i] == 0);
        assert(dia_term(data, offsets, m, x, i, 2) == x[i]);
        assert(dia_term(data, offsets, m, x, i, 0) == 0);
        assert(dia_term(data, offsets, m, x, i, 1) == 0);
        assert(dia_term(data, offsets, m, x, i, 3) == 0);
        assert(dia_term(data, offsets, m, x, i, 4) == 0);
    }
    assert(spmv_spec(data, offsets, m, x) =~= x);
}

/// Largest operand magnitude the dot-product reference accepts.
pub const MUL_OPERAND_BOUND: i64 = 0x40_0000;

/// Magnitude bound under which the block reduction cannot overflow.
pub const REDUCE_ELEMENT_BOUND: i64 = 0x2000_0000_0000;

/// Longest vector the reduction references accept.
pub const REDUCE_LENGTH_BOUND: usize = 0x1_0000;

/// Magnitude bound on the partial sums fed to the final reduction.
pub const FINAL_ELEMENT_BOUND: i64 = 0x20_0000_0000_0000;

/// Largest partial-sum count the final reduction accepts.
pub const FINAL_LENGTH_BOUND: usize = 0x200;

/// Reference for the elementwise-multiply stage: `r[i] = x[i] * y[i]`.
pub fn vec_mul_ref(x: &Vec<i64>, y: &Vec<i64>) -> (r: Vec<i64>)
    requires
        x@.len() == y@.len(),
        all_bounded(to_ints(x@), MUL_OPERAND_BOUND as int),
        all_bounded(to_ints(y@), MUL_OPERAND_BOUND as int),
    ensures
        to_ints(r@) == mul_pointwise(to_ints(x@), to_ints(y@)),
        all_bounded(to_ints(r@), MUL_OPERAND_BOUND as int * MUL_OPERAND_BOUND as int),
{
    let mut r: Vec<i64> = Vec::new();
    let mut i: usize = 0;
    while i < x.len()
        invariant
            0 <= i <= x@.len(),
            x@.len() == y@.len(),
            all_bounded(to_ints(x@), MUL_OPERAND_BOUND as int),
            all_bounded(to_ints(y@), MUL_OPERAND_BOUND as int),
            to_ints(r@) == mul_pointwise(to_ints(x@), to_ints(y@)).take(i as int),
            all_bounded(to_ints(r@), MUL_OPERAND_BOUND as int * MUL_OPERAND_BOUND as int),
        decreases x@.len() - i,
    {
        proof {
            assert(to_ints(x@)[i as int] == x@[i as int] as int);
            assert(to_ints(y@)[i as int] == y@[i as int] as int);
            assert(-(MUL_OPERAND_BOUND as int * MUL_OPERAND_BOUND as int)
                <= to_ints(x@)[i as int] * to_ints(y@)[i as int]
                <= MUL_OPERAND_BOUND as int * MUL_OPERAND_BOUND as int) by (nonlinear_arith)
                requires
                    -(MUL_OPERAND_BOUND as int) <= to_ints(x@)[i as int] <= MUL_OPERAND_BOUND as int,
                    -(MUL_OPERAND_BOUND as int) <= to_ints(y@)[i as int] <= MUL_OPERAND_BOUND as int;
        }
        let prod = x[i] * y[i];
        let ghost r_prev = r@;
        r.push(prod);
        proof {
            assert(to_ints(r@) =~= to_ints(r_prev).push(prod as int));
            assert(prod as int == to_ints(x@)[i as int] * to_ints(y@)[i as int]);
            assert(mul_pointwise(to_ints(x@), to_ints(y@)).take(i as int + 1) =~= mul_pointwise(
                to_ints(x@),
                to_ints(y@),
            ).take(i as int).push(to_ints(x@)[i as int] * to_ints(y@)[i as int]));
            assert(to_ints(r@) =~= mul_pointwise(to_ints(x@), to_ints(y@)).take(i as int + 1));
        }
        i += 1;
    }
    proof {
        assert(mul_pointwise(to_ints(x@), to_ints(y@)).take(x@.len() as int) =~= mul_pointwise(
            to_ints(x@),
            to_ints(y@),
        ));
    }
    r
}

/// Reference for the block sum-reduce stage: each block of `block`
/// consecutive elements is reduced to one partial sum.
pub fn block_sum_reduce_ref(v: &Vec<i64>, block: usize) -> (r: Vec<i64>)
    requires
        block >= 1,
        v@.len() <= REDUCE_LENGTH_BOUND,
        all_bounded(to_ints(v@), REDUCE_ELEMENT_BOUND as int),
    ensures
        to_ints(r@) == block_sums(to_ints(v@), block as int),
        all_bounded(to_ints(r@), block as int * REDUCE_ELEMENT_BOUND as int),
        r@.len() == 0 || (r@.len() as int - 1) * (block as int) < v@.len(),
{
    let full = Ghost(to_ints(v@));
    let mut r: Vec<i64> = Vec::new();
    let mut done: usize = 0;
    proof {
        assert(full@.skip(0) =~= full@);
        assert(to_ints(r@) + block_sums(full@, block as int) =~= block_sums(full@, block as int));
    }
    while done < v.len()
        invariant
            block >= 1,
            0 <= done <= v@.len(),
            v@.len() <= REDUCE_LENGTH_BOUND,
            full@ == to_ints(v@),
            all_bounded(full@, REDUCE_ELEMENT_BOUND as int),
            block_sums(full@, block as int) == to_ints(r@) + block_sums(
                full@.skip(done as int),
                block as int,
            ),
            all_bounded(to_ints(r@), block as int * REDUCE_ELEMENT_BOUND as int),
            done == v@.len() || done == (r@.len() as int) * (block as int),
            r@.len() == 0 || (r@.len() as int - 1) * (block as int) < v@.len(),
        decreases v@.len() - done,
    {
        let remaining = v.len() - done;
        let this_block = if remaining < block {
            remaining
        } else {
            block
        };
        let end = done + this_block;
        let mut acc: i64 = 0;
        let mut j: usize = done;
        while j < end
            invariant
                done <= j <= end <= v@.len(),
                v@.len() <= REDUCE_LENGTH_BOUND,
                this_block <= block,
                end == done + this_block,
                full@ == to_ints(v@),
                all_bounded(full@, REDUCE_ELEMENT_BOUND as int),
                acc == sum_seq(full@.subrange(done as int, j as int)),
                -((j - done) as int) * (REDUCE_ELEMENT_BOUND as int) <= acc
                    <= ((j - done) as int) * (REDUCE_ELEMENT_BOUND as int),
            decreases end - j,
        {
            proof {
                assert(full@.subrange(done as int, j as int + 1).drop_last() =~= full@.subrange(
                    done as int,
                    j as int,
                ));
                assert(full@[j as int] == v@[j as int] as int);
                assert(-(REDUCE_ELEMENT_BOUND as int) <= full@[j as int]
                    <= REDUCE_ELEMENT_BOUND as int);
                assert((((j - done) as int) + 1) * (REDUCE_ELEMENT_BOUND as int)
                    == ((j - done) as int) * (REDUCE_ELEMENT_BOUND as int)
                    + REDUCE_ELEMENT_BOUND as int) by (nonlinear_arith);
                assert(((j - done) as int) * (REDUCE_ELEMENT_BOUND as int)
                    <= 0x1_0000int * (REDUCE_ELEMENT_BOUND as int)) by (nonlinear_arith)
                    requires 0 <= (j - done) as int <= 0x1_0000;
            }
            acc = acc + v[j];
            j += 1;
        }
        let ghost r_prev = r@;
        r.push(acc);
        proof {
            assert(to_ints(r@) =~= to_ints(r_prev) + seq![acc as int]);
            assert((this_block as int) * (REDUCE_ELEMENT_BOUND as int)
                <= (block as int) * (REDUCE_ELEMENT_BOUND as int)) by (nonlinear_arith)
                requires 0 <= this_block <= block;
            assert forall|t: int| 0 <= t < to_ints(r@).len() implies -(block as int
                * REDUCE_ELEMENT_BOUND as int) <= #[trigger] to_ints(r@)[t] <= block as int
                * REDUCE_ELEMENT_BOUND as int by {
                if t < r_prev.len() {
                    assert(to_ints(r@)[t] == to_ints(r_prev)[t]);
                }
            }
            let rest = full@.skip(done as int);
            if rest.len() <= block as int {
                assert(rest =~= full@.subrange(done as int, end as int));
                assert(block_sums(rest, block as int) =~= seq![acc as int]);
                assert(full@.skip(end as int) =~= Seq::<int>::empty());
            } else {
                assert(rest.take(block as int) =~= full@.subrange(done as int, end as int));
                assert(rest.skip(block as int) =~= full@.skip(end as int));
            }
            assert(block_sums(full@, block as int) =~= to_ints(r@) + block_sums(
                full@.skip(end as int),
                block as int,
            ));
            // The blocks before the last are full, so the count of partial
            // sums stays the ceiling of the consumed length over the block size.
            assert((r@.len() as int - 1) * (block as int) == r_prev.len() as int * (block as int));
            if this_block == block {
                assert((r_prev.len() as int + 1) * (block as int) == r_prev.len() as int * (
                block as int) + block as int) by (nonlinear_arith);
            }
        }
        done = end;
    }
    proof {
        assert(full@.skip(v@.len() as int) =~= Seq::<int>::empty());
        assert(to_ints(r@) =~= to_ints(r@) + block_sums(Seq::<int>::empty(), block as int));
    }
    r
}

/// Reference for the final reduction stage: one workgroup sums all partial
/// sums into a single scalar.
pub fn sum_reduce_final_ref(v: &Vec<i64>) -> (r: i64)
    requires
        v@.len() <= FINAL_LENGTH_BOUND,
        all_bounded(to_ints(v@), FINAL_ELEMENT_BOUND as int),
    ensures
        r == sum_seq(to_ints(v@)),
{
    let mut acc: i64 = 0;
    let mut i: usize = 0;
    while i < v.len()
        invariant
            0 <= i <= v@.len(),
            v@.len() <= FINAL_LENGTH_BOUND,
            all_bounded(to_ints(v@), FINAL_ELEMENT_BOUND as int),
            acc == sum_seq(to_ints(v@).take(i as int)),
            -(i as int) * (FINAL_ELEMENT_BOUND as int) <= acc <= (i as int) * (
            FINAL_ELEMENT_BOUND as int),
        decreases v@.len() - i,
    {
        proof {
            assert(to_ints(v@).take(i as int + 1).drop_last() =~= to_ints(v@).take(i as int));
            assert(to_ints(v@)[i as int] == v@[i as int] as int);
            assert(-(FINAL_ELEMENT_BOUND as int) <= to_ints(v@)[i as int]
                <= FINAL_ELEMENT_BOUND as int);
            assert(((i as int) + 1) * (FINAL_ELEMENT_BOUND as int) == (i as int) * (
            FINAL_ELEMENT_BOUND as int) + FINAL_ELEMENT_BOUND as int) by (nonlinear_arith);
            assert((i as int) * (FINAL_ELEMENT_BOUND as int) <= 0x200int * (
            FINAL_ELEMENT_BOUND as int)) by (nonlinear_arith)
                requires 0 <= i as int <= 0x200;
        }
        acc = acc + v[i];
        i += 1;
    }
    proof {
        assert(to_ints(v@).take(v@.len() as int) =~= to_ints(v@));
    }
    acc
}

/// Reference for the whole dot-product kernel: the three reduction stages
/// chained with the block size the device uses, proved equal to `x . y`.
pub fn dot_product_ref(x: &Vec<i64>, y: &Vec<i64>) -> (r: i64)
    requires
        x@.len() == y@.len(),
        x@.len() <= REDUCE_LENGTH_BOUND,
        all_bounded(to_ints(x@), MUL_OPERAND_BOUND as int),
        all_bounded(to_ints(y@), MUL_OPERAND_BOUND as int),
    ensures
        r == dot_int(to_ints(x@), to_ints(y@)),
{
    let tmp0 = vec_mul_ref(x, y);
    proof {
        assert(to_ints(tmp0@).len() == tmp0@.len());
        assert(mul_pointwise(to_ints(x@), to_ints(y@)).len() == to_ints(x@).len());
        assert(tmp0@.len() == x@.len());
        assert(all_bounded(to_ints(tmp0@), REDUCE_ELEMENT_BOUND as int));
    }
    let tmp1 = block_sum_reduce_ref(&tmp0, 256);
    proof {
        assert(tmp1@.len() <= FINAL_LENGTH_BOUND);
        assert(all_bounded(to_ints(tmp1@), FINAL_ELEMENT_BOUND as int));
    }
    let out = sum_reduce_final_ref(&tmp1);
    proof {
        lemma_dot_reduction_exact(to_ints(x@), to_ints(y@), 256);
    }
    out
}

/// Largest matrix or vector entry magnitude the SpMV reference accepts.
pub const SPMV_VALUE_BOUND: i64 = 0x2000_0000;

/// Largest diagonal count the SpMV reference accepts.
pub const SPMV_DIAG_BOUND: usize = 8;

/// Largest row count the SpMV reference accepts.
pub const SPMV_ROW_BOUND: usize = 0x4000_0000;

/// Reference for the SpMV kernel: row `i` of `r` is the sum over the stored
/// diagonals of `data[k * num_rows + i] * x[i + offsets[k]]`, with
/// out-of-range columns contributing zero thanks to the zero-padding laid
/// down at construction.
pub fn spmv_ref(data: &Vec<i64>, offsets: &Vec<i64>, num_rows: usize, x: &Vec<i64>) -> (r: Vec<
    i64,
>)
    requires
        offsets@.len() <= SPMV_DIAG_BOUND,
        num_rows <= SPMV_ROW_BOUND,
        data@.len() == offsets@.len() * num_rows,
        x@.len() == num_rows,
        all_bounded(to_ints(data@), SPMV_VALUE_BOUND as int),
        all_bounded(to_ints(x@), SPMV_VALUE_BOUND as int),
        all_bounded(to_ints(offsets@), SPMV_ROW_BOUND as int),
    ensures
        to_ints(r@) == spmv_spec(to_ints(data@), to_ints(offsets@), num_rows as int, to_ints(x@)),
{
    let ghost gdata = to_ints(data@);
    let ghost goffs = to_ints(offsets@);
    let ghost gx = to_ints(x@);
    let mut r: Vec<i64> = Vec::new();
    let mut i: usize = 0;
    while i < num_rows
        invariant
            0 <= i <= num_rows,
            offsets@.len() <= SPMV_DIAG_BOUND,
            num_rows <= SPMV_ROW_BOUND,
            data@.len() == offsets@.len() * num_rows,
            x@.len() == num_rows,
            gdata == to_ints(data@),
            goffs == to_ints(offsets@),
            gx == to_ints(x@),
            all_bounded(gdata, SPMV_VALUE_BOUND as int),
            all_bounded(gx, SPMV_VALUE_BOUND as int),
            all_bounded(goffs, SPMV_ROW_BOUND as int),
            r@.len() == i,
            forall|t: int| 0 <= t < i ==> #[trigger] to_ints(r@)[t] == spmv_row(
                gdata,
                goffs,
                num_rows as int,
                gx,
                t,
            ),
        decreases num_rows - i,
    {
        let mut acc: i64 = 0;
        let mut k: usize = 0;
        while k < offsets.len()
            invariant
                0 <= k <= offsets@.len(),
                0 <= i < num_rows,
                offsets@.len() <= SPMV_DIAG_BOUND,
                num_rows <= SPMV_ROW_BOUND,
                data@.len() == offsets@.len() * num_rows,
                x@.len() == num_rows,
                gdata == to_ints(data@),
                goffs == to_ints(offsets@),
                gx == to_ints(x@),
                all_bounded(gdata, SPMV_VALUE_BOUND as int),
                all_bounded(gx, SPMV_VALUE_BOUND as int),
                all_bounded(goffs, SPMV_ROW_BOUND as int),
                acc == dia_terms(gdata, goffs, num_rows as int, gx, i as int, k as int),
                -(k as int) * 0x400_0000_0000_0000 <= acc <= (k as int) * 0x400_0000_0000_0000,
            decreases offsets@.len() - k,
        {
            proof {
                assert(goffs[k as int] == offsets@[k as int] as int);
                assert(-(SPMV_ROW_BOUND as int) <= goffs[k as int] <= SPMV_ROW_BOUND as int);
            }
            let off = offsets[k];
            let j = i as i64 + off;
            if 0 <= j && j < num_rows as i64 {
                proof {
                    assert((k as int * num_rows as int + i as int) < offsets@.len() as int
                        * num_rows as int) by (nonlinear_arith)
                        requires 0 <= k < offsets@.len(), 0 <= i < num_rows;
                    assert(0 <= k as int * num_rows as int + i as int) by (nonlinear_arith)
                        requires 0 <= k, 0 <= i;
                    assert(k as int * num_rows as int + i as int <= data@.len());
                    vstd::std_specs::vec::axiom_spec_len(data);
                }
                let idx = k * num_rows + i;
                proof {
                    assert(gdata[idx as int] == data@[idx as int] as int);
                    assert(gx[j as int] == x@[j as int] as int);
                    assert(-(SPMV_VALUE_BOUND as int) <= gdata[idx as int]
                        <= SPMV_VALUE_BOUND as int);
                    assert(-(SPMV_VALUE_BOUND as int) <= gx[j as int] <= SPMV_VALUE_BOUND as int);
                    assert(-0x400_0000_0000_0000 <= gdata[idx as int] * gx[j as int]
                        <= 0x400_0000_0000_0000) by (nonlinear_arith)
                        requires
                            -0x2000_0000 <= gdata[idx as int] <= 0x2000_0000,
                            -0x2000_0000 <= gx[j as int] <= 0x2000_0000;
                    assert(((k as int) + 1) * 0x400_0000_0000_0000int == (k as int)
                        * 0x400_0000_0000_0000 + 0x400_0000_0000_0000) by (nonlinear_arith);
                }
                let prod = data[idx] * x[j as usize];
                acc = acc + prod;
                proof {
                    assert(dia_term(gdata, goffs, num_rows as int, gx, i as int, k as int)
                        == gdata[k as int * num_rows as int + i as int] * gx[i as int + goffs[
                        k as int]]);
                }
            } else {
                proof {
                    assert(dia_term(gdata, goffs, num_rows as int, gx, i as int, k as int) == 0);
                    assert(((k as int) + 1) * 0x400_0000_0000_0000int == (k as int)
                        * 0x400_0000_0000_0000 + 0x400_0000_0000_0000) by (nonlinear_arith);
                }
            }
            k += 1;
        }
        let ghost r_prev = r@;
        r.push(acc);
        proof {
            assert forall|t: int| 0 <= t < i as int + 1 implies #[trigger] to_ints(r@)[t]
                == spmv_row(gdata, goffs, num_rows as int, gx, t) by {
                assert(to_ints(r@)[t] == r@[t] as int);
                if t < i as int {
                    assert(r@[t] == r_prev[t]);
                    assert(to_ints(r_prev)[t] == r_prev[t] as int);
                } else {
                    assert(r@[t] == acc);
                }
            }
        }
        i += 1;
    }
    proof {
        assert(to_ints(r@) =~= spmv_spec(gdata, goffs, num_rows as int, gx));
    }
    r
}

/// Largest vector-element magnitude the update references accept.
pub const UPDATE_VALUE_BOUND: i64 = 0x1000_0000_0000_0000;

/// Largest scalar magnitude the scaled-ratio reference accepts.
pub const RATIO_SCALAR_BOUND: i64 = 0x4000_0000;

/// Reference for the plain update kernel: `y[i] = x[i] - y[i]`, used to
/// initialize the residual `r = b - A * x0`.
pub fn saxpy_update_ref(x: &Vec<i64>, y: &mut Vec<i64>)
    requires
        x@.len() == old(y)@.len(),
        all_bounded(to_ints(x@), UPDATE_VALUE_BOUND as int),
        all_bounded(to_ints(old(y)@), UPDATE_VALUE_BOUND as int),
    ensures
        to_ints(final(y)@) == Seq::new(
            x@.len(),
            |i: int| to_ints(x@)[i] - to_ints(old(y)@)[i],
        ),
{
    let mut i: usize = 0;
    while i < x.len()
        invariant
            0 <= i <= x@.len(),
            x@.len() == y@.len(),
            x@.len() == old(y)@.len(),
            all_bounded(to_ints(x@), UPDATE_VALUE_BOUND as int),
            all_bounded(to_ints(old(y)@), UPDATE_VALUE_BOUND as int),
            forall|t: int| 0 <= t < i ==> to_ints(y@)[t] == to_ints(x@)[t] - to_ints(old(y)@)[t],
            forall|t: int| i <= t < y@.len() ==> y@[t] == old(y)@[t],
        decreases x@.len() - i,
    {
        proof {
            assert(to_ints(x@)[i as int] == x@[i as int] as int);
            assert(to_ints(old(y)@)[i as int] == old(y)@[i as int] as int);
            assert(-(UPDATE_VALUE_BOUND as int) <= to_ints(x@)[i as int]
                <= UPDATE_VALUE_BOUND as int);
            assert(-(UPDATE_VALUE_BOUND as int) <= to_ints(old(y)@)[i as int]
                <= UPDATE_VALUE_BOUND as int);
        }
        let t = x[i] - y[i];
        let ghost y_prev = y@;
        y[i] = t;
        proof {
            assert forall|w: int| 0 <= w < i as int + 1 implies #[trigger] to_ints(y@)[w]
                == to_ints(x@)[w] - to_ints(old(y)@)[w] by {
                assert(to_ints(y@)[w] == y@[w] as int);
                if w < i as int {
                    assert(y@[w] == y_prev[w]);
                    assert(to_ints(y_prev)[w] == y_prev[w] as int);
                    assert(to_ints(y_prev)[w] == to_ints(x@)[w] - to_ints(old(y)@)[w]);
                } else {
                    assert(y@[w] == t);
                }
            }
            assert forall|w: int| i as int + 1 <= w < y@.len() implies #[trigger] y@[w]
                == old(y)@[w] by {
                assert(y@[w] == y_prev[w]);
            }
        }
        i += 1;
    }
    proof {
        assert(to_ints(y@) =~= Seq::new(x@.len(), |i: int| to_ints(x@)[i] - to_ints(old(y)@)[i]));
    }
}

/// The value the scaled-ratio update gives element `i`:
/// `yi OP (a1 / a2) * xi`, with the ratio applied as one exact division of
/// the product.
pub open spec fn scaled_ratio_value(a1: int, a2: int, xi: int, yi: int, op: Operation) -> int {
    let scaled = (a1 * xi) / a2;
    match op {
        Operation::Add => yi + scaled,
        Operation::Sub => yi - scaled,
    }
}

/// Reference for the scaled-ratio update kernel:
/// `y[i] = y[i] OP (a1 / a2) * x[i]`, on ratios that divide each product
/// exactly, so that the update is exact in integers.
pub fn saxpy_update_div_ref(a1: i64, a2: i64, x: &Vec<i64>, y: &mut Vec<i64>, op: Operation)
    requires
        1 <= a2 <= RATIO_SCALAR_BOUND,
        -(RATIO_SCALAR_BOUND as int) <= a1 <= RATIO_SCALAR_BOUND as int,
        x@.len() == old(y)@.len(),
        all_bounded(to_ints(x@), RATIO_SCALAR_BOUND as int),
        all_bounded(to_ints(old(y)@), UPDATE_VALUE_BOUND as int),
        forall|i: int| 0 <= i < x@.len()
            ==> (a1 as int * #[trigger] to_ints(x@)[i]) % (a2 as int) == 0,
    ensures
        to_ints(final(y)@) == Seq::new(
            x@.len(),
            |i: int| scaled_ratio_value(
                a1 as int,
                a2 as int,
                to_ints(x@)[i],
                to_ints(old(y)@)[i],
                op,
            ),
        ),
{
    let mut i: usize = 0;
    while i < x.len()
        invariant
            0 <= i <= x@.len(),
            x@.len() == y@.len(),
            x@.len() == old(y)@.len(),
            1 <= a2 <= RATIO_SCALAR_BOUND,
            -(RATIO_SCALAR_BOUND as int) <= a1 <= RATIO_SCALAR_BOUND as int,
            all_bounded(to_ints(x@), RATIO_SCALAR_BOUND as int),
            all_bounded(to_ints(old(y)@), UPDATE_VALUE_BOUND as int),
            forall|t: int| 0 <= t < x@.len()
                ==> (a1 as int * #[trigger] to_ints(x@)[t]) % (a2 as int) == 0,
            forall|t: int| 0 <= t < i ==> to_ints(y@)[t] == scaled_ratio_value(
                a1 as int,
                a2 as int,
                to_ints(x@)[t],
                to_ints(old(y)@)[t],
                op,
            ),
            forall|t: int| i <= t < y@.len() ==> y@[t] == old(y)@[t],
        decreases x@.len() - i,
    {
        proof {
            assert(to_ints(x@)[i as int] == x@[i as int] as int);
            assert(to_ints(old(y)@)[i as int] == old(y)@[i as int] as int);
            assert(-(RATIO_SCALAR_BOUND as int) <= to_ints(x@)[i as int]
                <= RATIO_SCALAR_BOUND as int);
            assert(-(UPDATE_VALUE_BOUND as int) <= to_ints(old(y)@)[i as int]
                <= UPDATE_VALUE_BOUND as int);
            assert(-(UPDATE_VALUE_BOUND as int) <= a1 as int * to_ints(x@)[i as int]
                <= UPDATE_VALUE_BOUND as int) by (nonlinear_arith)
                requires
                    -(RATIO_SCALAR_BOUND as int) <= a1 as int <= RATIO_SCALAR_BOUND as int,
                    -(RATIO_SCALAR_BOUND as int) <= to_ints(x@)[i as int]
                        <= RATIO_SCALAR_BOUND as int;
        }
        let t = a1 * x[i];
        let d = exact_div(t, a2);
        proof {
            assert((a1 as int * to_ints(x@)[i as int]) % (a2 as int) == 0);
        }
        let yi = y[i];
        let upd = match op {
            Operation::Add => yi + d,
            Operation::Sub => yi - d,
        };
        let ghost y_prev = y@;
        y[i] = upd;
        proof {
            assert forall|w: int| 0 <= w < i as int + 1 implies #[trigger] to_ints(y@)[w]
                == scaled_ratio_value(
                a1 as int,
                a2 as int,
                to_ints(x@)[w],
                to_ints(old(y)@)[w],
                op,
            ) by {
                assert(to_ints(y@)[w] == y@[w] as int);
                if w < i as int {
                    assert(y@[w] == y_prev[w]);
                    assert(to_ints(y_prev)[w] == y_prev[w] as int);
                    assert(to_ints(y_prev)[w] == scaled_ratio_value(
                        a1 as int,
                        a2 as int,
                        to_ints(x@)[w],
                        to_ints(old(y)@)[w],
                        op,
                    ));
                } else {
                    assert(y@[w] == upd);
                    assert(y_prev[w] == old(y)@[w]);
                }
            }
            assert forall|w: int| i as int + 1 <= w < y@.len() implies #[trigger] y@[w]
                == old(y)@[w] by {
                assert(y@[w] == y_prev[w]);
            }
        }
        i += 1;
    }
    proof {
        assert(to_ints(y@) =~= Seq::new(
            x@.len(),
            |i: int| scaled_ratio_value(
                a1 as int,
                a2 as int,
                to_ints(x@)[i],
                to_ints(old(y)@)[i],
                op,
            ),
        ));
    }
}

/// Exact division of a bounded dividend by a positive divisor, computed on
/// magnitudes.
fn exact_div(t: i64, d: i64) -> (q: i64)
    requires
        1 <= d,
        -(UPDATE_VALUE_BOUND as int) <= t <= UPDATE_VALUE_BOUND as int,
        (t as int) % (d as int) == 0,
    ensures
        q == t as int / d as int,
        -(UPDATE_VALUE_BOUND as int) <= q <= UPDATE_VALUE_BOUND as int,
{
    proof {
        vstd::arithmetic::div_mod::lemma_fundamental_div_mod(t as int, d as int);
        assert(t as int == d as int * (t as int / d as int));
        assert(-(UPDATE_VALUE_BOUND as int) <= t as int / d as int
            <= UPDATE_VALUE_BOUND as int) by (nonlinear_arith)
            requires
                t as int == d as int * (t as int / d as int),
                1 <= d as int,
                -(UPDATE_VALUE_BOUND as int) <= t as int <= UPDATE_VALUE_BOUND as int;
    }
    if t < 0 {
        let mag = (-t) as u64;
        let qm = mag / (d as u64);
        proof {
            let q = t as int / d as int;
            assert(mag as int == d as int * (-q)) by (nonlinear_arith)
                requires t as int == d as int * q, mag as int == -(t as int);
            vstd::arithmetic::div_mod::lemma_div_multiples_vanish(-q, d as int);
            assert(qm as int == -q);
        }
        -(qm as i64)
    } else {
        let qm = (t as u64) / (d as u64);
        proof {
            let q = t as int / d as int;
            assert(t as int == d as int * q);
            vstd::arithmetic::div_mod::lemma_div_multiples_vanish(q, d as int);
            assert(qm as int == q);
        }
        qm as i64
    }
}

} // verus!
