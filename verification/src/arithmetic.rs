//! Two small computations on integers.

use vstd::prelude::*;

verus! {

/// The product of the numbers from 1 to `n`.
pub open spec fn product_up_to(n: nat) -> nat
    decreases n,
{
    if n == 0 {
        1
    } else {
        n * product_up_to((n - 1) as nat)
    }
}

/// The product grows with `n`, and is never zero.
pub proof fn lemma_product_grows(m: nat, n: nat)
    requires
        m <= n,
    ensures
        1 <= product_up_to(m) <= product_up_to(n),
    decreases n,
{
    if m < n {
        lemma_product_grows(m, (n - 1) as nat);
        assert(product_up_to((n - 1) as nat) <= n * product_up_to((n - 1) as nat))
            by (nonlinear_arith)
            requires
                n >= 1,
        ;
    } else if n > 0 {
        lemma_product_grows((n - 1) as nat, (n - 1) as nat);
        assert(1 <= n * product_up_to((n - 1) as nat)) by (nonlinear_arith)
            requires
                n >= 1,
                product_up_to((n - 1) as nat) >= 1,
        ;
    }
}

/// The factorials that fit in 32 bits are those of the numbers up to 12.
pub proof fn lemma_factorial_fits(n: nat)
    ensures
        n <= 12 <==> product_up_to(n) <= u32::MAX,
{
    reveal_with_fuel(product_up_to, 14);
    assert(product_up_to(12) == 479001600);
    assert(product_up_to(13) == 6227020800);
    if n <= 12 {
        lemma_product_grows(n, 12);
    } else {
        lemma_product_grows(13, n);
    }
}

/// The factorial of `n`, for the `n` whose factorial fits in 32 bits.
pub fn factorial(n: u32) -> (product: u32)
    requires
        n <= 12,
    ensures
        product == product_up_to(n as nat),
{
    let mut i: u32 = n;
    let mut sum: u32 = 1;
    proof {
        lemma_factorial_fits(n as nat);
    }
    while i > 0
        invariant
            i <= n,
            sum * product_up_to(i as nat) == product_up_to(n as nat),
            product_up_to(n as nat) <= u32::MAX,
        decreases i,
    {
        proof {
            let rest = product_up_to((i - 1) as nat);
            lemma_product_grows(0, (i - 1) as nat);
            assert(sum * (i * rest) == (sum * i) * rest) by (nonlinear_arith);
            assert(sum * i <= (sum * i) * rest) by (nonlinear_arith)
                requires
                    rest >= 1,
                    sum * i >= 0,
            ;
        }
        sum = sum * i;
        i = i - 1;
    }
    assert(sum * product_up_to(i as nat) == sum) by (nonlinear_arith)
        requires
            product_up_to(i as nat) == 1,
    ;
    sum
}

/// The sum of the values.
pub open spec fn total(values: Seq<i32>) -> int
    decreases values.len(),
{
    if values.len() == 0 {
        0
    } else {
        total(values.drop_last()) + values.last()
    }
}

/// The sum of a sequence is the sum of its front part and of its back part,
/// wherever it is cut.
pub proof fn lemma_total_of_parts(values: Seq<i32>, cut: int)
    requires
        0 <= cut <= values.len(),
    ensures
        total(values) == total(values.take(cut)) + total(values.skip(cut)),
    decreases values.len(),
{
    if cut == values.len() {
        assert(values.take(cut) =~= values);
        assert(values.skip(cut) =~= Seq::<i32>::empty());
    } else {
        let front = values.drop_last();
        lemma_total_of_parts(front, cut);
        assert(front.take(cut) =~= values.take(cut));
        assert(front.skip(cut) =~= values.skip(cut).drop_last());
        assert(values.skip(cut).last() == values.last());
    }
}

/// The sum of the values from position `from` up to position `to`, which is
/// the share of one worker. It is computed in 128 bits, where no slice can
/// make it overflow.
pub fn range_sum(slice: &[i32], from: usize, to: usize) -> (sum: i128)
    requires
        from <= to <= slice.len(),
    ensures
        sum == total(slice@.subrange(from as int, to as int)),
{
    let mut sum: i128 = 0;
    let mut i: usize = from;
    while i < to
        invariant
            from <= i <= to <= slice.len(),
            sum == total(slice@.subrange(from as int, i as int)),
            -(i - from) * 0x8000_0000 <= sum <= (i - from) * 0x8000_0000,
        decreases to - i,
    {
        let ghost done = slice@.subrange(from as int, i as int);
        let ghost more = slice@.subrange(from as int, i + 1);
        assert(more.drop_last() =~= done);
        assert(more.last() == slice@[i as int]);
        sum = sum + slice[i] as i128;
        i = i + 1;
    }
    sum
}

/// The sum of the values of a slice. The slice is cut in two halves, each
/// half is summed by itself, and the two sums are added.
pub fn sum(slice: &[i32]) -> (result: i32)
    requires
        i32::MIN <= total(slice@) <= i32::MAX,
    ensures
        result == total(slice@),
{
    let cut = slice.len() / 2;
    let front = range_sum(slice, 0, cut);
    let back = range_sum(slice, cut, slice.len());
    proof {
        lemma_total_of_parts(slice@, cut as int);
        assert(slice@.take(cut as int) =~= slice@.subrange(0, cut as int));
        assert(slice@.skip(cut as int) =~= slice@.subrange(cut as int, slice.len() as int));
    }
    (front + back) as i32
}

} // verus!
