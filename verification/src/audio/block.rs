use vstd::prelude::*;

verus! {

/// Samples in one waveform column.
pub const WAVEFORM_BLOCK_LENGTH: usize = 280;

/// Samples in one loudness block (a tenth of a second at 48 kHz).
pub const PEAK_BLOCK_LENGTH: usize = 4800;

/// Samples between two vectorscope points.
pub const VECTOR_BLOCK_LENGTH: usize = 1;

/// Counts one more sample into a block of `block_length` samples of which
/// `index` are counted: returns the new count and whether the block is now
/// complete, in which case the count starts again at zero.
pub fn count_sample(index: usize, block_length: usize) -> (res: (usize, bool))
    requires
        index < block_length,
    ensures
        res.1 == (index + 1 == block_length),
        res.0 == (if res.1 { 0 } else { index + 1 }),
{
    let next = index + 1;
    if next >= block_length {
        (0, true)
    } else {
        (next, false)
    }
}

/// The count after `n` samples, starting from zero.
pub open spec fn count_after(n: nat, block_length: nat) -> nat
    decreases n,
{
    if n == 0 {
        0
    } else {
        let c = count_after((n - 1) as nat, block_length);
        if c + 1 == block_length {
            0
        } else {
            (c + 1) as nat
        }
    }
}

/// Counting from zero, the count after `n` samples is `n % block_length`:
/// a block completes exactly at every multiple of `block_length` samples.
pub proof fn law_blocks_complete_every_block_length(n: nat, block_length: nat)
    requires
        block_length > 0,
    ensures
        count_after(n, block_length) == n % block_length,
        WAVEFORM_BLOCK_LENGTH == 280 && PEAK_BLOCK_LENGTH == 4800 && VECTOR_BLOCK_LENGTH == 1,
    decreases n,
{
    if n > 0 {
        law_blocks_complete_every_block_length((n - 1) as nat, block_length);
        let b = block_length as int;
        let p = n - 1;
        let q = p / b;
        let c = p % b;
        vstd::arithmetic::div_mod::lemma_fundamental_div_mod(p, b);
        assert(0 <= c < b);
        if c + 1 == b {
            assert(n == (q + 1) * b) by (nonlinear_arith)
                requires
                    p == b * q + c,
                    c + 1 == b,
                    n == p + 1,
            ;
            vstd::arithmetic::div_mod::lemma_fundamental_div_mod_converse(n as int, b, q + 1, 0);
            assert((n as int) % b == 0);
        } else {
            vstd::arithmetic::div_mod::lemma_fundamental_div_mod_converse(n as int, b, q, c + 1);
            assert((n as int) % b == c + 1);
        }
        assert(count_after((n - 1) as nat, block_length) == c);
        assert(n % block_length == (n as int) % b);
        assert(count_after(n, block_length) == (if c + 1 == b { 0 } else { c + 1 }));
    } else {
        assert(0nat % block_length == 0) by (nonlinear_arith)
            requires
                block_length > 0,
        ;
    }
}

} // verus!
