use vstd::prelude::*;
use crate::error::DotProductError;
use crate::gpu::DotProductGPU;

verus! {

/// The product of two words, reduced modulo 2^32.
pub open spec fn word_product(a: u32, b: u32) -> u32 {
    ((a as int * b as int) % 0x1_0000_0000) as u32
}

/// The elementwise product of two sequences of words: as long as `v`, and at
/// each position the product of the two words there, reduced modulo 2^32.
pub open spec fn elementwise_product(v: Seq<u32>, w: Seq<u32>) -> Seq<u32>
    recommends
        v.len() == w.len(),
{
    Seq::new(v.len(), |i: int| word_product(v[i], w[i]))
}

/// Whether `result` is what is owed for the inputs `v` and `w`: their
/// elementwise product if they are equally long, else the error that names
/// the two lengths.
pub open spec fn is_product_of(
    result: Result<Vec<u32>, DotProductError>,
    v: Seq<u32>,
    w: Seq<u32>,
) -> bool {
    if v.len() == w.len() {
        result matches Ok(product) && product@ == elementwise_product(v, w)
    } else {
        result == Err::<Vec<u32>, DotProductError>(
            DotProductError::LengthMismatch { left: v.len() as usize, right: w.len() as usize },
        )
    }
}

/// A product that fits in a word is not changed by the reduction.
pub proof fn lemma_word_product_exact(a: u32, b: u32)
    requires
        a * b <= u32::MAX,
    ensures
        word_product(a, b) == a * b,
{
    assert(0 <= a as int * b as int) by (nonlinear_arith)
        requires
            0 <= a as int,
            0 <= b as int,
    ;
}

/// The order of the two factors does not matter.
pub proof fn lemma_word_product_commutes(a: u32, b: u32)
    ensures
        word_product(a, b) == word_product(b, a),
{
    assert(a as int * b as int == b as int * a as int) by (nonlinear_arith);
}

/// Wherever the product of the two words fits in a word, the elementwise
/// product holds that very product.
pub proof fn lemma_elementwise_product_exact(v: Seq<u32>, w: Seq<u32>, i: int)
    requires
        0 <= i < v.len(),
        v[i] * w[i] <= u32::MAX,
    ensures
        elementwise_product(v, w)[i] == v[i] * w[i],
{
    lemma_word_product_exact(v[i], w[i]);
}

/// The elementwise product of equally long sequences does not depend on
/// their order.
pub proof fn lemma_elementwise_product_commutes(v: Seq<u32>, w: Seq<u32>)
    requires
        v.len() == w.len(),
    ensures
        elementwise_product(v, w) == elementwise_product(w, v),
{
    assert forall|i: int| 0 <= i < v.len() implies #[trigger] elementwise_product(v, w)[i]
        == elementwise_product(w, v)[i] by {
        lemma_word_product_commutes(v[i], w[i]);
    }
    assert(elementwise_product(v, w) =~= elementwise_product(w, v));
}

/// A strategy that computes the elementwise product of two sequences of words.
pub trait DotProduct {
    /// Computes the elementwise product of `v` and `w`.
    ///
    /// Every strategy rejects inputs of different lengths, and what it
    /// returns otherwise is their elementwise product, which is as long as
    /// they are. A strategy may fail for reasons of its own.
    fn execute(&self, v: &[u32], w: &[u32]) -> (result: Result<Vec<u32>, DotProductError>)
        ensures
            v@.len() != w@.len() ==> result is Err,
            result matches Ok(product) ==> product@ == elementwise_product(v@, w@),
            result matches Ok(product) ==> product@.len() == v@.len(),
    ;
}

/// One of the two strategies.
#[derive(Debug, Clone, Copy, PartialEq, Eq)]
pub enum Strategy {
    /// Compute on the CPU.
    Cpu(DotProductCPU),
    /// Compute on the system's default compute device.
    Gpu(DotProductGPU),
}

/// Chooses the strategy: the CPU if `use_cpu`, else the compute device.
pub fn new(use_cpu: bool) -> (strategy: Strategy)
    ensures
        use_cpu ==> strategy == Strategy::Cpu(DotProductCPU {}),
        !use_cpu ==> strategy == Strategy::Gpu(DotProductGPU {}),
{
    if use_cpu {
        Strategy::Cpu(DotProductCPU::new())
    } else {
        Strategy::Gpu(DotProductGPU::new())
    }
}

/// The strategy that computes on the CPU.
#[derive(Debug, Clone, Copy, PartialEq, Eq)]
pub struct DotProductCPU {}

impl DotProductCPU {
    /// Creates the CPU strategy.
    pub fn new() -> (cpu: DotProductCPU)
        ensures
            cpu == (DotProductCPU {}),
    {
        DotProductCPU {}
    }
}

impl DotProduct for DotProductCPU {
    /// Computes the elementwise product of `v` and `w` word by word.
    ///
    /// Succeeds exactly when the inputs are equally long, whatever the words:
    /// a product that does not fit in a word is reduced modulo 2^32.
    fn execute(&self, v: &[u32], w: &[u32]) -> (result: Result<Vec<u32>, DotProductError>)
        ensures
            is_product_of(result, v@, w@),
    {
        if v.len() != w.len() {
            return Err(DotProductError::LengthMismatch { left: v.len(), right: w.len() });
        }
        let mut product: Vec<u32> = Vec::new();
        let mut i: usize = 0;
        while i < v.len()
            invariant
                v@.len() == w@.len(),
                i <= v@.len(),
                product@.len() == i,
                forall|j: int| 0 <= j < i ==> product@[j] == word_product(v@[j], w@[j]),
            decreases v@.len() - i,
        {
            product.push(v[i].wrapping_mul(w[i]));
            i = i + 1;
        }
        assert(product@ =~= elementwise_product(v@, w@));
        Ok(product)
    }
}

} // verus!
