use vstd::prelude::*;

use crate::errors::EngineError;

verus! {

/// An ordered vector of fixed-point genes.  The order is semantically
/// significant — it encodes neuron bias and weight positions — and no
/// operation of this type reorders it.
#[derive(Clone, Debug, PartialEq)]
pub struct Chromosome {
    pub genes: Vec<i32>,
}

impl View for Chromosome {
    type V = Seq<i32>;

    open spec fn view(&self) -> Seq<i32> {
        self.genes@
    }
}

impl Chromosome {
    /// Wraps an ordered vector of genes, preserving its order exactly.
    pub fn from_genes(genes: Vec<i32>) -> (r: Chromosome)
        ensures
            r@ == genes@,
    {
        Chromosome { genes }
    }

    /// How many genes the chromosome holds.
    pub fn len(&self) -> (r: usize)
        ensures
            r == self@.len(),
    {
        self.genes.len()
    }

    /// Whether the chromosome holds no genes.
    pub fn is_empty(&self) -> (r: bool)
        ensures
            r == (self@.len() == 0),
    {
        self.genes.len() == 0
    }

    /// The gene at `index`, or `IndexOutOfRange` past the end.
    pub fn gene(&self, index: usize) -> (r: Result<i32, EngineError>)
        ensures
            index < self@.len() ==> r == Ok::<i32, EngineError>(self@[index as int]),
            index >= self@.len() ==> r == Err::<i32, EngineError>(EngineError::IndexOutOfRange),
    {
        if index < self.genes.len() {
            Ok(self.genes[index])
        } else {
            Err(EngineError::IndexOutOfRange)
        }
    }

    /// The genes, in order, as a slice.
    pub fn as_slice(&self) -> (r: &[i32])
        ensures
            r@ == self@,
    {
        self.genes.as_slice()
    }

    /// The genes, in order, by reference.
    pub fn genes(&self) -> (r: &Vec<i32>)
        ensures
            r@ == self@,
    {
        &self.genes
    }

    /// Consumes the chromosome, yielding its genes in order.
    pub fn into_genes(self) -> (r: Vec<i32>)
        ensures
            r@ == self@,
    {
        self.genes
    }

    /// Overwrites the gene at `index`; every other position is untouched.
    pub(crate) fn set_gene(&mut self, index: usize, value: i32)
        requires
            index < old(self)@.len(),
        ensures
            final(self)@ == old(self)@.update(index as int, value),
    {
        self.genes.set(index, value);
    }
}

} // verus!
