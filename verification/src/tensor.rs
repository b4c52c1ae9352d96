//! Dense tensors of a fixed rank.
//!
//! An element is a 32-bit floating-point number, held as the word of its
//! bit pattern: the session core stores, moves and serialises elements and
//! never computes with them.
use vstd::prelude::*;
use crate::bytes::{bytes_of, encode_words};

verus! {

/// What a tensor is: its shape and its elements in row-major order.
pub struct TensorView {
    pub shape: Seq<usize>,
    pub data: Seq<u32>,
}

impl TensorView {
    /// The tensor has exactly as many elements as its shape asks for.
    pub open spec fn wf(self) -> bool {
        self.data.len() == volume(self.shape)
    }
}

/// Number of elements of a tensor of the given shape: the product of its
/// dimensions.
pub open spec fn volume(shape: Seq<usize>) -> nat
    decreases shape.len(),
{
    if shape.len() == 0 {
        1
    } else {
        volume(shape.drop_last()) * (shape.last() as nat)
    }
}

/// A shape with a zero dimension has no elements.
pub proof fn lemma_volume_zero(shape: Seq<usize>, k: int)
    requires
        0 <= k < shape.len(),
        shape[k] == 0,
    ensures
        volume(shape) == 0,
    decreases shape.len(),
{
    if k == shape.len() - 1 {
        assert(volume(shape.drop_last()) * 0 == 0) by (nonlinear_arith);
    } else {
        lemma_volume_zero(shape.drop_last(), k);
        assert(0 * (shape.last() as nat) == 0) by (nonlinear_arith);
    }
}

/// Where no dimension is zero, a leading part of the shape has no more
/// elements than the whole.
pub proof fn lemma_volume_prefix(shape: Seq<usize>, k: int)
    requires
        0 <= k <= shape.len(),
        forall|i: int| 0 <= i < shape.len() ==> shape[i] > 0,
    ensures
        1 <= volume(shape.take(k)) <= volume(shape),
    decreases shape.len() - k,
{
    if k == shape.len() {
        assert(shape.take(k) =~= shape);
        lemma_volume_positive(shape);
    } else {
        lemma_volume_prefix(shape, k + 1);
        lemma_volume_step(shape, k);
        let v = volume(shape.take(k));
        let d = shape[k] as nat;
        lemma_volume_positive(shape.take(k));
        assert(v <= v * d) by (nonlinear_arith)
            requires
                d >= 1,
        ;
    }
}

/// Where no dimension is zero, there is at least one element.
pub proof fn lemma_volume_positive(shape: Seq<usize>)
    requires
        forall|i: int| 0 <= i < shape.len() ==> shape[i] > 0,
    ensures
        volume(shape) >= 1,
    decreases shape.len(),
{
    if shape.len() > 0 {
        lemma_volume_positive(shape.drop_last());
        let v = volume(shape.drop_last());
        let d = shape.last() as nat;
        assert(v * d >= 1) by (nonlinear_arith)
            requires
                v >= 1,
                d >= 1,
        ;
    }
}

/// One more dimension multiplies the number of elements by it.
pub proof fn lemma_volume_step(shape: Seq<usize>, k: int)
    requires
        0 <= k < shape.len(),
    ensures
        volume(shape.take(k + 1)) == volume(shape.take(k)) * (shape[k] as nat),
{
    assert(shape.take(k + 1).drop_last() =~= shape.take(k));
}

/// Number of elements of a tensor of the given shape, or `None` where that
/// number does not fit in `usize`.
pub fn element_count(shape: &[usize]) -> (count: Option<usize>)
    ensures
        match count {
            Some(n) => n == volume(shape@),
            None => volume(shape@) > usize::MAX,
        },
{
    let mut z: usize = 0;
    while z < shape.len()
        invariant
            z <= shape.len(),
            forall|i: int| 0 <= i < z ==> shape@[i] > 0,
        decreases shape.len() - z,
    {
        if shape[z] == 0 {
            proof {
                lemma_volume_zero(shape@, z as int);
            }
            return Some(0);
        }
        z += 1;
    }
    let mut product: usize = 1;
    let mut k: usize = 0;
    assert(shape@.take(0) =~= Seq::<usize>::empty());
    while k < shape.len()
        invariant
            k <= shape.len(),
            forall|i: int| 0 <= i < shape.len() ==> shape@[i] > 0,
            product == volume(shape@.take(k as int)),
        decreases shape.len() - k,
    {
        proof {
            lemma_volume_step(shape@, k as int);
        }
        match product.checked_mul(shape[k]) {
            Some(next) => {
                product = next;
            },
            None => {
                proof {
                    lemma_volume_prefix(shape@, k + 1);
                }
                return None;
            },
        }
        k += 1;
    }
    assert(shape@.take(shape.len() as int) =~= shape@);
    Some(product)
}

/// A dense tensor of rank `D`.
pub struct Tensor<const D: usize> {
    shape: [usize; D],
    data: Vec<u32>,
}

impl<const D: usize> View for Tensor<D> {
    type V = TensorView;

    closed spec fn view(&self) -> TensorView {
        TensorView { shape: self.shape@, data: self.data@ }
    }
}

impl<const D: usize> Tensor<D> {
    /// What holds of every tensor: it has as many elements as its shape
    /// asks for.
    #[verifier::type_invariant]
    pub closed spec fn well_formed(self) -> bool {
        self.data@.len() == volume(self.shape@)
    }

    /// A well-formed tensor has `D` dimensions and fills them.
    pub proof fn lemma_well_formed(self)
        requires
            self.well_formed(),
        ensures
            self@.wf(),
            self@.shape.len() == D,
    {
    }

    /// Gives `data` the shape `shape`. The number of elements must be the
    /// product of the dimensions; otherwise there is no such tensor.
    pub fn new(shape: [usize; D], data: Vec<u32>) -> (tensor: Option<Tensor<D>>)
        ensures
            tensor is Some <==> data@.len() == volume(shape@),
            tensor matches Some(t) ==> t@ == (TensorView { shape: shape@, data: data@ }),
    {
        let length: usize = data.len();
        match element_count(shape.as_slice()) {
            Some(n) => {
                if n == length {
                    Some(Tensor { shape, data })
                } else {
                    None
                }
            },
            None => None,
        }
    }

    /// The dimensions.
    pub fn shape(&self) -> (shape: &[usize; D])
        ensures
            shape@ == self@.shape,
            shape@.len() == D,
    {
        &self.shape
    }

    /// The elements, in row-major order.
    pub fn data(&self) -> (data: &Vec<u32>)
        ensures
            data@ == self@.data,
            self@.wf(),
    {
        proof {
            use_type_invariant(self);
        }
        &self.data
    }

    /// Number of elements.
    pub fn len(&self) -> (n: usize)
        ensures
            n == self@.data.len(),
            n == volume(self@.shape),
    {
        proof {
            use_type_invariant(self);
        }
        self.data.len()
    }

    /// Gives the elements up.
    pub fn into_data(self) -> (data: Vec<u32>)
        ensures
            data@ == self@.data,
    {
        self.data
    }

    /// The elements as little-endian bytes, four for each element.
    pub fn to_bytes(&self) -> (bytes: Vec<u8>)
        ensures
            bytes@ == bytes_of(self@.data),
            bytes@.len() == 4 * self@.data.len(),
    {
        encode_words(&self.data)
    }
}

} // verus!
