//! The image-classification model and the state of its execution contexts.
use vstd::prelude::*;
use std::collections::HashMap;
use crate::backends::Backend;
use crate::tensor::{Tensor, TensorView};

verus! {

broadcast use vstd::std_specs::hash::group_hash_axioms;

/// Rank of the tensors that the model takes.
pub const INPUT_DIM: usize = 4;

/// Rank of the tensors that the model gives.
pub const OUTPUT_DIM: usize = 2;

/// Index of the input that a forward pass reads.
pub const INPUT_INDEX: u32 = 0;

/// A loaded image-classification model.
///
/// The forward pass itself is floating-point work on a device and is handed
/// in by the caller; the model fixes which tensors go in and come out.
pub struct SqueezenetModel {}

impl SqueezenetModel {
    /// A model ready to run. It holds no state of its own.
    pub fn new() -> (model: SqueezenetModel)
        ensures
            model == (SqueezenetModel {  }),
    {
        SqueezenetModel {  }
    }

    /// Runs one forward pass of `forward` on `input`. The model is not
    /// changed.
    pub fn compute<F: Fn(Backend, &Tensor<INPUT_DIM>) -> Tensor<OUTPUT_DIM>>(
        &self,
        backend: Backend,
        input: &Tensor<INPUT_DIM>,
        forward: F,
    ) -> (output: Tensor<OUTPUT_DIM>)
        requires
            forward.requires((backend, input)),
        ensures
            forward.ensures((backend, input), output),
    {
        forward(backend, input)
    }
}

/// What a context of the model holds: the inputs bound so far, by index,
/// and the outputs computed so far, oldest first.
pub struct SqueezenetView {
    pub inputs: Map<u32, TensorView>,
    pub outputs: Seq<TensorView>,
}

impl SqueezenetView {
    /// A context with nothing bound and nothing computed.
    pub open spec fn empty() -> SqueezenetView {
        SqueezenetView { inputs: Map::empty(), outputs: Seq::empty() }
    }

    /// The context after `tensor` is bound at `key`, in place of what was
    /// bound there.
    pub open spec fn with_input(self, key: u32, tensor: TensorView) -> SqueezenetView {
        SqueezenetView { inputs: self.inputs.insert(key, tensor), outputs: self.outputs }
    }

    /// The context after `tensor` is added as its newest output.
    pub open spec fn with_output(self, tensor: TensorView) -> SqueezenetView {
        SqueezenetView { inputs: self.inputs, outputs: self.outputs.push(tensor) }
    }
}

/// State of one execution context of the model.
pub struct SqueezenetContext {
    pub inputs: HashMap<u32, Tensor<INPUT_DIM>>,
    pub outputs: Vec<Tensor<OUTPUT_DIM>>,
}

impl View for SqueezenetContext {
    type V = SqueezenetView;

    open spec fn view(&self) -> SqueezenetView {
        SqueezenetView {
            inputs: Map::new(
                |key: u32| self.inputs@.contains_key(key),
                |key: u32| self.inputs@[key]@,
            ),
            outputs: Seq::new(self.outputs@.len(), |i: int| self.outputs@[i]@),
        }
    }
}

impl SqueezenetContext {
    /// A context with nothing bound and nothing computed.
    pub fn new() -> (context: SqueezenetContext)
        ensures
            context@ == SqueezenetView::empty(),
    {
        let context = SqueezenetContext { inputs: HashMap::new(), outputs: Vec::new() };
        assert(context@.inputs =~= Map::empty());
        assert(context@.outputs =~= Seq::empty());
        context
    }

    /// Binds the elements `input`, shaped as `dimens`, at index `key`, in
    /// place of any tensor bound there before. Where the number of elements
    /// is not the product of the dimensions, nothing is bound.
    pub fn set_input(&mut self, key: u32, input: &[u32], dimens: [usize; INPUT_DIM]) -> (bound:
        bool)
        ensures
            bound == (TensorView { shape: dimens@, data: input@ }).wf(),
            bound ==> final(self)@ == old(self)@.with_input(
                key,
                TensorView { shape: dimens@, data: input@ },
            ),
            !bound ==> final(self)@ == old(self)@,
    {
        let data = vstd::slice::slice_to_vec(input);
        match Tensor::new(dimens, data) {
            Some(tensor) => {
                self.inputs.insert(key, tensor);
                assert(self@.inputs =~= old(self)@.inputs.insert(key, tensor@));
                assert(self@.outputs =~= old(self)@.outputs);
                true
            },
            None => false,
        }
    }

    /// The tensor bound at index `key`, if there is one.
    pub fn input(&self, key: u32) -> (tensor: Option<&Tensor<INPUT_DIM>>)
        ensures
            tensor is Some <==> self@.inputs.contains_key(key),
            tensor matches Some(t) ==> t@ == self@.inputs[key],
    {
        self.inputs.get(&key)
    }

    /// Adds `output` as the newest output.
    pub fn push_output(&mut self, output: Tensor<OUTPUT_DIM>)
        ensures
            final(self)@ == old(self)@.with_output(output@),
    {
        self.outputs.push(output);
        assert(self@.inputs =~= old(self)@.inputs);
        assert(self@.outputs =~= old(self)@.outputs.push(output@));
    }

    /// The output at position `key`, oldest first, if there is one.
    pub fn output(&self, key: usize) -> (tensor: Option<&Tensor<OUTPUT_DIM>>)
        ensures
            tensor is Some <==> key < self@.outputs.len(),
            tensor matches Some(t) ==> t@ == self@.outputs[key as int],
    {
        if key < self.outputs.len() {
            Some(&self.outputs[key])
        } else {
            None
        }
    }

    /// The elements of the output at position `key`, if there is one.
    pub fn get_output(&self, key: usize) -> (elements: Option<Vec<u32>>)
        ensures
            elements is Some <==> key < self@.outputs.len(),
            elements matches Some(v) ==> v@ == self@.outputs[key as int].data,
    {
        match self.output(key) {
            Some(tensor) => Some(vstd::slice::slice_to_vec(tensor.data().as_slice())),
            None => None,
        }
    }
}

} // verus!
