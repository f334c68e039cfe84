//! Captures intermediate tensor outputs during a decode.
//!
//! The native side builds a computation graph for each forward pass. Every node has a name: the
//! output of transformer block `N` is `l_out-{N}`, attention norms are `attn_norm-{N}`, and the
//! final norm is `result_norm`.
//!
//! The evaluation callback runs in two phases for each node. In the ask phase it answers whether
//! a copy of the node is wanted; in the data phase the node is computed and its data is copied.
//! [`TensorCapture`] decides which nodes are wanted and keeps the copies by name. The owned,
//! checked [`TensorTransactions`](crate::context::tensor_transaction::TensorTransactions) are
//! the better choice in new code.

use crate::context::native::NativeTensor;
use crate::context::tensor_selector::TENSOR_ELEMENT_BYTES;
use crate::float32::{copy_floats, Float32};
use crate::name_map::NameMap;
use crate::names::{cut_at_nul, decode_utf8_name, same_name, until_nul};
use crate::text::{
    chars_of,
    law_layer_name_carries_its_layer,
    law_only_layer_output_names_carry_layers,
    layer_index,
    layer_name,
    layer_of_name,
    layer_output_name,
    starts_with,
};
use vstd::prelude::*;
use vstd::string::*;
use vstd::utf8::{decode_utf8, encode_utf8_decode_utf8, valid_utf8};

verus! {

/// The mathematical content of a captured tensor.
#[verifier::ext_equal]
pub struct CapturedTensorView {
    /// Graph-node name.
    pub name: Seq<char>,
    /// Layer index of a layer output.
    pub layer: Option<usize>,
    /// First dimension.
    pub ne0: usize,
    /// Second dimension.
    pub ne1: usize,
    /// Values in row-major order.
    pub data: Seq<Float32>,
}

impl CapturedTensorView {
    /// The capture of a node; only layer outputs have a layer.
    pub open spec fn new(name: Seq<char>, ne0: usize, ne1: usize, data: Seq<Float32>) -> Self {
        CapturedTensorView { name, layer: layer_index(name), ne0, ne1, data }
    }

    /// Whether every value of both dimensions is there.
    pub open spec fn complete(self) -> bool {
        self.data.len() == self.ne0 * self.ne1
    }

    /// The values of one token.
    pub open spec fn row(self, token_idx: int) -> Seq<Float32> {
        self.data.subrange(token_idx * self.ne0, (token_idx + 1) * self.ne0)
    }
}

/// A single tensor copied out of the decode graph.
///
/// For layer outputs (`l_out-{N}`) the layer is set to `N`.
#[derive(Debug)]
pub struct CapturedTensor {
    /// Graph-node name, such as `l_out-13` or `result_norm`.
    pub name: String,
    /// Layer index when the name is `l_out-{N}`.
    pub layer: Option<usize>,
    /// First dimension, typically the hidden size.
    pub ne0: usize,
    /// Second dimension, typically the number of tokens.
    pub ne1: usize,
    /// Values in row-major order, indexed by `token_idx * ne0 + dim_idx`.
    pub data: Vec<Float32>,
}

impl View for CapturedTensor {
    type V = CapturedTensorView;

    open spec fn view(&self) -> CapturedTensorView {
        CapturedTensorView {
            name: self.name@,
            layer: self.layer,
            ne0: self.ne0,
            ne1: self.ne1,
            data: self.data@,
        }
    }
}

impl Clone for CapturedTensor {
    fn clone(&self) -> (copy: Self)
        ensures
            copy@ == self@,
    {
        CapturedTensor {
            name: self.name.clone(),
            layer: self.layer,
            ne0: self.ne0,
            ne1: self.ne1,
            data: copy_floats(&self.data),
        }
    }
}

impl CapturedTensor {
    /// Number of embedding dimensions.
    pub fn n_embd(&self) -> (count: usize)
        ensures
            count == self@.ne0,
    {
        self.ne0
    }

    /// Number of token positions.
    pub fn n_tokens(&self) -> (count: usize)
        ensures
            count == self@.ne1,
    {
        self.ne1
    }

    /// Hidden-state vector for one token index, or nothing beyond the last token.
    pub fn token_embedding(&self, token_idx: usize) -> (embedding: Option<&[Float32]>)
        requires
            token_idx < self@.ne1 ==> (token_idx + 1) * self@.ne0 <= self@.data.len(),
        ensures
            match embedding {
                Some(values) => token_idx < self@.ne1 && values@ == self@.row(token_idx as int),
                None => token_idx >= self@.ne1,
            },
    {
        if token_idx >= self.ne1 {
            return None;
        }
        proof {
            let ne0 = self.ne0;
            assert((token_idx + 1) * ne0 == token_idx * ne0 + ne0) by (nonlinear_arith);
            assert(token_idx * ne0 >= 0) by (nonlinear_arith);
            assert(self.data@.len() == self.data.len());
        }
        let start: usize = token_idx * self.ne0;
        Some(vstd::slice::slice_subrange(self.data.as_slice(), start, start + self.ne0))
    }
}

/// The mathematical content of a capture filter.
pub enum CaptureFilterView {
    /// Outputs of the listed layers.
    Layers(Seq<usize>),
    /// Exact node names.
    Names(Seq<Seq<char>>),
    /// Names with a common prefix.
    Prefix(Seq<char>),
    /// Every node.
    All,
}

impl CaptureFilterView {
    /// Whether a node is wanted.
    pub open spec fn wants(self, name: Seq<char>) -> bool {
        match self {
            CaptureFilterView::Layers(layers) => match layer_index(name) {
                Some(layer) => layers.contains(layer),
                None => false,
            },
            CaptureFilterView::Names(names) => names.contains(name),
            CaptureFilterView::Prefix(prefix) => prefix.is_prefix_of(name),
            CaptureFilterView::All => true,
        }
    }
}

/// Strategy for selecting which tensors to capture.
#[derive(Debug)]
enum CaptureFilter {
    /// `l_out-{N}` for each listed layer index `N`.
    Layers(Vec<usize>),
    /// Exact graph-node names.
    Names(Vec<String>),
    /// Names starting with a prefix.
    Prefix(String),
    /// Every node.
    All,
}

/// The texts of a list of strings.
pub open spec fn texts(strings: Seq<String>) -> Seq<Seq<char>> {
    Seq::new(strings.len(), |i: int| strings[i]@)
}

/// The texts of a list of borrowed strings.
pub open spec fn str_texts(strings: Seq<&str>) -> Seq<Seq<char>> {
    Seq::new(strings.len(), |i: int| strings[i]@)
}

impl View for CaptureFilter {
    type V = CaptureFilterView;

    closed spec fn view(&self) -> CaptureFilterView {
        match self {
            CaptureFilter::Layers(layers) => CaptureFilterView::Layers(layers@),
            CaptureFilter::Names(names) => CaptureFilterView::Names(texts(names@)),
            CaptureFilter::Prefix(prefix) => CaptureFilterView::Prefix(prefix@),
            CaptureFilter::All => CaptureFilterView::All,
        }
    }
}

/// The state of a capture: its filter and the captured tensors by name.
#[verifier::ext_equal]
pub struct TensorCaptureView {
    /// Which nodes are wanted.
    pub filter: CaptureFilterView,
    /// The captured tensors.
    pub captured: Map<Seq<char>, CapturedTensorView>,
}

impl TensorCaptureView {
    /// An empty capture.
    pub open spec fn new(filter: CaptureFilterView) -> Self {
        TensorCaptureView { filter, captured: Map::empty() }
    }

    /// Every tensor is filed under its own name and carries the layer that the name tells.
    pub open spec fn well_formed(self) -> bool {
        forall|name: Seq<char>| #[trigger]
            self.captured.contains_key(name) ==> {
                &&& self.captured[name].name == name
                &&& self.captured[name].layer == layer_index(name)
            }
    }

    /// The capture with one more tensor; an earlier one of the same name is replaced.
    pub open spec fn stored(self, tensor: CapturedTensorView) -> Self {
        TensorCaptureView { captured: self.captured.insert(tensor.name, tensor), ..self }
    }

    /// The capture without its tensors.
    pub open spec fn cleared(self) -> Self {
        TensorCaptureView { captured: Map::empty(), ..self }
    }

    /// Whether an output of a layer was captured.
    pub open spec fn holds_layer(self, layer: usize) -> bool {
        exists|name: Seq<char>| #[trigger]
            self.captured.contains_key(name) && self.captured[name].layer == Some(layer)
    }
}

/// Whether numbers come in strictly ascending order.
pub open spec fn ascending(layers: Seq<usize>) -> bool {
    forall|i: int, j: int| 0 <= i < j < layers.len() ==> layers[i] < layers[j]
}

/// Adds a number to a strictly ascending list, unless the list has it.
fn insert_ascending(layers: &mut Vec<usize>, layer: usize)
    requires
        ascending(old(layers)@),
    ensures
        ascending(final(layers)@),
        forall|l: usize|
            final(layers)@.contains(l) <==> old(layers)@.contains(l) || l == layer,
{
    let mut i: usize = 0;
    while i < layers.len() && layers[i] < layer
        invariant
            i <= layers@.len(),
            layers@ == old(layers)@,
            ascending(layers@),
            forall|j: int| 0 <= j < i ==> layers@[j] < layer,
        decreases layers@.len() - i,
    {
        i = i + 1;
    }
    let ghost before = layers@;
    if i < layers.len() && layers[i] == layer {
        assert(before.contains(layer));
        return;
    }
    layers.insert(i, layer);
    proof {
        assert(layers@ == before.insert(i as int, layer));
        assert(layers@[i as int] == layer);
        assert forall|l: usize| layers@.contains(l) <==> before.contains(l) || l == layer by {
            if before.contains(l) {
                let k = before.index_of(l);
                if k < i {
                    assert(layers@[k] == l);
                } else {
                    assert(layers@[k + 1] == l);
                }
            }
            if layers@.contains(l) && l != layer {
                let k = layers@.index_of(l);
                if k < i {
                    assert(before[k] == l);
                } else {
                    assert(before[k - 1] == l);
                }
            }
        }
    }
}

fn contains_layer(layers: &Vec<usize>, layer: usize) -> (found: bool)
    ensures
        found == layers@.contains(layer),
{
    let mut i: usize = 0;
    while i < layers.len()
        invariant
            i <= layers.len(),
            forall|j: int| 0 <= j < i ==> layers@[j] != layer,
        decreases layers.len() - i,
    {
        if layers[i] == layer {
            return true;
        }
        i = i + 1;
    }
    false
}

fn contains_name(names: &Vec<String>, name: &str) -> (found: bool)
    ensures
        found == texts(names@).contains(name@),
{
    let mut i: usize = 0;
    while i < names.len()
        invariant
            i <= names.len(),
            forall|j: int| 0 <= j < i ==> #[trigger] texts(names@)[j] != name@,
        decreases names.len() - i,
    {
        if same_name(names[i].as_str(), name) {
            assert(texts(names@)[i as int] == name@);
            return true;
        }
        i = i + 1;
    }
    false
}

/// What the capture callback has to do next.
pub enum CaptureStep {
    /// Answer the native side.
    Return(bool),
    /// Read a node's values, store them under its name, and answer that the node was taken.
    Read {
        /// Graph-node name.
        name: String,
        /// First dimension.
        ne0: usize,
        /// Second dimension.
        ne1: usize,
        /// Bytes to read.
        bytes: usize,
    },
}

/// Captures intermediate tensors during a decode.
///
/// The same instance can be reused across decodes if it is cleared between passes.
pub struct TensorCapture {
    filter: CaptureFilter,
    captured: NameMap<CapturedTensor>,
}

impl View for TensorCapture {
    type V = TensorCaptureView;

    closed spec fn view(&self) -> TensorCaptureView {
        TensorCaptureView { filter: self.filter@, captured: self.captured@ }
    }
}

impl TensorCapture {
    /// Whether the capture is in a state that its operations lead to.
    pub open spec fn wf(self) -> bool {
        &&& self@.well_formed()
        &&& self.holds_each_name_once()
    }

    /// Whether no name is stored twice.
    pub closed spec fn holds_each_name_once(self) -> bool {
        self.captured.wf()
    }

    /// Capture transformer layer outputs `l_out-{N}` for the given indices.
    ///
    /// This is the usual choice for hidden-state extraction.
    pub fn for_layers(layer_indices: &[usize]) -> (capture: Self)
        ensures
            capture.wf(),
            capture@ == TensorCaptureView::new(CaptureFilterView::Layers(layer_indices@)),
    {
        let mut layers: Vec<usize> = Vec::new();
        let mut i: usize = 0;
        while i < layer_indices.len()
            invariant
                i <= layer_indices.len(),
                layers@ == layer_indices@.take(i as int),
            decreases layer_indices.len() - i,
        {
            layers.push(layer_indices[i]);
            i = i + 1;
        }
        assert(layers@ =~= layer_indices@);
        TensorCapture { filter: CaptureFilter::Layers(layers), captured: NameMap::new() }
    }

    /// Capture tensors whose graph names match exactly.
    pub fn for_names(names: &[&str]) -> (capture: Self)
        ensures
            capture.wf(),
            capture@ == TensorCaptureView::new(CaptureFilterView::Names(str_texts(names@))),
    {
        let mut owned: Vec<String> = Vec::new();
        let mut i: usize = 0;
        while i < names.len()
            invariant
                i <= names.len(),
                owned@.len() == i,
                forall|j: int| 0 <= j < i ==> (#[trigger] owned@[j])@ == names@[j]@,
            decreases names.len() - i,
        {
            owned.push(names[i].to_owned());
            i = i + 1;
        }
        assert(texts(owned@) =~= str_texts(names@));
        TensorCapture { filter: CaptureFilter::Names(owned), captured: NameMap::new() }
    }

    /// Capture every tensor whose name starts with `prefix`.
    pub fn for_prefix(prefix: &str) -> (capture: Self)
        ensures
            capture.wf(),
            capture@ == TensorCaptureView::new(CaptureFilterView::Prefix(prefix@)),
    {
        TensorCapture {
            filter: CaptureFilter::Prefix(prefix.to_owned()),
            captured: NameMap::new(),
        }
    }

    /// Capture all graph nodes.
    ///
    /// Memory use scales with model size and sequence length, so prefer a narrower filter.
    pub fn all() -> (capture: Self)
        ensures
            capture.wf(),
            capture@ == TensorCaptureView::new(CaptureFilterView::All),
    {
        TensorCapture { filter: CaptureFilter::All, captured: NameMap::new() }
    }

    /// Drop captured tensors but keep the filter.
    pub fn clear(&mut self)
        requires
            old(self).wf(),
        ensures
            final(self).wf(),
            final(self)@ == old(self)@.cleared(),
    {
        self.captured.clear();
    }

    /// Lookup by full graph name.
    pub fn get(&self, name: &str) -> (tensor: Option<&CapturedTensor>)
        requires
            self.wf(),
        ensures
            match tensor {
                Some(tensor) => self@.captured.contains_key(name@) && tensor@
                    == self@.captured[name@],
                None => !self@.captured.contains_key(name@),
            },
    {
        self.captured.get(name)
    }

    /// Lookup a layer output, `l_out-{layer_idx}`.
    pub fn get_layer(&self, layer_idx: usize) -> (tensor: Option<&CapturedTensor>)
        requires
            self.wf(),
        ensures
            ({
                let name = layer_output_name(layer_idx as nat);
                match tensor {
                    Some(tensor) => self@.captured.contains_key(name) && tensor@
                        == self@.captured[name],
                    None => !self@.captured.contains_key(name),
                }
            }),
    {
        let name = layer_name(layer_idx as u64);
        self.captured.get(name.as_str())
    }

    /// Whether `l_out-{layer_idx}` was captured.
    pub fn has_layer(&self, layer_idx: usize) -> (found: bool)
        requires
            self.wf(),
        ensures
            found == self@.captured.contains_key(layer_output_name(layer_idx as nat)),
    {
        self.get_layer(layer_idx).is_some()
    }

    /// Number of captured tensors.
    pub fn len(&self) -> (count: usize)
        requires
            self.wf(),
        ensures
            count == self@.captured.dom().len(),
            self@.captured.dom().finite(),
    {
        self.captured.len()
    }

    /// Whether nothing was captured.
    pub fn is_empty(&self) -> (empty: bool)
        requires
            self.wf(),
        ensures
            empty <==> self@.captured == Map::<Seq<char>, CapturedTensorView>::empty(),
    {
        let count: usize = self.captured.len();
        proof {
            if count == 0 {
                assert(self@.captured.dom() =~= Set::empty()) by {
                    if exists|name: Seq<char>| self@.captured.dom().contains(name) {
                        let name = choose|name: Seq<char>| self@.captured.dom().contains(name);
                        vstd::set_lib::lemma_set_empty_equivalency_len(self@.captured.dom());
                    }
                }
                assert(self@.captured =~= Map::empty());
            }
        }
        count == 0
    }

    /// All `(name, tensor)` pairs, each once, in no particular order.
    pub fn iter(&self) -> (pairs: Vec<(&str, &CapturedTensor)>)
        requires
            self.wf(),
        ensures
            forall|i: int, j: int| 0 <= i < j < pairs@.len() ==> pairs@[i].0@ != pairs@[j].0@,
            forall|i: int|
                0 <= i < pairs@.len() ==> self@.captured.contains_key((#[trigger] pairs@[i]).0@)
                    && pairs@[i].1@ == self@.captured[pairs@[i].0@],
            forall|name: Seq<char>| #[trigger]
                self@.captured.contains_key(name) ==> exists|i: int|
                    0 <= i < pairs@.len() && (#[trigger] pairs@[i]).0@ == name,
    {
        let mut pairs: Vec<(&str, &CapturedTensor)> = Vec::new();
        let count: usize = self.captured.len();
        let mut i: usize = 0;
        while i < count
            invariant
                i <= count,
                count == self.captured.pairs().len(),
                pairs@.len() == i,
                forall|j: int|
                    0 <= j < i ==> (#[trigger] pairs@[j]).0@ == self.captured.pairs()[j].0
                        && pairs@[j].1@ == self.captured.pairs()[j].1,
            decreases count - i,
        {
            pairs.push(self.captured.entry(i));
            i = i + 1;
        }
        proof {
            self.captured.lemma_pairs();
            let stored = self.captured.pairs();
            assert forall|a: int, b: int| 0 <= a < b < pairs@.len() implies pairs@[a].0@
                != pairs@[b].0@ by {
                assert(stored[a].0 != stored[b].0);
            }
            assert forall|a: int| 0 <= a < pairs@.len() implies self@.captured.contains_key(
                (#[trigger] pairs@[a]).0@,
            ) && pairs@[a].1@ == self@.captured[pairs@[a].0@] by {
                assert(self@.captured.contains_key(stored[a].0));
            }
            assert forall|name: Seq<char>| #[trigger]
                self@.captured.contains_key(name) implies exists|a: int|
                0 <= a < pairs@.len() && (#[trigger] pairs@[a]).0@ == name by {
                let a = choose|a: int| 0 <= a < stored.len() && #[trigger] stored[a].0 == name;
                assert(pairs@[a].0@ == name);
            }
        }
        pairs
    }

    /// Sorted layer indices present among captured layer outputs.
    pub fn captured_layers(&self) -> (layers: Vec<usize>)
        requires
            self.wf(),
        ensures
            ascending(layers@),
            forall|layer: usize| layers@.contains(layer) <==> self@.holds_layer(layer),
    {
        let mut layers: Vec<usize> = Vec::new();
        let count: usize = self.captured.len();
        let mut i: usize = 0;
        while i < count
            invariant
                i <= count,
                count == self.captured.pairs().len(),
                ascending(layers@),
                forall|layer: usize|
                    layers@.contains(layer) <==> exists|j: int|
                        0 <= j < i && (#[trigger] self.captured.pairs()[j]).1.layer == Some(layer),
            decreases count - i,
        {
            let ghost before = layers@;
            let tensor = self.captured.entry(i).1;
            match tensor.layer {
                Some(layer) => {
                    insert_ascending(&mut layers, layer);
                },
                None => {},
            }
            proof {
                let stored = self.captured.pairs();
                assert(stored[i as int].1.layer == tensor.layer);
                assert forall|layer: usize|
                    layers@.contains(layer) <==> exists|j: int|
                        0 <= j < i + 1 && (#[trigger] stored[j]).1.layer == Some(layer) by {
                    if before.contains(layer) {
                        let j = choose|j: int|
                            0 <= j < i && (#[trigger] stored[j]).1.layer == Some(layer);
                        assert(stored[j].1.layer == Some(layer));
                    }
                }
            }
            i = i + 1;
        }
        proof {
            self.captured.lemma_pairs();
            let stored = self.captured.pairs();
            assert forall|layer: usize| layers@.contains(layer) <==> self@.holds_layer(layer) by {
                if layers@.contains(layer) {
                    let j = choose|j: int|
                        0 <= j < count && (#[trigger] stored[j]).1.layer == Some(layer);
                    assert(self@.captured.contains_key(stored[j].0));
                }
                if self@.holds_layer(layer) {
                    let name = choose|name: Seq<char>| #[trigger]
                        self@.captured.contains_key(name) && self@.captured[name].layer == Some(
                            layer,
                        );
                    let j = choose|j: int| 0 <= j < stored.len() && #[trigger] stored[j].0 == name;
                    assert(stored[j].1.layer == Some(layer));
                }
            }
        }
        layers
    }

    /// Whether a node is wanted.
    pub fn matches(&self, name: &str) -> (wanted: bool)
        ensures
            wanted == self@.filter.wants(name@),
    {
        match &self.filter {
            CaptureFilter::Layers(layers) => match layer_of_name(name) {
                Some(layer) => contains_layer(layers, layer),
                None => false,
            },
            CaptureFilter::Names(names) => contains_name(names, name),
            CaptureFilter::Prefix(prefix) => {
                let text = chars_of(name);
                let head = chars_of(prefix.as_str());
                starts_with(text.as_slice(), head.as_slice())
            },
            CaptureFilter::All => true,
        }
    }

    /// Files a tensor under its name.
    pub fn store(&mut self, name: String, ne0: usize, ne1: usize, data: Vec<Float32>)
        requires
            old(self).wf(),
        ensures
            final(self).wf(),
            final(self)@ == old(self)@.stored(CapturedTensorView::new(name@, ne0, ne1, data@)),
    {
        let layer = layer_of_name(name.as_str());
        self.captured.insert(name.clone(), CapturedTensor { name, layer, ne0, ne1, data });
    }

    /// The capture callback. While the native side asks, the answer says whether the node is
    /// wanted; afterwards a wanted node is to be read and stored.
    pub fn evaluate(&self, tensor: &NativeTensor, ask: bool) -> (step: CaptureStep)
        requires
            valid_utf8(until_nul(tensor.name@)),
            !ask && self@.filter.wants(decode_utf8(until_nul(tensor.name@))) ==> {
                &&& 0 <= tensor.ne@[0]
                &&& 0 <= tensor.ne@[1]
                &&& tensor.ne@[0] <= usize::MAX
                &&& tensor.ne@[1] <= usize::MAX
                &&& tensor.ne@[0] * tensor.ne@[1] * TENSOR_ELEMENT_BYTES <= usize::MAX
            },
        ensures
            ({
                let node = decode_utf8(until_nul(tensor.name@));
                match step {
                    CaptureStep::Return(answer) => answer == self@.filter.wants(node) && (answer
                        ==> ask),
                    CaptureStep::Read { name, ne0, ne1, bytes } => {
                        &&& !ask
                        &&& self@.filter.wants(node)
                        &&& name@ == node
                        &&& ne0 == tensor.ne@[0]
                        &&& ne1 == tensor.ne@[1]
                        &&& bytes == ne0 * ne1 * TENSOR_ELEMENT_BYTES
                    },
                }
            }),
    {
        let name = match decode_utf8_name(cut_at_nul(tensor.name.as_slice())) {
            Ok(name) => name,
            Err(_) => return CaptureStep::Return(false),
        };
        proof {
            encode_utf8_decode_utf8(name@);
        }
        if !self.matches(name.as_str()) {
            return CaptureStep::Return(false);
        }
        if ask {
            return CaptureStep::Return(true);
        }
        let ne0: usize = tensor.ne[0] as usize;
        let ne1: usize = tensor.ne[1] as usize;
        proof {
            assert(ne0 * ne1 <= ne0 * ne1 * TENSOR_ELEMENT_BYTES) by (nonlinear_arith);
            assert(ne0 * ne1 >= 0) by (nonlinear_arith);
        }
        let bytes: usize = ne0 * ne1 * TENSOR_ELEMENT_BYTES;
        CaptureStep::Read { name, ne0, ne1, bytes }
    }
}

/// A stored tensor is found under its name, and no other tensor is touched.
pub proof fn law_stored_tensors_are_found(
    state: TensorCaptureView,
    tensor: CapturedTensorView,
    other: Seq<char>,
)
    ensures
        state.stored(tensor).captured.contains_key(tensor.name),
        state.stored(tensor).captured[tensor.name] == tensor,
        state.stored(tensor).filter == state.filter,
        other != tensor.name ==> state.stored(tensor).captured.contains_key(other)
            == state.captured.contains_key(other),
        other != tensor.name && state.captured.contains_key(other) ==> state.stored(
            tensor,
        ).captured[other] == state.captured[other],
{
}

/// Storing a tensor again under the same name replaces it.
pub proof fn law_storing_again_replaces(
    state: TensorCaptureView,
    first: CapturedTensorView,
    second: CapturedTensorView,
)
    requires
        first.name == second.name,
    ensures
        state.stored(first).stored(second) == state.stored(second),
{
    assert(state.stored(first).stored(second) =~= state.stored(second));
}

/// Clearing drops every tensor and keeps the filter.
pub proof fn law_clearing_keeps_the_filter(state: TensorCaptureView, name: Seq<char>)
    ensures
        !state.cleared().captured.contains_key(name),
        state.cleared().filter == state.filter,
        state.cleared().filter.wants(name) == state.filter.wants(name),
{
}

/// A layer filter wants exactly the output nodes of the listed layers.
pub proof fn law_layer_filters_want_listed_layers(
    layers: Seq<usize>,
    layer: usize,
    name: Seq<char>,
)
    ensures
        CaptureFilterView::Layers(layers).wants(layer_output_name(layer as nat))
            == layers.contains(layer),
        CaptureFilterView::Layers(layers).wants(name) <==> exists|n: usize|
            layers.contains(n) && name == #[trigger] layer_output_name(n as nat),
{
    law_layer_name_carries_its_layer(layer);
    if CaptureFilterView::Layers(layers).wants(name) {
        law_only_layer_output_names_carry_layers(name, layer_index(name)->Some_0);
    }
    if exists|n: usize| layers.contains(n) && name == #[trigger] layer_output_name(n as nat) {
        let n = choose|n: usize| layers.contains(n) && name == #[trigger] layer_output_name(
            n as nat,
        );
        law_layer_name_carries_its_layer(n);
    }
}

/// The layers that are listed are exactly those whose output is found by its name.
pub proof fn law_captured_layer_outputs_are_listed(state: TensorCaptureView, layer: usize)
    requires
        state.well_formed(),
    ensures
        state.holds_layer(layer) <==> state.captured.contains_key(
            layer_output_name(layer as nat),
        ),
{
    if state.holds_layer(layer) {
        let name = choose|name: Seq<char>| #[trigger]
            state.captured.contains_key(name) && state.captured[name].layer == Some(layer);
        law_only_layer_output_names_carry_layers(name, layer);
    }
    if state.captured.contains_key(layer_output_name(layer as nat)) {
        law_layer_name_carries_its_layer(layer);
    }
}

/// In a complete tensor every token has an embedding, which holds the values of its row.
pub proof fn law_complete_tensors_have_every_row(
    tensor: CapturedTensorView,
    token_idx: int,
    dim_idx: int,
)
    requires
        tensor.complete(),
        0 <= token_idx < tensor.ne1,
        0 <= dim_idx < tensor.ne0,
    ensures
        (token_idx + 1) * tensor.ne0 <= tensor.data.len(),
        tensor.row(token_idx).len() == tensor.ne0,
        tensor.row(token_idx)[dim_idx] == tensor.data[token_idx * tensor.ne0 + dim_idx],
{
    let ne0 = tensor.ne0 as int;
    let ne1 = tensor.ne1 as int;
    assert((token_idx + 1) * ne0 <= ne0 * ne1) by (nonlinear_arith)
        requires
            0 <= token_idx < ne1,
            0 <= ne0,
    ;
    assert((token_idx + 1) * ne0 == token_idx * ne0 + ne0) by (nonlinear_arith);
    assert(token_idx * ne0 >= 0) by (nonlinear_arith)
        requires
            0 <= token_idx,
            0 <= ne0,
    ;
}

/// A prefix filter wants exactly the names that go on from the prefix, in whatever way, the prefix
/// itself among them.
pub proof fn law_prefix_filters_want_every_continuation(
    prefix: Seq<char>,
    rest: Seq<char>,
    name: Seq<char>,
)
    ensures
        CaptureFilterView::Prefix(prefix).wants(prefix + rest),
        CaptureFilterView::Prefix(prefix).wants(name) <==> exists|tail: Seq<char>|
            name == #[trigger] (prefix + tail),
{
    assert((prefix + rest).subrange(0, prefix.len() as int) =~= prefix);
    if CaptureFilterView::Prefix(prefix).wants(name) {
        assert(name =~= prefix + name.skip(prefix.len() as int));
    }
    if exists|tail: Seq<char>| name == #[trigger] (prefix + tail) {
        let tail = choose|tail: Seq<char>| name == #[trigger] (prefix + tail);
        assert((prefix + tail).subrange(0, prefix.len() as int) =~= prefix);
    }
}

/// A name filter wants exactly the listed names, and a filter for everything wants every name.
pub proof fn law_name_filters_want_listed_names(names: Seq<Seq<char>>, name: Seq<char>)
    ensures
        CaptureFilterView::Names(names).wants(name) <==> exists|i: int|
            0 <= i < names.len() && #[trigger] names[i] == name,
        CaptureFilterView::All.wants(name),
{
}

/// Lists of names are seen name by name, in their order.
pub proof fn law_name_lists_are_seen_in_order(owned: Seq<String>, borrowed: Seq<&str>, i: int)
    ensures
        texts(owned).len() == owned.len(),
        0 <= i < owned.len() ==> texts(owned)[i] == owned[i]@,
        str_texts(borrowed).len() == borrowed.len(),
        0 <= i < borrowed.len() ==> str_texts(borrowed)[i] == borrowed[i]@,
{
}

/// What is stored under a name is found there with the dimensions and values that were stored. It
/// has a layer exactly where the name is that of a layer output, and then that layer.
pub proof fn law_tensors_are_stored_as_given(
    state: TensorCaptureView,
    name: Seq<char>,
    ne0: usize,
    ne1: usize,
    data: Seq<Float32>,
    layer: usize,
)
    ensures
        ({
            let after = state.stored(CapturedTensorView::new(name, ne0, ne1, data));
            let tensor = after.captured[name];
            &&& after.captured.contains_key(name)
            &&& tensor.name == name
            &&& tensor.ne0 == ne0
            &&& tensor.ne1 == ne1
            &&& tensor.data == data
            &&& tensor.layer == Some(layer) <==> name == layer_output_name(layer as nat)
            &&& after.captured.dom() == state.captured.dom().insert(name)
        }),
{
    law_only_layer_output_names_carry_layers(name, layer);
}

/// A new capture has the filter that it was made with and holds nothing.
pub proof fn law_new_captures_are_empty(filter: CaptureFilterView, name: Seq<char>)
    ensures
        TensorCaptureView::new(filter).filter == filter,
        !TensorCaptureView::new(filter).captured.contains_key(name),
        TensorCaptureView::new(filter).well_formed(),
        TensorCaptureView::new(filter).cleared() == TensorCaptureView::new(filter),
{
}

/// A captured tensor is seen with its own name, layer, dimensions and values.
pub proof fn law_captured_tensors_are_seen_as_they_are(tensor: CapturedTensor)
    ensures
        tensor@.name == tensor.name@,
        tensor@.layer == tensor.layer,
        tensor@.ne0 == tensor.ne0,
        tensor@.ne1 == tensor.ne1,
        tensor@.data == tensor.data@,
{
}

/// Every tensor of a sound capture is filed under its own name, and a tensor has a layer exactly
/// where its name is that of the layer's output.
pub proof fn law_captures_are_filed_under_their_names(
    state: TensorCaptureView,
    name: Seq<char>,
    layer: usize,
)
    requires
        state.well_formed(),
        state.captured.contains_key(name),
    ensures
        state.captured[name].name == name,
        state.captured[name].layer == Some(layer) <==> name == layer_output_name(layer as nat),
{
    law_only_layer_output_names_carry_layers(name, layer);
}

/// Layers are listed in ascending order, each once.
pub proof fn law_ascending_lists_repeat_nothing(layers: Seq<usize>, i: int, j: int)
    requires
        ascending(layers),
        0 <= i < layers.len(),
        0 <= j < layers.len(),
    ensures
        layers[i] < layers[j] <==> i < j,
        layers[i] == layers[j] <==> i == j,
{
}

/// Where the values of a token are there, its embedding holds as many values as the first
/// dimension says, and they are those from the token's place on.
pub proof fn law_embeddings_are_the_values_of_their_token(
    tensor: CapturedTensorView,
    token_idx: int,
    dim_idx: int,
)
    requires
        0 <= token_idx,
        0 <= dim_idx < tensor.ne0,
        (token_idx + 1) * tensor.ne0 <= tensor.data.len(),
    ensures
        tensor.row(token_idx).len() == tensor.ne0,
        tensor.row(token_idx)[dim_idx] == tensor.data[token_idx * tensor.ne0 + dim_idx],
{
    let ne0 = tensor.ne0 as int;
    assert((token_idx + 1) * ne0 == token_idx * ne0 + ne0) by (nonlinear_arith);
    assert(token_idx * ne0 >= 0) by (nonlinear_arith)
        requires
            0 <= token_idx,
            0 <= ne0,
    ;
}

} // verus!
