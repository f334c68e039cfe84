//! Exact bounded graph-node selectors.

use crate::context::tensor_failure::TensorTransactionError;
use crate::message::bounded_message;
use crate::text::{layer_name, layer_output_name};
use vstd::prelude::*;
use vstd::string::*;
use vstd::utf8::encode_utf8;

verus! {

/// Maximum exact graph selectors attached to one context.
pub const MAX_TENSOR_SELECTORS: usize = 128;

/// Maximum UTF-8 bytes in one exact graph-node name.
pub const MAX_TENSOR_NAME_BYTES: usize = 256;

/// Maximum rows accepted from one selected tensor invocation.
pub const MAX_TENSOR_ROWS: usize = 4_096;

/// Maximum elements copied by one selected tensor invocation.
pub const MAX_TENSOR_ELEMENTS: usize = 16_777_216;

/// Bytes in one element of either supported representation.
pub const TENSOR_ELEMENT_BYTES: usize = 4;

/// Maximum retained tensor bytes from one decode.
pub const MAX_RETAINED_TENSOR_BYTES: usize = MAX_TENSOR_ELEMENTS * TENSOR_ELEMENT_BYTES;

/// The native code of single-precision elements.
pub const NATIVE_TYPE_F32: u32 = 0;

/// The native code of signed 32-bit integer elements.
pub const NATIVE_TYPE_I32: u32 = 26;

/// Element representation required by an exact tensor selector.
#[derive(Clone, Copy, Debug, PartialEq, Eq, PartialOrd, Ord, Structural)]
pub enum TensorElementType {
    /// IEEE-754 single-precision values.
    F32,
    /// Signed 32-bit integer values.
    I32,
}

impl TensorElementType {
    /// The code of this representation in a native tensor.
    pub open spec fn native_code(self) -> u32 {
        match self {
            TensorElementType::F32 => NATIVE_TYPE_F32,
            TensorElementType::I32 => NATIVE_TYPE_I32,
        }
    }

    /// Returns the code of this representation in a native tensor.
    pub fn native(self) -> (code: u32)
        ensures
            code == self.native_code(),
    {
        match self {
            TensorElementType::F32 => NATIVE_TYPE_F32,
            TensorElementType::I32 => NATIVE_TYPE_I32,
        }
    }
}

/// Native access granted to one selected tensor.
#[derive(Clone, Copy, Debug, PartialEq, Eq, Structural)]
pub enum TensorAccess {
    /// Copy and optionally retain the tensor without native mutation.
    ReadOnly,
    /// Run the handler over finite single-precision values and commit once on success.
    ReadWriteF32,
}

/// Native write-back decision returned by a transaction handler.
#[derive(Clone, Copy, Debug, PartialEq, Eq, Structural)]
pub enum TensorWriteback {
    /// Discard handler-side edits and leave the native tensor unchanged.
    Unchanged,
    /// Validate and commit the complete edited tensor exactly once.
    Commit,
}

/// Mapping between tensor rows and the submitted decode batch.
#[derive(Clone, Copy, Debug, PartialEq, Eq, Structural)]
pub enum TensorRowMapping {
    /// Rows correspond in order to logical token entries in the decode batch.
    BatchTokens,
}

/// The mathematical content of a selector.
pub struct TensorSelectorView {
    /// Exact graph-node name.
    pub name: Seq<char>,
    /// Required element representation.
    pub element_type: TensorElementType,
    /// Required elements per row.
    pub row_elements: usize,
    /// Inclusive row bound.
    pub maximum_rows: usize,
    /// Native access granted to the handler.
    pub access: TensorAccess,
    /// How native rows map to the submitted decode batch.
    pub row_mapping: TensorRowMapping,
    /// Whether the completed owned tensor is retained after decode.
    pub retain: bool,
}

/// Whether a graph-node name is nonempty, bounded and free of NUL.
pub open spec fn acceptable_name(name: Seq<char>) -> bool {
    &&& 0 < encode_utf8(name).len() <= MAX_TENSOR_NAME_BYTES
    &&& !encode_utf8(name).contains(0u8)
}

impl TensorSelectorView {
    /// The most elements that one invocation of the selected node may hold.
    pub open spec fn element_bound(self) -> int {
        self.row_elements * self.maximum_rows
    }

    /// Whether the row width and the row bound are usable.
    pub open spec fn acceptable_rows(self) -> bool {
        &&& self.row_elements > 0
        &&& 0 < self.maximum_rows <= MAX_TENSOR_ROWS
        &&& self.element_bound() <= MAX_TENSOR_ELEMENTS
    }

    /// Why a selector is refused, or nothing where it is accepted.
    pub open spec fn rejection(self) -> Option<Seq<char>> {
        if !acceptable_name(self.name) {
            Some("tensor name must be bounded, nonempty UTF-8 without NUL"@)
        } else if self.element_bound() > usize::MAX {
            Some("tensor element bound overflowed"@)
        } else if !self.acceptable_rows() {
            Some("tensor row shape is outside the supported bound"@)
        } else if self.access == TensorAccess::ReadWriteF32 && self.element_type
            != TensorElementType::F32 {
            Some("only f32 tensors support transactional write-back"@)
        } else {
            None
        }
    }

    /// Whether a selector is accepted.
    pub open spec fn valid(self) -> bool {
        &&& acceptable_name(self.name)
        &&& self.acceptable_rows()
        &&& self.access == TensorAccess::ReadWriteF32 ==> self.element_type
            == TensorElementType::F32
    }
}

/// The outcome of a check as seen by its caller: the bounded message of the refusal, if any.
pub open spec fn refused_with<T>(
    result: Result<T, TensorTransactionError>,
    rejection: Option<Seq<char>>,
) -> bool {
    match result {
        Ok(_) => rejection is None,
        Err(error) => rejection is Some && error@ == bounded_message(rejection->Some_0),
    }
}

/// Exact bounded graph-node contract.
#[derive(Debug, PartialEq, Eq)]
pub struct TensorSelector {
    name: String,
    element_type: TensorElementType,
    row_elements: usize,
    maximum_rows: usize,
    access: TensorAccess,
    row_mapping: TensorRowMapping,
    retain: bool,
}

impl View for TensorSelector {
    type V = TensorSelectorView;

    closed spec fn view(&self) -> TensorSelectorView {
        TensorSelectorView {
            name: self.name@,
            element_type: self.element_type,
            row_elements: self.row_elements,
            maximum_rows: self.maximum_rows,
            access: self.access,
            row_mapping: self.row_mapping,
            retain: self.retain,
        }
    }
}

/// Whether a name holds a NUL byte.
fn contains_nul(name: &str) -> (found: bool)
    ensures
        found == encode_utf8(name@).contains(0u8),
{
    let bytes = name.as_bytes();
    let mut i: usize = 0;
    while i < bytes.len()
        invariant
            i <= bytes.len(),
            bytes@ == encode_utf8(name@),
            forall|j: int| 0 <= j < i ==> bytes@[j] != 0,
        decreases bytes.len() - i,
    {
        if bytes[i] == 0 {
            assert(bytes@[i as int] == 0u8);
            return true;
        }
        i = i + 1;
    }
    false
}

/// Checks the contract that a selector states.
fn check_selector(
    name: &str,
    element_type: TensorElementType,
    row_elements: usize,
    maximum_rows: usize,
    access: TensorAccess,
    Ghost(view): Ghost<TensorSelectorView>,
) -> (result: Result<(), TensorTransactionError>)
    requires
        view.name == name@,
        view.element_type == element_type,
        view.row_elements == row_elements,
        view.maximum_rows == maximum_rows,
        view.access == access,
    ensures
        refused_with(result, view.rejection()),
{
    let length: usize = name.as_bytes().len();
    if length == 0 || length > MAX_TENSOR_NAME_BYTES || contains_nul(name) {
        return Err(
            TensorTransactionError::new("tensor name must be bounded, nonempty UTF-8 without NUL"),
        );
    }
    let elements: usize = match row_elements.checked_mul(maximum_rows) {
        Some(elements) => elements,
        None => return Err(TensorTransactionError::new("tensor element bound overflowed")),
    };
    if row_elements == 0 || maximum_rows == 0 || maximum_rows > MAX_TENSOR_ROWS || elements
        > MAX_TENSOR_ELEMENTS {
        return Err(TensorTransactionError::new("tensor row shape is outside the supported bound"));
    }
    if access == TensorAccess::ReadWriteF32 && element_type != TensorElementType::F32 {
        return Err(
            TensorTransactionError::new("only f32 tensors support transactional write-back"),
        );
    }
    Ok(())
}

impl TensorSelector {
    #[verifier::type_invariant]
    spec fn accepted(self) -> bool {
        self@.valid()
    }

    /// Constructs an exact tensor selector.
    ///
    /// An empty, NUL-containing or excessive name, unusable dimensions, an excessive element
    /// bound and mutable data that is not single-precision are refused.
    pub fn new(
        name: &str,
        element_type: TensorElementType,
        row_elements: usize,
        maximum_rows: usize,
        access: TensorAccess,
        row_mapping: TensorRowMapping,
        retain: bool,
    ) -> (result: Result<Self, TensorTransactionError>)
        ensures
            ({
                let wanted = TensorSelectorView {
                    name: name@,
                    element_type,
                    row_elements,
                    maximum_rows,
                    access,
                    row_mapping,
                    retain,
                };
                &&& refused_with(result, wanted.rejection())
                &&& result is Ok ==> result->Ok_0@ == wanted
            }),
    {
        let ghost wanted = TensorSelectorView {
            name: name@,
            element_type,
            row_elements,
            maximum_rows,
            access,
            row_mapping,
            retain,
        };
        match check_selector(
            name,
            element_type,
            row_elements,
            maximum_rows,
            access,
            Ghost(wanted),
        ) {
            Ok(()) => Ok(
                TensorSelector {
                    name: name.to_owned(),
                    element_type,
                    row_elements,
                    maximum_rows,
                    access,
                    row_mapping,
                    retain,
                },
            ),
            Err(error) => Err(error),
        }
    }

    /// Constructs one exact residual layer-output selector.
    ///
    /// The native graph names these nodes `l_out-{layer}`. The caller remains responsible for
    /// binding that naming profile to its backend revision.
    pub fn layer_output(
        layer: u32,
        row_elements: usize,
        maximum_rows: usize,
        access: TensorAccess,
        retain: bool,
    ) -> (result: Result<Self, TensorTransactionError>)
        ensures
            ({
                let wanted = TensorSelectorView {
                    name: layer_output_name(layer as nat),
                    element_type: TensorElementType::F32,
                    row_elements,
                    maximum_rows,
                    access,
                    row_mapping: TensorRowMapping::BatchTokens,
                    retain,
                };
                &&& refused_with(result, wanted.rejection())
                &&& result is Ok ==> result->Ok_0@ == wanted
            }),
    {
        let name = layer_name(layer as u64);
        TensorSelector::new(
            name.as_str(),
            TensorElementType::F32,
            row_elements,
            maximum_rows,
            access,
            TensorRowMapping::BatchTokens,
            retain,
        )
    }

    /// Returns the exact graph-node name.
    pub fn name(&self) -> (name: &str)
        ensures
            name@ == self@.name,
            acceptable_name(name@),
    {
        proof {
            use_type_invariant(self);
        }
        self.name.as_str()
    }

    /// Returns the required element representation.
    pub fn element_type(&self) -> (element_type: TensorElementType)
        ensures
            element_type == self@.element_type,
    {
        self.element_type
    }

    /// Returns the required elements per row.
    pub fn row_elements(&self) -> (row_elements: usize)
        ensures
            row_elements == self@.row_elements,
            row_elements > 0,
    {
        proof {
            use_type_invariant(self);
        }
        self.row_elements
    }

    /// Returns the inclusive row bound.
    pub fn maximum_rows(&self) -> (maximum_rows: usize)
        ensures
            maximum_rows == self@.maximum_rows,
            0 < maximum_rows <= MAX_TENSOR_ROWS,
    {
        proof {
            use_type_invariant(self);
        }
        self.maximum_rows
    }

    /// Returns native access granted to the handler.
    pub fn access(&self) -> (access: TensorAccess)
        ensures
            access == self@.access,
    {
        self.access
    }

    /// Returns how native rows map to the submitted decode batch.
    pub fn row_mapping(&self) -> (row_mapping: TensorRowMapping)
        ensures
            row_mapping == self@.row_mapping,
    {
        self.row_mapping
    }

    /// Returns whether the completed owned tensor is retained after decode.
    pub fn retains_capture(&self) -> (retain: bool)
        ensures
            retain == self@.retain,
    {
        self.retain
    }

    /// Checks the selector's contract, which every selector meets.
    pub fn validate(&self) -> (result: Result<(), TensorTransactionError>)
        ensures
            refused_with(result, self@.rejection()),
            result is Ok,
            self@.valid(),
    {
        proof {
            use_type_invariant(self);
        }
        check_selector(
            self.name.as_str(),
            self.element_type,
            self.row_elements,
            self.maximum_rows,
            self.access,
            Ghost(self@),
        )
    }
}

impl Clone for TensorSelector {
    fn clone(&self) -> (copy: Self)
        ensures
            copy@ == self@,
    {
        proof {
            use_type_invariant(self);
        }
        TensorSelector {
            name: self.name.clone(),
            element_type: self.element_type,
            row_elements: self.row_elements,
            maximum_rows: self.maximum_rows,
            access: self.access,
            row_mapping: self.row_mapping,
            retain: self.retain,
        }
    }
}

/// A selector is refused exactly where it breaks its contract: an accepted name, usable
/// bounded dimensions, and write-back for single-precision data only.
pub proof fn law_selectors_are_accepted_exactly_when_valid(selector: TensorSelectorView)
    ensures
        selector.rejection() is None <==> selector.valid(),
{
}

/// A selector is accepted exactly where its name has between one and 256 bytes and no NUL among
/// them, its rows are not empty, it allows between one and 4096 of them and no more than 16777216
/// elements in all, and it is single-precision where it is mutable.
pub proof fn law_selectors_are_accepted_exactly_within_their_bounds(selector: TensorSelectorView)
    ensures
        selector.rejection() is None <==> {
            let name = encode_utf8(selector.name);
            &&& 1 <= name.len() <= 256
            &&& forall|i: int| 0 <= i < name.len() ==> #[trigger] name[i] != 0
            &&& selector.row_elements >= 1
            &&& 1 <= selector.maximum_rows <= 4_096
            &&& selector.row_elements * selector.maximum_rows <= 16_777_216
            &&& selector.access == TensorAccess::ReadOnly || selector.element_type
                == TensorElementType::F32
        },
        selector.valid() <==> selector.rejection() is None,
{
    let name = encode_utf8(selector.name);
    if name.contains(0u8) {
        let i = choose|i: int| 0 <= i < name.len() && name[i] == 0u8;
        assert(name[i] == 0);
    }
    if exists|i: int| 0 <= i < name.len() && #[trigger] name[i] == 0 {
        let i = choose|i: int| 0 <= i < name.len() && #[trigger] name[i] == 0;
        assert(name.contains(name[i]));
    }
}

/// The refusal of a selector names the first rule that it breaks: its name, an element bound that
/// no machine word holds, its rows, and mutable data that is not single-precision.
pub proof fn law_selector_refusals_name_the_first_broken_rule(selector: TensorSelectorView)
    ensures
        ({
            let bytes = encode_utf8(selector.name);
            let named = 1 <= bytes.len() <= 256 && !bytes.contains(0u8);
            let elements = selector.row_elements * selector.maximum_rows;
            let shaped = selector.row_elements >= 1 && 1 <= selector.maximum_rows <= 4_096
                && elements <= 16_777_216;
            &&& !named ==> selector.rejection() == Some(
                "tensor name must be bounded, nonempty UTF-8 without NUL"@,
            )
            &&& named && elements > usize::MAX ==> selector.rejection() == Some(
                "tensor element bound overflowed"@,
            )
            &&& named && elements <= usize::MAX && !shaped ==> selector.rejection() == Some(
                "tensor row shape is outside the supported bound"@,
            )
            &&& named && shaped && selector.access == TensorAccess::ReadWriteF32
                && selector.element_type == TensorElementType::I32 ==> selector.rejection() == Some(
                "only f32 tensors support transactional write-back"@,
            )
        }),
{
}

/// Single-precision elements have the native code 0 and signed integers 26.
pub proof fn law_element_types_have_their_native_codes(element_type: TensorElementType)
    ensures
        element_type == TensorElementType::F32 <==> element_type.native_code() == 0,
        element_type == TensorElementType::I32 <==> element_type.native_code() == 26,
{
}

/// A check succeeds exactly where there is nothing to refuse, and otherwise its error carries the
/// refusal, cut to the message bound.
pub proof fn law_refusals_become_errors<T>(
    value: T,
    error: TensorTransactionError,
    message: Seq<char>,
)
    ensures
        refused_with(Ok::<T, TensorTransactionError>(value), None),
        !refused_with(Ok::<T, TensorTransactionError>(value), Some(message)),
        !refused_with(Err::<T, TensorTransactionError>(error), None),
        refused_with(Err::<T, TensorTransactionError>(error), Some(message)) <==> error@
            == bounded_message(message),
{
}

} // verus!
