//! Bounded errors and contained callback failures.

use crate::message::{
    bound_message,
    bounded_message,
    encoded_len,
    law_cut_messages_are_bounded_prefixes,
    MAX_TENSOR_FAILURE_BYTES,
};
use vstd::prelude::*;
use vstd::string::*;

verus! {

/// Error returned by a tensor transaction handler or selector validator.
#[derive(Debug, PartialEq, Eq)]
pub struct TensorTransactionError {
    message: String,
}

impl View for TensorTransactionError {
    type V = Seq<char>;

    closed spec fn view(&self) -> Seq<char> {
        self.message@
    }
}

impl TensorTransactionError {
    #[verifier::type_invariant]
    spec fn bounded(self) -> bool {
        encoded_len(self.message@) <= MAX_TENSOR_FAILURE_BYTES
    }

    /// Creates a bounded transaction error.
    pub fn new(message: &str) -> (error: Self)
        ensures
            error@ == bounded_message(message@),
    {
        proof {
            law_cut_messages_are_bounded_prefixes(message@, MAX_TENSOR_FAILURE_BYTES as nat);
        }
        TensorTransactionError { message: bound_message(message) }
    }

    /// Returns the bounded failure message.
    pub fn message(&self) -> (message: &str)
        ensures
            message@ == self@,
            encoded_len(message@) <= MAX_TENSOR_FAILURE_BYTES,
    {
        proof {
            use_type_invariant(self);
        }
        self.message.as_str()
    }

    /// Writes the error as text: its message.
    pub fn to_string(&self) -> (text: String)
        ensures
            text@ == self@,
    {
        self.message.clone()
    }
}

impl Clone for TensorTransactionError {
    fn clone(&self) -> (copy: Self)
        ensures
            copy@ == self@,
    {
        proof {
            use_type_invariant(self);
        }
        TensorTransactionError { message: self.message.clone() }
    }
}

/// The mathematical content of a contained callback failure.
pub struct TensorCallbackFailureView {
    /// Exact tensor name, where the failure happened after selection.
    pub tensor: Option<Seq<char>>,
    /// Whether unwinding was contained.
    pub panicked: bool,
    /// The bounded message.
    pub message: Seq<char>,
}

impl TensorCallbackFailureView {
    /// The failure that carries a message cut to the failure bound.
    pub open spec fn new(tensor: Option<Seq<char>>, panicked: bool, message: Seq<char>) -> Self {
        TensorCallbackFailureView { tensor, panicked, message: bounded_message(message) }
    }

    /// The failure as text.
    pub open spec fn display(self) -> Seq<char> {
        let suffix = match self.tensor {
            Some(name) => " for "@ + name,
            None => Seq::<char>::empty(),
        };
        "tensor callback failed"@ + suffix + ": "@ + self.message
    }
}

/// Contained callback failure returned by a decode.
#[derive(Debug, PartialEq, Eq)]
pub struct TensorCallbackFailure {
    tensor: Option<String>,
    panicked: bool,
    message: String,
}

/// The text of an optional name.
pub open spec fn optional_text(text: Option<String>) -> Option<Seq<char>> {
    match text {
        Some(text) => Some(text@),
        None => None,
    }
}

/// The text of an optional borrowed name.
pub open spec fn optional_str(text: Option<&str>) -> Option<Seq<char>> {
    match text {
        Some(text) => Some(text@),
        None => None,
    }
}

impl View for TensorCallbackFailure {
    type V = TensorCallbackFailureView;

    closed spec fn view(&self) -> TensorCallbackFailureView {
        TensorCallbackFailureView {
            tensor: optional_text(self.tensor),
            panicked: self.panicked,
            message: self.message@,
        }
    }
}

impl TensorCallbackFailure {
    #[verifier::type_invariant]
    spec fn bounded(self) -> bool {
        encoded_len(self.message@) <= MAX_TENSOR_FAILURE_BYTES
    }

    /// Creates a failure with a message cut to the failure bound.
    pub fn new(tensor: Option<&str>, panicked: bool, message: &str) -> (failure: Self)
        ensures
            failure@ == TensorCallbackFailureView::new(optional_str(tensor), panicked, message@),
    {
        proof {
            law_cut_messages_are_bounded_prefixes(message@, MAX_TENSOR_FAILURE_BYTES as nat);
        }
        let tensor = match tensor {
            Some(name) => Some(name.to_owned()),
            None => None,
        };
        TensorCallbackFailure { tensor, panicked, message: bound_message(message) }
    }

    /// Returns the exact tensor name when failure happened after selection.
    pub fn tensor(&self) -> (tensor: Option<&str>)
        ensures
            optional_str(tensor) == self@.tensor,
    {
        match &self.tensor {
            Some(name) => Some(name.as_str()),
            None => None,
        }
    }

    /// Returns whether unwinding was contained.
    pub fn panicked(&self) -> (panicked: bool)
        ensures
            panicked == self@.panicked,
    {
        self.panicked
    }

    /// Returns the bounded failure message.
    pub fn message(&self) -> (message: &str)
        ensures
            message@ == self@.message,
            encoded_len(message@) <= MAX_TENSOR_FAILURE_BYTES,
    {
        proof {
            use_type_invariant(self);
        }
        self.message.as_str()
    }

    /// Writes the failure as text.
    pub fn to_string(&self) -> (text: String)
        ensures
            text@ == self@.display(),
    {
        let mut text = "tensor callback failed".to_owned();
        match &self.tensor {
            Some(name) => {
                text.append(" for ");
                text.append(name.as_str());
            },
            None => {},
        }
        text.append(": ");
        text.append(self.message.as_str());
        assert(text@ =~= self@.display());
        text
    }
}

impl Clone for TensorCallbackFailure {
    fn clone(&self) -> (copy: Self)
        ensures
            copy@ == self@,
    {
        proof {
            use_type_invariant(self);
        }
        let tensor = match &self.tensor {
            Some(name) => Some(name.clone()),
            None => None,
        };
        TensorCallbackFailure {
            tensor,
            panicked: self.panicked,
            message: self.message.clone(),
        }
    }
}

/// A failure carries the tensor, the panic mark and the message that it was made of; only the
/// message may be cut, to its bound.
pub proof fn law_failures_carry_what_they_were_made_of(
    tensor: Option<Seq<char>>,
    panicked: bool,
    message: Seq<char>,
)
    ensures
        TensorCallbackFailureView::new(tensor, panicked, message).tensor == tensor,
        TensorCallbackFailureView::new(tensor, panicked, message).panicked == panicked,
        TensorCallbackFailureView::new(tensor, panicked, message).message.is_prefix_of(message),
        encoded_len(TensorCallbackFailureView::new(tensor, panicked, message).message) <= 1_024,
        encoded_len(message) <= 1_024 ==> TensorCallbackFailureView::new(
            tensor,
            panicked,
            message,
        ).message == message,
{
    law_cut_messages_are_bounded_prefixes(message, MAX_TENSOR_FAILURE_BYTES as nat);
}

/// The text of a failure says that a callback failed, for which tensor where one is known, and
/// ends with the message.
pub proof fn law_failure_texts_name_the_tensor_and_the_message(
    panicked: bool,
    name: Seq<char>,
    message: Seq<char>,
)
    ensures
        (TensorCallbackFailureView { tensor: None, panicked, message }).display()
            == "tensor callback failed: "@ + message,
        (TensorCallbackFailureView { tensor: Some(name), panicked, message }).display()
            == "tensor callback failed for "@ + name + ": "@ + message,
{
    reveal_strlit("tensor callback failed");
    reveal_strlit(": ");
    reveal_strlit(" for ");
    reveal_strlit("tensor callback failed: ");
    reveal_strlit("tensor callback failed for ");
    assert((TensorCallbackFailureView { tensor: None, panicked, message }).display()
        =~= "tensor callback failed: "@ + message);
    assert((TensorCallbackFailureView { tensor: Some(name), panicked, message }).display()
        =~= "tensor callback failed for "@ + name + ": "@ + message);
}

/// A name that is there is seen as its text, and one that is not is seen as none.
pub proof fn law_optional_names_are_seen_as_their_texts(text: String, name: &str)
    ensures
        optional_text(Some(text)) == Some(text@),
        optional_text(None) is None,
        optional_str(Some(name)) == Some(name@),
        optional_str(None) is None,
{
}

} // verus!
