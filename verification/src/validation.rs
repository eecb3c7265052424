//! Validation of shader source before it is handed to the graphics device:
//! what the outcome of a check comes to.

use vstd::prelude::*;

verus! {

/// Why a shader source was turned down.
#[derive(Debug)]
pub enum ShaderError {
    /// The text is no WGSL module; the message says where it stops being
    /// one.
    Parse(String),
    /// The module is ill-typed or otherwise invalid; the message says how.
    Validate(String),
}

/// The mathematical value of a [`ShaderError`].
pub enum ShaderErrorView {
    Parse(Seq<char>),
    Validate(Seq<char>),
}

impl View for ShaderError {
    type V = ShaderErrorView;

    open spec fn view(&self) -> ShaderErrorView {
        match *self {
            ShaderError::Parse(message) => ShaderErrorView::Parse(message@),
            ShaderError::Validate(message) => ShaderErrorView::Validate(message@),
        }
    }
}

impl Clone for ShaderError {
    fn clone(&self) -> (copy: Self)
        ensures
            copy@ == self@,
    {
        match self {
            ShaderError::Parse(message) => ShaderError::Parse(message.clone()),
            ShaderError::Validate(message) => ShaderError::Validate(message.clone()),
        }
    }
}

impl ShaderError {
    /// The message of the error.
    pub fn message(&self) -> (message: String)
        ensures
            message@ == match self@ {
                ShaderErrorView::Parse(text) => text,
                ShaderErrorView::Validate(text) => text,
            },
    {
        match self {
            ShaderError::Parse(message) => message.clone(),
            ShaderError::Validate(message) => message.clone(),
        }
    }
}

/// The value of the outcome of a check: the error, if there is one.
pub open spec fn fault_view(outcome: Result<(), ShaderError>) -> Option<ShaderErrorView> {
    match outcome {
        Ok(_) => None,
        Err(error) => Some(error@),
    }
}

/// Copies the outcome of a check.
pub fn clone_outcome(outcome: &Result<(), ShaderError>) -> (copy: Result<(), ShaderError>)
    ensures
        fault_view(copy) == fault_view(*outcome),
{
    match outcome {
        Ok(_) => Ok(()),
        Err(error) => Err(error.clone()),
    }
}

/// The value of a validation's result: the text that passed, or the error.
pub open spec fn validated_view(checked: Result<String, ShaderError>) -> Result<
    Seq<char>,
    ShaderErrorView,
> {
    match checked {
        Ok(source) => Ok(source@),
        Err(error) => Err(error@),
    }
}

/// What validation returns for `source` when its check found `fault`.
pub open spec fn spec_conclude(source: Seq<char>, fault: Option<ShaderErrorView>) -> Result<
    Seq<char>,
    ShaderErrorView,
> {
    match fault {
        None => Ok(source),
        Some(error) => Err(error),
    }
}

/// Shader source that is checked before use. The check itself, parsing
/// and validating the text as a WGSL module, is the caller's; its outcome
/// decides here whether the source goes on to the graphics device.
pub trait CubensisValidatedShader: Sized {
    /// The WGSL text of the source.
    spec fn wgsl(&self) -> Seq<char>;

    /// The source itself where its check found nothing, else the error
    /// that the check found.
    fn validated(self, outcome: Result<(), ShaderError>) -> (checked: Result<Self, ShaderError>)
        ensures
            checked is Ok <==> outcome is Ok,
            checked is Ok ==> checked->Ok_0.wgsl() == self.wgsl(),
            checked is Err ==> Some(checked->Err_0@) == fault_view(outcome),
    ;
}

impl CubensisValidatedShader for String {
    open spec fn wgsl(&self) -> Seq<char> {
        self@
    }

    fn validated(self, outcome: Result<(), ShaderError>) -> (checked: Result<Self, ShaderError>)
        ensures
            validated_view(checked) == spec_conclude(self@, fault_view(outcome)),
    {
        match outcome {
            Ok(_) => Ok(self),
            Err(error) => Err(error),
        }
    }
}

} // verus!
