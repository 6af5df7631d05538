//! The arguments of a call to a function of an on-chain package.

use vstd::prelude::*;
use crate::ids::ObjectId;

verus! {

/// What a call names: the package, the module and the function, the type
/// arguments in their canonical text form, and the arguments as JSON texts.
#[derive(Debug, PartialEq, Eq)]
pub struct MoveCallArgs {
    pub package: ObjectId,
    pub module: &'static str,
    pub function: &'static str,
    pub type_args: Vec<String>,
    pub call_args: Vec<String>,
}

/// The mathematical value of [`MoveCallArgs`].
pub struct MoveCallArgsView {
    pub package: ObjectId,
    pub module: Seq<char>,
    pub function: Seq<char>,
    pub type_args: Seq<Seq<char>>,
    pub call_args: Seq<Seq<char>>,
}

impl View for MoveCallArgs {
    type V = MoveCallArgsView;

    open spec fn view(&self) -> MoveCallArgsView {
        MoveCallArgsView {
            package: self.package,
            module: self.module@,
            function: self.function@,
            type_args: self.type_args.deep_view(),
            call_args: self.call_args.deep_view(),
        }
    }
}

impl DeepView for MoveCallArgs {
    type V = MoveCallArgsView;

    open spec fn deep_view(&self) -> MoveCallArgsView {
        self@
    }
}

/// Why a value could not be turned into call arguments.
#[derive(Clone, Debug, PartialEq, Eq)]
pub struct ArgsError {
    pub message: String,
}

impl View for ArgsError {
    type V = Seq<char>;

    open spec fn view(&self) -> Seq<char> {
        self.message@
    }
}

impl DeepView for ArgsError {
    type V = Seq<char>;

    open spec fn deep_view(&self) -> Seq<char> {
        self@
    }
}

/// A value that, with a configuration of type `C`, says which function to call
/// with which arguments.
pub trait TryIntoMoveCallArgs<C>: Sized {
    fn try_into_args(self, config: &C) -> Result<MoveCallArgs, ArgsError>;
}

} // verus!
