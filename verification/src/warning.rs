//! Advisory diagnostics. None of them stops the work: each names a
//! condition for which the output holds a fallback.

use vstd::prelude::*;
use vstd::string::*;
use crate::instruction::registers::Register;

verus! {

broadcast use vstd::string::group_string_axioms;

#[derive(Debug, PartialEq)]
pub enum Warning {
    /// A register range runs from a parameter to a local or the other way.
    InvalidRange { from: Register, to: Register },
    /// A call that needs a receiver names no register at all.
    MissingReceiver { command: String },
    /// A mnemonic that should encode an operator encodes none that is known.
    UnrecognizedOperation { command: String },
    /// A command refers to a data block that the method does not hold.
    UnresolvedData { label: String },
    /// A data block that no label stands in front of.
    DataWithoutLabel { method: String },
    /// A moved result that no preceding command could take.
    FailedInlining { method: String },
    /// A register is read whose type no earlier instruction has set.
    UnknownRegisterType { register: Register },
    /// A result type is asked of a parameter that has none.
    UntypedParameter { command: String },
    /// An element type is asked of a value that is no array.
    NotAnArray { command: String },
    /// A return type is asked of a value that is no call.
    NotACall { command: String },
}

/// What a [`Warning`] stands for.
pub enum WarningView {
    InvalidRange { from: Register, to: Register },
    MissingReceiver { command: Seq<char> },
    UnrecognizedOperation { command: Seq<char> },
    UnresolvedData { label: Seq<char> },
    DataWithoutLabel { method: Seq<char> },
    FailedInlining { method: Seq<char> },
    UnknownRegisterType { register: Register },
    UntypedParameter { command: Seq<char> },
    NotAnArray { command: Seq<char> },
    NotACall { command: Seq<char> },
}

impl View for Warning {
    type V = WarningView;

    open spec fn view(&self) -> WarningView {
        match self {
            Warning::InvalidRange { from, to } => WarningView::InvalidRange { from: *from, to: *to },
            Warning::MissingReceiver { command } => WarningView::MissingReceiver {
                command: command@,
            },
            Warning::UnrecognizedOperation { command } => WarningView::UnrecognizedOperation {
                command: command@,
            },
            Warning::UnresolvedData { label } => WarningView::UnresolvedData { label: label@ },
            Warning::DataWithoutLabel { method } => WarningView::DataWithoutLabel {
                method: method@,
            },
            Warning::FailedInlining { method } => WarningView::FailedInlining { method: method@ },
            Warning::UnknownRegisterType { register } => WarningView::UnknownRegisterType {
                register: *register,
            },
            Warning::UntypedParameter { command } => WarningView::UntypedParameter {
                command: command@,
            },
            Warning::NotAnArray { command } => WarningView::NotAnArray { command: command@ },
            Warning::NotACall { command } => WarningView::NotACall { command: command@ },
        }
    }
}

impl DeepView for Warning {
    type V = WarningView;

    open spec fn deep_view(&self) -> WarningView {
        self@
    }
}

impl WarningView {
    /// The line that the diagnostic stream shows for the warning.
    pub open spec fn message(self) -> Seq<char> {
        match self {
            WarningView::InvalidRange { from, to } => "Warning: Invalid parameter range: "@
                + from.text() + " .. "@ + to.text(),
            WarningView::MissingReceiver { command } => "Warning: non-static call "@ + command
                + " has zero parameters"@,
            WarningView::UnrecognizedOperation { command } => "Warning: Unrecognized operation "@
                + command,
            WarningView::UnresolvedData { label } => "Warning: Failed resolving command data "@
                + label,
            WarningView::DataWithoutLabel { method } =>
                "Warning: Data block not preceded by a label in method <"@ + method + "()>"@,
            WarningView::FailedInlining { method } => "Warning: Failed inlining result in method <"@
                + method + "()>"@,
            WarningView::UnknownRegisterType { register } => "Warning: Using register "@
                + register.text() + ", yet its type isn't known yet."@,
            WarningView::UntypedParameter { command } =>
                "Warning: Trying to deduce type from unexpected parameter of "@ + command,
            WarningView::NotAnArray { command } =>
                "Warning: Trying to deduce element type from non-array parameter of "@ + command,
            WarningView::NotACall { command } =>
                "Warning: Trying to deduce return type from a non-call parameter of "@ + command,
        }
    }
}

impl Warning {
    pub fn to_string(&self) -> (r: String)
        ensures
            r@ == self@.message(),
    {
        match self {
            Warning::InvalidRange { from, to } => {
                let mut r = "Warning: Invalid parameter range: ".to_owned();
                r.append(from.to_string().as_str());
                r.append(" .. ");
                r.append(to.to_string().as_str());
                r
            },
            Warning::MissingReceiver { command } => {
                let mut r = "Warning: non-static call ".to_owned();
                r.append(command.as_str());
                r.append(" has zero parameters");
                r
            },
            Warning::UnrecognizedOperation { command } => {
                let mut r = "Warning: Unrecognized operation ".to_owned();
                r.append(command.as_str());
                r
            },
            Warning::UnresolvedData { label } => {
                let mut r = "Warning: Failed resolving command data ".to_owned();
                r.append(label.as_str());
                r
            },
            Warning::DataWithoutLabel { method } => {
                let mut r = "Warning: Data block not preceded by a label in method <".to_owned();
                r.append(method.as_str());
                r.append("()>");
                r
            },
            Warning::FailedInlining { method } => {
                let mut r = "Warning: Failed inlining result in method <".to_owned();
                r.append(method.as_str());
                r.append("()>");
                r
            },
            Warning::UnknownRegisterType { register } => {
                let mut r = "Warning: Using register ".to_owned();
                r.append(register.to_string().as_str());
                r.append(", yet its type isn't known yet.");
                r
            },
            Warning::UntypedParameter { command } => {
                let mut r = "Warning: Trying to deduce type from unexpected parameter of ".to_owned();
                r.append(command.as_str());
                r
            },
            Warning::NotAnArray { command } => {
                let mut r =
                    "Warning: Trying to deduce element type from non-array parameter of ".to_owned();
                r.append(command.as_str());
                r
            },
            Warning::NotACall { command } => {
                let mut r =
                    "Warning: Trying to deduce return type from a non-call parameter of ".to_owned();
                r.append(command.as_str());
                r
            },
        }
    }
}

} // verus!
