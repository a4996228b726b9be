//! The instructions of a method body: what one statement of the input
//! becomes, and the shapes that the opcode table gives to commands.

pub mod entries;
pub mod jimple;
pub mod laws;
pub mod optimization;
pub mod registers;
pub mod smali;
pub mod table;

use vstd::prelude::*;
use vstd::string::*;
use vstd::std_specs::convert::FromSpecImpl;
use crate::literal::{Literal, LiteralView};
use crate::types::{
    CallSignature, CallSignatureView, FieldSignature, FieldSignatureView, MethodSignature,
    MethodSignatureView, Type, TypeView,
};
use self::registers::{Register, Registers, RegistersView, Variable, VariableView};

verus! {

broadcast use vstd::string::group_string_axioms;

/// The kind of one positional parameter of a command.
#[derive(Debug, Clone, Copy, PartialEq, Eq, Structural)]
pub enum ParameterKind {
    Result,
    DefaultEmptyResult,
    Register,
    Registers,
    Literal,
    Label,
    Type,
    Field,
    Method,
    MethodHandle,
    Call,
    Data,
}

/// How the type of a command's result is found.
#[derive(Debug, Clone, Copy, PartialEq)]
pub enum ResultTypeDef {
    /// The command has no result.
    Nothing,
    Bool,
    Byte,
    Char,
    Short,
    Int,
    Long,
    Float,
    Double,
    Object(&'static str),
    From(usize),
    ElementFrom(usize),
    ReturnOf(usize),
    Exception,
}

pub enum ResultTypeDefView {
    Nothing,
    Bool,
    Byte,
    Char,
    Short,
    Int,
    Long,
    Float,
    Double,
    Object(Seq<char>),
    From(usize),
    ElementFrom(usize),
    ReturnOf(usize),
    Exception,
}

impl View for ResultTypeDef {
    type V = ResultTypeDefView;

    open spec fn view(&self) -> ResultTypeDefView {
        match self {
            ResultTypeDef::Nothing => ResultTypeDefView::Nothing,
            ResultTypeDef::Bool => ResultTypeDefView::Bool,
            ResultTypeDef::Byte => ResultTypeDefView::Byte,
            ResultTypeDef::Char => ResultTypeDefView::Char,
            ResultTypeDef::Short => ResultTypeDefView::Short,
            ResultTypeDef::Int => ResultTypeDefView::Int,
            ResultTypeDef::Long => ResultTypeDefView::Long,
            ResultTypeDef::Float => ResultTypeDefView::Float,
            ResultTypeDef::Double => ResultTypeDefView::Double,
            ResultTypeDef::Object(name) => ResultTypeDefView::Object(name@),
            ResultTypeDef::From(index) => ResultTypeDefView::From(*index),
            ResultTypeDef::ElementFrom(index) => ResultTypeDefView::ElementFrom(*index),
            ResultTypeDef::ReturnOf(index) => ResultTypeDefView::ReturnOf(*index),
            ResultTypeDef::Exception => ResultTypeDefView::Exception,
        }
    }
}

/// One entry of the opcode table: the parameters of a command in order, the
/// template that renders it, whether it takes the result of the command
/// before it, and how the type of its own result is found.
#[derive(Debug, Clone, Copy, PartialEq)]
pub struct InstructionDef {
    pub parameters: &'static [ParameterKind],
    pub format: &'static str,
    pub is_moved_result: bool,
    pub result_type: ResultTypeDef,
}

pub struct InstructionDefView {
    pub parameters: Seq<ParameterKind>,
    pub format: Seq<char>,
    pub is_moved_result: bool,
    pub result_type: ResultTypeDefView,
}

impl View for InstructionDef {
    type V = InstructionDefView;

    open spec fn view(&self) -> InstructionDefView {
        InstructionDefView {
            parameters: self.parameters@,
            format: self.format@,
            is_moved_result: self.is_moved_result,
            result_type: self.result_type@,
        }
    }
}

impl InstructionDef {
    /// The entry of a command without parameters, text or result.
    pub fn default() -> (r: Self)
        ensures
            r@ == (InstructionDefView {
                parameters: Seq::empty(),
                format: Seq::empty(),
                is_moved_result: false,
                result_type: ResultTypeDefView::Nothing,
            }),
    {
        let parameters: &'static [ParameterKind] = &[];
        assert(parameters@ =~= Seq::<ParameterKind>::empty());
        proof {
            reveal_strlit("");
            assert(""@ =~= Seq::<char>::empty());
        }
        InstructionDef {
            parameters,
            format: "",
            is_moved_result: false,
            result_type: ResultTypeDef::Nothing,
        }
    }
}

/// What a switch or array directive holds. A label stands for the directive
/// behind it until the directive has been found.
#[derive(Debug, PartialEq)]
pub enum CommandData {
    Label(String),
    PackedSwitch(i64, Vec<String>),
    SparseSwitch(Vec<(Literal, String)>),
    Array(Vec<Literal>),
}

pub enum CommandDataView {
    Label(Seq<char>),
    PackedSwitch(i64, Seq<Seq<char>>),
    SparseSwitch(Seq<(LiteralView, Seq<char>)>),
    Array(Seq<LiteralView>),
}

impl View for CommandData {
    type V = CommandDataView;

    open spec fn view(&self) -> CommandDataView {
        match self {
            CommandData::Label(label) => CommandDataView::Label(label@),
            CommandData::PackedSwitch(first_key, targets) => CommandDataView::PackedSwitch(
                *first_key,
                targets.deep_view(),
            ),
            CommandData::SparseSwitch(targets) => CommandDataView::SparseSwitch(
                targets.deep_view(),
            ),
            CommandData::Array(values) => CommandDataView::Array(values.deep_view()),
        }
    }
}

impl DeepView for CommandData {
    type V = CommandDataView;

    open spec fn deep_view(&self) -> CommandDataView {
        self@
    }
}

impl Clone for CommandData {
    fn clone(&self) -> (r: Self)
        ensures
            r@ == self@,
    {
        match self {
            CommandData::Label(label) => CommandData::Label(label.clone()),
            CommandData::PackedSwitch(first_key, targets) => {
                let mut copy: Vec<String> = Vec::new();
                let mut i: usize = 0;
                while i < targets.len()
                    invariant
                        i <= targets@.len(),
                        copy@.len() == i,
                        forall|j: int| 0 <= j < i ==> (#[trigger] copy@[j])@ == targets@[j]@,
                    decreases targets@.len() - i,
                {
                    copy.push(targets[i].clone());
                    i += 1;
                }
                assert(copy.deep_view() =~= targets.deep_view());
                CommandData::PackedSwitch(*first_key, copy)
            },
            CommandData::SparseSwitch(targets) => {
                let mut copy: Vec<(Literal, String)> = Vec::new();
                let mut i: usize = 0;
                while i < targets.len()
                    invariant
                        i <= targets@.len(),
                        copy@.len() == i,
                        forall|j: int|
                            0 <= j < i ==> (#[trigger] copy@[j]).deep_view()
                                == targets@[j].deep_view(),
                    decreases targets@.len() - i,
                {
                    copy.push((targets[i].0.clone(), targets[i].1.clone()));
                    i += 1;
                }
                assert(copy.deep_view() =~= targets.deep_view());
                CommandData::SparseSwitch(copy)
            },
            CommandData::Array(values) => {
                let mut copy: Vec<Literal> = Vec::new();
                let mut i: usize = 0;
                while i < values.len()
                    invariant
                        i <= values@.len(),
                        copy@.len() == i,
                        forall|j: int| 0 <= j < i ==> (#[trigger] copy@[j])@ == values@[j]@,
                    decreases values@.len() - i,
                {
                    copy.push(values[i].clone());
                    i += 1;
                }
                assert(copy.deep_view() =~= values.deep_view());
                CommandData::Array(copy)
            },
        }
    }
}

/// One positional argument of a command.
#[derive(Debug, PartialEq)]
pub enum CommandParameter {
    Result(Register),
    DefaultEmptyResult(Option<Register>),
    Register(Register),
    Variable(Variable),
    Registers(Registers),
    Literal(Literal),
    Label(String),
    Type(Type),
    Field(FieldSignature),
    Method(MethodSignature),
    MethodHandle(String, MethodSignature),
    Call(CallSignature),
    Data(CommandData),
}

pub enum CommandParameterView {
    Result(Register),
    DefaultEmptyResult(Option<Register>),
    Register(Register),
    Variable(VariableView),
    Registers(RegistersView),
    Literal(LiteralView),
    Label(Seq<char>),
    Type(TypeView),
    Field(FieldSignatureView),
    Method(MethodSignatureView),
    MethodHandle(Seq<char>, MethodSignatureView),
    Call(CallSignatureView),
    Data(CommandDataView),
}

impl View for CommandParameter {
    type V = CommandParameterView;

    open spec fn view(&self) -> CommandParameterView {
        match self {
            CommandParameter::Result(register) => CommandParameterView::Result(*register),
            CommandParameter::DefaultEmptyResult(register) => CommandParameterView::DefaultEmptyResult(
                *register,
            ),
            CommandParameter::Register(register) => CommandParameterView::Register(*register),
            CommandParameter::Variable(variable) => CommandParameterView::Variable(variable@),
            CommandParameter::Registers(registers) => CommandParameterView::Registers(registers@),
            CommandParameter::Literal(literal) => CommandParameterView::Literal(literal@),
            CommandParameter::Label(label) => CommandParameterView::Label(label@),
            CommandParameter::Type(class) => CommandParameterView::Type(class@),
            CommandParameter::Field(field) => CommandParameterView::Field(field@),
            CommandParameter::Method(method) => CommandParameterView::Method(method@),
            CommandParameter::MethodHandle(kind, method) => CommandParameterView::MethodHandle(
                kind@,
                method@,
            ),
            CommandParameter::Call(call) => CommandParameterView::Call(call@),
            CommandParameter::Data(data) => CommandParameterView::Data(data@),
        }
    }
}

impl DeepView for CommandParameter {
    type V = CommandParameterView;

    open spec fn deep_view(&self) -> CommandParameterView {
        self@
    }
}

impl Clone for CommandParameter {
    fn clone(&self) -> (r: Self)
        ensures
            r@ == self@,
    {
        match self {
            CommandParameter::Result(register) => CommandParameter::Result(*register),
            CommandParameter::DefaultEmptyResult(register) => CommandParameter::DefaultEmptyResult(
                *register,
            ),
            CommandParameter::Register(register) => CommandParameter::Register(*register),
            CommandParameter::Variable(variable) => CommandParameter::Variable(variable.clone()),
            CommandParameter::Registers(registers) => CommandParameter::Registers(
                registers.clone(),
            ),
            CommandParameter::Literal(literal) => CommandParameter::Literal(literal.clone()),
            CommandParameter::Label(label) => CommandParameter::Label(label.clone()),
            CommandParameter::Type(class) => CommandParameter::Type(class.clone()),
            CommandParameter::Field(field) => CommandParameter::Field(field.clone()),
            CommandParameter::Method(method) => CommandParameter::Method(method.clone()),
            CommandParameter::MethodHandle(kind, method) => CommandParameter::MethodHandle(
                kind.clone(),
                method.clone(),
            ),
            CommandParameter::Call(call) => CommandParameter::Call(call.clone()),
            CommandParameter::Data(data) => CommandParameter::Data(data.clone()),
        }
    }
}

/// One statement of a method body.
#[derive(Debug, PartialEq)]
pub enum Instruction {
    LineNumber(i64, i64),
    Label(String),
    Command { command: String, parameters: Vec<CommandParameter> },
    Catch { exception: Option<Type>, start_label: String, end_label: String, target: String },
    Local { register: String, name: Literal, local_type: Type },
    LocalRestart { register: String },
    Data(CommandData),
}

pub enum InstructionView {
    LineNumber(i64, i64),
    Label(Seq<char>),
    Command { command: Seq<char>, parameters: Seq<CommandParameterView> },
    Catch {
        exception: Option<TypeView>,
        start_label: Seq<char>,
        end_label: Seq<char>,
        target: Seq<char>,
    },
    Local { register: Seq<char>, name: LiteralView, local_type: TypeView },
    LocalRestart { register: Seq<char> },
    Data(CommandDataView),
}

impl View for Instruction {
    type V = InstructionView;

    open spec fn view(&self) -> InstructionView {
        match self {
            Instruction::LineNumber(from, to) => InstructionView::LineNumber(*from, *to),
            Instruction::Label(label) => InstructionView::Label(label@),
            Instruction::Command { command, parameters } => InstructionView::Command {
                command: command@,
                parameters: parameters.deep_view(),
            },
            Instruction::Catch { exception, start_label, end_label, target } => InstructionView::Catch {
                exception: exception.deep_view(),
                start_label: start_label@,
                end_label: end_label@,
                target: target@,
            },
            Instruction::Local { register, name, local_type } => InstructionView::Local {
                register: register@,
                name: name@,
                local_type: local_type@,
            },
            Instruction::LocalRestart { register } => InstructionView::LocalRestart {
                register: register@,
            },
            Instruction::Data(data) => InstructionView::Data(data@),
        }
    }
}

impl DeepView for Instruction {
    type V = InstructionView;

    open spec fn deep_view(&self) -> InstructionView {
        self@
    }
}

impl InstructionView {
    pub open spec fn is_command(self) -> bool {
        self is Command
    }
}

impl Instruction {
    pub fn is_command(&self) -> (r: bool)
        ensures
            r == self@.is_command(),
    {
        matches!(self, Instruction::Command { .. })
    }
}

/// The type of what a command leaves in its result register: a type, or the
/// literal itself where the result is a constant.
#[derive(Debug, PartialEq)]
pub enum ResultType {
    Type(Type),
    Literal(Literal),
}

pub enum ResultTypeView {
    Type(TypeView),
    Literal(LiteralView),
}

impl View for ResultType {
    type V = ResultTypeView;

    open spec fn view(&self) -> ResultTypeView {
        match self {
            ResultType::Type(held) => ResultTypeView::Type(held@),
            ResultType::Literal(literal) => ResultTypeView::Literal(literal@),
        }
    }
}

impl DeepView for ResultType {
    type V = ResultTypeView;

    open spec fn deep_view(&self) -> ResultTypeView {
        self@
    }
}

impl Clone for ResultType {
    fn clone(&self) -> (r: Self)
        ensures
            r@ == self@,
    {
        match self {
            ResultType::Type(held) => ResultType::Type(held.clone()),
            ResultType::Literal(literal) => ResultType::Literal(literal.clone()),
        }
    }
}

impl From<Type> for ResultType {
    fn from(value: Type) -> (r: Self) {
        ResultType::Type(value)
    }
}

impl FromSpecImpl<Type> for ResultType {
    open spec fn obeys_from_spec() -> bool {
        true
    }

    open spec fn from_spec(value: Type) -> Self {
        ResultType::Type(value)
    }
}

impl From<Literal> for ResultType {
    fn from(value: Literal) -> (r: Self) {
        ResultType::Literal(value)
    }
}

impl FromSpecImpl<Literal> for ResultType {
    open spec fn obeys_from_spec() -> bool {
        true
    }

    open spec fn from_spec(value: Literal) -> Self {
        ResultType::Literal(value)
    }
}

impl From<&Type> for ResultType {
    fn from(value: &Type) -> (r: Self)
        ensures
            r@ == ResultTypeView::Type(value@),
    {
        ResultType::Type(value.clone())
    }
}

impl FromSpecImpl<&Type> for ResultType {
    open spec fn obeys_from_spec() -> bool {
        false
    }

    open spec fn from_spec(value: &Type) -> Self {
        ResultType::Type(*value)
    }
}

impl From<&Literal> for ResultType {
    fn from(value: &Literal) -> (r: Self)
        ensures
            r@ == ResultTypeView::Literal(value@),
    {
        ResultType::Literal(value.clone())
    }
}

impl FromSpecImpl<&Literal> for ResultType {
    open spec fn obeys_from_spec() -> bool {
        false
    }

    open spec fn from_spec(value: &Literal) -> Self {
        ResultType::Literal(*value)
    }
}

} // verus!
