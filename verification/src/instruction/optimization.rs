//! What the rewriting of a method body does to a single instruction: the
//! resolving of data labels, the taking of a moved result, the result of a
//! checked cast, and the types of results.

use vstd::prelude::*;
use vstd::string::*;
use crate::literal::{Literal, LiteralView};
use crate::text::str_eq;
use crate::types::{CallSignatureView, MethodSignatureView, Type, TypeView};
use crate::warning::{Warning, WarningView};
use super::registers::Register;
use super::table::{definition, instruction_def};
use super::{
    CommandData, CommandDataView, CommandParameter, CommandParameterView, Instruction,
    InstructionView, ResultType, ResultTypeDef, ResultTypeDefView, ResultTypeView,
};

verus! {

broadcast use vstd::string::group_string_axioms;

/// The data blocks of a method, each under the label that stood in front of
/// it. Of two blocks under one label the later one counts.
#[derive(Debug)]
pub struct DataTable {
    entries: Vec<(String, CommandData)>,
}

/// The map that a list of labelled blocks stands for.
pub open spec fn labelled(entries: Seq<(Seq<char>, CommandDataView)>) -> Map<
    Seq<char>,
    CommandDataView,
>
    decreases entries.len(),
{
    if entries.len() == 0 {
        Map::empty()
    } else {
        labelled(entries.drop_last()).insert(entries.last().0, entries.last().1)
    }
}

impl View for DataTable {
    type V = Map<Seq<char>, CommandDataView>;

    closed spec fn view(&self) -> Map<Seq<char>, CommandDataView> {
        labelled(self.entries.deep_view())
    }
}

impl DataTable {
    pub fn new() -> (r: Self)
        ensures
            r@ == Map::<Seq<char>, CommandDataView>::empty(),
    {
        let entries: Vec<(String, CommandData)> = Vec::new();
        assert(entries.deep_view() =~= Seq::<(Seq<char>, CommandDataView)>::empty());
        DataTable { entries }
    }

    pub fn insert(&mut self, label: String, data: CommandData)
        ensures
            final(self)@ == old(self)@.insert(label@, data@),
    {
        let ghost before = self.entries.deep_view();
        let ghost added = (label@, data@);
        self.entries.push((label, data));
        assert(self.entries.deep_view() =~= before.push(added));
        assert(self.entries.deep_view().drop_last() =~= before);
    }

    /// The block under `label`, where there is one.
    pub fn get(&self, label: &str) -> (r: Option<&CommandData>)
        ensures
            match r {
                Some(data) => self@.contains_key(label@) && self@[label@] == data@,
                None => !self@.contains_key(label@),
            },
    {
        let mut i: usize = self.entries.len();
        let ghost all = self.entries.deep_view();
        assert(all.take(i as int) == all);
        while i > 0
            invariant
                i <= self.entries@.len(),
                all == self.entries.deep_view(),
                labelled(all).contains_key(label@) == labelled(all.take(i as int)).contains_key(
                    label@,
                ),
                labelled(all).contains_key(label@) ==> labelled(all)[label@] == labelled(
                    all.take(i as int),
                )[label@],
            decreases i,
        {
            i -= 1;
            assert(all.take(i + 1).drop_last() == all.take(i as int));
            assert(all.take(i + 1).last() == all[i as int]);
            if str_eq(self.entries[i].0.as_str(), label) {
                return Some(&self.entries[i].1);
            }
        }
        None
    }
}

/// The types of what the registers hold, as far as they are known.
#[derive(Debug)]
pub struct RegisterTypes {
    entries: Vec<(Register, ResultType)>,
}

/// The map that a list of typed registers stands for.
pub open spec fn typed(entries: Seq<(Register, ResultTypeView)>) -> Map<Register, ResultTypeView>
    decreases entries.len(),
{
    if entries.len() == 0 {
        Map::empty()
    } else {
        typed(entries.drop_last()).insert(entries.last().0, entries.last().1)
    }
}

impl View for RegisterTypes {
    type V = Map<Register, ResultTypeView>;

    closed spec fn view(&self) -> Map<Register, ResultTypeView> {
        typed(self.entries.deep_view())
    }
}

impl RegisterTypes {
    pub fn new() -> (r: Self)
        ensures
            r@ == Map::<Register, ResultTypeView>::empty(),
    {
        let entries: Vec<(Register, ResultType)> = Vec::new();
        assert(entries.deep_view() =~= Seq::<(Register, ResultTypeView)>::empty());
        RegisterTypes { entries }
    }

    pub fn insert(&mut self, register: Register, held: ResultType)
        ensures
            final(self)@ == old(self)@.insert(register, held@),
    {
        let ghost before = self.entries.deep_view();
        let ghost added = (register, held@);
        self.entries.push((register, held));
        assert(self.entries.deep_view() =~= before.push(added));
        assert(self.entries.deep_view().drop_last() =~= before);
    }

    /// The type of what `register` holds, where it is known.
    pub fn get(&self, register: &Register) -> (r: Option<&ResultType>)
        ensures
            match r {
                Some(held) => self@.contains_key(*register) && self@[*register] == held@,
                None => !self@.contains_key(*register),
            },
    {
        let mut i: usize = self.entries.len();
        let ghost all = self.entries.deep_view();
        assert(all.take(i as int) == all);
        while i > 0
            invariant
                i <= self.entries@.len(),
                all == self.entries.deep_view(),
                typed(all).contains_key(*register) == typed(all.take(i as int)).contains_key(
                    *register,
                ),
                typed(all).contains_key(*register) ==> typed(all)[*register] == typed(
                    all.take(i as int),
                )[*register],
            decreases i,
        {
            i -= 1;
            assert(all.take(i + 1).drop_last() == all.take(i as int));
            assert(all.take(i + 1).last() == all[i as int]);
            if self.entries[i].0 == *register {
                return Some(&self.entries[i].1);
            }
        }
        None
    }
}

impl CommandParameterView {
    /// The parameter with its data label replaced by the block under that
    /// label, where the parameter is such a label and the method holds such
    /// a block.
    pub open spec fn resolve(self, table: Map<Seq<char>, CommandDataView>) -> CommandParameterView {
        match self {
            CommandParameterView::Data(CommandDataView::Label(label)) => if table.contains_key(
                label,
            ) {
                CommandParameterView::Data(table[label])
            } else {
                self
            },
            _ => self,
        }
    }

    /// What resolving the parameter warns of: a data label without a block.
    pub open spec fn unresolved(self, table: Map<Seq<char>, CommandDataView>) -> Seq<WarningView> {
        match self {
            CommandParameterView::Data(CommandDataView::Label(label)) => if table.contains_key(
                label,
            ) {
                Seq::empty()
            } else {
                seq![WarningView::UnresolvedData { label }]
            },
            _ => Seq::empty(),
        }
    }
}

/// The warnings of resolving the first `n` of some parameters, in order.
pub open spec fn unresolved_among(
    parameters: Seq<CommandParameterView>,
    table: Map<Seq<char>, CommandDataView>,
    n: int,
) -> Seq<WarningView>
    decreases n,
{
    if n <= 0 {
        Seq::empty()
    } else {
        unresolved_among(parameters, table, n - 1) + parameters[n - 1].unresolved(table)
    }
}

impl InstructionView {
    /// The register that the instruction moves a result to, where it is a
    /// command that takes the result of the command before it.
    pub open spec fn moved_result(self) -> Option<Register> {
        match self {
            InstructionView::Command { command, parameters } => match definition(command) {
                Some(def) => if def.is_moved_result && parameters.len() > 0 {
                    match parameters[0] {
                        CommandParameterView::Result(result) => Some(result),
                        _ => None,
                    }
                } else {
                    None
                },
                None => None,
            },
            _ => None,
        }
    }

    /// Whether the instruction is a command whose optional result is still
    /// empty.
    pub open spec fn takes_result(self) -> bool {
        match self {
            InstructionView::Command { command, parameters } => parameters.len() > 0
                && parameters[0] == CommandParameterView::DefaultEmptyResult(None),
            _ => false,
        }
    }

    /// The instruction with `result` in its optional result, where that was
    /// empty.
    pub open spec fn with_result(self, result: Register) -> InstructionView {
        match self {
            InstructionView::Command { command, parameters } => if self.takes_result() {
                InstructionView::Command {
                    command,
                    parameters: parameters.update(
                        0,
                        CommandParameterView::DefaultEmptyResult(Some(result)),
                    ),
                }
            } else {
                self
            },
            _ => self,
        }
    }

    /// The instruction with every data label replaced that the table holds
    /// a block for.
    pub open spec fn resolve(self, table: Map<Seq<char>, CommandDataView>) -> InstructionView {
        match self {
            InstructionView::Command { command, parameters } => InstructionView::Command {
                command,
                parameters: parameters.map_values(|p: CommandParameterView| p.resolve(table)),
            },
            _ => self,
        }
    }

    /// What resolving the instruction warns of: each data label that the
    /// table holds no block for, in order.
    pub open spec fn unresolved(self, table: Map<Seq<char>, CommandDataView>) -> Seq<WarningView> {
        match self {
            InstructionView::Command { command, parameters } => unresolved_among(
                parameters,
                table,
                parameters.len() as int,
            ),
            _ => Seq::empty(),
        }
    }

    /// The register that a checked cast without a result works on.
    pub open spec fn cast_operand(self) -> Option<Register> {
        match self {
            InstructionView::Command { command, parameters } => if command == "check-cast"@
                && parameters.len() >= 2 && parameters[0]
                == CommandParameterView::DefaultEmptyResult(None) {
                match parameters[1] {
                    CommandParameterView::Register(register) => Some(register),
                    _ => None,
                }
            } else {
                None
            },
            _ => None,
        }
    }

    /// The instruction with the result of a checked cast put in: a cast
    /// leaves its result in the register that it works on.
    pub open spec fn fix_check_cast(self) -> InstructionView {
        match self.cast_operand() {
            Some(register) => InstructionView::Command {
                command: self->command,
                parameters: self->parameters.update(
                    0,
                    CommandParameterView::DefaultEmptyResult(Some(register)),
                ),
            },
            None => self,
        }
    }

    /// The label that the instruction may jump to: its first label
    /// parameter.
    pub open spec fn jump_target(self) -> Option<Seq<char>> {
        match self {
            InstructionView::Command { command, parameters } => first_label(parameters, 0),
            _ => None,
        }
    }
}

/// The first label among the parameters from `from` on.
pub open spec fn first_label(parameters: Seq<CommandParameterView>, from: int) -> Option<Seq<char>>
    decreases parameters.len() - from,
{
    if from < 0 || from >= parameters.len() {
        None
    } else {
        match parameters[from] {
            CommandParameterView::Label(label) => Some(label),
            _ => first_label(parameters, from + 1),
        }
    }
}

impl Instruction {
    pub fn get_moved_result(&self) -> (r: Option<Register>)
        ensures
            r == self@.moved_result(),
    {
        match self {
            Instruction::Command { command, parameters } => {
                match instruction_def(command.as_str()) {
                    Some(def) => {
                        if def.is_moved_result && parameters.len() > 0 {
                            match &parameters[0] {
                                CommandParameter::Result(result) => Some(*result),
                                _ => None,
                            }
                        } else {
                            None
                        }
                    },
                    None => None,
                }
            },
            _ => None,
        }
    }

    /// Puts `r` in the optional result of the command, where that is empty,
    /// and says whether it did.
    pub fn inline_result(&mut self, r: Register) -> (done: bool)
        ensures
            done == old(self)@.takes_result(),
            final(self)@ == old(self)@.with_result(r),
    {
        match self {
            Instruction::Command { command, parameters } => {
                if parameters.len() > 0 {
                    let empty = match &parameters[0] {
                        CommandParameter::DefaultEmptyResult(None) => true,
                        _ => false,
                    };
                    if empty {
                        let ghost before = parameters.deep_view();
                        parameters.set(0, CommandParameter::DefaultEmptyResult(Some(r)));
                        assert(parameters.deep_view() =~= before.update(
                            0,
                            CommandParameterView::DefaultEmptyResult(Some(r)),
                        ));
                        return true;
                    }
                }
                false
            },
            _ => false,
        }
    }

    /// Replaces each data label of the command by the block that the table
    /// holds under it, and warns of each label without a block.
    pub fn resolve_data(&mut self, d: &DataTable, warnings: &mut Vec<Warning>)
        ensures
            final(self)@ == old(self)@.resolve(d@),
            final(warnings).deep_view() == old(warnings).deep_view() + old(self)@.unresolved(d@),
    {
        match self {
            Instruction::Command { command, parameters } => {
                let ghost before = parameters.deep_view();
                let ghost warned = warnings.deep_view();
                let mut i: usize = 0;
                assert(warned + unresolved_among(before, d@, 0) =~= warned);
                while i < parameters.len()
                    invariant
                        i <= parameters@.len(),
                        parameters@.len() == before.len(),
                        forall|j: int|
                            0 <= j < i ==> (#[trigger] parameters.deep_view()[j])
                                == before[j].resolve(d@),
                        forall|j: int|
                            i <= j < before.len() ==> (#[trigger] parameters.deep_view()[j])
                                == before[j],
                        warnings.deep_view() == warned + unresolved_among(before, d@, i as int),
                    decreases parameters@.len() - i,
                {
                    let ghost views = parameters.deep_view();
                    let ghost so_far = warnings.deep_view();
                    assert(views[i as int] == before[i as int]);
                    let replacement: Option<CommandData> = match &parameters[i] {
                        CommandParameter::Data(CommandData::Label(label)) => {
                            match d.get(label.as_str()) {
                                Some(data) => Some(data.clone()),
                                None => {
                                    warnings.push(Warning::UnresolvedData { label: label.clone() });
                                    assert(warnings.deep_view() =~= so_far + seq![
                                        WarningView::UnresolvedData { label: label@ },
                                    ]);
                                    None
                                },
                            }
                        },
                        _ => {
                            assert(so_far + Seq::<WarningView>::empty() =~= so_far);
                            None
                        },
                    };
                    assert(warnings.deep_view() == so_far + before[i as int].unresolved(d@)) by {
                        if replacement is Some {
                            assert(so_far + Seq::<WarningView>::empty() =~= so_far);
                        }
                    }
                    assert(warnings.deep_view() =~= warned + (unresolved_among(before, d@, i as int)
                        + before[i as int].unresolved(d@)));
                    match replacement {
                        Some(data) => {
                            let ghost added = CommandParameterView::Data(data@);
                            parameters.set(i, CommandParameter::Data(data));
                            assert(parameters.deep_view() =~= views.update(i as int, added));
                        },
                        None => {},
                    }
                    i += 1;
                }
                assert(parameters.deep_view() =~= before.map_values(
                    |p: CommandParameterView| p.resolve(d@),
                ));
            },
            _ => {
                assert(warnings.deep_view() + Seq::<WarningView>::empty() =~= warnings.deep_view());
            },
        }
    }

    /// Puts the result of a checked cast in, where nothing has taken it.
    pub fn fix_check_cast(&mut self)
        ensures
            final(self)@ == old(self)@.fix_check_cast(),
    {
        match self {
            Instruction::Command { command, parameters } => {
                if !str_eq(command.as_str(), "check-cast") {
                    return ;
                }
                if parameters.len() >= 2 {
                    let operand = match (&parameters[0], &parameters[1]) {
                        (
                            CommandParameter::DefaultEmptyResult(None),
                            CommandParameter::Register(register),
                        ) => Some(*register),
                        _ => None,
                    };
                    match operand {
                        Some(register) => {
                            let ghost before = parameters.deep_view();
                            parameters.set(0, CommandParameter::DefaultEmptyResult(Some(register)));
                            assert(parameters.deep_view() =~= before.update(
                                0,
                                CommandParameterView::DefaultEmptyResult(Some(register)),
                            ));
                        },
                        None => {},
                    }
                }
            },
            _ => {},
        }
    }

    pub fn get_jump_target(&self) -> (r: Option<String>)
        ensures
            r.deep_view() == self@.jump_target(),
    {
        match self {
            Instruction::Command { command, parameters } => {
                let mut i: usize = 0;
                while i < parameters.len()
                    invariant
                        i <= parameters@.len(),
                        self@.jump_target() == first_label(parameters.deep_view(), 0),
                        first_label(parameters.deep_view(), 0) == first_label(
                            parameters.deep_view(),
                            i as int,
                        ),
                    decreases parameters@.len() - i,
                {
                    assert(parameters.deep_view()[i as int] == parameters@[i as int]@);
                    match &parameters[i] {
                        CommandParameter::Label(label) => {
                            return Some(label.clone());
                        },
                        _ => {},
                    }
                    i += 1;
                }
                None
            },
            _ => None,
        }
    }
}

/// The type of what a parameter stands for, as far as it has one: what a
/// register holds, a literal itself, a type, the type of a field, or a
/// method, method handle or method type as the literal it is.
pub open spec fn parameter_type(
    parameter: CommandParameterView,
    state: Map<Register, ResultTypeView>,
) -> Option<ResultTypeView> {
    match parameter {
        CommandParameterView::Result(register)
        | CommandParameterView::DefaultEmptyResult(Some(register))
        | CommandParameterView::Register(register) => if state.contains_key(register) {
            Some(state[register])
        } else {
            None
        },
        CommandParameterView::DefaultEmptyResult(None) => None,
        CommandParameterView::Literal(literal) => Some(ResultTypeView::Literal(literal)),
        CommandParameterView::Type(held) => Some(ResultTypeView::Type(held)),
        CommandParameterView::Field(field) => Some(ResultTypeView::Type(field.field_type)),
        CommandParameterView::Method(method) => Some(
            ResultTypeView::Literal(LiteralView::Method(method)),
        ),
        CommandParameterView::MethodHandle(kind, method) => Some(
            ResultTypeView::Literal(LiteralView::MethodHandle(kind, method)),
        ),
        CommandParameterView::Call(call) => Some(
            ResultTypeView::Literal(LiteralView::MethodType(call)),
        ),
        CommandParameterView::Variable(_)
        | CommandParameterView::Registers(_)
        | CommandParameterView::Label(_)
        | CommandParameterView::Data(_) => None,
    }
}

/// What asking a parameter for its type warns of: a register whose type is
/// not known, or a parameter that has no type.
pub open spec fn parameter_type_warnings(
    parameter: CommandParameterView,
    state: Map<Register, ResultTypeView>,
    command: Seq<char>,
) -> Seq<WarningView> {
    match parameter {
        CommandParameterView::Result(register)
        | CommandParameterView::DefaultEmptyResult(Some(register))
        | CommandParameterView::Register(register) => if state.contains_key(register) {
            Seq::empty()
        } else {
            seq![WarningView::UnknownRegisterType { register }]
        },
        CommandParameterView::Variable(_)
        | CommandParameterView::Registers(_)
        | CommandParameterView::Label(_)
        | CommandParameterView::Data(_) => seq![WarningView::UntypedParameter { command }],
        _ => Seq::empty(),
    }
}

/// The type of the elements of an array type.
pub open spec fn element_type(held: Option<ResultTypeView>) -> Option<ResultTypeView> {
    match held {
        Some(ResultTypeView::Type(TypeView::Array(element))) => Some(
            ResultTypeView::Type(*element),
        ),
        _ => None,
    }
}

/// The return type of a method, a method handle or a method type.
pub open spec fn return_type(held: Option<ResultTypeView>) -> Option<ResultTypeView> {
    match held {
        Some(ResultTypeView::Literal(LiteralView::Method(method))) => Some(
            ResultTypeView::Type(method.call_signature.return_type),
        ),
        Some(ResultTypeView::Literal(LiteralView::MethodHandle(_, method))) => Some(
            ResultTypeView::Type(method.call_signature.return_type),
        ),
        Some(ResultTypeView::Literal(LiteralView::MethodType(call))) => Some(
            ResultTypeView::Type(call.return_type),
        ),
        _ => None,
    }
}

/// The rule of the opcode table for the result of a command.
pub open spec fn result_rule(command: Seq<char>) -> ResultTypeDefView {
    match definition(command) {
        Some(def) => def.result_type,
        None => ResultTypeDefView::Nothing,
    }
}

/// The parameter that a rule points at, where the command has it.
pub open spec fn rule_parameter(rule: ResultTypeDefView, parameters: Seq<CommandParameterView>) -> Option<
    CommandParameterView,
> {
    match rule {
        ResultTypeDefView::From(index)
        | ResultTypeDefView::ElementFrom(index)
        | ResultTypeDefView::ReturnOf(index) => if index < parameters.len() {
            Some(parameters[index as int])
        } else {
            None
        },
        _ => None,
    }
}

impl InstructionView {
    /// The type of what the instruction leaves in its result register, by the
    /// rule that the opcode table gives for its mnemonic.
    pub open spec fn result_type(self, state: Map<Register, ResultTypeView>) -> Option<
        ResultTypeView,
    > {
        match self {
            InstructionView::Command { command, parameters } => {
                let rule = result_rule(command);
                let pointed = match rule_parameter(rule, parameters) {
                    Some(parameter) => parameter_type(parameter, state),
                    None => None,
                };
                match rule {
                    ResultTypeDefView::Nothing => None,
                    ResultTypeDefView::Bool => Some(ResultTypeView::Type(TypeView::Bool)),
                    ResultTypeDefView::Byte => Some(ResultTypeView::Type(TypeView::Byte)),
                    ResultTypeDefView::Char => Some(ResultTypeView::Type(TypeView::Char)),
                    ResultTypeDefView::Short => Some(ResultTypeView::Type(TypeView::Short)),
                    ResultTypeDefView::Int => Some(ResultTypeView::Type(TypeView::Int)),
                    ResultTypeDefView::Long => Some(ResultTypeView::Type(TypeView::Long)),
                    ResultTypeDefView::Float => Some(ResultTypeView::Type(TypeView::Float)),
                    ResultTypeDefView::Double => Some(ResultTypeView::Type(TypeView::Double)),
                    ResultTypeDefView::Object(name) => Some(
                        ResultTypeView::Type(TypeView::Object(name)),
                    ),
                    ResultTypeDefView::From(_) => pointed,
                    ResultTypeDefView::ElementFrom(_) => element_type(pointed),
                    ResultTypeDefView::ReturnOf(_) => return_type(pointed),
                    ResultTypeDefView::Exception => Some(
                        ResultTypeView::Type(TypeView::Object("java.lang.exception"@)),
                    ),
                }
            },
            _ => None,
        }
    }

    /// What asking the instruction for the type of its result warns of.
    pub open spec fn result_type_warnings(self, state: Map<Register, ResultTypeView>) -> Seq<
        WarningView,
    > {
        match self {
            InstructionView::Command { command, parameters } => {
                let rule = result_rule(command);
                match rule_parameter(rule, parameters) {
                    Some(parameter) => {
                        let pointed = parameter_type(parameter, state);
                        parameter_type_warnings(parameter, state, command) + (match rule {
                            ResultTypeDefView::ElementFrom(_) => if pointed is Some && element_type(
                                pointed,
                            ) is None {
                                seq![WarningView::NotAnArray { command }]
                            } else {
                                Seq::empty()
                            },
                            ResultTypeDefView::ReturnOf(_) => if pointed is Some && return_type(
                                pointed,
                            ) is None {
                                seq![WarningView::NotACall { command }]
                            } else {
                                Seq::empty()
                            },
                            _ => Seq::empty(),
                        })
                    },
                    None => Seq::empty(),
                }
            },
            _ => Seq::empty(),
        }
    }
}

impl Instruction {
    fn parameter_type(
        parameter: &CommandParameter,
        state: &RegisterTypes,
        command: &str,
        warnings: &mut Vec<Warning>,
    ) -> (r: Option<ResultType>)
        ensures
            r.deep_view() == parameter_type(parameter@, state@),
            final(warnings).deep_view() == old(warnings).deep_view() + parameter_type_warnings(
                parameter@,
                state@,
                command@,
            ),
    {
        let ghost before = warnings.deep_view();
        assert(before + Seq::<WarningView>::empty() =~= before);
        match parameter {
            CommandParameter::Result(register)
            | CommandParameter::DefaultEmptyResult(Some(register))
            | CommandParameter::Register(register) => match state.get(register) {
                Some(held) => Some(held.clone()),
                None => {
                    warnings.push(Warning::UnknownRegisterType { register: *register });
                    assert(warnings.deep_view() =~= before + seq![
                        WarningView::UnknownRegisterType { register: *register },
                    ]);
                    None
                },
            },
            CommandParameter::DefaultEmptyResult(None) => None,
            CommandParameter::Literal(literal) => Some(ResultType::Literal(literal.clone())),
            CommandParameter::Type(held) => Some(ResultType::Type(held.clone())),
            CommandParameter::Field(field) => Some(ResultType::Type(field.field_type.clone())),
            CommandParameter::Method(method) => Some(
                ResultType::Literal(Literal::Method(method.clone())),
            ),
            CommandParameter::MethodHandle(kind, method) => Some(
                ResultType::Literal(Literal::MethodHandle(kind.clone(), method.clone())),
            ),
            CommandParameter::Call(call) => Some(
                ResultType::Literal(Literal::MethodType(call.clone())),
            ),
            CommandParameter::Variable(_)
            | CommandParameter::Registers(_)
            | CommandParameter::Label(_)
            | CommandParameter::Data(_) => {
                warnings.push(Warning::UntypedParameter { command: command.to_owned() });
                assert(warnings.deep_view() =~= before + seq![
                    WarningView::UntypedParameter { command: command@ },
                ]);
                None
            },
        }
    }

    fn element_of(held: Option<ResultType>) -> (r: Option<ResultType>)
        ensures
            r.deep_view() == element_type(held.deep_view()),
    {
        match held {
            Some(ResultType::Type(Type::Array(element))) => Some(ResultType::Type(*element)),
            _ => None,
        }
    }

    fn return_of(held: Option<ResultType>) -> (r: Option<ResultType>)
        ensures
            r.deep_view() == return_type(held.deep_view()),
    {
        match held {
            Some(ResultType::Literal(Literal::Method(method))) => Some(
                ResultType::Type(method.call_signature.return_type),
            ),
            Some(ResultType::Literal(Literal::MethodHandle(_, method))) => Some(
                ResultType::Type(method.call_signature.return_type),
            ),
            Some(ResultType::Literal(Literal::MethodType(call))) => Some(
                ResultType::Type(call.return_type),
            ),
            _ => None,
        }
    }

    fn rule_of(command: &str) -> (r: ResultTypeDef)
        ensures
            r@ == result_rule(command@),
    {
        match instruction_def(command) {
            Some(def) => def.result_type,
            None => ResultTypeDef::Nothing,
        }
    }

    fn fixed(held: Type) -> (r: Option<ResultType>)
        ensures
            r.deep_view() == Some(ResultTypeView::Type(held@)),
    {
        Some(ResultType::Type(held))
    }

    /// The type of the parameter that a rule points at.
    fn pointed_type(
        rule: &ResultTypeDef,
        command: &str,
        parameters: &Vec<CommandParameter>,
        state: &RegisterTypes,
        warnings: &mut Vec<Warning>,
    ) -> (r: Option<ResultType>)
        ensures
            r.deep_view() == (match rule_parameter(rule@, parameters.deep_view()) {
                Some(parameter) => parameter_type(parameter, state@),
                None => None,
            }),
            final(warnings).deep_view() == old(warnings).deep_view() + (match rule_parameter(
                rule@,
                parameters.deep_view(),
            ) {
                Some(parameter) => parameter_type_warnings(parameter, state@, command@),
                None => Seq::empty(),
            }),
    {
        assert(warnings.deep_view() + Seq::<WarningView>::empty() =~= warnings.deep_view());
        let index = match rule {
            ResultTypeDef::From(index) => *index,
            ResultTypeDef::ElementFrom(index) => *index,
            ResultTypeDef::ReturnOf(index) => *index,
            _ => {
                return None;
            },
        };
        if index < parameters.len() {
            assert(parameters.deep_view()[index as int] == parameters@[index as int]@);
            Self::parameter_type(&parameters[index], state, command, warnings)
        } else {
            None
        }
    }

    /// The type of the instruction's result, where the registers hold what
    /// `state` says. What cannot be found out is warned of.
    pub fn get_result_type(&self, state: &RegisterTypes, warnings: &mut Vec<Warning>) -> (r: Option<
        ResultType,
    >)
        ensures
            r.deep_view() == self@.result_type(state@),
            final(warnings).deep_view() == old(warnings).deep_view() + self@.result_type_warnings(
                state@,
            ),
    {
        let ghost before = warnings.deep_view();
        assert(before + Seq::<WarningView>::empty() =~= before);
        match self {
            Instruction::Command { command, parameters } => {
                let rule = Self::rule_of(command.as_str());
                let pointed = Self::pointed_type(
                    &rule,
                    command.as_str(),
                    parameters,
                    state,
                    warnings,
                );
                let ghost then = warnings.deep_view();
                assert(then + Seq::<WarningView>::empty() =~= then);
                match rule {
                    ResultTypeDef::Nothing => None,
                    ResultTypeDef::Bool => Self::fixed(Type::Bool),
                    ResultTypeDef::Byte => Self::fixed(Type::Byte),
                    ResultTypeDef::Char => Self::fixed(Type::Char),
                    ResultTypeDef::Short => Self::fixed(Type::Short),
                    ResultTypeDef::Int => Self::fixed(Type::Int),
                    ResultTypeDef::Long => Self::fixed(Type::Long),
                    ResultTypeDef::Float => Self::fixed(Type::Float),
                    ResultTypeDef::Double => Self::fixed(Type::Double),
                    ResultTypeDef::Object(name) => Self::fixed(Type::Object(name.to_owned())),
                    ResultTypeDef::From(_) => pointed,
                    ResultTypeDef::ElementFrom(_) => {
                        let known = pointed.is_some();
                        let element = Self::element_of(pointed);
                        if known && element.is_none() {
                            warnings.push(Warning::NotAnArray { command: command.clone() });
                            assert(warnings.deep_view() =~= then + seq![
                                WarningView::NotAnArray { command: command@ },
                            ]);
                        }
                        element
                    },
                    ResultTypeDef::ReturnOf(_) => {
                        let known = pointed.is_some();
                        let returned = Self::return_of(pointed);
                        if known && returned.is_none() {
                            warnings.push(Warning::NotACall { command: command.clone() });
                            assert(warnings.deep_view() =~= then + seq![
                                WarningView::NotACall { command: command@ },
                            ]);
                        }
                        returned
                    },
                    ResultTypeDef::Exception => Self::fixed(
                        Type::Object("java.lang.exception".to_owned()),
                    ),
                }
            },
            _ => None,
        }
    }
}

} // verus!
