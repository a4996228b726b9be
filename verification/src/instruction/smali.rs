//! The instruction parser: one statement of a method body, which is a
//! directive, a label, or a command with the parameters that the opcode table
//! gives it.

use vstd::prelude::*;
use vstd::string::*;
use crate::error::{ParseError, ParseErrorView};
use crate::literal::{Literal, LiteralView};
use crate::text::{lowercase, str_eq, to_lowercase};
use crate::tokenizer::{
    lemma_prepend_empty, lemma_prepend_push, lemma_repeat_done, lemma_repeat_fail,
    lemma_repeat_step, parsed, prepend, repeat, Cursor, Parsed, Tokenizer,
};
use crate::types::{
    expect_arrow, CallSignature, CallSignatureView, FieldSignature, FieldSignatureView,
    MethodSignature, MethodSignatureView, Type, TypeView,
};
use super::registers::{Register, Registers, RegistersView};
use super::table::{definition, instruction_def};
use super::{
    CommandData, CommandDataView, CommandParameter, CommandParameterView, Instruction,
    InstructionView, ParameterKind,
};

verus! {

broadcast use vstd::string::group_string_axioms;

/// A colon and the name of a label.
pub open spec fn read_label_spec(input: Cursor) -> Parsed<Seq<char>> {
    match input.expect_char(':') {
        Ok(next) => next.read_keyword(),
        Err(e) => Err(e),
    }
}

/// A method handle: the literal that names the kind of call, `@`, and the
/// method.
pub open spec fn read_method_handle(input: Cursor) -> Parsed<CommandParameterView> {
    match LiteralView::read(input) {
        Ok((end, literal)) => match literal {
            LiteralView::MethodHandle(kind, method) => Ok(
                (end, CommandParameterView::MethodHandle(kind, method)),
            ),
            _ => Err(input.unexpected("a method handle"@)),
        },
        Err(e) => Err(e),
    }
}

impl CommandParameterView {
    /// One parameter of the given kind. An optional result reads nothing: it
    /// is empty until a later pass fills it.
    pub open spec fn read(input: Cursor, kind: ParameterKind) -> Parsed<CommandParameterView> {
        match kind {
            ParameterKind::Result => match Register::read_spec(input) {
                Ok((end, register)) => Ok((end, CommandParameterView::Result(register))),
                Err(e) => Err(e),
            },
            ParameterKind::DefaultEmptyResult => Ok(
                (input, CommandParameterView::DefaultEmptyResult(None)),
            ),
            ParameterKind::Register => match Register::read_spec(input) {
                Ok((end, register)) => Ok((end, CommandParameterView::Register(register))),
                Err(e) => Err(e),
            },
            ParameterKind::Registers => match RegistersView::read(input) {
                Ok((end, registers)) => Ok((end, CommandParameterView::Registers(registers))),
                Err(e) => Err(e),
            },
            ParameterKind::Literal => match LiteralView::read(input) {
                Ok((end, literal)) => Ok((end, CommandParameterView::Literal(literal))),
                Err(e) => Err(e),
            },
            ParameterKind::Label => match read_label_spec(input) {
                Ok((end, label)) => Ok((end, CommandParameterView::Label(label))),
                Err(e) => Err(e),
            },
            ParameterKind::Type => match TypeView::read(input) {
                Ok((end, class)) => Ok((end, CommandParameterView::Type(class))),
                Err(e) => Err(e),
            },
            ParameterKind::Field => match FieldSignatureView::read(input) {
                Ok((end, field)) => Ok((end, CommandParameterView::Field(field))),
                Err(e) => Err(e),
            },
            ParameterKind::Method => match MethodSignatureView::read(input) {
                Ok((end, method)) => Ok((end, CommandParameterView::Method(method))),
                Err(e) => Err(e),
            },
            ParameterKind::MethodHandle => read_method_handle(input),
            ParameterKind::Call => match CallSignatureView::read(input) {
                Ok((end, call)) => Ok((end, CommandParameterView::Call(call))),
                Err(e) => Err(e),
            },
            ParameterKind::Data => match read_label_spec(input) {
                Ok((end, label)) => Ok(
                    (end, CommandParameterView::Data(CommandDataView::Label(label))),
                ),
                Err(e) => Err(e),
            },
        }
    }
}

/// The number that a directive is given: an integer literal of any width.
pub open spec fn read_integer(input: Cursor) -> Parsed<i64> {
    match LiteralView::read(input) {
        Ok((end, literal)) => match literal.integer() {
            Some(number) => Ok((end, number)),
            None => Err(input.unexpected("a number"@)),
        },
        Err(e) => Err(e),
    }
}

/// Whether the directive that closes a block comes next.
pub open spec fn at_end_directive() -> spec_fn(Cursor) -> bool {
    |input: Cursor| input.expect_directive("end"@) is Ok
}

/// One line of a packed switch: a target label.
pub open spec fn target_line(input: Cursor) -> Parsed<Seq<char>> {
    match read_label_spec(input) {
        Ok((next, target)) => match next.expect_eol() {
            Ok(end) => Ok((end, target)),
            Err(e) => Err(e),
        },
        Err(e) => Err(e),
    }
}

pub open spec fn one_target_line() -> spec_fn(Cursor) -> Parsed<Seq<char>> {
    |input: Cursor| target_line(input)
}

/// One line of a sparse switch: a value, an arrow and a target label.
pub open spec fn case_line(input: Cursor) -> Parsed<(LiteralView, Seq<char>)> {
    match LiteralView::read(input) {
        Ok((next, value)) => match expect_arrow(next) {
            Ok(next) => match read_label_spec(next) {
                Ok((next, target)) => match next.expect_eol() {
                    Ok(end) => Ok((end, (value, target))),
                    Err(e) => Err(e),
                },
                Err(e) => Err(e),
            },
            Err(e) => Err(e),
        },
        Err(e) => Err(e),
    }
}

pub open spec fn one_case_line() -> spec_fn(Cursor) -> Parsed<(LiteralView, Seq<char>)> {
    |input: Cursor| case_line(input)
}

/// One line of array data: a literal.
pub open spec fn element_line(input: Cursor) -> Parsed<LiteralView> {
    match LiteralView::read(input) {
        Ok((next, element)) => match next.expect_eol() {
            Ok(end) => Ok((end, element)),
            Err(e) => Err(e),
        },
        Err(e) => Err(e),
    }
}

pub open spec fn one_element_line() -> spec_fn(Cursor) -> Parsed<LiteralView> {
    |input: Cursor| element_line(input)
}

/// The end of a block: the directive `end` and the name of the block.
pub open spec fn block_end(input: Cursor, name: Seq<char>) -> Result<Cursor, ParseErrorView> {
    match input.expect_directive("end"@) {
        Ok(next) => next.expect_keyword(name),
        Err(e) => Err(e),
    }
}

impl InstructionView {
    /// What follows `.line`: the number of a source line.
    pub open spec fn read_line(input: Cursor) -> Parsed<InstructionView> {
        match read_integer(input) {
            Ok((end, number)) => Ok((end, InstructionView::LineNumber(number, number))),
            Err(e) => Err(e),
        }
    }

    /// What follows `.catch` or `.catchall`: the exception type where one is
    /// caught by type, the two labels of the guarded range between braces,
    /// and the label of the handler.
    pub open spec fn read_catch(input: Cursor, typed: bool) -> Parsed<InstructionView> {
        let head: Parsed<Option<TypeView>> = if typed {
            match TypeView::read(input) {
                Ok((next, exception)) => Ok((next, Some(exception))),
                Err(e) => Err(e),
            }
        } else {
            Ok((input, None))
        };
        match head {
            Ok((next, exception)) => match next.expect_char('{') {
                Ok(next) => match read_label_spec(next) {
                    Ok((next, start_label)) => match next.expect_char('.') {
                        Ok(next) => match next.expect_char('.') {
                            Ok(next) => match read_label_spec(next) {
                                Ok((next, end_label)) => match next.expect_char('}') {
                                    Ok(next) => match read_label_spec(next) {
                                        Ok((end, target)) => Ok(
                                            (
                                                end,
                                                InstructionView::Catch {
                                                    exception,
                                                    start_label,
                                                    end_label,
                                                    target,
                                                },
                                            ),
                                        ),
                                        Err(e) => Err(e),
                                    },
                                    Err(e) => Err(e),
                                },
                                Err(e) => Err(e),
                            },
                            Err(e) => Err(e),
                        },
                        Err(e) => Err(e),
                    },
                    Err(e) => Err(e),
                },
                Err(e) => Err(e),
            },
            Err(e) => Err(e),
        }
    }

    /// What follows `.packed-switch`: the first key, then one target a line
    /// up to `.end packed-switch`.
    pub open spec fn read_packed_switch(input: Cursor) -> Parsed<InstructionView> {
        match read_integer(input) {
            Ok((next, first_key)) => match next.expect_eol() {
                Ok(next) => match repeat(next, at_end_directive(), one_target_line()) {
                    Ok((next, targets)) => match block_end(next, "packed-switch"@) {
                        Ok(end) => Ok(
                            (
                                end,
                                InstructionView::Data(
                                    CommandDataView::PackedSwitch(first_key, targets),
                                ),
                            ),
                        ),
                        Err(e) => Err(e),
                    },
                    Err(e) => Err(e),
                },
                Err(e) => Err(e),
            },
            Err(e) => Err(e),
        }
    }

    /// What follows `.sparse-switch`: one case a line up to
    /// `.end sparse-switch`.
    pub open spec fn read_sparse_switch(input: Cursor) -> Parsed<InstructionView> {
        match input.expect_eol() {
            Ok(next) => match repeat(next, at_end_directive(), one_case_line()) {
                Ok((next, targets)) => match block_end(next, "sparse-switch"@) {
                    Ok(end) => Ok(
                        (end, InstructionView::Data(CommandDataView::SparseSwitch(targets))),
                    ),
                    Err(e) => Err(e),
                },
                Err(e) => Err(e),
            },
            Err(e) => Err(e),
        }
    }

    /// What follows `.array-data`: the width of an element, which is not
    /// kept, then one element a line up to `.end array-data`.
    pub open spec fn read_array_data(input: Cursor) -> Parsed<InstructionView> {
        match read_integer(input) {
            Ok((next, _)) => match next.expect_eol() {
                Ok(next) => match repeat(next, at_end_directive(), one_element_line()) {
                    Ok((next, elements)) => match block_end(next, "array-data"@) {
                        Ok(end) => Ok(
                            (end, InstructionView::Data(CommandDataView::Array(elements))),
                        ),
                        Err(e) => Err(e),
                    },
                    Err(e) => Err(e),
                },
                Err(e) => Err(e),
            },
            Err(e) => Err(e),
        }
    }

    /// What follows `.local`: a register, a comma, the variable's name, a
    /// colon and its type. The rest of the line is not interpreted.
    pub open spec fn read_local(input: Cursor) -> Parsed<InstructionView> {
        match input.read_keyword() {
            Ok((next, register)) => match next.expect_char(',') {
                Ok(next) => match LiteralView::read(next) {
                    Ok((next, name)) => match next.expect_char(':') {
                        Ok(next) => match TypeView::read(next) {
                            Ok((next, local_type)) => Ok(
                                (
                                    next.read_to(seq!['\n']).0,
                                    InstructionView::Local { register, name, local_type },
                                ),
                            ),
                            Err(e) => Err(e),
                        },
                        Err(e) => Err(e),
                    },
                    Err(e) => Err(e),
                },
                Err(e) => Err(e),
            },
            Err(e) => Err(e),
        }
    }

    /// What follows `.restart`: the word `local` and a register.
    pub open spec fn read_restart(input: Cursor) -> Parsed<InstructionView> {
        match input.expect_keyword("local"@) {
            Ok(next) => match next.read_keyword() {
                Ok((end, register)) => Ok((end, InstructionView::LocalRestart { register })),
                Err(e) => Err(e),
            },
            Err(e) => Err(e),
        }
    }

    /// A directive and what belongs to it.
    #[verifier::opaque]
    pub open spec fn read_directive(input: Cursor) -> Parsed<InstructionView> {
        match input.read_directive() {
            Ok((next, directive)) => if directive == "line"@ {
                InstructionView::read_line(next)
            } else if directive == "catchall"@ {
                InstructionView::read_catch(next, false)
            } else if directive == "catch"@ {
                InstructionView::read_catch(next, true)
            } else if directive == "packed-switch"@ {
                InstructionView::read_packed_switch(next)
            } else if directive == "sparse-switch"@ {
                InstructionView::read_sparse_switch(next)
            } else if directive == "array-data"@ {
                InstructionView::read_array_data(next)
            } else if directive == "local"@ {
                InstructionView::read_local(next)
            } else if directive == "restart"@ {
                InstructionView::read_restart(next)
            } else {
                Err(input.unexpected("a supported directive"@))
            },
            Err(e) => Err(e),
        }
    }

    /// The parameters of the given kinds in order, a comma in front of each
    /// but the first one that reads anything.
    pub open spec fn read_parameters(input: Cursor, kinds: Seq<ParameterKind>, first: bool) -> Parsed<
        Seq<CommandParameterView>,
    >
        decreases kinds.len(),
    {
        if kinds.len() == 0 {
            Ok((input, Seq::empty()))
        } else {
            let start = if first {
                Ok(input)
            } else {
                input.expect_char(',')
            };
            match start {
                Ok(at) => match CommandParameterView::read(at, kinds[0]) {
                    Ok((next, parameter)) => prepend(
                        seq![parameter],
                        InstructionView::read_parameters(
                            next,
                            kinds.skip(1),
                            first && kinds[0] == ParameterKind::DefaultEmptyResult,
                        ),
                    ),
                    Err(e) => Err(e),
                },
                Err(e) => Err(e),
            }
        }
    }

    /// A command: a mnemonic of the opcode table, in any case, and the
    /// parameters that the table gives it.
    pub open spec fn read_command(input: Cursor) -> Parsed<InstructionView> {
        match input.read_keyword() {
            Ok((next, keyword)) => match definition(lowercase(keyword)) {
                Some(def) => match InstructionView::read_parameters(next, def.parameters, true) {
                    Ok((end, parameters)) => Ok(
                        (end, InstructionView::Command { command: lowercase(keyword), parameters }),
                    ),
                    Err(e) => Err(e),
                },
                None => Err(input.unexpected("a supported command"@)),
            },
            Err(e) => Err(e),
        }
    }

    /// A statement without its end of line.
    pub open spec fn read_statement(input: Cursor) -> Parsed<InstructionView> {
        if input.expect_char('.') is Ok {
            InstructionView::read_directive(input)
        } else {
            match read_label_spec(input) {
                Ok((end, label)) => Ok((end, InstructionView::Label(label))),
                Err(_) => InstructionView::read_command(input),
            }
        }
    }

    /// One statement and the end of its line.
    pub open spec fn read(input: Cursor) -> Parsed<InstructionView> {
        match InstructionView::read_statement(input) {
            Ok((next, instruction)) => match next.expect_eol() {
                Ok(end) => Ok((end, instruction)),
                Err(e) => Err(e),
            },
            Err(e) => Err(e),
        }
    }
}

pub fn read_label(input: &Tokenizer) -> (r: Result<(Tokenizer, String), ParseError>)
    ensures
        parsed(r, read_label_spec(input@)),
        r matches Ok((t, _)) ==> t@.follows(input@) && t@.pos > input@.pos,
{
    let input = input.expect_char(':')?;
    let (input, label) = input.read_keyword()?;
    Ok((input, label))
}

impl CommandParameter {
    fn read_method_handle(input: &Tokenizer) -> (r: Result<(Tokenizer, Self), ParseError>)
        ensures
            parsed(r, read_method_handle(input@)),
            r matches Ok((t, _)) ==> t@.follows(input@) && t@.pos > input@.pos,
    {
        let (end, literal) = Literal::read(input)?;
        match literal {
            Literal::MethodHandle(kind, method) => Ok(
                (end, CommandParameter::MethodHandle(kind, method)),
            ),
            _ => Err(input.unexpected("a method handle".to_owned())),
        }
    }

    pub fn read(input: &Tokenizer, kind: &ParameterKind) -> (r: Result<(Tokenizer, Self), ParseError>)
        ensures
            parsed(r, CommandParameterView::read(input@, *kind)),
            r matches Ok((t, _)) ==> t@.follows(input@),
    {
        match kind {
            ParameterKind::Result => {
                let (end, result) = Register::read(input)?;
                Ok((end, CommandParameter::Result(result)))
            },
            ParameterKind::DefaultEmptyResult => {
                let _ = input.offset();
                Ok((input.clone(), CommandParameter::DefaultEmptyResult(None)))
            },
            ParameterKind::Register => {
                let (end, register) = Register::read(input)?;
                Ok((end, CommandParameter::Register(register)))
            },
            ParameterKind::Registers => {
                let (end, registers) = Registers::read(input)?;
                Ok((end, CommandParameter::Registers(registers)))
            },
            ParameterKind::Literal => {
                let (end, literal) = Literal::read(input)?;
                Ok((end, CommandParameter::Literal(literal)))
            },
            ParameterKind::Label => {
                let (end, label) = read_label(input)?;
                Ok((end, CommandParameter::Label(label)))
            },
            ParameterKind::Type => {
                let (end, class) = Type::read(input)?;
                Ok((end, CommandParameter::Type(class)))
            },
            ParameterKind::Field => {
                let (end, field) = FieldSignature::read(input)?;
                Ok((end, CommandParameter::Field(field)))
            },
            ParameterKind::Method => {
                let (end, method) = MethodSignature::read(input)?;
                Ok((end, CommandParameter::Method(method)))
            },
            ParameterKind::MethodHandle => Self::read_method_handle(input),
            ParameterKind::Call => {
                let (end, call) = CallSignature::read(input)?;
                Ok((end, CommandParameter::Call(call)))
            },
            ParameterKind::Data => {
                let (end, label) = read_label(input)?;
                Ok((end, CommandParameter::Data(CommandData::Label(label))))
            },
        }
    }
}

fn read_number(input: &Tokenizer) -> (r: Result<(Tokenizer, i64), ParseError>)
    ensures
        parsed(r, read_integer(input@)),
        r matches Ok((t, _)) ==> t@.follows(input@) && t@.pos > input@.pos,
{
    let (end, literal) = Literal::read(input)?;
    match literal.get_integer() {
        Some(number) => Ok((end, number)),
        None => Err(input.unexpected("a number".to_owned())),
    }
}

fn read_target_line(input: &Tokenizer) -> (r: Result<(Tokenizer, String), ParseError>)
    ensures
        parsed(r, target_line(input@)),
        r matches Ok((t, _)) ==> t@.follows(input@) && t@.pos > input@.pos,
{
    let (next, target) = read_label(input)?;
    let end = next.expect_eol()?;
    Ok((end, target))
}

fn read_case_line(input: &Tokenizer) -> (r: Result<(Tokenizer, (Literal, String)), ParseError>)
    ensures
        parsed(r, case_line(input@)),
        r matches Ok((t, _)) ==> t@.follows(input@) && t@.pos > input@.pos,
{
    let (next, value) = Literal::read(input)?;
    let next = next.expect_char('-')?;
    let next = next.expect_char('>')?;
    let (next, target) = read_label(&next)?;
    let end = next.expect_eol()?;
    Ok((end, (value, target)))
}

fn read_element_line(input: &Tokenizer) -> (r: Result<(Tokenizer, Literal), ParseError>)
    ensures
        parsed(r, element_line(input@)),
        r matches Ok((t, _)) ==> t@.follows(input@) && t@.pos > input@.pos,
{
    let (next, element) = Literal::read(input)?;
    let end = next.expect_eol()?;
    Ok((end, element))
}

fn read_targets(input: &Tokenizer) -> (r: Result<(Tokenizer, Vec<String>), ParseError>)
    ensures
        parsed(r, repeat(input@, at_end_directive(), one_target_line())),
        r matches Ok((t, _)) ==> t@.follows(input@),
{
    let mut cursor = input.clone();
    let mut targets: Vec<String> = Vec::new();
    let _ = input.offset();
    proof {
        lemma_prepend_empty(repeat(input@, at_end_directive(), one_target_line()));
        assert(targets.deep_view() =~= Seq::<Seq<char>>::empty());
    }
    while cursor.expect_directive("end").is_err()
        invariant
            cursor@.follows(input@),
            repeat(input@, at_end_directive(), one_target_line()) == prepend(
                targets.deep_view(),
                repeat(cursor@, at_end_directive(), one_target_line()),
            ),
        decreases cursor@.text.len() - cursor@.pos,
    {
        let ghost acc = targets.deep_view();
        match read_target_line(&cursor) {
            Ok((next, target)) => {
                proof {
                    lemma_repeat_step(
                        acc,
                        cursor@,
                        next@,
                        target@,
                        at_end_directive(),
                        one_target_line(),
                    );
                }
                cursor = next;
                targets.push(target);
                assert(targets.deep_view() =~= acc.push(target@));
            },
            Err(e) => {
                proof {
                    lemma_repeat_fail(acc, cursor@, e@, at_end_directive(), one_target_line());
                }
                return Err(e);
            },
        }
    }
    proof {
        lemma_repeat_done(targets.deep_view(), cursor@, at_end_directive(), one_target_line());
    }
    Ok((cursor, targets))
}

fn read_cases(input: &Tokenizer) -> (r: Result<(Tokenizer, Vec<(Literal, String)>), ParseError>)
    ensures
        parsed(r, repeat(input@, at_end_directive(), one_case_line())),
        r matches Ok((t, _)) ==> t@.follows(input@),
{
    let mut cursor = input.clone();
    let mut targets: Vec<(Literal, String)> = Vec::new();
    let _ = input.offset();
    proof {
        lemma_prepend_empty(repeat(input@, at_end_directive(), one_case_line()));
        assert(targets.deep_view() =~= Seq::<(LiteralView, Seq<char>)>::empty());
    }
    while cursor.expect_directive("end").is_err()
        invariant
            cursor@.follows(input@),
            repeat(input@, at_end_directive(), one_case_line()) == prepend(
                targets.deep_view(),
                repeat(cursor@, at_end_directive(), one_case_line()),
            ),
        decreases cursor@.text.len() - cursor@.pos,
    {
        let ghost acc = targets.deep_view();
        match read_case_line(&cursor) {
            Ok((next, case)) => {
                proof {
                    lemma_repeat_step(
                        acc,
                        cursor@,
                        next@,
                        case.deep_view(),
                        at_end_directive(),
                        one_case_line(),
                    );
                }
                cursor = next;
                let ghost added = case.deep_view();
                targets.push(case);
                assert(targets.deep_view() =~= acc.push(added));
            },
            Err(e) => {
                proof {
                    lemma_repeat_fail(acc, cursor@, e@, at_end_directive(), one_case_line());
                }
                return Err(e);
            },
        }
    }
    proof {
        lemma_repeat_done(targets.deep_view(), cursor@, at_end_directive(), one_case_line());
    }
    Ok((cursor, targets))
}

fn read_elements(input: &Tokenizer) -> (r: Result<(Tokenizer, Vec<Literal>), ParseError>)
    ensures
        parsed(r, repeat(input@, at_end_directive(), one_element_line())),
        r matches Ok((t, _)) ==> t@.follows(input@),
{
    let mut cursor = input.clone();
    let mut elements: Vec<Literal> = Vec::new();
    let _ = input.offset();
    proof {
        lemma_prepend_empty(repeat(input@, at_end_directive(), one_element_line()));
        assert(elements.deep_view() =~= Seq::<LiteralView>::empty());
    }
    while cursor.expect_directive("end").is_err()
        invariant
            cursor@.follows(input@),
            repeat(input@, at_end_directive(), one_element_line()) == prepend(
                elements.deep_view(),
                repeat(cursor@, at_end_directive(), one_element_line()),
            ),
        decreases cursor@.text.len() - cursor@.pos,
    {
        let ghost acc = elements.deep_view();
        match read_element_line(&cursor) {
            Ok((next, element)) => {
                proof {
                    lemma_repeat_step(
                        acc,
                        cursor@,
                        next@,
                        element@,
                        at_end_directive(),
                        one_element_line(),
                    );
                }
                cursor = next;
                elements.push(element);
                assert(elements.deep_view() =~= acc.push(element@));
            },
            Err(e) => {
                proof {
                    lemma_repeat_fail(acc, cursor@, e@, at_end_directive(), one_element_line());
                }
                return Err(e);
            },
        }
    }
    proof {
        lemma_repeat_done(elements.deep_view(), cursor@, at_end_directive(), one_element_line());
    }
    Ok((cursor, elements))
}

fn read_block_end(input: &Tokenizer, name: &str) -> (r: Result<Tokenizer, ParseError>)
    ensures
        crate::tokenizer::moved(r, block_end(input@, name@)),
        r matches Ok(t) ==> t@.follows(input@) && t@.pos > input@.pos,
{
    let next = input.expect_directive("end")?;
    next.expect_keyword(name)
}

impl Instruction {
    fn read_line(input: &Tokenizer) -> (r: Result<(Tokenizer, Self), ParseError>)
        ensures
            parsed(r, InstructionView::read_line(input@)),
            r matches Ok((t, _)) ==> t@.follows(input@),
    {
        let (end, number) = read_number(input)?;
        Ok((end, Instruction::LineNumber(number, number)))
    }

    fn read_catch(input: &Tokenizer, typed: bool) -> (r: Result<(Tokenizer, Self), ParseError>)
        ensures
            parsed(r, InstructionView::read_catch(input@, typed)),
            r matches Ok((t, _)) ==> t@.follows(input@),
    {
        let _ = input.offset();
        let (next, exception) = if typed {
            let (next, exception) = Type::read(input)?;
            (next, Some(exception))
        } else {
            (input.clone(), None)
        };
        let next = next.expect_char('{')?;
        let (next, start_label) = read_label(&next)?;
        let next = next.expect_char('.')?;
        let next = next.expect_char('.')?;
        let (next, end_label) = read_label(&next)?;
        let next = next.expect_char('}')?;
        let (end, target) = read_label(&next)?;
        Ok((end, Instruction::Catch { exception, start_label, end_label, target }))
    }

    fn read_packed_switch(input: &Tokenizer) -> (r: Result<(Tokenizer, Self), ParseError>)
        ensures
            parsed(r, InstructionView::read_packed_switch(input@)),
            r matches Ok((t, _)) ==> t@.follows(input@),
    {
        let (next, first_key) = read_number(input)?;
        let next = next.expect_eol()?;
        let (next, targets) = read_targets(&next)?;
        let end = read_block_end(&next, "packed-switch")?;
        Ok((end, Instruction::Data(CommandData::PackedSwitch(first_key, targets))))
    }

    fn read_sparse_switch(input: &Tokenizer) -> (r: Result<(Tokenizer, Self), ParseError>)
        ensures
            parsed(r, InstructionView::read_sparse_switch(input@)),
            r matches Ok((t, _)) ==> t@.follows(input@),
    {
        let next = input.expect_eol()?;
        let (next, targets) = read_cases(&next)?;
        let end = read_block_end(&next, "sparse-switch")?;
        Ok((end, Instruction::Data(CommandData::SparseSwitch(targets))))
    }

    fn read_array_data(input: &Tokenizer) -> (r: Result<(Tokenizer, Self), ParseError>)
        ensures
            parsed(r, InstructionView::read_array_data(input@)),
            r matches Ok((t, _)) ==> t@.follows(input@),
    {
        let (next, _) = read_number(input)?;
        let next = next.expect_eol()?;
        let (next, elements) = read_elements(&next)?;
        let end = read_block_end(&next, "array-data")?;
        Ok((end, Instruction::Data(CommandData::Array(elements))))
    }

    fn read_local(input: &Tokenizer) -> (r: Result<(Tokenizer, Self), ParseError>)
        ensures
            parsed(r, InstructionView::read_local(input@)),
            r matches Ok((t, _)) ==> t@.follows(input@),
    {
        let (next, register) = input.read_keyword()?;
        let next = next.expect_char(',')?;
        let (next, name) = Literal::read(&next)?;
        let next = next.expect_char(':')?;
        let (next, local_type) = Type::read(&next)?;
        let stops = ['\n'];
        assert(stops@ =~= seq!['\n']);
        let (end, _) = next.read_to(&stops);
        Ok((end, Instruction::Local { register, name, local_type }))
    }

    fn read_restart(input: &Tokenizer) -> (r: Result<(Tokenizer, Self), ParseError>)
        ensures
            parsed(r, InstructionView::read_restart(input@)),
            r matches Ok((t, _)) ==> t@.follows(input@),
    {
        let next = input.expect_keyword("local")?;
        let (end, register) = next.read_keyword()?;
        Ok((end, Instruction::LocalRestart { register }))
    }

    fn read_directive(input: &Tokenizer) -> (r: Result<(Tokenizer, Self), ParseError>)
        ensures
            parsed(r, InstructionView::read_directive(input@)),
            r matches Ok((t, _)) ==> t@.follows(input@) && t@.pos > input@.pos,
    {
        reveal(InstructionView::read_directive);
        let (next, directive) = input.read_directive()?;
        let name = directive.as_str();
        if str_eq(name, "line") {
            Self::read_line(&next)
        } else if str_eq(name, "catchall") {
            Self::read_catch(&next, false)
        } else if str_eq(name, "catch") {
            Self::read_catch(&next, true)
        } else if str_eq(name, "packed-switch") {
            Self::read_packed_switch(&next)
        } else if str_eq(name, "sparse-switch") {
            Self::read_sparse_switch(&next)
        } else if str_eq(name, "array-data") {
            Self::read_array_data(&next)
        } else if str_eq(name, "local") {
            Self::read_local(&next)
        } else if str_eq(name, "restart") {
            Self::read_restart(&next)
        } else {
            Err(input.unexpected("a supported directive".to_owned()))
        }
    }

    fn read_parameters(input: &Tokenizer, kinds: &[ParameterKind]) -> (r: Result<
        (Tokenizer, Vec<CommandParameter>),
        ParseError,
    >)
        ensures
            parsed(r, InstructionView::read_parameters(input@, kinds@, true)),
            r matches Ok((t, _)) ==> t@.follows(input@),
    {
        let mut cursor = input.clone();
        let mut parameters: Vec<CommandParameter> = Vec::new();
        let mut first = true;
        let mut i: usize = 0;
        let _ = input.offset();
        proof {
            lemma_prepend_empty(InstructionView::read_parameters(input@, kinds@, true));
            assert(parameters.deep_view() =~= Seq::<CommandParameterView>::empty());
            assert(kinds@.skip(0) == kinds@);
        }
        while i < kinds.len()
            invariant
                i <= kinds@.len(),
                cursor@.follows(input@),
                InstructionView::read_parameters(input@, kinds@, true) == prepend(
                    parameters.deep_view(),
                    InstructionView::read_parameters(cursor@, kinds@.skip(i as int), first),
                ),
            decreases kinds@.len() - i,
        {
            let ghost acc = parameters.deep_view();
            let ghost rest = kinds@.skip(i as int);
            assert(rest[0] == kinds@[i as int]);
            assert(rest.skip(1) == kinds@.skip(i + 1));
            let kind = &kinds[i];
            let at = if !first {
                cursor.expect_char(',')?
            } else {
                cursor.clone()
            };
            if *kind != ParameterKind::DefaultEmptyResult {
                first = false;
            }
            let (next, parameter) = CommandParameter::read(&at, kind)?;
            proof {
                lemma_prepend_push(
                    acc,
                    parameter@,
                    InstructionView::read_parameters(next@, rest.skip(1), first),
                );
            }
            cursor = next;
            parameters.push(parameter);
            assert(parameters.deep_view() =~= acc.push(parameter@));
            i += 1;
        }
        proof {
            assert(kinds@.skip(i as int).len() == 0);
            assert(parameters.deep_view() + Seq::<CommandParameterView>::empty()
                =~= parameters.deep_view());
        }
        Ok((cursor, parameters))
    }

    fn read_command(input: &Tokenizer) -> (r: Result<(Tokenizer, Self), ParseError>)
        ensures
            parsed(r, InstructionView::read_command(input@)),
            r matches Ok((t, _)) ==> t@.follows(input@) && t@.pos > input@.pos,
    {
        let (next, keyword) = input.read_keyword()?;
        let command = to_lowercase(keyword.as_str());
        match instruction_def(command.as_str()) {
            Some(def) => {
                let (end, parameters) = Self::read_parameters(&next, def.parameters)?;
                Ok((end, Instruction::Command { command, parameters }))
            },
            None => Err(input.unexpected("a supported command".to_owned())),
        }
    }

    fn read_statement(input: &Tokenizer) -> (r: Result<(Tokenizer, Self), ParseError>)
        ensures
            parsed(r, InstructionView::read_statement(input@)),
            r matches Ok((t, _)) ==> t@.follows(input@) && t@.pos > input@.pos,
    {
        if input.expect_char('.').is_ok() {
            Self::read_directive(input)
        } else {
            match read_label(input) {
                Ok((end, label)) => Ok((end, Instruction::Label(label))),
                Err(_) => Self::read_command(input),
            }
        }
    }

    pub fn read(input: &Tokenizer) -> (r: Result<(Tokenizer, Self), ParseError>)
        ensures
            parsed(r, InstructionView::read(input@)),
            r matches Ok((t, _)) ==> t@.follows(input@) && t@.pos > input@.pos,
    {
        let (next, result) = Self::read_statement(input)?;
        let end = next.expect_eol()?;
        Ok((end, result))
    }
}

} // verus!
