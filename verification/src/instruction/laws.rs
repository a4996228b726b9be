//! What holds of the opcode table as a whole: a statement that follows the
//! grammar of an entry is read as the command of that entry, and a command
//! whose parameters are of the kinds of its entry is written by its
//! template, with the operator that its mnemonic encodes.

use vstd::prelude::*;
use vstd::string::*;
use crate::error::ParseErrorView;
use crate::text::{is_stop, lemma_scan_bounds, lemma_skip_blanks_bounds, lowercase};
use crate::tokenizer::{keyword_stops, trim_end, Cursor};
use crate::warning::WarningView;
use super::entries::{lemma_operator_names, lemma_table_operators, lemma_table_well_formed};
use super::jimple::{
    binary_symbol, comparison_operator, conversion_at, expand, filled_template, operator,
    piece_at, receiver_warnings, rendering_warnings, result_prefix, root, statement,
    statement_warnings, template_fits, unary_root, unary_symbol, uses_operator, Piece,
};
use super::smali::read_label_spec;
use super::table::definition;
use super::{
    CommandDataView, CommandParameterView, InstructionDefView, InstructionView, ParameterKind,
    ResultTypeDefView,
};

verus! {

broadcast use vstd::string::group_string_axioms;

impl InstructionDefView {
    /// Whether the entry is well formed: its template can be filled from
    /// parameters of its kinds, the rule for its result points at one of its
    /// parameters, and an entry that takes a result has a register for it.
    pub open spec fn well_formed(self) -> bool {
        &&& template_fits(self.format, 0, self.parameters)
        &&& match self.result_type {
            ResultTypeDefView::From(index)
            | ResultTypeDefView::ElementFrom(index)
            | ResultTypeDefView::ReturnOf(index) => index < self.parameters.len(),
            _ => true,
        }
        &&& self.is_moved_result ==> self.parameters.len() > 0 && self.parameters[0]
            == ParameterKind::Result
    }
}

/// What is left of a text whose end is trimmed is a prefix of it.
pub proof fn lemma_trim_end_is_prefix(s: Seq<char>, set: Seq<char>)
    ensures
        trim_end(s, set).len() <= s.len(),
        trim_end(s, set) == s.take(trim_end(s, set).len() as int),
    decreases s.len(),
{
    if s.len() > 0 && set.contains(s.last()) {
        lemma_trim_end_is_prefix(s.drop_last(), set);
        assert(s.drop_last().take(trim_end(s, set).len() as int) =~= s.take(
            trim_end(s, set).len() as int,
        ));
    } else {
        assert(s.take(s.len() as int) =~= s);
    }
}

/// A mnemonic that does not begin with `if` is no conditional jump.
pub proof fn lemma_no_comparison(command: Seq<char>)
    requires
        command.len() > 1,
        command[0] != 'i' || command[1] != 'f',
    ensures
        comparison_operator(command) == ""@,
{
    lemma_operator_names();
    lemma_trim_end_is_prefix(command, seq!['z']);
    let jump = trim_end(command, seq!['z']);
    if jump.len() > 1 {
        assert(jump[0] == command[0]);
        assert(jump[1] == command[1]);
    }
}

/// The names of the operators with one operand and of those with two are
/// different names.
pub proof fn lemma_symbols_apart(name: Seq<char>)
    ensures
        unary_symbol(name) != ""@ ==> binary_symbol(name) == ""@,
{
    lemma_operator_names();
}

/// A mnemonic that is no conversion and whose first part names an operator
/// with two operands encodes that operator.
pub proof fn lemma_binary_mnemonic(command: Seq<char>)
    requires
        command.len() > 1,
        command[0] != 'i' || command[1] != 'f',
        conversion_at(command, 0) is None,
        binary_symbol(root(command)) != ""@,
    ensures
        operator(command) == binary_symbol(root(command)),
        operator(command) != ""@,
{
    lemma_no_comparison(command);
    lemma_symbols_apart(root(command));
}

/// A mnemonic that is no conditional jump and names an operator with one
/// operand encodes that operator.
pub proof fn lemma_unary_mnemonic(command: Seq<char>)
    requires
        command.len() > 1,
        command[0] != 'i' || command[1] != 'f',
        unary_symbol(unary_root(command)) != ""@,
    ensures
        operator(command) == unary_symbol(unary_root(command)),
        operator(command) != ""@,
{
    lemma_no_comparison(command);
}

/// A conditional jump encodes its comparison.
pub proof fn lemma_comparison_mnemonic(command: Seq<char>)
    requires
        comparison_operator(command) != ""@,
    ensures
        operator(command) == comparison_operator(command),
        operator(command) != ""@,
{
}

/// Whether a parameter is of a kind.
pub open spec fn of_kind(parameter: CommandParameterView, kind: ParameterKind) -> bool {
    match kind {
        ParameterKind::Result => parameter is Result,
        ParameterKind::DefaultEmptyResult => parameter is DefaultEmptyResult,
        ParameterKind::Register => parameter is Register,
        ParameterKind::Registers => parameter is Registers,
        ParameterKind::Literal => parameter is Literal,
        ParameterKind::Label => parameter is Label,
        ParameterKind::Type => parameter is Type,
        ParameterKind::Field => parameter is Field,
        ParameterKind::Method => parameter is Method,
        ParameterKind::MethodHandle => parameter is MethodHandle,
        ParameterKind::Call => parameter is Call,
        ParameterKind::Data => parameter is Data,
    }
}

/// Whether the parameters are, one for one, of the kinds.
pub open spec fn of_kinds(parameters: Seq<CommandParameterView>, kinds: Seq<ParameterKind>) -> bool {
    &&& parameters.len() == kinds.len()
    &&& forall|i: int| 0 <= i < kinds.len() ==> of_kind(#[trigger] parameters[i], kinds[i])
}

/// Whether every data label among the parameters has been resolved.
pub open spec fn all_resolved(parameters: Seq<CommandParameterView>) -> bool {
    forall|i: int| 0 <= i < parameters.len() ==> !(#[trigger] parameters[i]).is_unresolved()
}

/// Whether every register group among the parameters has a first register.
pub open spec fn all_with_receiver(parameters: Seq<CommandParameterView>) -> bool {
    forall|i: int|
        0 <= i < parameters.len() && (#[trigger] parameters[i]) is Registers
            ==> parameters[i].receiver() is Some
}

/// What the parser reads for the parameters of an entry is of the kinds of
/// the entry.
pub proof fn lemma_parsed_parameters_of_kinds(input: Cursor, kinds: Seq<ParameterKind>, first: bool)
    ensures
        InstructionView::read_parameters(input, kinds, first) matches Ok((_, parameters))
            ==> of_kinds(parameters, kinds),
    decreases kinds.len(),
{
    if kinds.len() > 0 {
        let start = if first {
            Ok(input)
        } else {
            input.expect_char(',')
        };
        match start {
            Ok(at) => match CommandParameterView::read(at, kinds[0]) {
                Ok((next, parameter)) => {
                    let more = first && kinds[0] == ParameterKind::DefaultEmptyResult;
                    lemma_parsed_parameters_of_kinds(next, kinds.skip(1), more);
                    match InstructionView::read_parameters(next, kinds.skip(1), more) {
                        Ok((_, rest)) => {
                            let parameters = seq![parameter] + rest;
                            assert(of_kind(parameter, kinds[0]));
                            assert forall|i: int| 0 <= i < kinds.len() implies of_kind(
                                #[trigger] parameters[i],
                                kinds[i],
                            ) by {
                                if i > 0 {
                                    assert(parameters[i] == rest[i - 1]);
                                    assert(kinds[i] == kinds.skip(1)[i - 1]);
                                }
                            }
                        },
                        Err(_) => {},
                    }
                },
                Err(_) => {},
            },
            Err(_) => {},
        }
    }
}

/// Where a keyword can be read that does not begin with a period, neither a
/// directive nor a label begins.
pub proof fn lemma_keyword_is_no_label(input: Cursor)
    requires
        input.wf(),
        input.read_keyword() is Ok,
        input.read_keyword()->Ok_0.1[0] != '.',
    ensures
        input.expect_char('.') is Err,
        read_label_spec(input) is Err,
{
    let start = input.skip_whitespace();
    let word = input.read_keyword()->Ok_0.1;
    lemma_skip_blanks_bounds(input.text, input.pos);
    lemma_scan_bounds(input.text, start.pos, keyword_stops());
    assert(word.len() > 0);
    assert(start.pos < start.text.len());
    assert(word[0] == start.text[start.pos]);
    assert(keyword_stops().contains(':')) by {
        assert(keyword_stops()[3] == ':');
    }
    assert(!is_stop(start.text[start.pos], keyword_stops()));
    assert(start.text[start.pos] != ':');
    assert(input.expect_char('.') is Err);
    assert(input.expect_char(':') is Err);
}

/// A statement that begins with a mnemonic of the opcode table, and whose
/// parameters follow the grammar of the kinds that the table gives for the
/// mnemonic, is read without error as that command, with parameters of
/// those kinds.
pub proof fn lemma_table_command_parses(input: Cursor)
    requires
        input.wf(),
        input.read_keyword() is Ok,
        input.read_keyword()->Ok_0.1[0] != '.',
        InstructionView::read_command(input) is Ok,
        InstructionView::read_command(input)->Ok_0.0.expect_eol() is Ok,
    ensures
        InstructionView::read(input) == Ok::<(Cursor, InstructionView), ParseErrorView>(
            (
                InstructionView::read_command(input)->Ok_0.0.expect_eol()->Ok_0,
                InstructionView::read_command(input)->Ok_0.1,
            ),
        ),
        InstructionView::read_command(input)->Ok_0.1 matches InstructionView::Command {
            command,
            parameters,
        } && definition(command) is Some && of_kinds(parameters, definition(command)->0.parameters),
{
    lemma_keyword_is_no_label(input);
    let next = input.read_keyword()->Ok_0.0;
    let command = lowercase(input.read_keyword()->Ok_0.1);
    assert(definition(command) is Some);
    lemma_parsed_parameters_of_kinds(next, definition(command)->0.parameters, true);
}

/// A template that fits the kinds of an entry is filled without failure
/// from parameters that are there and resolved, where the operator is known
/// if the template asks for it; and no receiver is missing where every
/// register group has one.
pub proof fn lemma_fitting_template_fills(
    template: Seq<char>,
    at: int,
    kinds: Seq<ParameterKind>,
    parameters: Seq<CommandParameterView>,
    operator: Seq<char>,
)
    requires
        template_fits(template, at, kinds),
        of_kinds(parameters, kinds),
        all_resolved(parameters),
        uses_operator(template, at) ==> operator != ""@,
    ensures
        !expand(template, at, parameters, operator).failed,
        all_with_receiver(parameters) ==> expand(template, at, parameters, operator).orphans == 0,
    decreases template.len() - at,
{
    if 0 <= at < template.len() {
        let (piece, length) = piece_at(template, at);
        if at + length <= template.len() {
            lemma_fitting_template_fills(template, at + length, kinds, parameters, operator);
        }
        match piece {
            Piece::Receiver(index) => {
                assert(of_kind(parameters[index], kinds[index]));
            },
            Piece::Parameter(index) => {
                assert(!parameters[index].is_unresolved());
            },
            _ => {},
        }
    }
}

/// A command of the opcode table whose parameters are of the kinds that the
/// table gives for it, with every data label resolved, is written by its
/// template, behind its result where it has one; its operation is
/// recognized, and where every register group has a first register nothing
/// but what the parameters themselves warn of is warned of.
pub proof fn lemma_table_command_renders(
    command: Seq<char>,
    parameters: Seq<CommandParameterView>,
)
    requires
        definition(command) is Some,
        of_kinds(parameters, definition(command)->0.parameters),
        all_resolved(parameters),
    ensures
        !filled_template(command, parameters).failed,
        statement(command, parameters) == result_prefix(parameters) + expand(
            definition(command)->0.format,
            0,
            parameters,
            operator(command),
        ).text,
        all_with_receiver(parameters) ==> statement_warnings(command, parameters)
            == rendering_warnings(parameters, parameters.len() as int),
{
    let def = definition(command)->0;
    lemma_table_well_formed(command);
    lemma_table_operators(command);
    lemma_fitting_template_fills(def.format, 0, def.parameters, parameters, operator(command));
    if all_with_receiver(parameters) {
        assert(receiver_warnings(0, command) =~= Seq::<WarningView>::empty());
        assert(rendering_warnings(parameters, parameters.len() as int) + Seq::<
            WarningView,
        >::empty() =~= rendering_warnings(parameters, parameters.len() as int));
    }
}

/// The lines that a command adds to the output are its statement between
/// the indentation and a semicolon: they are a function of the mnemonic and
/// the parameters alone.
pub proof fn lemma_command_lines(command: Seq<char>, parameters: Seq<CommandParameterView>)
    ensures
        (InstructionView::Command { command, parameters }).jimple() == "        "@ + statement(
            command,
            parameters,
        ) + ";\n"@,
        (InstructionView::Command { command, parameters }).jimple_warnings() == statement_warnings(
            command,
            parameters,
        ),
{
    reveal(InstructionView::jimple);
    reveal(InstructionView::jimple_warnings);
}

/// No statement is read as a data block that is only a label: a data block
/// that the parser hands out holds what its directive held.
pub proof fn lemma_read_block_is_no_label(input: Cursor)
    ensures
        InstructionView::read(input) matches Ok((_, instruction)) ==> !(instruction
            matches InstructionView::Data(CommandDataView::Label(_))),
{
    reveal(InstructionView::read_directive);
}

} // verus!
