//! The code generator: how an instruction is written in the output.
//!
//! A command is written by the template that the opcode table gives for its
//! mnemonic, behind its result register where it has one. The operator that
//! a mnemonic encodes is not in the table: it is found from the mnemonic.
//! Where a template cannot be filled, the command is written as it stands,
//! its mnemonic in front of its parameters.

use vstd::prelude::*;
use vstd::string::*;
use crate::literal::{Literal, LiteralView};
use crate::text::{
    chars_of, is_word, push_char, push_signed_decimal, push_signed_hex,
    signed_decimal_text, signed_hex_text, str_eq,
};
use crate::tokenizer::trim_end;
use crate::types::joined;
use crate::warning::{Warning, WarningView};
use super::registers::{join, Register, Registers, RegistersView};
use super::table::{definition, instruction_def};
use super::{
    CommandData, CommandDataView, CommandParameter, CommandParameterView, Instruction,
    InstructionView, ParameterKind,
};

verus! {

broadcast use vstd::string::group_string_axioms;

/// The first position at or after `from` that holds `c`, or the end of `s`.
pub open spec fn index_of(s: Seq<char>, c: char, from: int) -> int
    decreases s.len() - from,
{
    if 0 <= from < s.len() && s[from] != c {
        index_of(s, c, from + 1)
    } else {
        from
    }
}

/// The part of a mnemonic in front of its first hyphen.
pub open spec fn root(command: Seq<char>) -> Seq<char> {
    command.take(index_of(command, '-', 0))
}

/// The first position at or after `from` at which `-to-` stands.
pub open spec fn conversion_at(command: Seq<char>, from: int) -> Option<int>
    decreases command.len() - from,
{
    if from < 0 || from + 4 > command.len() {
        None
    } else if command[from] == '-' && command[from + 1] == 't' && command[from + 2] == 'o'
        && command[from + 3] == '-' {
        Some(from)
    } else {
        conversion_at(command, from + 1)
    }
}

/// What names the operation of a mnemonic with one operand: the type behind
/// `-to-` for a conversion, else the part in front of the first hyphen.
pub open spec fn unary_root(command: Seq<char>) -> Seq<char> {
    match conversion_at(command, 0) {
        Some(at) => command.skip(at + 4),
        None => root(command),
    }
}

/// The comparison that the name of a conditional jump stands for, or the
/// empty text where it stands for none.
pub open spec fn comparison_symbol(jump: Seq<char>) -> Seq<char> {
    if jump == "if-eq"@ {
        "=="@
    } else if jump == "if-ne"@ {
        "!="@
    } else if jump == "if-lt"@ {
        "<"@
    } else if jump == "if-gt"@ {
        ">"@
    } else if jump == "if-le"@ {
        "<="@
    } else if jump == "if-ge"@ {
        ">="@
    } else {
        ""@
    }
}

/// The operator in front of one operand that a name stands for, or the
/// empty text where it stands for none.
pub open spec fn unary_symbol(name: Seq<char>) -> Seq<char> {
    if name == "neg"@ {
        "-"@
    } else if name == "not"@ {
        "~"@
    } else if name == "byte"@ {
        "(byte) "@
    } else if name == "char"@ {
        "(char) "@
    } else if name == "short"@ {
        "(short) "@
    } else if name == "int"@ {
        "(int) "@
    } else if name == "long"@ {
        "(long) "@
    } else if name == "float"@ {
        "(float) "@
    } else if name == "double"@ {
        "(double) "@
    } else {
        ""@
    }
}

/// The operator between two operands that a name stands for, or the empty
/// text where it stands for none.
pub open spec fn binary_symbol(name: Seq<char>) -> Seq<char> {
    if name == "add"@ {
        "+"@
    } else if name == "sub"@ || name == "rsub"@ {
        "-"@
    } else if name == "mul"@ {
        "*"@
    } else if name == "div"@ {
        "/"@
    } else if name == "rem"@ {
        "%"@
    } else if name == "and"@ {
        "&"@
    } else if name == "or"@ {
        "|"@
    } else if name == "xor"@ {
        "^"@
    } else if name == "shl"@ {
        "<<"@
    } else if name == "shr"@ {
        ">>"@
    } else if name == "ushr"@ {
        ">>>"@
    } else {
        ""@
    }
}

/// The comparison that a conditional jump makes, or the empty text where
/// the mnemonic is none. A final `z`, which compares with zero, does not
/// change the comparison.
pub open spec fn comparison_operator(command: Seq<char>) -> Seq<char> {
    comparison_symbol(trim_end(command, seq!['z']))
}

/// The operator in front of the one operand of a mnemonic, or the empty text
/// where the mnemonic encodes none.
pub open spec fn unary_operator(command: Seq<char>) -> Seq<char> {
    unary_symbol(unary_root(command))
}

/// The operator between the two operands of a mnemonic, or the empty text
/// where the mnemonic encodes none.
pub open spec fn binary_operator(command: Seq<char>) -> Seq<char> {
    binary_symbol(root(command))
}

/// The operator that a mnemonic encodes: a comparison, an operator with one
/// operand or one with two, whichever the mnemonic names; the empty text
/// where it names none.
pub open spec fn operator(command: Seq<char>) -> Seq<char> {
    if comparison_operator(command) != ""@ {
        comparison_operator(command)
    } else if unary_operator(command) != ""@ {
        unary_operator(command)
    } else {
        binary_operator(command)
    }
}

fn index_of_from(chars: &Vec<char>, c: char, from: usize) -> (r: usize)
    requires
        from <= chars@.len(),
    ensures
        r == index_of(chars@, c, from as int),
        from <= r <= chars@.len(),
{
    let mut i: usize = from;
    while i < chars.len() && chars[i] != c
        invariant
            from <= i <= chars@.len(),
            index_of(chars@, c, i as int) == index_of(chars@, c, from as int),
        decreases chars@.len() - i,
    {
        i += 1;
    }
    i
}

fn find_conversion(chars: &Vec<char>) -> (r: Option<usize>)
    ensures
        match r {
            Some(at) => conversion_at(chars@, 0) == Some(at as int) && at + 4 <= chars@.len(),
            None => conversion_at(chars@, 0) is None,
        },
{
    let len = chars.len();
    if len < 4 {
        return None;
    }
    let mut i: usize = 0;
    while i <= len - 4
        invariant
            i <= len - 3,
            4 <= len == chars@.len(),
            conversion_at(chars@, i as int) == conversion_at(chars@, 0),
        decreases len - i,
    {
        if chars[i] == '-' && chars[i + 1] == 't' && chars[i + 2] == 'o' && chars[i + 3] == '-' {
            return Some(i);
        }
        i += 1;
    }
    None
}

/// The comparison that a conditional jump makes.
pub fn if_op(command: &str) -> (r: &'static str)
    ensures
        r@ == comparison_operator(command@),
{
    let chars = chars_of(command);
    let mut end: usize = chars.len();
    assert(chars@.subrange(0, end as int) == chars@);
    while end > 0 && chars[end - 1] == 'z'
        invariant
            end <= chars@.len(),
            trim_end(chars@.subrange(0, end as int), seq!['z']) == trim_end(chars@, seq!['z']),
        decreases end,
    {
        proof {
            let s = chars@.subrange(0, end as int);
            assert(s.last() == 'z');
            assert(seq!['z'].contains('z')) by {
                assert(seq!['z'][0] == 'z');
            }
            assert(s.drop_last() == chars@.subrange(0, end - 1));
        }
        end -= 1;
    }
    proof {
        let s = chars@.subrange(0, end as int);
        if s.len() > 0 {
            assert(s.last() == chars@[end - 1]);
            assert(!seq!['z'].contains(s.last()));
        }
        assert(trim_end(s, seq!['z']) == s);
    }
    if is_word(&chars, 0, end, "if-eq") {
        "=="
    } else if is_word(&chars, 0, end, "if-ne") {
        "!="
    } else if is_word(&chars, 0, end, "if-lt") {
        "<"
    } else if is_word(&chars, 0, end, "if-gt") {
        ">"
    } else if is_word(&chars, 0, end, "if-le") {
        "<="
    } else if is_word(&chars, 0, end, "if-ge") {
        ">="
    } else {
        ""
    }
}

/// The operator in front of the one operand of a mnemonic.
pub fn unary_op(command: &str) -> (r: &'static str)
    ensures
        r@ == unary_operator(command@),
{
    let chars = chars_of(command);
    let (from, to) = match find_conversion(&chars) {
        Some(at) => {
            let len = chars.len();
            assert(chars@.skip(at + 4) == chars@.subrange(at + 4, chars@.len() as int));
            (at + 4, len)
        },
        None => {
            let dash = index_of_from(&chars, '-', 0);
            assert(chars@.take(dash as int) == chars@.subrange(0, dash as int));
            (0, dash)
        },
    };
    if is_word(&chars, from, to, "neg") {
        "-"
    } else if is_word(&chars, from, to, "not") {
        "~"
    } else if is_word(&chars, from, to, "byte") {
        "(byte) "
    } else if is_word(&chars, from, to, "char") {
        "(char) "
    } else if is_word(&chars, from, to, "short") {
        "(short) "
    } else if is_word(&chars, from, to, "int") {
        "(int) "
    } else if is_word(&chars, from, to, "long") {
        "(long) "
    } else if is_word(&chars, from, to, "float") {
        "(float) "
    } else if is_word(&chars, from, to, "double") {
        "(double) "
    } else {
        ""
    }
}

/// The operator between the two operands of a mnemonic.
pub fn bin_op(command: &str) -> (r: &'static str)
    ensures
        r@ == binary_operator(command@),
{
    let chars = chars_of(command);
    let dash = index_of_from(&chars, '-', 0);
    assert(chars@.take(dash as int) == chars@.subrange(0, dash as int));
    if is_word(&chars, 0, dash, "add") {
        "+"
    } else if is_word(&chars, 0, dash, "sub") || is_word(&chars, 0, dash, "rsub") {
        "-"
    } else if is_word(&chars, 0, dash, "mul") {
        "*"
    } else if is_word(&chars, 0, dash, "div") {
        "/"
    } else if is_word(&chars, 0, dash, "rem") {
        "%"
    } else if is_word(&chars, 0, dash, "and") {
        "&"
    } else if is_word(&chars, 0, dash, "or") {
        "|"
    } else if is_word(&chars, 0, dash, "xor") {
        "^"
    } else if is_word(&chars, 0, dash, "shl") {
        "<<"
    } else if is_word(&chars, 0, dash, "shr") {
        ">>"
    } else if is_word(&chars, 0, dash, "ushr") {
        ">>>"
    } else {
        ""
    }
}

/// The operator that a mnemonic encodes.
pub fn operator_of(command: &str) -> (r: &'static str)
    ensures
        r@ == operator(command@),
{
    let comparison = if_op(command);
    if !str_eq(comparison, "") {
        return comparison;
    }
    let unary = unary_op(command);
    if !str_eq(unary, "") {
        return unary;
    }
    bin_op(command)
}

/// The first `n` lines of a packed switch: the keys count up from the
/// first key, one for each target.
pub open spec fn packed_lines(first_key: int, targets: Seq<Seq<char>>, n: int) -> Seq<char>
    decreases n,
{
    if n <= 0 {
        Seq::empty()
    } else {
        packed_lines(first_key, targets, n - 1) + "            case "@ + signed_hex_text(
            first_key + (n - 1),
        ) + ": goto "@ + targets[n - 1] + ";\n"@
    }
}

/// The first `n` lines of a sparse switch, in the order of the input.
pub open spec fn sparse_lines(cases: Seq<(LiteralView, Seq<char>)>, n: int) -> Seq<char>
    decreases n,
{
    if n <= 0 {
        Seq::empty()
    } else {
        sparse_lines(cases, n - 1) + "            case "@ + cases[n - 1].0.text() + ": goto "@
            + cases[n - 1].1 + ";\n"@
    }
}

/// The first `n` lines of array data: one element a line.
pub open spec fn array_lines(values: Seq<LiteralView>, n: int) -> Seq<char>
    decreases n,
{
    if n <= 0 {
        Seq::empty()
    } else {
        array_lines(values, n - 1) + "            "@ + values[n - 1].text() + ",\n"@
    }
}

impl CommandDataView {
    /// The lines that a data block fills its command's template with. A
    /// label that was never resolved is only its name.
    pub open spec fn text(self) -> Seq<char> {
        match self {
            CommandDataView::Label(label) => label,
            CommandDataView::PackedSwitch(first_key, targets) => packed_lines(
                first_key as int,
                targets,
                targets.len() as int,
            ),
            CommandDataView::SparseSwitch(cases) => sparse_lines(cases, cases.len() as int),
            CommandDataView::Array(values) => array_lines(values, values.len() as int),
        }
    }
}

/// What stands in the output where a call needs a receiver and has none.
pub open spec fn no_receiver() -> Seq<char> {
    "<none>"@
}

impl CommandParameterView {
    /// The parameter as text.
    pub open spec fn text(self) -> Seq<char> {
        match self {
            CommandParameterView::Result(register) => register.text(),
            CommandParameterView::DefaultEmptyResult(Some(register)) => register.text(),
            CommandParameterView::DefaultEmptyResult(None) => Seq::empty(),
            CommandParameterView::Register(register) => register.text(),
            CommandParameterView::Variable(variable) => variable.text(),
            CommandParameterView::Registers(registers) => registers.text(false).1,
            CommandParameterView::Literal(literal) => literal.text(),
            CommandParameterView::Label(label) => label,
            CommandParameterView::Type(class) => class.name(),
            CommandParameterView::Field(field) => field.text(),
            CommandParameterView::Method(method) => method.text(),
            CommandParameterView::MethodHandle(kind, method) => kind + "@"@ + method.text(),
            CommandParameterView::Call(call) => call.text(),
            CommandParameterView::Data(data) => data.text(),
        }
    }

    /// The receiver of a call: the first register of a register group.
    pub open spec fn receiver(self) -> Option<Seq<char>> {
        match self {
            CommandParameterView::Registers(registers) => registers.text(true).0,
            _ => None,
        }
    }

    /// The arguments of a call with a receiver: the registers of a register
    /// group but the first.
    pub open spec fn arguments(self) -> Seq<char> {
        match self {
            CommandParameterView::Registers(registers) => registers.text(true).1,
            _ => self.text(),
        }
    }

    /// Whether the parameter is a data label that was never resolved.
    pub open spec fn is_unresolved(self) -> bool {
        self matches CommandParameterView::Data(CommandDataView::Label(_))
    }

    /// What writing the parameter warns of: a range between registers of two
    /// kinds, or a data label that was never resolved.
    pub open spec fn rendering_warnings(self) -> Seq<WarningView> {
        match self {
            CommandParameterView::Registers(registers) => registers.warnings(),
            CommandParameterView::Data(CommandDataView::Label(label)) => seq![
                WarningView::UnresolvedData { label },
            ],
            _ => Seq::empty(),
        }
    }
}

/// The warnings of writing the first `n` of some parameters.
pub open spec fn rendering_warnings(parameters: Seq<CommandParameterView>, n: int) -> Seq<WarningView>
    decreases n,
{
    if n <= 0 {
        Seq::empty()
    } else {
        rendering_warnings(parameters, n - 1) + parameters[n - 1].rendering_warnings()
    }
}

/// Whether one of the first `n` parameters is a data label that was never
/// resolved.
pub open spec fn any_unresolved(parameters: Seq<CommandParameterView>, n: int) -> bool
    decreases n,
{
    if n <= 0 {
        false
    } else {
        any_unresolved(parameters, n - 1) || parameters[n - 1].is_unresolved()
    }
}

/// One piece of a template.
pub enum Piece {
    /// A character that stands for itself.
    Text(char),
    /// `{i}`: parameter `i`.
    Parameter(int),
    /// `{i.this}`: the first register of the register group `i`.
    Receiver(int),
    /// `{i.args}`: the other registers of the register group `i`.
    Arguments(int),
    /// `{op}`: the operator that the mnemonic encodes.
    Operator,
}

/// The number that a decimal digit stands for.
pub open spec fn digit_index(c: char) -> Option<int> {
    if '0' <= c && c <= '9' {
        Some(c as int - 48)
    } else {
        None
    }
}

/// Whether `.this}` stands in `template` at `at`.
pub open spec fn receiver_at(template: Seq<char>, at: int) -> bool {
    &&& 0 <= at && at + 6 <= template.len()
    &&& template[at] == '.'
    &&& template[at + 1] == 't'
    &&& template[at + 2] == 'h'
    &&& template[at + 3] == 'i'
    &&& template[at + 4] == 's'
    &&& template[at + 5] == '}'
}

/// Whether `.args}` stands in `template` at `at`.
pub open spec fn arguments_at(template: Seq<char>, at: int) -> bool {
    &&& 0 <= at && at + 6 <= template.len()
    &&& template[at] == '.'
    &&& template[at + 1] == 'a'
    &&& template[at + 2] == 'r'
    &&& template[at + 3] == 'g'
    &&& template[at + 4] == 's'
    &&& template[at + 5] == '}'
}

/// Whether `{op}` stands in `template` at `at`.
pub open spec fn operator_at(template: Seq<char>, at: int) -> bool {
    &&& 0 <= at && at + 4 <= template.len()
    &&& template[at] == '{'
    &&& template[at + 1] == 'o'
    &&& template[at + 2] == 'p'
    &&& template[at + 3] == '}'
}

/// The piece that starts at `at`, and its length. An opening brace that
/// starts no placeholder stands for itself.
pub open spec fn piece_at(template: Seq<char>, at: int) -> (Piece, int) {
    if template[at] != '{' {
        (Piece::Text(template[at]), 1)
    } else if operator_at(template, at) {
        (Piece::Operator, 4)
    } else if at + 2 < template.len() && digit_index(template[at + 1]) is Some {
        let index = digit_index(template[at + 1])->0;
        if template[at + 2] == '}' {
            (Piece::Parameter(index), 3)
        } else if receiver_at(template, at + 2) {
            (Piece::Receiver(index), 8)
        } else if arguments_at(template, at + 2) {
            (Piece::Arguments(index), 8)
        } else {
            (Piece::Text('{'), 1)
        }
    } else {
        (Piece::Text('{'), 1)
    }
}

/// Whether a piece can be filled from parameters of the given kinds: a
/// parameter has to be there, and a receiver or arguments have to come from
/// a register group.
pub open spec fn piece_fits(piece: Piece, kinds: Seq<ParameterKind>) -> bool {
    match piece {
        Piece::Text(_) => true,
        Piece::Operator => true,
        Piece::Parameter(index) => 0 <= index < kinds.len(),
        Piece::Receiver(index) => 0 <= index < kinds.len() && kinds[index]
            == ParameterKind::Registers,
        Piece::Arguments(index) => 0 <= index < kinds.len() && kinds[index]
            == ParameterKind::Registers,
    }
}

/// Whether every piece of the template from `at` on can be filled from
/// parameters of the given kinds.
pub open spec fn template_fits(template: Seq<char>, at: int, kinds: Seq<ParameterKind>) -> bool
    decreases template.len() - at,
{
    if at < 0 || at >= template.len() {
        true
    } else {
        let (piece, length) = piece_at(template, at);
        piece_fits(piece, kinds) && (at + length > template.len() || template_fits(
            template,
            at + length,
            kinds,
        ))
    }
}

/// Whether the template from `at` on asks for the operator of the mnemonic.
pub open spec fn uses_operator(template: Seq<char>, at: int) -> bool
    decreases template.len() - at,
{
    if at < 0 || at >= template.len() {
        false
    } else {
        let (piece, length) = piece_at(template, at);
        piece is Operator || (at + length <= template.len() && uses_operator(
            template,
            at + length,
        ))
    }
}

/// A template, or a part of one, with its placeholders filled.
pub struct Filled {
    pub text: Seq<char>,
    /// A placeholder could not be filled: it points at no parameter, at a
    /// data label that was never resolved, or at an operator that the
    /// mnemonic does not encode.
    pub failed: bool,
    /// How many receivers are written that no register stands for.
    pub orphans: nat,
}

impl Filled {
    pub open spec fn nothing() -> Filled {
        Filled { text: Seq::empty(), failed: false, orphans: 0 }
    }

    pub open spec fn failure() -> Filled {
        Filled { text: Seq::empty(), failed: true, orphans: 0 }
    }

    pub open spec fn of(text: Seq<char>) -> Filled {
        Filled { text, failed: false, orphans: 0 }
    }

    /// One filled part behind another.
    pub open spec fn followed_by(self, next: Filled) -> Filled {
        Filled {
            text: self.text + next.text,
            failed: self.failed || next.failed,
            orphans: self.orphans + next.orphans,
        }
    }
}

/// One piece filled from the parameters of a command and the operator of its
/// mnemonic.
pub open spec fn fill(piece: Piece, parameters: Seq<CommandParameterView>, operator: Seq<char>) -> Filled {
    match piece {
        Piece::Text(c) => Filled::of(seq![c]),
        Piece::Operator => if operator == ""@ {
            Filled::failure()
        } else {
            Filled::of(operator)
        },
        Piece::Parameter(index) => if 0 <= index < parameters.len()
            && !parameters[index].is_unresolved() {
            Filled::of(parameters[index].text())
        } else {
            Filled::failure()
        },
        Piece::Receiver(index) => if 0 <= index < parameters.len() {
            match parameters[index].receiver() {
                Some(receiver) => Filled::of(receiver),
                None => Filled { text: no_receiver(), failed: false, orphans: 1 },
            }
        } else {
            Filled::failure()
        },
        Piece::Arguments(index) => if 0 <= index < parameters.len() {
            Filled::of(parameters[index].arguments())
        } else {
            Filled::failure()
        },
    }
}

/// The template from `at` on with every placeholder filled.
pub open spec fn expand(
    template: Seq<char>,
    at: int,
    parameters: Seq<CommandParameterView>,
    operator: Seq<char>,
) -> Filled
    decreases template.len() - at,
{
    if at < 0 || at >= template.len() {
        Filled::nothing()
    } else {
        let (piece, length) = piece_at(template, at);
        fill(piece, parameters, operator).followed_by(
            if at + length <= template.len() {
                expand(template, at + length, parameters, operator)
            } else {
                Filled::nothing()
            },
        )
    }
}

/// Whether a parameter is the place of a command's result.
pub open spec fn is_result_slot(parameter: CommandParameterView) -> bool {
    parameter is Result || parameter is DefaultEmptyResult
}

/// What stands in front of a command that leaves a result: the register
/// and an equals sign.
pub open spec fn result_prefix(parameters: Seq<CommandParameterView>) -> Seq<char> {
    if parameters.len() > 0 {
        match parameters[0] {
            CommandParameterView::Result(register) => register.text() + " = "@,
            CommandParameterView::DefaultEmptyResult(Some(register)) => register.text() + " = "@,
            _ => Seq::empty(),
        }
    } else {
        Seq::empty()
    }
}

/// The texts of the parameters from `from` on.
pub open spec fn parameter_texts(parameters: Seq<CommandParameterView>, from: int) -> Seq<Seq<char>> {
    parameters.skip(from).map_values(|p: CommandParameterView| p.text())
}

/// A command as it stands: the mnemonic and, behind a space, its parameters
/// with commas between them. The place of the result is left out.
pub open spec fn verbatim(command: Seq<char>, parameters: Seq<CommandParameterView>) -> Seq<char> {
    let from: int = if parameters.len() > 0 && is_result_slot(parameters[0]) {
        1
    } else {
        0
    };
    if parameters.len() <= from {
        command
    } else {
        command + " "@ + joined(parameter_texts(parameters, from), ", "@)
    }
}

/// The template of a command filled from its parameters, where the opcode
/// table knows the mnemonic.
pub open spec fn filled_template(command: Seq<char>, parameters: Seq<CommandParameterView>) -> Filled {
    match definition(command) {
        Some(def) => expand(def.format, 0, parameters, operator(command)),
        None => Filled::failure(),
    }
}

/// A command as a statement, without indentation and semicolon.
pub open spec fn statement(command: Seq<char>, parameters: Seq<CommandParameterView>) -> Seq<char> {
    let filled = filled_template(command, parameters);
    result_prefix(parameters) + (if filled.failed {
        verbatim(command, parameters)
    } else {
        filled.text
    })
}

/// `count` warnings of a call without a receiver.
pub open spec fn receiver_warnings(count: nat, command: Seq<char>) -> Seq<WarningView> {
    Seq::new(count, |i: int| WarningView::MissingReceiver { command })
}

/// What writing a command warns of: what its parameters warn of, then each
/// receiver that no register stands for; or, where the template could not be
/// filled though every data label was resolved, that the operation is not
/// recognized.
pub open spec fn statement_warnings(command: Seq<char>, parameters: Seq<CommandParameterView>) -> Seq<
    WarningView,
> {
    let filled = filled_template(command, parameters);
    rendering_warnings(parameters, parameters.len() as int) + (if !filled.failed {
        receiver_warnings(filled.orphans, command)
    } else if any_unresolved(parameters, parameters.len() as int) {
        Seq::empty()
    } else {
        seq![WarningView::UnrecognizedOperation { command }]
    })
}

impl InstructionView {
    /// The lines that the instruction adds to the output.
    #[verifier::opaque]
    pub open spec fn jimple(self) -> Seq<char> {
        match self {
            InstructionView::LineNumber(from, to) => if from == to {
                "        // line "@ + signed_decimal_text(from as int) + "\n"@
            } else {
                "        // line "@ + signed_decimal_text(from as int) + "-"@ + signed_decimal_text(
                    to as int,
                ) + "\n"@
            },
            InstructionView::Label(label) => "    "@ + label + ":\n"@,
            InstructionView::Command { command, parameters } => "        "@ + statement(
                command,
                parameters,
            ) + ";\n"@,
            InstructionView::Catch { exception, start_label, end_label, target } =>
                "        catch "@ + (match exception {
                Some(caught) => caught.name(),
                None => "java.lang.Throwable"@,
            }) + " from "@ + start_label + " to "@ + end_label + " with "@ + target + ";\n"@,
            _ => Seq::empty(),
        }
    }

    /// What writing the instruction warns of.
    #[verifier::opaque]
    pub open spec fn jimple_warnings(self) -> Seq<WarningView> {
        match self {
            InstructionView::Command { command, parameters } => statement_warnings(
                command,
                parameters,
            ),
            _ => Seq::empty(),
        }
    }
}

fn data_text(data: &CommandData) -> (r: String)
    ensures
        r@ == data@.text(),
{
    match data {
        CommandData::Label(label) => label.clone(),
        CommandData::PackedSwitch(first_key, targets) => {
            let mut r = String::new();
            let mut i: usize = 0;
            let ghost views = targets.deep_view();
            while i < targets.len()
                invariant
                    i <= targets@.len(),
                    views == targets.deep_view(),
                    r@ == packed_lines(*first_key as int, views, i as int),
                decreases targets@.len() - i,
            {
                let ghost before = r@;
                assert(views[i as int] == targets@[i as int]@);
                r.append("            case ");
                push_signed_hex(&mut r, *first_key as i128 + i as i128);
                r.append(": goto ");
                r.append(targets[i].as_str());
                r.append(";\n");
                i += 1;
            }
            r
        },
        CommandData::SparseSwitch(cases) => {
            let mut r = String::new();
            let mut i: usize = 0;
            let ghost views = cases.deep_view();
            while i < cases.len()
                invariant
                    i <= cases@.len(),
                    views == cases.deep_view(),
                    r@ == sparse_lines(views, i as int),
                decreases cases@.len() - i,
            {
                assert(views[i as int] == cases@[i as int].deep_view());
                r.append("            case ");
                r.append(cases[i].0.to_string().as_str());
                r.append(": goto ");
                r.append(cases[i].1.as_str());
                r.append(";\n");
                i += 1;
            }
            r
        },
        CommandData::Array(values) => {
            let mut r = String::new();
            let mut i: usize = 0;
            let ghost views = values.deep_view();
            while i < values.len()
                invariant
                    i <= values@.len(),
                    views == values.deep_view(),
                    r@ == array_lines(views, i as int),
                decreases values@.len() - i,
            {
                assert(views[i as int] == values@[i as int]@);
                r.append("            ");
                r.append(values[i].to_string().as_str());
                r.append(",\n");
                i += 1;
            }
            r
        },
    }
}

fn parameter_text(parameter: &CommandParameter) -> (r: String)
    ensures
        r@ == parameter@.text(),
{
    match parameter {
        CommandParameter::Result(register) => register.to_string(),
        CommandParameter::DefaultEmptyResult(Some(register)) => register.to_string(),
        CommandParameter::DefaultEmptyResult(None) => String::new(),
        CommandParameter::Register(register) => register.to_string(),
        CommandParameter::Variable(variable) => variable.to_string(),
        CommandParameter::Registers(registers) => registers.text(false).1,
        CommandParameter::Literal(literal) => literal.to_string(),
        CommandParameter::Label(label) => label.clone(),
        CommandParameter::Type(class) => class.get_name(),
        CommandParameter::Field(field) => field.to_string(),
        CommandParameter::Method(method) => method.to_string(),
        CommandParameter::MethodHandle(kind, method) => {
            let mut r = kind.clone();
            r.append("@");
            r.append(method.to_string().as_str());
            r
        },
        CommandParameter::Call(call) => call.to_string(),
        CommandParameter::Data(data) => data_text(data),
    }
}

fn parameter_receiver(parameter: &CommandParameter) -> (r: Option<String>)
    ensures
        r.deep_view() == parameter@.receiver(),
{
    match parameter {
        CommandParameter::Registers(registers) => registers.text(true).0,
        _ => None,
    }
}

fn parameter_arguments(parameter: &CommandParameter) -> (r: String)
    ensures
        r@ == parameter@.arguments(),
{
    match parameter {
        CommandParameter::Registers(registers) => registers.text(true).1,
        _ => parameter_text(parameter),
    }
}

fn parameter_is_unresolved(parameter: &CommandParameter) -> (r: bool)
    ensures
        r == parameter@.is_unresolved(),
{
    matches!(parameter, CommandParameter::Data(CommandData::Label(_)))
}

fn check_parameter(parameter: &CommandParameter, warnings: &mut Vec<Warning>)
    ensures
        final(warnings).deep_view() == old(warnings).deep_view() + parameter@.rendering_warnings(),
{
    let ghost before = warnings.deep_view();
    assert(before + Seq::<WarningView>::empty() =~= before);
    match parameter {
        CommandParameter::Registers(registers) => {
            registers.check(warnings);
        },
        CommandParameter::Data(CommandData::Label(label)) => {
            warnings.push(Warning::UnresolvedData { label: label.clone() });
            assert(warnings.deep_view() =~= before + seq![
                WarningView::UnresolvedData { label: label@ },
            ]);
        },
        _ => {},
    }
}

/// Warns of what writing the parameters warns of, and says whether a data
/// label among them was never resolved.
fn check_parameters(parameters: &Vec<CommandParameter>, warnings: &mut Vec<Warning>) -> (r: bool)
    ensures
        final(warnings).deep_view() == old(warnings).deep_view() + rendering_warnings(
            parameters.deep_view(),
            parameters@.len() as int,
        ),
        r == any_unresolved(parameters.deep_view(), parameters@.len() as int),
{
    let ghost views = parameters.deep_view();
    let ghost before = warnings.deep_view();
    let mut unresolved = false;
    let mut i: usize = 0;
    assert(before + rendering_warnings(views, 0) =~= before);
    while i < parameters.len()
        invariant
            i <= parameters@.len(),
            views == parameters.deep_view(),
            warnings.deep_view() == before + rendering_warnings(views, i as int),
            unresolved == any_unresolved(views, i as int),
        decreases parameters@.len() - i,
    {
        let ghost so_far = warnings.deep_view();
        assert(views[i as int] == parameters@[i as int]@);
        check_parameter(&parameters[i], warnings);
        if parameter_is_unresolved(&parameters[i]) {
            unresolved = true;
        }
        assert(warnings.deep_view() =~= before + (rendering_warnings(views, i as int)
            + views[i as int].rendering_warnings()));
        i += 1;
    }
    unresolved
}

/// One piece of a template, read from `chars` at `at`.
enum TemplatePiece {
    Text(char),
    Parameter(usize),
    Receiver(usize),
    Arguments(usize),
    Operator,
}

impl TemplatePiece {
    spec fn model(self) -> Piece {
        match self {
            TemplatePiece::Text(c) => Piece::Text(c),
            TemplatePiece::Parameter(index) => Piece::Parameter(index as int),
            TemplatePiece::Receiver(index) => Piece::Receiver(index as int),
            TemplatePiece::Arguments(index) => Piece::Arguments(index as int),
            TemplatePiece::Operator => Piece::Operator,
        }
    }
}

fn read_piece(chars: &Vec<char>, at: usize) -> (r: (TemplatePiece, usize))
    requires
        at < chars@.len(),
    ensures
        r.0.model() == piece_at(chars@, at as int).0,
        r.1 == piece_at(chars@, at as int).1,
        1 <= r.1,
        at + r.1 <= chars@.len(),
{
    let len = chars.len();
    let left = len - at;
    if chars[at] != '{' {
        return (TemplatePiece::Text(chars[at]), 1);
    }
    if left >= 4 && chars[at + 1] == 'o' && chars[at + 2] == 'p' && chars[at + 3] == '}' {
        return (TemplatePiece::Operator, 4);
    }
    if left > 2 && '0' <= chars[at + 1] && chars[at + 1] <= '9' {
        let index: usize = (chars[at + 1] as u8 - 48) as usize;
        if chars[at + 2] == '}' {
            return (TemplatePiece::Parameter(index), 3);
        }
        if left >= 8 && chars[at + 2] == '.' && chars[at + 7] == '}' {
            if chars[at + 3] == 't' && chars[at + 4] == 'h' && chars[at + 5] == 'i' && chars[at + 6]
                == 's' {
                return (TemplatePiece::Receiver(index), 8);
            }
            if chars[at + 3] == 'a' && chars[at + 4] == 'r' && chars[at + 5] == 'g' && chars[at + 6]
                == 's' {
                return (TemplatePiece::Arguments(index), 8);
            }
        }
    }
    (TemplatePiece::Text('{'), 1)
}

/// Appends one filled piece to `out`; says whether it could not be filled
/// and whether it is a receiver that no register stands for.
fn fill_piece(
    piece: TemplatePiece,
    parameters: &Vec<CommandParameter>,
    operator: &str,
    out: &mut String,
) -> (r: (bool, bool))
    ensures
        final(out)@ == old(out)@ + fill(piece.model(), parameters.deep_view(), operator@).text,
        r.0 == fill(piece.model(), parameters.deep_view(), operator@).failed,
        r.1 == (fill(piece.model(), parameters.deep_view(), operator@).orphans == 1),
        fill(piece.model(), parameters.deep_view(), operator@).orphans <= 1,
{
    let ghost before = out@;
    let ghost views = parameters.deep_view();
    assert(before + Seq::<char>::empty() =~= before);
    match piece {
        TemplatePiece::Text(c) => {
            push_char(out, c);
            assert(before.push(c) =~= before + seq![c]);
            (false, false)
        },
        TemplatePiece::Operator => {
            if str_eq(operator, "") {
                (true, false)
            } else {
                out.append(operator);
                (false, false)
            }
        },
        TemplatePiece::Parameter(index) => {
            if index < parameters.len() {
                assert(views[index as int] == parameters@[index as int]@);
                if parameter_is_unresolved(&parameters[index]) {
                    (true, false)
                } else {
                    out.append(parameter_text(&parameters[index]).as_str());
                    (false, false)
                }
            } else {
                (true, false)
            }
        },
        TemplatePiece::Receiver(index) => {
            if index < parameters.len() {
                assert(views[index as int] == parameters@[index as int]@);
                match parameter_receiver(&parameters[index]) {
                    Some(receiver) => {
                        out.append(receiver.as_str());
                        (false, false)
                    },
                    None => {
                        out.append("<none>");
                        (false, true)
                    },
                }
            } else {
                (true, false)
            }
        },
        TemplatePiece::Arguments(index) => {
            if index < parameters.len() {
                assert(views[index as int] == parameters@[index as int]@);
                out.append(parameter_arguments(&parameters[index]).as_str());
                (false, false)
            } else {
                (true, false)
            }
        },
    }
}

/// The template with every placeholder filled.
fn expand_template(template: &str, parameters: &Vec<CommandParameter>, operator: &str) -> (r: (
    String,
    bool,
    usize,
))
    ensures
        r.0@ == expand(template@, 0, parameters.deep_view(), operator@).text,
        r.1 == expand(template@, 0, parameters.deep_view(), operator@).failed,
        r.2 == expand(template@, 0, parameters.deep_view(), operator@).orphans,
{
    let chars = chars_of(template);
    let ghost views = parameters.deep_view();
    let mut out = String::new();
    let mut failed = false;
    let mut orphans: usize = 0;
    let mut at: usize = 0;
    proof {
        let whole = expand(chars@, 0, views, operator@);
        assert(Filled::nothing().followed_by(whole).text =~= whole.text);
    }
    while at < chars.len()
        invariant
            at <= chars@.len(),
            chars@ == template@,
            views == parameters.deep_view(),
            orphans <= at,
            (Filled { text: out@, failed, orphans: orphans as nat }).followed_by(
                expand(chars@, at as int, views, operator@),
            ) == expand(chars@, 0, views, operator@),
        decreases chars@.len() - at,
    {
        let ghost acc = Filled { text: out@, failed, orphans: orphans as nat };
        let (piece, length) = read_piece(&chars, at);
        let ghost head = fill(piece.model(), views, operator@);
        let ghost tail = expand(chars@, at + length, views, operator@);
        let (piece_failed, orphan) = fill_piece(piece, parameters, operator, &mut out);
        if piece_failed {
            failed = true;
        }
        if orphan {
            orphans += 1;
        }
        proof {
            assert(expand(chars@, at as int, views, operator@) == head.followed_by(tail));
            assert(acc.followed_by(head).followed_by(tail).text =~= acc.followed_by(head.followed_by(tail)).text);
        }
        at += length;
    }
    proof {
        let acc = Filled { text: out@, failed, orphans: orphans as nat };
        assert(acc.followed_by(Filled::nothing()).text =~= acc.text);
    }
    (out, failed, orphans)
}

fn parameter_is_result_slot(parameter: &CommandParameter) -> (r: bool)
    ensures
        r == is_result_slot(parameter@),
{
    matches!(parameter, CommandParameter::Result(_) | CommandParameter::DefaultEmptyResult(_))
}

/// Appends the command as it stands to `out`.
fn push_verbatim(command: &str, parameters: &Vec<CommandParameter>, out: &mut String)
    ensures
        final(out)@ == old(out)@ + verbatim(command@, parameters.deep_view()),
{
    let ghost views = parameters.deep_view();
    let from: usize = if parameters.len() > 0 {
        assert(views[0] == parameters@[0]@);
        if parameter_is_result_slot(&parameters[0]) {
            1
        } else {
            0
        }
    } else {
        0
    };
    out.append(command);
    if parameters.len() > from {
        let mut texts: Vec<String> = Vec::new();
        let mut i: usize = from;
        while i < parameters.len()
            invariant
                from <= i <= parameters@.len(),
                views == parameters.deep_view(),
                texts@.len() == i - from,
                forall|j: int| 0 <= j < i - from ==> (#[trigger] texts@[j])@ == views[from + j].text(),
            decreases parameters@.len() - i,
        {
            assert(views[i as int] == parameters@[i as int]@);
            texts.push(parameter_text(&parameters[i]));
            i += 1;
        }
        assert(texts.deep_view() =~= parameter_texts(views, from as int));
        out.append(" ");
        out.append(join(&texts, ", ").as_str());
    }
}

/// Appends what stands in front of a command that leaves a result.
fn push_result_prefix(parameters: &Vec<CommandParameter>, out: &mut String)
    ensures
        final(out)@ == old(out)@ + result_prefix(parameters.deep_view()),
{
    let ghost before = out@;
    assert(before + Seq::<char>::empty() =~= before);
    if parameters.len() > 0 {
        assert(parameters.deep_view()[0] == parameters@[0]@);
        match &parameters[0] {
            CommandParameter::Result(register) => {
                out.append(register.to_string().as_str());
                out.append(" = ");
            },
            CommandParameter::DefaultEmptyResult(Some(register)) => {
                out.append(register.to_string().as_str());
                out.append(" = ");
            },
            _ => {},
        }
    }
}

/// Appends a command as a statement to `out`.
fn push_statement(
    command: &str,
    parameters: &Vec<CommandParameter>,
    out: &mut String,
    warnings: &mut Vec<Warning>,
)
    ensures
        final(out)@ == old(out)@ + statement(command@, parameters.deep_view()),
        final(warnings).deep_view() == old(warnings).deep_view() + statement_warnings(
            command@,
            parameters.deep_view(),
        ),
{
    let ghost views = parameters.deep_view();
    let ghost before = out@;
    let ghost warned = warnings.deep_view();
    let unresolved = check_parameters(parameters, warnings);
    let ghost checked = warnings.deep_view();
    push_result_prefix(parameters, out);
    let (text, failed, orphans) = match instruction_def(command) {
        Some(def) => expand_template(def.format, parameters, operator_of(command)),
        None => (String::new(), true, 0),
    };
    if failed {
        push_verbatim(command, parameters, out);
        if !unresolved {
            warnings.push(Warning::UnrecognizedOperation { command: command.to_owned() });
            assert(warnings.deep_view() =~= checked + seq![
                WarningView::UnrecognizedOperation { command: command@ },
            ]);
        } else {
            assert(checked + Seq::<WarningView>::empty() =~= checked);
        }
    } else {
        out.append(text.as_str());
        let mut i: usize = 0;
        assert(checked + receiver_warnings(0, command@) =~= checked);
        while i < orphans
            invariant
                i <= orphans,
                warnings.deep_view() == checked + receiver_warnings(i as nat, command@),
            decreases orphans - i,
        {
            let ghost so_far = warnings.deep_view();
            warnings.push(Warning::MissingReceiver { command: command.to_owned() });
            assert(warnings.deep_view() =~= so_far.push(
                WarningView::MissingReceiver { command: command@ },
            ));
            assert(receiver_warnings((i + 1) as nat, command@) =~= receiver_warnings(
                i as nat,
                command@,
            ).push(WarningView::MissingReceiver { command: command@ }));
            i += 1;
        }
    }
    proof {
        let filled = filled_template(command@, views);
        let tail = if filled.failed {
            verbatim(command@, views)
        } else {
            filled.text
        };
        assert(out@ =~= before + (result_prefix(views) + tail));
        let added = if !filled.failed {
            receiver_warnings(filled.orphans, command@)
        } else if any_unresolved(views, views.len() as int) {
            Seq::empty()
        } else {
            seq![WarningView::UnrecognizedOperation { command: command@ }]
        };
        assert(warnings.deep_view() =~= warned + (rendering_warnings(views, views.len() as int)
            + added));
    }
}

impl Instruction {
    /// Appends to `output` the lines that the instruction stands for, and to
    /// `warnings` what writing them warns of.
    pub fn write_jimple(&self, output: &mut String, warnings: &mut Vec<Warning>)
        ensures
            final(output)@ == old(output)@ + self@.jimple(),
            final(warnings).deep_view() == old(warnings).deep_view() + self@.jimple_warnings(),
    {
        let ghost before = output@;
        let ghost warned = warnings.deep_view();
        reveal(InstructionView::jimple);
        reveal(InstructionView::jimple_warnings);
        assert(before + Seq::<char>::empty() =~= before);
        assert(warned + Seq::<WarningView>::empty() =~= warned);
        match self {
            Instruction::LineNumber(from, to) => {
                output.append("        // line ");
                push_signed_decimal(output, *from);
                if *from != *to {
                    output.append("-");
                    push_signed_decimal(output, *to);
                }
                output.append("\n");
                assert(output@ =~= before + self@.jimple());
            },
            Instruction::Label(label) => {
                output.append("    ");
                output.append(label.as_str());
                output.append(":\n");
                assert(output@ =~= before + self@.jimple());
            },
            Instruction::Command { command, parameters } => {
                output.append("        ");
                push_statement(command.as_str(), parameters, output, warnings);
                output.append(";\n");
                assert(output@ =~= before + self@.jimple());
            },
            Instruction::Catch { exception, start_label, end_label, target } => {
                output.append("        catch ");
                match exception {
                    Some(caught) => {
                        output.append(caught.get_name().as_str());
                    },
                    None => {
                        output.append("java.lang.Throwable");
                    },
                }
                output.append(" from ");
                output.append(start_label.as_str());
                output.append(" to ");
                output.append(end_label.as_str());
                output.append(" with ");
                output.append(target.as_str());
                output.append(";\n");
                assert(output@ =~= before + self@.jimple());
            },
            _ => {},
        }
    }
}

} // verus!
