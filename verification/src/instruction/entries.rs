//! The entries of the opcode table one by one: each template fits the
//! parameters of its entry, and each mnemonic whose template asks for an
//! operator encodes one.

use vstd::prelude::*;
use vstd::string::*;
use crate::tokenizer::trim_end;
use super::jimple::{
    conversion_at, index_of, operator, root, template_fits, unary_root, uses_operator,
};
use super::laws::{lemma_binary_mnemonic, lemma_comparison_mnemonic, lemma_unary_mnemonic};
use super::table::{
    array_get_entry, array_length_entry, array_put_entry, binary_entry, binary_in_place_entry,
    binary_literal_entry, branch_entry, branch_zero_entry, check_cast_entry,
    compare_greater_entry, compare_less_entry, compare_long_entry, constant_class_entry,
    constant_entry, constant_high16_entry, constant_method_handle_entry,
    constant_method_type_entry, constant_wide_high16_entry, definition, fill_array_data_entry,
    filled_new_array_entry, goto_entry, instance_get_entry, instance_of_entry,
    instance_put_entry, invoke_direct_entry, invoke_interface_entry, invoke_polymorphic_entry,
    invoke_static_entry, invoke_super_entry, invoke_virtual_entry, is_array_get,
    is_array_length, is_array_put, is_binary, is_binary_in_place, is_binary_literal, is_branch,
    is_branch_zero, is_check_cast, is_compare_greater, is_compare_less, is_compare_long,
    is_constant, is_constant_class, is_constant_high16, is_constant_method_handle,
    is_constant_method_type, is_constant_wide_high16, is_fill_array_data, is_filled_new_array,
    is_goto, is_instance_get, is_instance_of, is_instance_put, is_invoke_direct,
    is_invoke_interface, is_invoke_polymorphic, is_invoke_static, is_invoke_super,
    is_invoke_virtual, is_monitor_enter, is_monitor_exit, is_move, is_move_exception,
    is_move_result, is_move_result_object, is_move_result_wide, is_new_array, is_new_instance,
    is_nop, is_return_value, is_return_void, is_reverse_subtract, is_static_get, is_static_put,
    is_switch, is_throw, is_to_byte, is_to_char, is_to_double, is_to_float, is_to_int,
    is_to_long, is_to_short, is_unary, monitor_enter_entry, monitor_exit_entry, move_entry,
    move_exception_entry, move_result_entry, move_result_object_entry, move_result_wide_entry,
    new_array_entry, new_instance_entry, nop_entry, return_value_entry, return_void_entry,
    reverse_subtract_entry, static_get_entry, static_put_entry, switch_entry, throw_entry,
    to_byte_entry, to_char_entry, to_double_entry, to_float_entry, to_int_entry, to_long_entry,
    to_short_entry, unary_entry,
};

verus! {

broadcast use vstd::string::group_string_axioms;

/// The names of the operators, character by character, and the lengths of
/// the operators themselves.
pub proof fn lemma_operator_names()
    ensures
        "if-eq"@.len() == 5,
        "if-eq"@[0] == 'i',
        "if-eq"@[1] == 'f',
        "if-eq"@[2] == '-',
        "if-eq"@[3] == 'e',
        "if-eq"@[4] == 'q',
        "if-ne"@.len() == 5,
        "if-ne"@[0] == 'i',
        "if-ne"@[1] == 'f',
        "if-ne"@[2] == '-',
        "if-ne"@[3] == 'n',
        "if-ne"@[4] == 'e',
        "if-lt"@.len() == 5,
        "if-lt"@[0] == 'i',
        "if-lt"@[1] == 'f',
        "if-lt"@[2] == '-',
        "if-lt"@[3] == 'l',
        "if-lt"@[4] == 't',
        "if-gt"@.len() == 5,
        "if-gt"@[0] == 'i',
        "if-gt"@[1] == 'f',
        "if-gt"@[2] == '-',
        "if-gt"@[3] == 'g',
        "if-gt"@[4] == 't',
        "if-le"@.len() == 5,
        "if-le"@[0] == 'i',
        "if-le"@[1] == 'f',
        "if-le"@[2] == '-',
        "if-le"@[3] == 'l',
        "if-le"@[4] == 'e',
        "if-ge"@.len() == 5,
        "if-ge"@[0] == 'i',
        "if-ge"@[1] == 'f',
        "if-ge"@[2] == '-',
        "if-ge"@[3] == 'g',
        "if-ge"@[4] == 'e',
        "neg"@.len() == 3,
        "neg"@[0] == 'n',
        "neg"@[1] == 'e',
        "neg"@[2] == 'g',
        "not"@.len() == 3,
        "not"@[0] == 'n',
        "not"@[1] == 'o',
        "not"@[2] == 't',
        "byte"@.len() == 4,
        "byte"@[0] == 'b',
        "byte"@[1] == 'y',
        "byte"@[2] == 't',
        "byte"@[3] == 'e',
        "char"@.len() == 4,
        "char"@[0] == 'c',
        "char"@[1] == 'h',
        "char"@[2] == 'a',
        "char"@[3] == 'r',
        "short"@.len() == 5,
        "short"@[0] == 's',
        "short"@[1] == 'h',
        "short"@[2] == 'o',
        "short"@[3] == 'r',
        "short"@[4] == 't',
        "int"@.len() == 3,
        "int"@[0] == 'i',
        "int"@[1] == 'n',
        "int"@[2] == 't',
        "long"@.len() == 4,
        "long"@[0] == 'l',
        "long"@[1] == 'o',
        "long"@[2] == 'n',
        "long"@[3] == 'g',
        "float"@.len() == 5,
        "float"@[0] == 'f',
        "float"@[1] == 'l',
        "float"@[2] == 'o',
        "float"@[3] == 'a',
        "float"@[4] == 't',
        "double"@.len() == 6,
        "double"@[0] == 'd',
        "double"@[1] == 'o',
        "double"@[2] == 'u',
        "double"@[3] == 'b',
        "double"@[4] == 'l',
        "double"@[5] == 'e',
        "add"@.len() == 3,
        "add"@[0] == 'a',
        "add"@[1] == 'd',
        "add"@[2] == 'd',
        "sub"@.len() == 3,
        "sub"@[0] == 's',
        "sub"@[1] == 'u',
        "sub"@[2] == 'b',
        "rsub"@.len() == 4,
        "rsub"@[0] == 'r',
        "rsub"@[1] == 's',
        "rsub"@[2] == 'u',
        "rsub"@[3] == 'b',
        "mul"@.len() == 3,
        "mul"@[0] == 'm',
        "mul"@[1] == 'u',
        "mul"@[2] == 'l',
        "div"@.len() == 3,
        "div"@[0] == 'd',
        "div"@[1] == 'i',
        "div"@[2] == 'v',
        "rem"@.len() == 3,
        "rem"@[0] == 'r',
        "rem"@[1] == 'e',
        "rem"@[2] == 'm',
        "and"@.len() == 3,
        "and"@[0] == 'a',
        "and"@[1] == 'n',
        "and"@[2] == 'd',
        "or"@.len() == 2,
        "or"@[0] == 'o',
        "or"@[1] == 'r',
        "xor"@.len() == 3,
        "xor"@[0] == 'x',
        "xor"@[1] == 'o',
        "xor"@[2] == 'r',
        "shl"@.len() == 3,
        "shl"@[0] == 's',
        "shl"@[1] == 'h',
        "shl"@[2] == 'l',
        "shr"@.len() == 3,
        "shr"@[0] == 's',
        "shr"@[1] == 'h',
        "shr"@[2] == 'r',
        "ushr"@.len() == 4,
        "ushr"@[0] == 'u',
        "ushr"@[1] == 's',
        "ushr"@[2] == 'h',
        "ushr"@[3] == 'r',
        ""@.len() == 0,
        "=="@.len() == 2,
        "!="@.len() == 2,
        "<"@.len() == 1,
        ">"@.len() == 1,
        "<="@.len() == 2,
        ">="@.len() == 2,
        "-"@.len() == 1,
        "~"@.len() == 1,
        "(byte) "@.len() == 7,
        "(char) "@.len() == 7,
        "(short) "@.len() == 8,
        "(int) "@.len() == 6,
        "(long) "@.len() == 7,
        "(float) "@.len() == 8,
        "(double) "@.len() == 9,
        "+"@.len() == 1,
        "*"@.len() == 1,
        "/"@.len() == 1,
        "%"@.len() == 1,
        "&"@.len() == 1,
        "|"@.len() == 1,
        "^"@.len() == 1,
        "<<"@.len() == 2,
        ">>"@.len() == 2,
        ">>>"@.len() == 3,
{
    reveal_strlit("if-eq");
    reveal_strlit("if-ne");
    reveal_strlit("if-lt");
    reveal_strlit("if-gt");
    reveal_strlit("if-le");
    reveal_strlit("if-ge");
    reveal_strlit("neg");
    reveal_strlit("not");
    reveal_strlit("byte");
    reveal_strlit("char");
    reveal_strlit("short");
    reveal_strlit("int");
    reveal_strlit("long");
    reveal_strlit("float");
    reveal_strlit("double");
    reveal_strlit("add");
    reveal_strlit("sub");
    reveal_strlit("rsub");
    reveal_strlit("mul");
    reveal_strlit("div");
    reveal_strlit("rem");
    reveal_strlit("and");
    reveal_strlit("or");
    reveal_strlit("xor");
    reveal_strlit("shl");
    reveal_strlit("shr");
    reveal_strlit("ushr");
    reveal_strlit("");
    reveal_strlit("==");
    reveal_strlit("!=");
    reveal_strlit("<");
    reveal_strlit(">");
    reveal_strlit("<=");
    reveal_strlit(">=");
    reveal_strlit("-");
    reveal_strlit("~");
    reveal_strlit("(byte) ");
    reveal_strlit("(char) ");
    reveal_strlit("(short) ");
    reveal_strlit("(int) ");
    reveal_strlit("(long) ");
    reveal_strlit("(float) ");
    reveal_strlit("(double) ");
    reveal_strlit("+");
    reveal_strlit("*");
    reveal_strlit("/");
    reveal_strlit("%");
    reveal_strlit("&");
    reveal_strlit("|");
    reveal_strlit("^");
    reveal_strlit("<<");
    reveal_strlit(">>");
    reveal_strlit(">>>");
}

proof fn lemma_nop_fits()
    ensures
        nop_entry().well_formed(),
{
    reveal_strlit("nop");
    reveal_with_fuel(template_fits, 5);
}

proof fn lemma_nop_asks()
    ensures
        uses_operator(nop_entry().format, 0) == false,
{
    reveal_strlit("nop");
    reveal_with_fuel(uses_operator, 5);
}

proof fn lemma_nop_entry()
    ensures
        nop_entry().well_formed(),
        uses_operator(nop_entry().format, 0) == false,
{
    lemma_nop_fits();
    lemma_nop_asks();
}

proof fn lemma_move_fits()
    ensures
        move_entry().well_formed(),
{
    reveal_strlit("{1}");
    reveal_with_fuel(template_fits, 5);
}

proof fn lemma_move_asks()
    ensures
        uses_operator(move_entry().format, 0) == false,
{
    reveal_strlit("{1}");
    reveal_with_fuel(uses_operator, 5);
}

proof fn lemma_move_entry()
    ensures
        move_entry().well_formed(),
        uses_operator(move_entry().format, 0) == false,
{
    lemma_move_fits();
    lemma_move_asks();
}

proof fn lemma_move_result_fits()
    ensures
        move_result_entry().well_formed(),
{
    reveal_strlit("move-result");
    reveal_with_fuel(template_fits, 13);
}

proof fn lemma_move_result_asks()
    ensures
        uses_operator(move_result_entry().format, 0) == false,
{
    reveal_strlit("move-result");
    reveal_with_fuel(uses_operator, 13);
}

proof fn lemma_move_result_entry()
    ensures
        move_result_entry().well_formed(),
        uses_operator(move_result_entry().format, 0) == false,
{
    lemma_move_result_fits();
    lemma_move_result_asks();
}

proof fn lemma_move_result_wide_fits()
    ensures
        move_result_wide_entry().well_formed(),
{
    reveal_strlit("move-result");
    reveal_with_fuel(template_fits, 13);
}

proof fn lemma_move_result_wide_asks()
    ensures
        uses_operator(move_result_wide_entry().format, 0) == false,
{
    reveal_strlit("move-result");
    reveal_with_fuel(uses_operator, 13);
}

proof fn lemma_move_result_wide_entry()
    ensures
        move_result_wide_entry().well_formed(),
        uses_operator(move_result_wide_entry().format, 0) == false,
{
    lemma_move_result_wide_fits();
    lemma_move_result_wide_asks();
}

proof fn lemma_move_result_object_fits()
    ensures
        move_result_object_entry().well_formed(),
{
    reveal_strlit("move-result");
    reveal_with_fuel(template_fits, 13);
}

proof fn lemma_move_result_object_asks()
    ensures
        uses_operator(move_result_object_entry().format, 0) == false,
{
    reveal_strlit("move-result");
    reveal_with_fuel(uses_operator, 13);
}

proof fn lemma_move_result_object_entry()
    ensures
        move_result_object_entry().well_formed(),
        uses_operator(move_result_object_entry().format, 0) == false,
{
    lemma_move_result_object_fits();
    lemma_move_result_object_asks();
}

proof fn lemma_move_exception_fits()
    ensures
        move_exception_entry().well_formed(),
{
    reveal_strlit("move-exception");
    reveal_with_fuel(template_fits, 16);
}

proof fn lemma_move_exception_asks()
    ensures
        uses_operator(move_exception_entry().format, 0) == false,
{
    reveal_strlit("move-exception");
    reveal_with_fuel(uses_operator, 16);
}

proof fn lemma_move_exception_entry()
    ensures
        move_exception_entry().well_formed(),
        uses_operator(move_exception_entry().format, 0) == false,
{
    lemma_move_exception_fits();
    lemma_move_exception_asks();
}

proof fn lemma_return_void_fits()
    ensures
        return_void_entry().well_formed(),
{
    reveal_strlit("return");
    reveal_with_fuel(template_fits, 8);
}

proof fn lemma_return_void_asks()
    ensures
        uses_operator(return_void_entry().format, 0) == false,
{
    reveal_strlit("return");
    reveal_with_fuel(uses_operator, 8);
}

proof fn lemma_return_void_entry()
    ensures
        return_void_entry().well_formed(),
        uses_operator(return_void_entry().format, 0) == false,
{
    lemma_return_void_fits();
    lemma_return_void_asks();
}

proof fn lemma_return_value_fits()
    ensures
        return_value_entry().well_formed(),
{
    reveal_strlit("return {0}");
    reveal_with_fuel(template_fits, 12);
}

proof fn lemma_return_value_asks()
    ensures
        uses_operator(return_value_entry().format, 0) == false,
{
    reveal_strlit("return {0}");
    reveal_with_fuel(uses_operator, 12);
}

proof fn lemma_return_value_entry()
    ensures
        return_value_entry().well_formed(),
        uses_operator(return_value_entry().format, 0) == false,
{
    lemma_return_value_fits();
    lemma_return_value_asks();
}

proof fn lemma_constant_fits()
    ensures
        constant_entry().well_formed(),
{
    reveal_strlit("{1}");
    reveal_with_fuel(template_fits, 5);
}

proof fn lemma_constant_asks()
    ensures
        uses_operator(constant_entry().format, 0) == false,
{
    reveal_strlit("{1}");
    reveal_with_fuel(uses_operator, 5);
}

proof fn lemma_constant_entry()
    ensures
        constant_entry().well_formed(),
        uses_operator(constant_entry().format, 0) == false,
{
    lemma_constant_fits();
    lemma_constant_asks();
}

proof fn lemma_constant_high16_fits()
    ensures
        constant_high16_entry().well_formed(),
{
    reveal_strlit("{1} << 16");
    reveal_with_fuel(template_fits, 11);
}

proof fn lemma_constant_high16_asks()
    ensures
        uses_operator(constant_high16_entry().format, 0) == false,
{
    reveal_strlit("{1} << 16");
    reveal_with_fuel(uses_operator, 11);
}

proof fn lemma_constant_high16_entry()
    ensures
        constant_high16_entry().well_formed(),
        uses_operator(constant_high16_entry().format, 0) == false,
{
    lemma_constant_high16_fits();
    lemma_constant_high16_asks();
}

proof fn lemma_constant_wide_high16_fits()
    ensures
        constant_wide_high16_entry().well_formed(),
{
    reveal_strlit("{1} << 48");
    reveal_with_fuel(template_fits, 11);
}

proof fn lemma_constant_wide_high16_asks()
    ensures
        uses_operator(constant_wide_high16_entry().format, 0) == false,
{
    reveal_strlit("{1} << 48");
    reveal_with_fuel(uses_operator, 11);
}

proof fn lemma_constant_wide_high16_entry()
    ensures
        constant_wide_high16_entry().well_formed(),
        uses_operator(constant_wide_high16_entry().format, 0) == false,
{
    lemma_constant_wide_high16_fits();
    lemma_constant_wide_high16_asks();
}

proof fn lemma_constant_class_fits()
    ensures
        constant_class_entry().well_formed(),
{
    reveal_strlit("class {1}");
    reveal_with_fuel(template_fits, 11);
}

proof fn lemma_constant_class_asks()
    ensures
        uses_operator(constant_class_entry().format, 0) == false,
{
    reveal_strlit("class {1}");
    reveal_with_fuel(uses_operator, 11);
}

proof fn lemma_constant_class_entry()
    ensures
        constant_class_entry().well_formed(),
        uses_operator(constant_class_entry().format, 0) == false,
{
    lemma_constant_class_fits();
    lemma_constant_class_asks();
}

proof fn lemma_monitor_enter_fits()
    ensures
        monitor_enter_entry().well_formed(),
{
    reveal_strlit("monitor-enter {0}");
    reveal_with_fuel(template_fits, 19);
}

proof fn lemma_monitor_enter_asks()
    ensures
        uses_operator(monitor_enter_entry().format, 0) == false,
{
    reveal_strlit("monitor-enter {0}");
    reveal_with_fuel(uses_operator, 19);
}

proof fn lemma_monitor_enter_entry()
    ensures
        monitor_enter_entry().well_formed(),
        uses_operator(monitor_enter_entry().format, 0) == false,
{
    lemma_monitor_enter_fits();
    lemma_monitor_enter_asks();
}

proof fn lemma_monitor_exit_fits()
    ensures
        monitor_exit_entry().well_formed(),
{
    reveal_strlit("monitor-exit {0}");
    reveal_with_fuel(template_fits, 18);
}

proof fn lemma_monitor_exit_asks()
    ensures
        uses_operator(monitor_exit_entry().format, 0) == false,
{
    reveal_strlit("monitor-exit {0}");
    reveal_with_fuel(uses_operator, 18);
}

proof fn lemma_monitor_exit_entry()
    ensures
        monitor_exit_entry().well_formed(),
        uses_operator(monitor_exit_entry().format, 0) == false,
{
    lemma_monitor_exit_fits();
    lemma_monitor_exit_asks();
}

proof fn lemma_check_cast_fits()
    ensures
        check_cast_entry().well_formed(),
{
    reveal_strlit("({2}) {1}");
    reveal_with_fuel(template_fits, 11);
}

proof fn lemma_check_cast_asks()
    ensures
        uses_operator(check_cast_entry().format, 0) == false,
{
    reveal_strlit("({2}) {1}");
    reveal_with_fuel(uses_operator, 11);
}

proof fn lemma_check_cast_entry()
    ensures
        check_cast_entry().well_formed(),
        uses_operator(check_cast_entry().format, 0) == false,
{
    lemma_check_cast_fits();
    lemma_check_cast_asks();
}

proof fn lemma_instance_of_fits()
    ensures
        instance_of_entry().well_formed(),
{
    reveal_strlit("{1} instance-of {2}");
    reveal_with_fuel(template_fits, 21);
}

proof fn lemma_instance_of_asks()
    ensures
        uses_operator(instance_of_entry().format, 0) == false,
{
    reveal_strlit("{1} instance-of {2}");
    reveal_with_fuel(uses_operator, 21);
}

proof fn lemma_instance_of_entry()
    ensures
        instance_of_entry().well_formed(),
        uses_operator(instance_of_entry().format, 0) == false,
{
    lemma_instance_of_fits();
    lemma_instance_of_asks();
}

proof fn lemma_array_length_fits()
    ensures
        array_length_entry().well_formed(),
{
    reveal_strlit("array-length {1}");
    reveal_with_fuel(template_fits, 18);
}

proof fn lemma_array_length_asks()
    ensures
        uses_operator(array_length_entry().format, 0) == false,
{
    reveal_strlit("array-length {1}");
    reveal_with_fuel(uses_operator, 18);
}

proof fn lemma_array_length_entry()
    ensures
        array_length_entry().well_formed(),
        uses_operator(array_length_entry().format, 0) == false,
{
    lemma_array_length_fits();
    lemma_array_length_asks();
}

proof fn lemma_new_instance_fits()
    ensures
        new_instance_entry().well_formed(),
{
    reveal_strlit("new {1}");
    reveal_with_fuel(template_fits, 9);
}

proof fn lemma_new_instance_asks()
    ensures
        uses_operator(new_instance_entry().format, 0) == false,
{
    reveal_strlit("new {1}");
    reveal_with_fuel(uses_operator, 9);
}

proof fn lemma_new_instance_entry()
    ensures
        new_instance_entry().well_formed(),
        uses_operator(new_instance_entry().format, 0) == false,
{
    lemma_new_instance_fits();
    lemma_new_instance_asks();
}

proof fn lemma_new_array_fits()
    ensures
        new_array_entry().well_formed(),
{
    reveal_strlit("new {2}[{1}]");
    reveal_with_fuel(template_fits, 14);
}

proof fn lemma_new_array_asks()
    ensures
        uses_operator(new_array_entry().format, 0) == false,
{
    reveal_strlit("new {2}[{1}]");
    reveal_with_fuel(uses_operator, 14);
}

proof fn lemma_new_array_entry()
    ensures
        new_array_entry().well_formed(),
        uses_operator(new_array_entry().format, 0) == false,
{
    lemma_new_array_fits();
    lemma_new_array_asks();
}

proof fn lemma_filled_new_array_fits()
    ensures
        filled_new_array_entry().well_formed(),
{
    reveal_strlit("{{1}}");
    reveal_with_fuel(template_fits, 7);
}

proof fn lemma_filled_new_array_asks()
    ensures
        uses_operator(filled_new_array_entry().format, 0) == false,
{
    reveal_strlit("{{1}}");
    reveal_with_fuel(uses_operator, 7);
}

proof fn lemma_filled_new_array_entry()
    ensures
        filled_new_array_entry().well_formed(),
        uses_operator(filled_new_array_entry().format, 0) == false,
{
    lemma_filled_new_array_fits();
    lemma_filled_new_array_asks();
}

proof fn lemma_fill_array_data_fits()
    ensures
        fill_array_data_entry().well_formed(),
{
    reveal_strlit("{0} = {\n{1}        }");
    reveal_with_fuel(template_fits, 22);
}

proof fn lemma_fill_array_data_asks()
    ensures
        uses_operator(fill_array_data_entry().format, 0) == false,
{
    reveal_strlit("{0} = {\n{1}        }");
    reveal_with_fuel(uses_operator, 22);
}

proof fn lemma_fill_array_data_entry()
    ensures
        fill_array_data_entry().well_formed(),
        uses_operator(fill_array_data_entry().format, 0) == false,
{
    lemma_fill_array_data_fits();
    lemma_fill_array_data_asks();
}

proof fn lemma_throw_fits()
    ensures
        throw_entry().well_formed(),
{
    reveal_strlit("throw {0}");
    reveal_with_fuel(template_fits, 11);
}

proof fn lemma_throw_asks()
    ensures
        uses_operator(throw_entry().format, 0) == false,
{
    reveal_strlit("throw {0}");
    reveal_with_fuel(uses_operator, 11);
}

proof fn lemma_throw_entry()
    ensures
        throw_entry().well_formed(),
        uses_operator(throw_entry().format, 0) == false,
{
    lemma_throw_fits();
    lemma_throw_asks();
}

proof fn lemma_goto_fits()
    ensures
        goto_entry().well_formed(),
{
    reveal_strlit("goto {0}");
    reveal_with_fuel(template_fits, 10);
}

proof fn lemma_goto_asks()
    ensures
        uses_operator(goto_entry().format, 0) == false,
{
    reveal_strlit("goto {0}");
    reveal_with_fuel(uses_operator, 10);
}

proof fn lemma_goto_entry()
    ensures
        goto_entry().well_formed(),
        uses_operator(goto_entry().format, 0) == false,
{
    lemma_goto_fits();
    lemma_goto_asks();
}

#[verifier::rlimit(40)]
proof fn lemma_switch_fits()
    ensures
        switch_entry().well_formed(),
{
    reveal_strlit("switch({0})\n        {\n{1}        }");
    reveal_with_fuel(template_fits, 36);
}

#[verifier::rlimit(40)]
proof fn lemma_switch_asks()
    ensures
        uses_operator(switch_entry().format, 0) == false,
{
    reveal_strlit("switch({0})\n        {\n{1}        }");
    reveal_with_fuel(uses_operator, 36);
}

proof fn lemma_switch_entry()
    ensures
        switch_entry().well_formed(),
        uses_operator(switch_entry().format, 0) == false,
{
    lemma_switch_fits();
    lemma_switch_asks();
}

proof fn lemma_compare_less_fits()
    ensures
        compare_less_entry().well_formed(),
{
    reveal_strlit("{1} cmpl {2}");
    reveal_with_fuel(template_fits, 14);
}

proof fn lemma_compare_less_asks()
    ensures
        uses_operator(compare_less_entry().format, 0) == false,
{
    reveal_strlit("{1} cmpl {2}");
    reveal_with_fuel(uses_operator, 14);
}

proof fn lemma_compare_less_entry()
    ensures
        compare_less_entry().well_formed(),
        uses_operator(compare_less_entry().format, 0) == false,
{
    lemma_compare_less_fits();
    lemma_compare_less_asks();
}

proof fn lemma_compare_greater_fits()
    ensures
        compare_greater_entry().well_formed(),
{
    reveal_strlit("{1} cmpg {2}");
    reveal_with_fuel(template_fits, 14);
}

proof fn lemma_compare_greater_asks()
    ensures
        uses_operator(compare_greater_entry().format, 0) == false,
{
    reveal_strlit("{1} cmpg {2}");
    reveal_with_fuel(uses_operator, 14);
}

proof fn lemma_compare_greater_entry()
    ensures
        compare_greater_entry().well_formed(),
        uses_operator(compare_greater_entry().format, 0) == false,
{
    lemma_compare_greater_fits();
    lemma_compare_greater_asks();
}

proof fn lemma_compare_long_fits()
    ensures
        compare_long_entry().well_formed(),
{
    reveal_strlit("{1} cmp {2}");
    reveal_with_fuel(template_fits, 13);
}

proof fn lemma_compare_long_asks()
    ensures
        uses_operator(compare_long_entry().format, 0) == false,
{
    reveal_strlit("{1} cmp {2}");
    reveal_with_fuel(uses_operator, 13);
}

proof fn lemma_compare_long_entry()
    ensures
        compare_long_entry().well_formed(),
        uses_operator(compare_long_entry().format, 0) == false,
{
    lemma_compare_long_fits();
    lemma_compare_long_asks();
}

#[verifier::rlimit(40)]
proof fn lemma_branch_fits()
    ensures
        branch_entry().well_formed(),
{
    reveal_strlit("if {0} {op} {1} goto {2}");
    reveal_with_fuel(template_fits, 26);
}

#[verifier::rlimit(40)]
proof fn lemma_branch_asks()
    ensures
        uses_operator(branch_entry().format, 0) == true,
{
    reveal_strlit("if {0} {op} {1} goto {2}");
    reveal_with_fuel(uses_operator, 26);
}

proof fn lemma_branch_entry()
    ensures
        branch_entry().well_formed(),
        uses_operator(branch_entry().format, 0) == true,
{
    lemma_branch_fits();
    lemma_branch_asks();
}

#[verifier::rlimit(40)]
proof fn lemma_branch_zero_fits()
    ensures
        branch_zero_entry().well_formed(),
{
    reveal_strlit("if {0} {op} 0 goto {1}");
    reveal_with_fuel(template_fits, 24);
}

#[verifier::rlimit(40)]
proof fn lemma_branch_zero_asks()
    ensures
        uses_operator(branch_zero_entry().format, 0) == true,
{
    reveal_strlit("if {0} {op} 0 goto {1}");
    reveal_with_fuel(uses_operator, 24);
}

proof fn lemma_branch_zero_entry()
    ensures
        branch_zero_entry().well_formed(),
        uses_operator(branch_zero_entry().format, 0) == true,
{
    lemma_branch_zero_fits();
    lemma_branch_zero_asks();
}

proof fn lemma_array_get_fits()
    ensures
        array_get_entry().well_formed(),
{
    reveal_strlit("{1}[{2}]");
    reveal_with_fuel(template_fits, 10);
}

proof fn lemma_array_get_asks()
    ensures
        uses_operator(array_get_entry().format, 0) == false,
{
    reveal_strlit("{1}[{2}]");
    reveal_with_fuel(uses_operator, 10);
}

proof fn lemma_array_get_entry()
    ensures
        array_get_entry().well_formed(),
        uses_operator(array_get_entry().format, 0) == false,
{
    lemma_array_get_fits();
    lemma_array_get_asks();
}

proof fn lemma_array_put_fits()
    ensures
        array_put_entry().well_formed(),
{
    reveal_strlit("{1}[{2}] = {0}");
    reveal_with_fuel(template_fits, 16);
}

proof fn lemma_array_put_asks()
    ensures
        uses_operator(array_put_entry().format, 0) == false,
{
    reveal_strlit("{1}[{2}] = {0}");
    reveal_with_fuel(uses_operator, 16);
}

proof fn lemma_array_put_entry()
    ensures
        array_put_entry().well_formed(),
        uses_operator(array_put_entry().format, 0) == false,
{
    lemma_array_put_fits();
    lemma_array_put_asks();
}

proof fn lemma_instance_get_fits()
    ensures
        instance_get_entry().well_formed(),
{
    reveal_strlit("{1}.<{2}>");
    reveal_with_fuel(template_fits, 11);
}

proof fn lemma_instance_get_asks()
    ensures
        uses_operator(instance_get_entry().format, 0) == false,
{
    reveal_strlit("{1}.<{2}>");
    reveal_with_fuel(uses_operator, 11);
}

proof fn lemma_instance_get_entry()
    ensures
        instance_get_entry().well_formed(),
        uses_operator(instance_get_entry().format, 0) == false,
{
    lemma_instance_get_fits();
    lemma_instance_get_asks();
}

proof fn lemma_instance_put_fits()
    ensures
        instance_put_entry().well_formed(),
{
    reveal_strlit("{1}.<{2}> = {0}");
    reveal_with_fuel(template_fits, 17);
}

proof fn lemma_instance_put_asks()
    ensures
        uses_operator(instance_put_entry().format, 0) == false,
{
    reveal_strlit("{1}.<{2}> = {0}");
    reveal_with_fuel(uses_operator, 17);
}

proof fn lemma_instance_put_entry()
    ensures
        instance_put_entry().well_formed(),
        uses_operator(instance_put_entry().format, 0) == false,
{
    lemma_instance_put_fits();
    lemma_instance_put_asks();
}

proof fn lemma_static_get_fits()
    ensures
        static_get_entry().well_formed(),
{
    reveal_strlit("<{1}>");
    reveal_with_fuel(template_fits, 7);
}

proof fn lemma_static_get_asks()
    ensures
        uses_operator(static_get_entry().format, 0) == false,
{
    reveal_strlit("<{1}>");
    reveal_with_fuel(uses_operator, 7);
}

proof fn lemma_static_get_entry()
    ensures
        static_get_entry().well_formed(),
        uses_operator(static_get_entry().format, 0) == false,
{
    lemma_static_get_fits();
    lemma_static_get_asks();
}

proof fn lemma_static_put_fits()
    ensures
        static_put_entry().well_formed(),
{
    reveal_strlit("<{1}> = {0}");
    reveal_with_fuel(template_fits, 13);
}

proof fn lemma_static_put_asks()
    ensures
        uses_operator(static_put_entry().format, 0) == false,
{
    reveal_strlit("<{1}> = {0}");
    reveal_with_fuel(uses_operator, 13);
}

proof fn lemma_static_put_entry()
    ensures
        static_put_entry().well_formed(),
        uses_operator(static_put_entry().format, 0) == false,
{
    lemma_static_put_fits();
    lemma_static_put_asks();
}

#[verifier::rlimit(40)]
proof fn lemma_invoke_virtual_fits()
    ensures
        invoke_virtual_entry().well_formed(),
{
    reveal_strlit("invoke-virtual {1.this}.<{2}>({1.args})");
    reveal_with_fuel(template_fits, 41);
}

#[verifier::rlimit(40)]
proof fn lemma_invoke_virtual_asks()
    ensures
        uses_operator(invoke_virtual_entry().format, 0) == false,
{
    reveal_strlit("invoke-virtual {1.this}.<{2}>({1.args})");
    reveal_with_fuel(uses_operator, 41);
}

proof fn lemma_invoke_virtual_entry()
    ensures
        invoke_virtual_entry().well_formed(),
        uses_operator(invoke_virtual_entry().format, 0) == false,
{
    lemma_invoke_virtual_fits();
    lemma_invoke_virtual_asks();
}

#[verifier::rlimit(40)]
proof fn lemma_invoke_super_fits()
    ensures
        invoke_super_entry().well_formed(),
{
    reveal_strlit("invoke-super {1.this}.<{2}>({1.args})");
    reveal_with_fuel(template_fits, 39);
}

#[verifier::rlimit(40)]
proof fn lemma_invoke_super_asks()
    ensures
        uses_operator(invoke_super_entry().format, 0) == false,
{
    reveal_strlit("invoke-super {1.this}.<{2}>({1.args})");
    reveal_with_fuel(uses_operator, 39);
}

proof fn lemma_invoke_super_entry()
    ensures
        invoke_super_entry().well_formed(),
        uses_operator(invoke_super_entry().format, 0) == false,
{
    lemma_invoke_super_fits();
    lemma_invoke_super_asks();
}

#[verifier::rlimit(40)]
proof fn lemma_invoke_direct_fits()
    ensures
        invoke_direct_entry().well_formed(),
{
    reveal_strlit("invoke-direct {1.this}.<{2}>({1.args})");
    reveal_with_fuel(template_fits, 40);
}

#[verifier::rlimit(40)]
proof fn lemma_invoke_direct_asks()
    ensures
        uses_operator(invoke_direct_entry().format, 0) == false,
{
    reveal_strlit("invoke-direct {1.this}.<{2}>({1.args})");
    reveal_with_fuel(uses_operator, 40);
}

proof fn lemma_invoke_direct_entry()
    ensures
        invoke_direct_entry().well_formed(),
        uses_operator(invoke_direct_entry().format, 0) == false,
{
    lemma_invoke_direct_fits();
    lemma_invoke_direct_asks();
}

#[verifier::rlimit(40)]
proof fn lemma_invoke_static_fits()
    ensures
        invoke_static_entry().well_formed(),
{
    reveal_strlit("invoke-static <{2}>({1})");
    reveal_with_fuel(template_fits, 26);
}

#[verifier::rlimit(40)]
proof fn lemma_invoke_static_asks()
    ensures
        uses_operator(invoke_static_entry().format, 0) == false,
{
    reveal_strlit("invoke-static <{2}>({1})");
    reveal_with_fuel(uses_operator, 26);
}

proof fn lemma_invoke_static_entry()
    ensures
        invoke_static_entry().well_formed(),
        uses_operator(invoke_static_entry().format, 0) == false,
{
    lemma_invoke_static_fits();
    lemma_invoke_static_asks();
}

#[verifier::rlimit(40)]
proof fn lemma_invoke_interface_fits()
    ensures
        invoke_interface_entry().well_formed(),
{
    reveal_strlit("invoke-interface {1.this}.<{2}>({1.args})");
    reveal_with_fuel(template_fits, 43);
}

#[verifier::rlimit(40)]
proof fn lemma_invoke_interface_asks()
    ensures
        uses_operator(invoke_interface_entry().format, 0) == false,
{
    reveal_strlit("invoke-interface {1.this}.<{2}>({1.args})");
    reveal_with_fuel(uses_operator, 43);
}

proof fn lemma_invoke_interface_entry()
    ensures
        invoke_interface_entry().well_formed(),
        uses_operator(invoke_interface_entry().format, 0) == false,
{
    lemma_invoke_interface_fits();
    lemma_invoke_interface_asks();
}

proof fn lemma_unary_fits()
    ensures
        unary_entry().well_formed(),
{
    reveal_strlit("{op}{1}");
    reveal_with_fuel(template_fits, 9);
}

proof fn lemma_unary_asks()
    ensures
        uses_operator(unary_entry().format, 0) == true,
{
    reveal_strlit("{op}{1}");
    reveal_with_fuel(uses_operator, 9);
}

proof fn lemma_unary_entry()
    ensures
        unary_entry().well_formed(),
        uses_operator(unary_entry().format, 0) == true,
{
    lemma_unary_fits();
    lemma_unary_asks();
}

proof fn lemma_to_long_fits()
    ensures
        to_long_entry().well_formed(),
{
    reveal_strlit("{op}{1}");
    reveal_with_fuel(template_fits, 9);
}

proof fn lemma_to_long_asks()
    ensures
        uses_operator(to_long_entry().format, 0) == true,
{
    reveal_strlit("{op}{1}");
    reveal_with_fuel(uses_operator, 9);
}

proof fn lemma_to_long_entry()
    ensures
        to_long_entry().well_formed(),
        uses_operator(to_long_entry().format, 0) == true,
{
    lemma_to_long_fits();
    lemma_to_long_asks();
}

proof fn lemma_to_float_fits()
    ensures
        to_float_entry().well_formed(),
{
    reveal_strlit("{op}{1}");
    reveal_with_fuel(template_fits, 9);
}

proof fn lemma_to_float_asks()
    ensures
        uses_operator(to_float_entry().format, 0) == true,
{
    reveal_strlit("{op}{1}");
    reveal_with_fuel(uses_operator, 9);
}

proof fn lemma_to_float_entry()
    ensures
        to_float_entry().well_formed(),
        uses_operator(to_float_entry().format, 0) == true,
{
    lemma_to_float_fits();
    lemma_to_float_asks();
}

proof fn lemma_to_double_fits()
    ensures
        to_double_entry().well_formed(),
{
    reveal_strlit("{op}{1}");
    reveal_with_fuel(template_fits, 9);
}

proof fn lemma_to_double_asks()
    ensures
        uses_operator(to_double_entry().format, 0) == true,
{
    reveal_strlit("{op}{1}");
    reveal_with_fuel(uses_operator, 9);
}

proof fn lemma_to_double_entry()
    ensures
        to_double_entry().well_formed(),
        uses_operator(to_double_entry().format, 0) == true,
{
    lemma_to_double_fits();
    lemma_to_double_asks();
}

proof fn lemma_to_int_fits()
    ensures
        to_int_entry().well_formed(),
{
    reveal_strlit("{op}{1}");
    reveal_with_fuel(template_fits, 9);
}

proof fn lemma_to_int_asks()
    ensures
        uses_operator(to_int_entry().format, 0) == true,
{
    reveal_strlit("{op}{1}");
    reveal_with_fuel(uses_operator, 9);
}

proof fn lemma_to_int_entry()
    ensures
        to_int_entry().well_formed(),
        uses_operator(to_int_entry().format, 0) == true,
{
    lemma_to_int_fits();
    lemma_to_int_asks();
}

proof fn lemma_to_byte_fits()
    ensures
        to_byte_entry().well_formed(),
{
    reveal_strlit("{op}{1}");
    reveal_with_fuel(template_fits, 9);
}

proof fn lemma_to_byte_asks()
    ensures
        uses_operator(to_byte_entry().format, 0) == true,
{
    reveal_strlit("{op}{1}");
    reveal_with_fuel(uses_operator, 9);
}

proof fn lemma_to_byte_entry()
    ensures
        to_byte_entry().well_formed(),
        uses_operator(to_byte_entry().format, 0) == true,
{
    lemma_to_byte_fits();
    lemma_to_byte_asks();
}

proof fn lemma_to_char_fits()
    ensures
        to_char_entry().well_formed(),
{
    reveal_strlit("{op}{1}");
    reveal_with_fuel(template_fits, 9);
}

proof fn lemma_to_char_asks()
    ensures
        uses_operator(to_char_entry().format, 0) == true,
{
    reveal_strlit("{op}{1}");
    reveal_with_fuel(uses_operator, 9);
}

proof fn lemma_to_char_entry()
    ensures
        to_char_entry().well_formed(),
        uses_operator(to_char_entry().format, 0) == true,
{
    lemma_to_char_fits();
    lemma_to_char_asks();
}

proof fn lemma_to_short_fits()
    ensures
        to_short_entry().well_formed(),
{
    reveal_strlit("{op}{1}");
    reveal_with_fuel(template_fits, 9);
}

proof fn lemma_to_short_asks()
    ensures
        uses_operator(to_short_entry().format, 0) == true,
{
    reveal_strlit("{op}{1}");
    reveal_with_fuel(uses_operator, 9);
}

proof fn lemma_to_short_entry()
    ensures
        to_short_entry().well_formed(),
        uses_operator(to_short_entry().format, 0) == true,
{
    lemma_to_short_fits();
    lemma_to_short_asks();
}

proof fn lemma_binary_fits()
    ensures
        binary_entry().well_formed(),
{
    reveal_strlit("{1} {op} {2}");
    reveal_with_fuel(template_fits, 14);
}

proof fn lemma_binary_asks()
    ensures
        uses_operator(binary_entry().format, 0) == true,
{
    reveal_strlit("{1} {op} {2}");
    reveal_with_fuel(uses_operator, 14);
}

proof fn lemma_binary_entry()
    ensures
        binary_entry().well_formed(),
        uses_operator(binary_entry().format, 0) == true,
{
    lemma_binary_fits();
    lemma_binary_asks();
}

proof fn lemma_binary_in_place_fits()
    ensures
        binary_in_place_entry().well_formed(),
{
    reveal_strlit("{0} {op}= {1}");
    reveal_with_fuel(template_fits, 15);
}

proof fn lemma_binary_in_place_asks()
    ensures
        uses_operator(binary_in_place_entry().format, 0) == true,
{
    reveal_strlit("{0} {op}= {1}");
    reveal_with_fuel(uses_operator, 15);
}

proof fn lemma_binary_in_place_entry()
    ensures
        binary_in_place_entry().well_formed(),
        uses_operator(binary_in_place_entry().format, 0) == true,
{
    lemma_binary_in_place_fits();
    lemma_binary_in_place_asks();
}

proof fn lemma_binary_literal_fits()
    ensures
        binary_literal_entry().well_formed(),
{
    reveal_strlit("{1} {op} {2}");
    reveal_with_fuel(template_fits, 14);
}

proof fn lemma_binary_literal_asks()
    ensures
        uses_operator(binary_literal_entry().format, 0) == true,
{
    reveal_strlit("{1} {op} {2}");
    reveal_with_fuel(uses_operator, 14);
}

proof fn lemma_binary_literal_entry()
    ensures
        binary_literal_entry().well_formed(),
        uses_operator(binary_literal_entry().format, 0) == true,
{
    lemma_binary_literal_fits();
    lemma_binary_literal_asks();
}

proof fn lemma_reverse_subtract_fits()
    ensures
        reverse_subtract_entry().well_formed(),
{
    reveal_strlit("{2} {op} {1}");
    reveal_with_fuel(template_fits, 14);
}

proof fn lemma_reverse_subtract_asks()
    ensures
        uses_operator(reverse_subtract_entry().format, 0) == true,
{
    reveal_strlit("{2} {op} {1}");
    reveal_with_fuel(uses_operator, 14);
}

proof fn lemma_reverse_subtract_entry()
    ensures
        reverse_subtract_entry().well_formed(),
        uses_operator(reverse_subtract_entry().format, 0) == true,
{
    lemma_reverse_subtract_fits();
    lemma_reverse_subtract_asks();
}

#[verifier::rlimit(40)]
proof fn lemma_invoke_polymorphic_fits()
    ensures
        invoke_polymorphic_entry().well_formed(),
{
    reveal_strlit("invoke-polymorphic {1.this}.<{2}>({1.args}), <{3}>");
    reveal_with_fuel(template_fits, 52);
}

#[verifier::rlimit(40)]
proof fn lemma_invoke_polymorphic_asks()
    ensures
        uses_operator(invoke_polymorphic_entry().format, 0) == false,
{
    reveal_strlit("invoke-polymorphic {1.this}.<{2}>({1.args}), <{3}>");
    reveal_with_fuel(uses_operator, 52);
}

proof fn lemma_invoke_polymorphic_entry()
    ensures
        invoke_polymorphic_entry().well_formed(),
        uses_operator(invoke_polymorphic_entry().format, 0) == false,
{
    lemma_invoke_polymorphic_fits();
    lemma_invoke_polymorphic_asks();
}

proof fn lemma_constant_method_handle_fits()
    ensures
        constant_method_handle_entry().well_formed(),
{
    reveal_strlit("{1}");
    reveal_with_fuel(template_fits, 5);
}

proof fn lemma_constant_method_handle_asks()
    ensures
        uses_operator(constant_method_handle_entry().format, 0) == false,
{
    reveal_strlit("{1}");
    reveal_with_fuel(uses_operator, 5);
}

proof fn lemma_constant_method_handle_entry()
    ensures
        constant_method_handle_entry().well_formed(),
        uses_operator(constant_method_handle_entry().format, 0) == false,
{
    lemma_constant_method_handle_fits();
    lemma_constant_method_handle_asks();
}

proof fn lemma_constant_method_type_fits()
    ensures
        constant_method_type_entry().well_formed(),
{
    reveal_strlit("{1}");
    reveal_with_fuel(template_fits, 5);
}

proof fn lemma_constant_method_type_asks()
    ensures
        uses_operator(constant_method_type_entry().format, 0) == false,
{
    reveal_strlit("{1}");
    reveal_with_fuel(uses_operator, 5);
}

proof fn lemma_constant_method_type_entry()
    ensures
        constant_method_type_entry().well_formed(),
        uses_operator(constant_method_type_entry().format, 0) == false,
{
    lemma_constant_method_type_fits();
    lemma_constant_method_type_asks();
}

proof fn lemma_operator_of_if_eq()
    ensures
        operator("if-eq"@) != ""@,
{
    let command = "if-eq"@;
    reveal_strlit("if-eq");
    lemma_operator_names();
    reveal_with_fuel(trim_end, 3);
    assert(trim_end(command, seq!['z']) =~= "if-eq"@);
    lemma_comparison_mnemonic(command);
}

proof fn lemma_operator_of_if_ne()
    ensures
        operator("if-ne"@) != ""@,
{
    let command = "if-ne"@;
    reveal_strlit("if-ne");
    lemma_operator_names();
    reveal_with_fuel(trim_end, 3);
    assert(trim_end(command, seq!['z']) =~= "if-ne"@);
    lemma_comparison_mnemonic(command);
}

proof fn lemma_operator_of_if_lt()
    ensures
        operator("if-lt"@) != ""@,
{
    let command = "if-lt"@;
    reveal_strlit("if-lt");
    lemma_operator_names();
    reveal_with_fuel(trim_end, 3);
    assert(trim_end(command, seq!['z']) =~= "if-lt"@);
    lemma_comparison_mnemonic(command);
}

proof fn lemma_operator_of_if_ge()
    ensures
        operator("if-ge"@) != ""@,
{
    let command = "if-ge"@;
    reveal_strlit("if-ge");
    lemma_operator_names();
    reveal_with_fuel(trim_end, 3);
    assert(trim_end(command, seq!['z']) =~= "if-ge"@);
    lemma_comparison_mnemonic(command);
}

proof fn lemma_operator_of_if_gt()
    ensures
        operator("if-gt"@) != ""@,
{
    let command = "if-gt"@;
    reveal_strlit("if-gt");
    lemma_operator_names();
    reveal_with_fuel(trim_end, 3);
    assert(trim_end(command, seq!['z']) =~= "if-gt"@);
    lemma_comparison_mnemonic(command);
}

proof fn lemma_operator_of_if_le()
    ensures
        operator("if-le"@) != ""@,
{
    let command = "if-le"@;
    reveal_strlit("if-le");
    lemma_operator_names();
    reveal_with_fuel(trim_end, 3);
    assert(trim_end(command, seq!['z']) =~= "if-le"@);
    lemma_comparison_mnemonic(command);
}

proof fn lemma_branch_operators(mnemonic: Seq<char>)
    requires
        is_branch(mnemonic),
    ensures
        operator(mnemonic) != ""@,
{
    if mnemonic == "if-eq"@ {
        lemma_operator_of_if_eq();
    } else if mnemonic == "if-ne"@ {
        lemma_operator_of_if_ne();
    } else if mnemonic == "if-lt"@ {
        lemma_operator_of_if_lt();
    } else if mnemonic == "if-ge"@ {
        lemma_operator_of_if_ge();
    } else if mnemonic == "if-gt"@ {
        lemma_operator_of_if_gt();
    } else if mnemonic == "if-le"@ {
        lemma_operator_of_if_le();
    }
}

proof fn lemma_operator_of_if_eqz()
    ensures
        operator("if-eqz"@) != ""@,
{
    let command = "if-eqz"@;
    reveal_strlit("if-eqz");
    lemma_operator_names();
    reveal_with_fuel(trim_end, 3);
    assert(seq!['z'].contains('z')) by {
        assert(seq!['z'][0] == 'z');
    }
    assert(command.drop_last() =~= "if-eq"@);
    assert(trim_end(command, seq!['z']) =~= "if-eq"@);
    lemma_comparison_mnemonic(command);
}

proof fn lemma_operator_of_if_nez()
    ensures
        operator("if-nez"@) != ""@,
{
    let command = "if-nez"@;
    reveal_strlit("if-nez");
    lemma_operator_names();
    reveal_with_fuel(trim_end, 3);
    assert(seq!['z'].contains('z')) by {
        assert(seq!['z'][0] == 'z');
    }
    assert(command.drop_last() =~= "if-ne"@);
    assert(trim_end(command, seq!['z']) =~= "if-ne"@);
    lemma_comparison_mnemonic(command);
}

proof fn lemma_operator_of_if_ltz()
    ensures
        operator("if-ltz"@) != ""@,
{
    let command = "if-ltz"@;
    reveal_strlit("if-ltz");
    lemma_operator_names();
    reveal_with_fuel(trim_end, 3);
    assert(seq!['z'].contains('z')) by {
        assert(seq!['z'][0] == 'z');
    }
    assert(command.drop_last() =~= "if-lt"@);
    assert(trim_end(command, seq!['z']) =~= "if-lt"@);
    lemma_comparison_mnemonic(command);
}

proof fn lemma_operator_of_if_gez()
    ensures
        operator("if-gez"@) != ""@,
{
    let command = "if-gez"@;
    reveal_strlit("if-gez");
    lemma_operator_names();
    reveal_with_fuel(trim_end, 3);
    assert(seq!['z'].contains('z')) by {
        assert(seq!['z'][0] == 'z');
    }
    assert(command.drop_last() =~= "if-ge"@);
    assert(trim_end(command, seq!['z']) =~= "if-ge"@);
    lemma_comparison_mnemonic(command);
}

proof fn lemma_operator_of_if_gtz()
    ensures
        operator("if-gtz"@) != ""@,
{
    let command = "if-gtz"@;
    reveal_strlit("if-gtz");
    lemma_operator_names();
    reveal_with_fuel(trim_end, 3);
    assert(seq!['z'].contains('z')) by {
        assert(seq!['z'][0] == 'z');
    }
    assert(command.drop_last() =~= "if-gt"@);
    assert(trim_end(command, seq!['z']) =~= "if-gt"@);
    lemma_comparison_mnemonic(command);
}

proof fn lemma_operator_of_if_lez()
    ensures
        operator("if-lez"@) != ""@,
{
    let command = "if-lez"@;
    reveal_strlit("if-lez");
    lemma_operator_names();
    reveal_with_fuel(trim_end, 3);
    assert(seq!['z'].contains('z')) by {
        assert(seq!['z'][0] == 'z');
    }
    assert(command.drop_last() =~= "if-le"@);
    assert(trim_end(command, seq!['z']) =~= "if-le"@);
    lemma_comparison_mnemonic(command);
}

proof fn lemma_branch_zero_operators(mnemonic: Seq<char>)
    requires
        is_branch_zero(mnemonic),
    ensures
        operator(mnemonic) != ""@,
{
    if mnemonic == "if-eqz"@ {
        lemma_operator_of_if_eqz();
    } else if mnemonic == "if-nez"@ {
        lemma_operator_of_if_nez();
    } else if mnemonic == "if-ltz"@ {
        lemma_operator_of_if_ltz();
    } else if mnemonic == "if-gez"@ {
        lemma_operator_of_if_gez();
    } else if mnemonic == "if-gtz"@ {
        lemma_operator_of_if_gtz();
    } else if mnemonic == "if-lez"@ {
        lemma_operator_of_if_lez();
    }
}

proof fn lemma_operator_of_neg_int()
    ensures
        operator("neg-int"@) != ""@,
{
    let command = "neg-int"@;
    reveal_strlit("neg-int");
    lemma_operator_names();
    reveal_with_fuel(conversion_at, 7);
    reveal_with_fuel(index_of, 5);
    assert(conversion_at(command, 0) is None);
    assert(root(command) =~= "neg"@);
    lemma_unary_mnemonic(command);
}

proof fn lemma_operator_of_not_int()
    ensures
        operator("not-int"@) != ""@,
{
    let command = "not-int"@;
    reveal_strlit("not-int");
    lemma_operator_names();
    reveal_with_fuel(conversion_at, 7);
    reveal_with_fuel(index_of, 5);
    assert(conversion_at(command, 0) is None);
    assert(root(command) =~= "not"@);
    lemma_unary_mnemonic(command);
}

proof fn lemma_operator_of_neg_long()
    ensures
        operator("neg-long"@) != ""@,
{
    let command = "neg-long"@;
    reveal_strlit("neg-long");
    lemma_operator_names();
    reveal_with_fuel(conversion_at, 8);
    reveal_with_fuel(index_of, 5);
    assert(conversion_at(command, 0) is None);
    assert(root(command) =~= "neg"@);
    lemma_unary_mnemonic(command);
}

proof fn lemma_operator_of_not_long()
    ensures
        operator("not-long"@) != ""@,
{
    let command = "not-long"@;
    reveal_strlit("not-long");
    lemma_operator_names();
    reveal_with_fuel(conversion_at, 8);
    reveal_with_fuel(index_of, 5);
    assert(conversion_at(command, 0) is None);
    assert(root(command) =~= "not"@);
    lemma_unary_mnemonic(command);
}

proof fn lemma_operator_of_neg_float()
    ensures
        operator("neg-float"@) != ""@,
{
    let command = "neg-float"@;
    reveal_strlit("neg-float");
    lemma_operator_names();
    reveal_with_fuel(conversion_at, 9);
    reveal_with_fuel(index_of, 5);
    assert(conversion_at(command, 0) is None);
    assert(root(command) =~= "neg"@);
    lemma_unary_mnemonic(command);
}

proof fn lemma_operator_of_neg_double()
    ensures
        operator("neg-double"@) != ""@,
{
    let command = "neg-double"@;
    reveal_strlit("neg-double");
    lemma_operator_names();
    reveal_with_fuel(conversion_at, 10);
    reveal_with_fuel(index_of, 5);
    assert(conversion_at(command, 0) is None);
    assert(root(command) =~= "neg"@);
    lemma_unary_mnemonic(command);
}

proof fn lemma_unary_operators(mnemonic: Seq<char>)
    requires
        is_unary(mnemonic),
    ensures
        operator(mnemonic) != ""@,
{
    if mnemonic == "neg-int"@ {
        lemma_operator_of_neg_int();
    } else if mnemonic == "not-int"@ {
        lemma_operator_of_not_int();
    } else if mnemonic == "neg-long"@ {
        lemma_operator_of_neg_long();
    } else if mnemonic == "not-long"@ {
        lemma_operator_of_not_long();
    } else if mnemonic == "neg-float"@ {
        lemma_operator_of_neg_float();
    } else if mnemonic == "neg-double"@ {
        lemma_operator_of_neg_double();
    }
}

proof fn lemma_operator_of_int_to_long()
    ensures
        operator("int-to-long"@) != ""@,
{
    let command = "int-to-long"@;
    reveal_strlit("int-to-long");
    lemma_operator_names();
    reveal_with_fuel(conversion_at, 5);
    assert(conversion_at(command, 0) == Some(3int));
    assert(unary_root(command) =~= "long"@);
    lemma_unary_mnemonic(command);
}

proof fn lemma_operator_of_float_to_long()
    ensures
        operator("float-to-long"@) != ""@,
{
    let command = "float-to-long"@;
    reveal_strlit("float-to-long");
    lemma_operator_names();
    reveal_with_fuel(conversion_at, 7);
    assert(conversion_at(command, 0) == Some(5int));
    assert(unary_root(command) =~= "long"@);
    lemma_unary_mnemonic(command);
}

proof fn lemma_operator_of_double_to_long()
    ensures
        operator("double-to-long"@) != ""@,
{
    let command = "double-to-long"@;
    reveal_strlit("double-to-long");
    lemma_operator_names();
    reveal_with_fuel(conversion_at, 8);
    assert(conversion_at(command, 0) == Some(6int));
    assert(unary_root(command) =~= "long"@);
    lemma_unary_mnemonic(command);
}

proof fn lemma_to_long_operators(mnemonic: Seq<char>)
    requires
        is_to_long(mnemonic),
    ensures
        operator(mnemonic) != ""@,
{
    if mnemonic == "int-to-long"@ {
        lemma_operator_of_int_to_long();
    } else if mnemonic == "float-to-long"@ {
        lemma_operator_of_float_to_long();
    } else if mnemonic == "double-to-long"@ {
        lemma_operator_of_double_to_long();
    }
}

proof fn lemma_operator_of_int_to_float()
    ensures
        operator("int-to-float"@) != ""@,
{
    let command = "int-to-float"@;
    reveal_strlit("int-to-float");
    lemma_operator_names();
    reveal_with_fuel(conversion_at, 5);
    assert(conversion_at(command, 0) == Some(3int));
    assert(unary_root(command) =~= "float"@);
    lemma_unary_mnemonic(command);
}

proof fn lemma_operator_of_long_to_float()
    ensures
        operator("long-to-float"@) != ""@,
{
    let command = "long-to-float"@;
    reveal_strlit("long-to-float");
    lemma_operator_names();
    reveal_with_fuel(conversion_at, 6);
    assert(conversion_at(command, 0) == Some(4int));
    assert(unary_root(command) =~= "float"@);
    lemma_unary_mnemonic(command);
}

proof fn lemma_operator_of_double_to_float()
    ensures
        operator("double-to-float"@) != ""@,
{
    let command = "double-to-float"@;
    reveal_strlit("double-to-float");
    lemma_operator_names();
    reveal_with_fuel(conversion_at, 8);
    assert(conversion_at(command, 0) == Some(6int));
    assert(unary_root(command) =~= "float"@);
    lemma_unary_mnemonic(command);
}

proof fn lemma_to_float_operators(mnemonic: Seq<char>)
    requires
        is_to_float(mnemonic),
    ensures
        operator(mnemonic) != ""@,
{
    if mnemonic == "int-to-float"@ {
        lemma_operator_of_int_to_float();
    } else if mnemonic == "long-to-float"@ {
        lemma_operator_of_long_to_float();
    } else if mnemonic == "double-to-float"@ {
        lemma_operator_of_double_to_float();
    }
}

proof fn lemma_operator_of_int_to_double()
    ensures
        operator("int-to-double"@) != ""@,
{
    let command = "int-to-double"@;
    reveal_strlit("int-to-double");
    lemma_operator_names();
    reveal_with_fuel(conversion_at, 5);
    assert(conversion_at(command, 0) == Some(3int));
    assert(unary_root(command) =~= "double"@);
    lemma_unary_mnemonic(command);
}

proof fn lemma_operator_of_long_to_double()
    ensures
        operator("long-to-double"@) != ""@,
{
    let command = "long-to-double"@;
    reveal_strlit("long-to-double");
    lemma_operator_names();
    reveal_with_fuel(conversion_at, 6);
    assert(conversion_at(command, 0) == Some(4int));
    assert(unary_root(command) =~= "double"@);
    lemma_unary_mnemonic(command);
}

proof fn lemma_operator_of_float_to_double()
    ensures
        operator("float-to-double"@) != ""@,
{
    let command = "float-to-double"@;
    reveal_strlit("float-to-double");
    lemma_operator_names();
    reveal_with_fuel(conversion_at, 7);
    assert(conversion_at(command, 0) == Some(5int));
    assert(unary_root(command) =~= "double"@);
    lemma_unary_mnemonic(command);
}

proof fn lemma_to_double_operators(mnemonic: Seq<char>)
    requires
        is_to_double(mnemonic),
    ensures
        operator(mnemonic) != ""@,
{
    if mnemonic == "int-to-double"@ {
        lemma_operator_of_int_to_double();
    } else if mnemonic == "long-to-double"@ {
        lemma_operator_of_long_to_double();
    } else if mnemonic == "float-to-double"@ {
        lemma_operator_of_float_to_double();
    }
}

proof fn lemma_operator_of_long_to_int()
    ensures
        operator("long-to-int"@) != ""@,
{
    let command = "long-to-int"@;
    reveal_strlit("long-to-int");
    lemma_operator_names();
    reveal_with_fuel(conversion_at, 6);
    assert(conversion_at(command, 0) == Some(4int));
    assert(unary_root(command) =~= "int"@);
    lemma_unary_mnemonic(command);
}

proof fn lemma_operator_of_float_to_int()
    ensures
        operator("float-to-int"@) != ""@,
{
    let command = "float-to-int"@;
    reveal_strlit("float-to-int");
    lemma_operator_names();
    reveal_with_fuel(conversion_at, 7);
    assert(conversion_at(command, 0) == Some(5int));
    assert(unary_root(command) =~= "int"@);
    lemma_unary_mnemonic(command);
}

proof fn lemma_operator_of_double_to_int()
    ensures
        operator("double-to-int"@) != ""@,
{
    let command = "double-to-int"@;
    reveal_strlit("double-to-int");
    lemma_operator_names();
    reveal_with_fuel(conversion_at, 8);
    assert(conversion_at(command, 0) == Some(6int));
    assert(unary_root(command) =~= "int"@);
    lemma_unary_mnemonic(command);
}

proof fn lemma_to_int_operators(mnemonic: Seq<char>)
    requires
        is_to_int(mnemonic),
    ensures
        operator(mnemonic) != ""@,
{
    if mnemonic == "long-to-int"@ {
        lemma_operator_of_long_to_int();
    } else if mnemonic == "float-to-int"@ {
        lemma_operator_of_float_to_int();
    } else if mnemonic == "double-to-int"@ {
        lemma_operator_of_double_to_int();
    }
}

proof fn lemma_operator_of_int_to_byte()
    ensures
        operator("int-to-byte"@) != ""@,
{
    let command = "int-to-byte"@;
    reveal_strlit("int-to-byte");
    lemma_operator_names();
    reveal_with_fuel(conversion_at, 5);
    assert(conversion_at(command, 0) == Some(3int));
    assert(unary_root(command) =~= "byte"@);
    lemma_unary_mnemonic(command);
}

proof fn lemma_to_byte_operators(mnemonic: Seq<char>)
    requires
        is_to_byte(mnemonic),
    ensures
        operator(mnemonic) != ""@,
{
    if mnemonic == "int-to-byte"@ {
        lemma_operator_of_int_to_byte();
    }
}

proof fn lemma_operator_of_int_to_char()
    ensures
        operator("int-to-char"@) != ""@,
{
    let command = "int-to-char"@;
    reveal_strlit("int-to-char");
    lemma_operator_names();
    reveal_with_fuel(conversion_at, 5);
    assert(conversion_at(command, 0) == Some(3int));
    assert(unary_root(command) =~= "char"@);
    lemma_unary_mnemonic(command);
}

proof fn lemma_to_char_operators(mnemonic: Seq<char>)
    requires
        is_to_char(mnemonic),
    ensures
        operator(mnemonic) != ""@,
{
    if mnemonic == "int-to-char"@ {
        lemma_operator_of_int_to_char();
    }
}

proof fn lemma_operator_of_int_to_short()
    ensures
        operator("int-to-short"@) != ""@,
{
    let command = "int-to-short"@;
    reveal_strlit("int-to-short");
    lemma_operator_names();
    reveal_with_fuel(conversion_at, 5);
    assert(conversion_at(command, 0) == Some(3int));
    assert(unary_root(command) =~= "short"@);
    lemma_unary_mnemonic(command);
}

proof fn lemma_to_short_operators(mnemonic: Seq<char>)
    requires
        is_to_short(mnemonic),
    ensures
        operator(mnemonic) != ""@,
{
    if mnemonic == "int-to-short"@ {
        lemma_operator_of_int_to_short();
    }
}

proof fn lemma_operator_of_add_int()
    ensures
        operator("add-int"@) != ""@,
{
    let command = "add-int"@;
    reveal_strlit("add-int");
    lemma_operator_names();
    reveal_with_fuel(conversion_at, 7);
    reveal_with_fuel(index_of, 5);
    assert(conversion_at(command, 0) is None);
    assert(root(command) =~= "add"@);
    lemma_binary_mnemonic(command);
}

proof fn lemma_operator_of_sub_int()
    ensures
        operator("sub-int"@) != ""@,
{
    let command = "sub-int"@;
    reveal_strlit("sub-int");
    lemma_operator_names();
    reveal_with_fuel(conversion_at, 7);
    reveal_with_fuel(index_of, 5);
    assert(conversion_at(command, 0) is None);
    assert(root(command) =~= "sub"@);
    lemma_binary_mnemonic(command);
}

proof fn lemma_operator_of_mul_int()
    ensures
        operator("mul-int"@) != ""@,
{
    let command = "mul-int"@;
    reveal_strlit("mul-int");
    lemma_operator_names();
    reveal_with_fuel(conversion_at, 7);
    reveal_with_fuel(index_of, 5);
    assert(conversion_at(command, 0) is None);
    assert(root(command) =~= "mul"@);
    lemma_binary_mnemonic(command);
}

proof fn lemma_operator_of_div_int()
    ensures
        operator("div-int"@) != ""@,
{
    let command = "div-int"@;
    reveal_strlit("div-int");
    lemma_operator_names();
    reveal_with_fuel(conversion_at, 7);
    reveal_with_fuel(index_of, 5);
    assert(conversion_at(command, 0) is None);
    assert(root(command) =~= "div"@);
    lemma_binary_mnemonic(command);
}

proof fn lemma_operator_of_rem_int()
    ensures
        operator("rem-int"@) != ""@,
{
    let command = "rem-int"@;
    reveal_strlit("rem-int");
    lemma_operator_names();
    reveal_with_fuel(conversion_at, 7);
    reveal_with_fuel(index_of, 5);
    assert(conversion_at(command, 0) is None);
    assert(root(command) =~= "rem"@);
    lemma_binary_mnemonic(command);
}

proof fn lemma_operator_of_and_int()
    ensures
        operator("and-int"@) != ""@,
{
    let command = "and-int"@;
    reveal_strlit("and-int");
    lemma_operator_names();
    reveal_with_fuel(conversion_at, 7);
    reveal_with_fuel(index_of, 5);
    assert(conversion_at(command, 0) is None);
    assert(root(command) =~= "and"@);
    lemma_binary_mnemonic(command);
}

proof fn lemma_operator_of_or_int()
    ensures
        operator("or-int"@) != ""@,
{
    let command = "or-int"@;
    reveal_strlit("or-int");
    lemma_operator_names();
    reveal_with_fuel(conversion_at, 6);
    reveal_with_fuel(index_of, 4);
    assert(conversion_at(command, 0) is None);
    assert(root(command) =~= "or"@);
    lemma_binary_mnemonic(command);
}

proof fn lemma_operator_of_xor_int()
    ensures
        operator("xor-int"@) != ""@,
{
    let command = "xor-int"@;
    reveal_strlit("xor-int");
    lemma_operator_names();
    reveal_with_fuel(conversion_at, 7);
    reveal_with_fuel(index_of, 5);
    assert(conversion_at(command, 0) is None);
    assert(root(command) =~= "xor"@);
    lemma_binary_mnemonic(command);
}

proof fn lemma_operator_of_shl_int()
    ensures
        operator("shl-int"@) != ""@,
{
    let command = "shl-int"@;
    reveal_strlit("shl-int");
    lemma_operator_names();
    reveal_with_fuel(conversion_at, 7);
    reveal_with_fuel(index_of, 5);
    assert(conversion_at(command, 0) is None);
    assert(root(command) =~= "shl"@);
    lemma_binary_mnemonic(command);
}

proof fn lemma_operator_of_shr_int()
    ensures
        operator("shr-int"@) != ""@,
{
    let command = "shr-int"@;
    reveal_strlit("shr-int");
    lemma_operator_names();
    reveal_with_fuel(conversion_at, 7);
    reveal_with_fuel(index_of, 5);
    assert(conversion_at(command, 0) is None);
    assert(root(command) =~= "shr"@);
    lemma_binary_mnemonic(command);
}

proof fn lemma_operator_of_ushr_int()
    ensures
        operator("ushr-int"@) != ""@,
{
    let command = "ushr-int"@;
    reveal_strlit("ushr-int");
    lemma_operator_names();
    reveal_with_fuel(conversion_at, 8);
    reveal_with_fuel(index_of, 6);
    assert(conversion_at(command, 0) is None);
    assert(root(command) =~= "ushr"@);
    lemma_binary_mnemonic(command);
}

proof fn lemma_operator_of_add_long()
    ensures
        operator("add-long"@) != ""@,
{
    let command = "add-long"@;
    reveal_strlit("add-long");
    lemma_operator_names();
    reveal_with_fuel(conversion_at, 8);
    reveal_with_fuel(index_of, 5);
    assert(conversion_at(command, 0) is None);
    assert(root(command) =~= "add"@);
    lemma_binary_mnemonic(command);
}

proof fn lemma_operator_of_sub_long()
    ensures
        operator("sub-long"@) != ""@,
{
    let command = "sub-long"@;
    reveal_strlit("sub-long");
    lemma_operator_names();
    reveal_with_fuel(conversion_at, 8);
    reveal_with_fuel(index_of, 5);
    assert(conversion_at(command, 0) is None);
    assert(root(command) =~= "sub"@);
    lemma_binary_mnemonic(command);
}

proof fn lemma_operator_of_mul_long()
    ensures
        operator("mul-long"@) != ""@,
{
    let command = "mul-long"@;
    reveal_strlit("mul-long");
    lemma_operator_names();
    reveal_with_fuel(conversion_at, 8);
    reveal_with_fuel(index_of, 5);
    assert(conversion_at(command, 0) is None);
    assert(root(command) =~= "mul"@);
    lemma_binary_mnemonic(command);
}

proof fn lemma_operator_of_div_long()
    ensures
        operator("div-long"@) != ""@,
{
    let command = "div-long"@;
    reveal_strlit("div-long");
    lemma_operator_names();
    reveal_with_fuel(conversion_at, 8);
    reveal_with_fuel(index_of, 5);
    assert(conversion_at(command, 0) is None);
    assert(root(command) =~= "div"@);
    lemma_binary_mnemonic(command);
}

proof fn lemma_operator_of_rem_long()
    ensures
        operator("rem-long"@) != ""@,
{
    let command = "rem-long"@;
    reveal_strlit("rem-long");
    lemma_operator_names();
    reveal_with_fuel(conversion_at, 8);
    reveal_with_fuel(index_of, 5);
    assert(conversion_at(command, 0) is None);
    assert(root(command) =~= "rem"@);
    lemma_binary_mnemonic(command);
}

proof fn lemma_operator_of_and_long()
    ensures
        operator("and-long"@) != ""@,
{
    let command = "and-long"@;
    reveal_strlit("and-long");
    lemma_operator_names();
    reveal_with_fuel(conversion_at, 8);
    reveal_with_fuel(index_of, 5);
    assert(conversion_at(command, 0) is None);
    assert(root(command) =~= "and"@);
    lemma_binary_mnemonic(command);
}

proof fn lemma_operator_of_or_long()
    ensures
        operator("or-long"@) != ""@,
{
    let command = "or-long"@;
    reveal_strlit("or-long");
    lemma_operator_names();
    reveal_with_fuel(conversion_at, 7);
    reveal_with_fuel(index_of, 4);
    assert(conversion_at(command, 0) is None);
    assert(root(command) =~= "or"@);
    lemma_binary_mnemonic(command);
}

proof fn lemma_operator_of_xor_long()
    ensures
        operator("xor-long"@) != ""@,
{
    let command = "xor-long"@;
    reveal_strlit("xor-long");
    lemma_operator_names();
    reveal_with_fuel(conversion_at, 8);
    reveal_with_fuel(index_of, 5);
    assert(conversion_at(command, 0) is None);
    assert(root(command) =~= "xor"@);
    lemma_binary_mnemonic(command);
}

proof fn lemma_operator_of_shl_long()
    ensures
        operator("shl-long"@) != ""@,
{
    let command = "shl-long"@;
    reveal_strlit("shl-long");
    lemma_operator_names();
    reveal_with_fuel(conversion_at, 8);
    reveal_with_fuel(index_of, 5);
    assert(conversion_at(command, 0) is None);
    assert(root(command) =~= "shl"@);
    lemma_binary_mnemonic(command);
}

proof fn lemma_operator_of_shr_long()
    ensures
        operator("shr-long"@) != ""@,
{
    let command = "shr-long"@;
    reveal_strlit("shr-long");
    lemma_operator_names();
    reveal_with_fuel(conversion_at, 8);
    reveal_with_fuel(index_of, 5);
    assert(conversion_at(command, 0) is None);
    assert(root(command) =~= "shr"@);
    lemma_binary_mnemonic(command);
}

proof fn lemma_operator_of_ushr_long()
    ensures
        operator("ushr-long"@) != ""@,
{
    let command = "ushr-long"@;
    reveal_strlit("ushr-long");
    lemma_operator_names();
    reveal_with_fuel(conversion_at, 9);
    reveal_with_fuel(index_of, 6);
    assert(conversion_at(command, 0) is None);
    assert(root(command) =~= "ushr"@);
    lemma_binary_mnemonic(command);
}

proof fn lemma_operator_of_add_float()
    ensures
        operator("add-float"@) != ""@,
{
    let command = "add-float"@;
    reveal_strlit("add-float");
    lemma_operator_names();
    reveal_with_fuel(conversion_at, 9);
    reveal_with_fuel(index_of, 5);
    assert(conversion_at(command, 0) is None);
    assert(root(command) =~= "add"@);
    lemma_binary_mnemonic(command);
}

proof fn lemma_operator_of_sub_float()
    ensures
        operator("sub-float"@) != ""@,
{
    let command = "sub-float"@;
    reveal_strlit("sub-float");
    lemma_operator_names();
    reveal_with_fuel(conversion_at, 9);
    reveal_with_fuel(index_of, 5);
    assert(conversion_at(command, 0) is None);
    assert(root(command) =~= "sub"@);
    lemma_binary_mnemonic(command);
}

proof fn lemma_operator_of_mul_float()
    ensures
        operator("mul-float"@) != ""@,
{
    let command = "mul-float"@;
    reveal_strlit("mul-float");
    lemma_operator_names();
    reveal_with_fuel(conversion_at, 9);
    reveal_with_fuel(index_of, 5);
    assert(conversion_at(command, 0) is None);
    assert(root(command) =~= "mul"@);
    lemma_binary_mnemonic(command);
}

proof fn lemma_operator_of_div_float()
    ensures
        operator("div-float"@) != ""@,
{
    let command = "div-float"@;
    reveal_strlit("div-float");
    lemma_operator_names();
    reveal_with_fuel(conversion_at, 9);
    reveal_with_fuel(index_of, 5);
    assert(conversion_at(command, 0) is None);
    assert(root(command) =~= "div"@);
    lemma_binary_mnemonic(command);
}

proof fn lemma_operator_of_rem_float()
    ensures
        operator("rem-float"@) != ""@,
{
    let command = "rem-float"@;
    reveal_strlit("rem-float");
    lemma_operator_names();
    reveal_with_fuel(conversion_at, 9);
    reveal_with_fuel(index_of, 5);
    assert(conversion_at(command, 0) is None);
    assert(root(command) =~= "rem"@);
    lemma_binary_mnemonic(command);
}

proof fn lemma_operator_of_add_double()
    ensures
        operator("add-double"@) != ""@,
{
    let command = "add-double"@;
    reveal_strlit("add-double");
    lemma_operator_names();
    reveal_with_fuel(conversion_at, 10);
    reveal_with_fuel(index_of, 5);
    assert(conversion_at(command, 0) is None);
    assert(root(command) =~= "add"@);
    lemma_binary_mnemonic(command);
}

proof fn lemma_operator_of_sub_double()
    ensures
        operator("sub-double"@) != ""@,
{
    let command = "sub-double"@;
    reveal_strlit("sub-double");
    lemma_operator_names();
    reveal_with_fuel(conversion_at, 10);
    reveal_with_fuel(index_of, 5);
    assert(conversion_at(command, 0) is None);
    assert(root(command) =~= "sub"@);
    lemma_binary_mnemonic(command);
}

proof fn lemma_operator_of_mul_double()
    ensures
        operator("mul-double"@) != ""@,
{
    let command = "mul-double"@;
    reveal_strlit("mul-double");
    lemma_operator_names();
    reveal_with_fuel(conversion_at, 10);
    reveal_with_fuel(index_of, 5);
    assert(conversion_at(command, 0) is None);
    assert(root(command) =~= "mul"@);
    lemma_binary_mnemonic(command);
}

proof fn lemma_operator_of_div_double()
    ensures
        operator("div-double"@) != ""@,
{
    let command = "div-double"@;
    reveal_strlit("div-double");
    lemma_operator_names();
    reveal_with_fuel(conversion_at, 10);
    reveal_with_fuel(index_of, 5);
    assert(conversion_at(command, 0) is None);
    assert(root(command) =~= "div"@);
    lemma_binary_mnemonic(command);
}

proof fn lemma_operator_of_rem_double()
    ensures
        operator("rem-double"@) != ""@,
{
    let command = "rem-double"@;
    reveal_strlit("rem-double");
    lemma_operator_names();
    reveal_with_fuel(conversion_at, 10);
    reveal_with_fuel(index_of, 5);
    assert(conversion_at(command, 0) is None);
    assert(root(command) =~= "rem"@);
    lemma_binary_mnemonic(command);
}

proof fn lemma_binary_operators(mnemonic: Seq<char>)
    requires
        is_binary(mnemonic),
    ensures
        operator(mnemonic) != ""@,
{
    if mnemonic == "add-int"@ {
        lemma_operator_of_add_int();
    } else if mnemonic == "sub-int"@ {
        lemma_operator_of_sub_int();
    } else if mnemonic == "mul-int"@ {
        lemma_operator_of_mul_int();
    } else if mnemonic == "div-int"@ {
        lemma_operator_of_div_int();
    } else if mnemonic == "rem-int"@ {
        lemma_operator_of_rem_int();
    } else if mnemonic == "and-int"@ {
        lemma_operator_of_and_int();
    } else if mnemonic == "or-int"@ {
        lemma_operator_of_or_int();
    } else if mnemonic == "xor-int"@ {
        lemma_operator_of_xor_int();
    } else if mnemonic == "shl-int"@ {
        lemma_operator_of_shl_int();
    } else if mnemonic == "shr-int"@ {
        lemma_operator_of_shr_int();
    } else if mnemonic == "ushr-int"@ {
        lemma_operator_of_ushr_int();
    } else if mnemonic == "add-long"@ {
        lemma_operator_of_add_long();
    } else if mnemonic == "sub-long"@ {
        lemma_operator_of_sub_long();
    } else if mnemonic == "mul-long"@ {
        lemma_operator_of_mul_long();
    } else if mnemonic == "div-long"@ {
        lemma_operator_of_div_long();
    } else if mnemonic == "rem-long"@ {
        lemma_operator_of_rem_long();
    } else if mnemonic == "and-long"@ {
        lemma_operator_of_and_long();
    } else if mnemonic == "or-long"@ {
        lemma_operator_of_or_long();
    } else if mnemonic == "xor-long"@ {
        lemma_operator_of_xor_long();
    } else if mnemonic == "shl-long"@ {
        lemma_operator_of_shl_long();
    } else if mnemonic == "shr-long"@ {
        lemma_operator_of_shr_long();
    } else if mnemonic == "ushr-long"@ {
        lemma_operator_of_ushr_long();
    } else if mnemonic == "add-float"@ {
        lemma_operator_of_add_float();
    } else if mnemonic == "sub-float"@ {
        lemma_operator_of_sub_float();
    } else if mnemonic == "mul-float"@ {
        lemma_operator_of_mul_float();
    } else if mnemonic == "div-float"@ {
        lemma_operator_of_div_float();
    } else if mnemonic == "rem-float"@ {
        lemma_operator_of_rem_float();
    } else if mnemonic == "add-double"@ {
        lemma_operator_of_add_double();
    } else if mnemonic == "sub-double"@ {
        lemma_operator_of_sub_double();
    } else if mnemonic == "mul-double"@ {
        lemma_operator_of_mul_double();
    } else if mnemonic == "div-double"@ {
        lemma_operator_of_div_double();
    } else if mnemonic == "rem-double"@ {
        lemma_operator_of_rem_double();
    }
}

proof fn lemma_operator_of_add_int_2addr()
    ensures
        operator("add-int/2addr"@) != ""@,
{
    let command = "add-int/2addr"@;
    reveal_strlit("add-int/2addr");
    lemma_operator_names();
    reveal_with_fuel(conversion_at, 13);
    reveal_with_fuel(index_of, 5);
    assert(conversion_at(command, 0) is None);
    assert(root(command) =~= "add"@);
    lemma_binary_mnemonic(command);
}

proof fn lemma_operator_of_sub_int_2addr()
    ensures
        operator("sub-int/2addr"@) != ""@,
{
    let command = "sub-int/2addr"@;
    reveal_strlit("sub-int/2addr");
    lemma_operator_names();
    reveal_with_fuel(conversion_at, 13);
    reveal_with_fuel(index_of, 5);
    assert(conversion_at(command, 0) is None);
    assert(root(command) =~= "sub"@);
    lemma_binary_mnemonic(command);
}

proof fn lemma_operator_of_mul_int_2addr()
    ensures
        operator("mul-int/2addr"@) != ""@,
{
    let command = "mul-int/2addr"@;
    reveal_strlit("mul-int/2addr");
    lemma_operator_names();
    reveal_with_fuel(conversion_at, 13);
    reveal_with_fuel(index_of, 5);
    assert(conversion_at(command, 0) is None);
    assert(root(command) =~= "mul"@);
    lemma_binary_mnemonic(command);
}

proof fn lemma_operator_of_div_int_2addr()
    ensures
        operator("div-int/2addr"@) != ""@,
{
    let command = "div-int/2addr"@;
    reveal_strlit("div-int/2addr");
    lemma_operator_names();
    reveal_with_fuel(conversion_at, 13);
    reveal_with_fuel(index_of, 5);
    assert(conversion_at(command, 0) is None);
    assert(root(command) =~= "div"@);
    lemma_binary_mnemonic(command);
}

proof fn lemma_operator_of_rem_int_2addr()
    ensures
        operator("rem-int/2addr"@) != ""@,
{
    let command = "rem-int/2addr"@;
    reveal_strlit("rem-int/2addr");
    lemma_operator_names();
    reveal_with_fuel(conversion_at, 13);
    reveal_with_fuel(index_of, 5);
    assert(conversion_at(command, 0) is None);
    assert(root(command) =~= "rem"@);
    lemma_binary_mnemonic(command);
}

proof fn lemma_operator_of_and_int_2addr()
    ensures
        operator("and-int/2addr"@) != ""@,
{
    let command = "and-int/2addr"@;
    reveal_strlit("and-int/2addr");
    lemma_operator_names();
    reveal_with_fuel(conversion_at, 13);
    reveal_with_fuel(index_of, 5);
    assert(conversion_at(command, 0) is None);
    assert(root(command) =~= "and"@);
    lemma_binary_mnemonic(command);
}

proof fn lemma_operator_of_or_int_2addr()
    ensures
        operator("or-int/2addr"@) != ""@,
{
    let command = "or-int/2addr"@;
    reveal_strlit("or-int/2addr");
    lemma_operator_names();
    reveal_with_fuel(conversion_at, 12);
    reveal_with_fuel(index_of, 4);
    assert(conversion_at(command, 0) is None);
    assert(root(command) =~= "or"@);
    lemma_binary_mnemonic(command);
}

proof fn lemma_operator_of_xor_int_2addr()
    ensures
        operator("xor-int/2addr"@) != ""@,
{
    let command = "xor-int/2addr"@;
    reveal_strlit("xor-int/2addr");
    lemma_operator_names();
    reveal_with_fuel(conversion_at, 13);
    reveal_with_fuel(index_of, 5);
    assert(conversion_at(command, 0) is None);
    assert(root(command) =~= "xor"@);
    lemma_binary_mnemonic(command);
}

proof fn lemma_operator_of_shl_int_2addr()
    ensures
        operator("shl-int/2addr"@) != ""@,
{
    let command = "shl-int/2addr"@;
    reveal_strlit("shl-int/2addr");
    lemma_operator_names();
    reveal_with_fuel(conversion_at, 13);
    reveal_with_fuel(index_of, 5);
    assert(conversion_at(command, 0) is None);
    assert(root(command) =~= "shl"@);
    lemma_binary_mnemonic(command);
}

proof fn lemma_operator_of_shr_int_2addr()
    ensures
        operator("shr-int/2addr"@) != ""@,
{
    let command = "shr-int/2addr"@;
    reveal_strlit("shr-int/2addr");
    lemma_operator_names();
    reveal_with_fuel(conversion_at, 13);
    reveal_with_fuel(index_of, 5);
    assert(conversion_at(command, 0) is None);
    assert(root(command) =~= "shr"@);
    lemma_binary_mnemonic(command);
}

proof fn lemma_operator_of_ushr_int_2addr()
    ensures
        operator("ushr-int/2addr"@) != ""@,
{
    let command = "ushr-int/2addr"@;
    reveal_strlit("ushr-int/2addr");
    lemma_operator_names();
    reveal_with_fuel(conversion_at, 14);
    reveal_with_fuel(index_of, 6);
    assert(conversion_at(command, 0) is None);
    assert(root(command) =~= "ushr"@);
    lemma_binary_mnemonic(command);
}

proof fn lemma_operator_of_add_long_2addr()
    ensures
        operator("add-long/2addr"@) != ""@,
{
    let command = "add-long/2addr"@;
    reveal_strlit("add-long/2addr");
    lemma_operator_names();
    reveal_with_fuel(conversion_at, 14);
    reveal_with_fuel(index_of, 5);
    assert(conversion_at(command, 0) is None);
    assert(root(command) =~= "add"@);
    lemma_binary_mnemonic(command);
}

proof fn lemma_operator_of_sub_long_2addr()
    ensures
        operator("sub-long/2addr"@) != ""@,
{
    let command = "sub-long/2addr"@;
    reveal_strlit("sub-long/2addr");
    lemma_operator_names();
    reveal_with_fuel(conversion_at, 14);
    reveal_with_fuel(index_of, 5);
    assert(conversion_at(command, 0) is None);
    assert(root(command) =~= "sub"@);
    lemma_binary_mnemonic(command);
}

proof fn lemma_operator_of_mul_long_2addr()
    ensures
        operator("mul-long/2addr"@) != ""@,
{
    let command = "mul-long/2addr"@;
    reveal_strlit("mul-long/2addr");
    lemma_operator_names();
    reveal_with_fuel(conversion_at, 14);
    reveal_with_fuel(index_of, 5);
    assert(conversion_at(command, 0) is None);
    assert(root(command) =~= "mul"@);
    lemma_binary_mnemonic(command);
}

proof fn lemma_operator_of_div_long_2addr()
    ensures
        operator("div-long/2addr"@) != ""@,
{
    let command = "div-long/2addr"@;
    reveal_strlit("div-long/2addr");
    lemma_operator_names();
    reveal_with_fuel(conversion_at, 14);
    reveal_with_fuel(index_of, 5);
    assert(conversion_at(command, 0) is None);
    assert(root(command) =~= "div"@);
    lemma_binary_mnemonic(command);
}

proof fn lemma_operator_of_rem_long_2addr()
    ensures
        operator("rem-long/2addr"@) != ""@,
{
    let command = "rem-long/2addr"@;
    reveal_strlit("rem-long/2addr");
    lemma_operator_names();
    reveal_with_fuel(conversion_at, 14);
    reveal_with_fuel(index_of, 5);
    assert(conversion_at(command, 0) is None);
    assert(root(command) =~= "rem"@);
    lemma_binary_mnemonic(command);
}

proof fn lemma_operator_of_and_long_2addr()
    ensures
        operator("and-long/2addr"@) != ""@,
{
    let command = "and-long/2addr"@;
    reveal_strlit("and-long/2addr");
    lemma_operator_names();
    reveal_with_fuel(conversion_at, 14);
    reveal_with_fuel(index_of, 5);
    assert(conversion_at(command, 0) is None);
    assert(root(command) =~= "and"@);
    lemma_binary_mnemonic(command);
}

proof fn lemma_operator_of_or_long_2addr()
    ensures
        operator("or-long/2addr"@) != ""@,
{
    let command = "or-long/2addr"@;
    reveal_strlit("or-long/2addr");
    lemma_operator_names();
    reveal_with_fuel(conversion_at, 13);
    reveal_with_fuel(index_of, 4);
    assert(conversion_at(command, 0) is None);
    assert(root(command) =~= "or"@);
    lemma_binary_mnemonic(command);
}

proof fn lemma_operator_of_xor_long_2addr()
    ensures
        operator("xor-long/2addr"@) != ""@,
{
    let command = "xor-long/2addr"@;
    reveal_strlit("xor-long/2addr");
    lemma_operator_names();
    reveal_with_fuel(conversion_at, 14);
    reveal_with_fuel(index_of, 5);
    assert(conversion_at(command, 0) is None);
    assert(root(command) =~= "xor"@);
    lemma_binary_mnemonic(command);
}

proof fn lemma_operator_of_shl_long_2addr()
    ensures
        operator("shl-long/2addr"@) != ""@,
{
    let command = "shl-long/2addr"@;
    reveal_strlit("shl-long/2addr");
    lemma_operator_names();
    reveal_with_fuel(conversion_at, 14);
    reveal_with_fuel(index_of, 5);
    assert(conversion_at(command, 0) is None);
    assert(root(command) =~= "shl"@);
    lemma_binary_mnemonic(command);
}

proof fn lemma_operator_of_shr_long_2addr()
    ensures
        operator("shr-long/2addr"@) != ""@,
{
    let command = "shr-long/2addr"@;
    reveal_strlit("shr-long/2addr");
    lemma_operator_names();
    reveal_with_fuel(conversion_at, 14);
    reveal_with_fuel(index_of, 5);
    assert(conversion_at(command, 0) is None);
    assert(root(command) =~= "shr"@);
    lemma_binary_mnemonic(command);
}

proof fn lemma_operator_of_ushr_long_2addr()
    ensures
        operator("ushr-long/2addr"@) != ""@,
{
    let command = "ushr-long/2addr"@;
    reveal_strlit("ushr-long/2addr");
    lemma_operator_names();
    reveal_with_fuel(conversion_at, 15);
    reveal_with_fuel(index_of, 6);
    assert(conversion_at(command, 0) is None);
    assert(root(command) =~= "ushr"@);
    lemma_binary_mnemonic(command);
}

proof fn lemma_operator_of_add_float_2addr()
    ensures
        operator("add-float/2addr"@) != ""@,
{
    let command = "add-float/2addr"@;
    reveal_strlit("add-float/2addr");
    lemma_operator_names();
    reveal_with_fuel(conversion_at, 15);
    reveal_with_fuel(index_of, 5);
    assert(conversion_at(command, 0) is None);
    assert(root(command) =~= "add"@);
    lemma_binary_mnemonic(command);
}

proof fn lemma_operator_of_sub_float_2addr()
    ensures
        operator("sub-float/2addr"@) != ""@,
{
    let command = "sub-float/2addr"@;
    reveal_strlit("sub-float/2addr");
    lemma_operator_names();
    reveal_with_fuel(conversion_at, 15);
    reveal_with_fuel(index_of, 5);
    assert(conversion_at(command, 0) is None);
    assert(root(command) =~= "sub"@);
    lemma_binary_mnemonic(command);
}

proof fn lemma_operator_of_mul_float_2addr()
    ensures
        operator("mul-float/2addr"@) != ""@,
{
    let command = "mul-float/2addr"@;
    reveal_strlit("mul-float/2addr");
    lemma_operator_names();
    reveal_with_fuel(conversion_at, 15);
    reveal_with_fuel(index_of, 5);
    assert(conversion_at(command, 0) is None);
    assert(root(command) =~= "mul"@);
    lemma_binary_mnemonic(command);
}

proof fn lemma_operator_of_div_float_2addr()
    ensures
        operator("div-float/2addr"@) != ""@,
{
    let command = "div-float/2addr"@;
    reveal_strlit("div-float/2addr");
    lemma_operator_names();
    reveal_with_fuel(conversion_at, 15);
    reveal_with_fuel(index_of, 5);
    assert(conversion_at(command, 0) is None);
    assert(root(command) =~= "div"@);
    lemma_binary_mnemonic(command);
}

proof fn lemma_operator_of_rem_float_2addr()
    ensures
        operator("rem-float/2addr"@) != ""@,
{
    let command = "rem-float/2addr"@;
    reveal_strlit("rem-float/2addr");
    lemma_operator_names();
    reveal_with_fuel(conversion_at, 15);
    reveal_with_fuel(index_of, 5);
    assert(conversion_at(command, 0) is None);
    assert(root(command) =~= "rem"@);
    lemma_binary_mnemonic(command);
}

proof fn lemma_operator_of_add_double_2addr()
    ensures
        operator("add-double/2addr"@) != ""@,
{
    let command = "add-double/2addr"@;
    reveal_strlit("add-double/2addr");
    lemma_operator_names();
    reveal_with_fuel(conversion_at, 16);
    reveal_with_fuel(index_of, 5);
    assert(conversion_at(command, 0) is None);
    assert(root(command) =~= "add"@);
    lemma_binary_mnemonic(command);
}

proof fn lemma_operator_of_sub_double_2addr()
    ensures
        operator("sub-double/2addr"@) != ""@,
{
    let command = "sub-double/2addr"@;
    reveal_strlit("sub-double/2addr");
    lemma_operator_names();
    reveal_with_fuel(conversion_at, 16);
    reveal_with_fuel(index_of, 5);
    assert(conversion_at(command, 0) is None);
    assert(root(command) =~= "sub"@);
    lemma_binary_mnemonic(command);
}

proof fn lemma_operator_of_mul_double_2addr()
    ensures
        operator("mul-double/2addr"@) != ""@,
{
    let command = "mul-double/2addr"@;
    reveal_strlit("mul-double/2addr");
    lemma_operator_names();
    reveal_with_fuel(conversion_at, 16);
    reveal_with_fuel(index_of, 5);
    assert(conversion_at(command, 0) is None);
    assert(root(command) =~= "mul"@);
    lemma_binary_mnemonic(command);
}

proof fn lemma_operator_of_div_double_2addr()
    ensures
        operator("div-double/2addr"@) != ""@,
{
    let command = "div-double/2addr"@;
    reveal_strlit("div-double/2addr");
    lemma_operator_names();
    reveal_with_fuel(conversion_at, 16);
    reveal_with_fuel(index_of, 5);
    assert(conversion_at(command, 0) is None);
    assert(root(command) =~= "div"@);
    lemma_binary_mnemonic(command);
}

proof fn lemma_operator_of_rem_double_2addr()
    ensures
        operator("rem-double/2addr"@) != ""@,
{
    let command = "rem-double/2addr"@;
    reveal_strlit("rem-double/2addr");
    lemma_operator_names();
    reveal_with_fuel(conversion_at, 16);
    reveal_with_fuel(index_of, 5);
    assert(conversion_at(command, 0) is None);
    assert(root(command) =~= "rem"@);
    lemma_binary_mnemonic(command);
}

proof fn lemma_binary_in_place_operators(mnemonic: Seq<char>)
    requires
        is_binary_in_place(mnemonic),
    ensures
        operator(mnemonic) != ""@,
{
    if mnemonic == "add-int/2addr"@ {
        lemma_operator_of_add_int_2addr();
    } else if mnemonic == "sub-int/2addr"@ {
        lemma_operator_of_sub_int_2addr();
    } else if mnemonic == "mul-int/2addr"@ {
        lemma_operator_of_mul_int_2addr();
    } else if mnemonic == "div-int/2addr"@ {
        lemma_operator_of_div_int_2addr();
    } else if mnemonic == "rem-int/2addr"@ {
        lemma_operator_of_rem_int_2addr();
    } else if mnemonic == "and-int/2addr"@ {
        lemma_operator_of_and_int_2addr();
    } else if mnemonic == "or-int/2addr"@ {
        lemma_operator_of_or_int_2addr();
    } else if mnemonic == "xor-int/2addr"@ {
        lemma_operator_of_xor_int_2addr();
    } else if mnemonic == "shl-int/2addr"@ {
        lemma_operator_of_shl_int_2addr();
    } else if mnemonic == "shr-int/2addr"@ {
        lemma_operator_of_shr_int_2addr();
    } else if mnemonic == "ushr-int/2addr"@ {
        lemma_operator_of_ushr_int_2addr();
    } else if mnemonic == "add-long/2addr"@ {
        lemma_operator_of_add_long_2addr();
    } else if mnemonic == "sub-long/2addr"@ {
        lemma_operator_of_sub_long_2addr();
    } else if mnemonic == "mul-long/2addr"@ {
        lemma_operator_of_mul_long_2addr();
    } else if mnemonic == "div-long/2addr"@ {
        lemma_operator_of_div_long_2addr();
    } else if mnemonic == "rem-long/2addr"@ {
        lemma_operator_of_rem_long_2addr();
    } else if mnemonic == "and-long/2addr"@ {
        lemma_operator_of_and_long_2addr();
    } else if mnemonic == "or-long/2addr"@ {
        lemma_operator_of_or_long_2addr();
    } else if mnemonic == "xor-long/2addr"@ {
        lemma_operator_of_xor_long_2addr();
    } else if mnemonic == "shl-long/2addr"@ {
        lemma_operator_of_shl_long_2addr();
    } else if mnemonic == "shr-long/2addr"@ {
        lemma_operator_of_shr_long_2addr();
    } else if mnemonic == "ushr-long/2addr"@ {
        lemma_operator_of_ushr_long_2addr();
    } else if mnemonic == "add-float/2addr"@ {
        lemma_operator_of_add_float_2addr();
    } else if mnemonic == "sub-float/2addr"@ {
        lemma_operator_of_sub_float_2addr();
    } else if mnemonic == "mul-float/2addr"@ {
        lemma_operator_of_mul_float_2addr();
    } else if mnemonic == "div-float/2addr"@ {
        lemma_operator_of_div_float_2addr();
    } else if mnemonic == "rem-float/2addr"@ {
        lemma_operator_of_rem_float_2addr();
    } else if mnemonic == "add-double/2addr"@ {
        lemma_operator_of_add_double_2addr();
    } else if mnemonic == "sub-double/2addr"@ {
        lemma_operator_of_sub_double_2addr();
    } else if mnemonic == "mul-double/2addr"@ {
        lemma_operator_of_mul_double_2addr();
    } else if mnemonic == "div-double/2addr"@ {
        lemma_operator_of_div_double_2addr();
    } else if mnemonic == "rem-double/2addr"@ {
        lemma_operator_of_rem_double_2addr();
    }
}

proof fn lemma_operator_of_add_int_lit16()
    ensures
        operator("add-int/lit16"@) != ""@,
{
    let command = "add-int/lit16"@;
    reveal_strlit("add-int/lit16");
    lemma_operator_names();
    reveal_with_fuel(conversion_at, 13);
    reveal_with_fuel(index_of, 5);
    assert(conversion_at(command, 0) is None);
    assert(root(command) =~= "add"@);
    lemma_binary_mnemonic(command);
}

proof fn lemma_operator_of_mul_int_lit16()
    ensures
        operator("mul-int/lit16"@) != ""@,
{
    let command = "mul-int/lit16"@;
    reveal_strlit("mul-int/lit16");
    lemma_operator_names();
    reveal_with_fuel(conversion_at, 13);
    reveal_with_fuel(index_of, 5);
    assert(conversion_at(command, 0) is None);
    assert(root(command) =~= "mul"@);
    lemma_binary_mnemonic(command);
}

proof fn lemma_operator_of_div_int_lit16()
    ensures
        operator("div-int/lit16"@) != ""@,
{
    let command = "div-int/lit16"@;
    reveal_strlit("div-int/lit16");
    lemma_operator_names();
    reveal_with_fuel(conversion_at, 13);
    reveal_with_fuel(index_of, 5);
    assert(conversion_at(command, 0) is None);
    assert(root(command) =~= "div"@);
    lemma_binary_mnemonic(command);
}

proof fn lemma_operator_of_rem_int_lit16()
    ensures
        operator("rem-int/lit16"@) != ""@,
{
    let command = "rem-int/lit16"@;
    reveal_strlit("rem-int/lit16");
    lemma_operator_names();
    reveal_with_fuel(conversion_at, 13);
    reveal_with_fuel(index_of, 5);
    assert(conversion_at(command, 0) is None);
    assert(root(command) =~= "rem"@);
    lemma_binary_mnemonic(command);
}

proof fn lemma_operator_of_and_int_lit16()
    ensures
        operator("and-int/lit16"@) != ""@,
{
    let command = "and-int/lit16"@;
    reveal_strlit("and-int/lit16");
    lemma_operator_names();
    reveal_with_fuel(conversion_at, 13);
    reveal_with_fuel(index_of, 5);
    assert(conversion_at(command, 0) is None);
    assert(root(command) =~= "and"@);
    lemma_binary_mnemonic(command);
}

proof fn lemma_operator_of_or_int_lit16()
    ensures
        operator("or-int/lit16"@) != ""@,
{
    let command = "or-int/lit16"@;
    reveal_strlit("or-int/lit16");
    lemma_operator_names();
    reveal_with_fuel(conversion_at, 12);
    reveal_with_fuel(index_of, 4);
    assert(conversion_at(command, 0) is None);
    assert(root(command) =~= "or"@);
    lemma_binary_mnemonic(command);
}

proof fn lemma_operator_of_xor_int_lit16()
    ensures
        operator("xor-int/lit16"@) != ""@,
{
    let command = "xor-int/lit16"@;
    reveal_strlit("xor-int/lit16");
    lemma_operator_names();
    reveal_with_fuel(conversion_at, 13);
    reveal_with_fuel(index_of, 5);
    assert(conversion_at(command, 0) is None);
    assert(root(command) =~= "xor"@);
    lemma_binary_mnemonic(command);
}

proof fn lemma_operator_of_add_int_lit8()
    ensures
        operator("add-int/lit8"@) != ""@,
{
    let command = "add-int/lit8"@;
    reveal_strlit("add-int/lit8");
    lemma_operator_names();
    reveal_with_fuel(conversion_at, 12);
    reveal_with_fuel(index_of, 5);
    assert(conversion_at(command, 0) is None);
    assert(root(command) =~= "add"@);
    lemma_binary_mnemonic(command);
}

proof fn lemma_operator_of_mul_int_lit8()
    ensures
        operator("mul-int/lit8"@) != ""@,
{
    let command = "mul-int/lit8"@;
    reveal_strlit("mul-int/lit8");
    lemma_operator_names();
    reveal_with_fuel(conversion_at, 12);
    reveal_with_fuel(index_of, 5);
    assert(conversion_at(command, 0) is None);
    assert(root(command) =~= "mul"@);
    lemma_binary_mnemonic(command);
}

proof fn lemma_operator_of_div_int_lit8()
    ensures
        operator("div-int/lit8"@) != ""@,
{
    let command = "div-int/lit8"@;
    reveal_strlit("div-int/lit8");
    lemma_operator_names();
    reveal_with_fuel(conversion_at, 12);
    reveal_with_fuel(index_of, 5);
    assert(conversion_at(command, 0) is None);
    assert(root(command) =~= "div"@);
    lemma_binary_mnemonic(command);
}

proof fn lemma_operator_of_rem_int_lit8()
    ensures
        operator("rem-int/lit8"@) != ""@,
{
    let command = "rem-int/lit8"@;
    reveal_strlit("rem-int/lit8");
    lemma_operator_names();
    reveal_with_fuel(conversion_at, 12);
    reveal_with_fuel(index_of, 5);
    assert(conversion_at(command, 0) is None);
    assert(root(command) =~= "rem"@);
    lemma_binary_mnemonic(command);
}

proof fn lemma_operator_of_and_int_lit8()
    ensures
        operator("and-int/lit8"@) != ""@,
{
    let command = "and-int/lit8"@;
    reveal_strlit("and-int/lit8");
    lemma_operator_names();
    reveal_with_fuel(conversion_at, 12);
    reveal_with_fuel(index_of, 5);
    assert(conversion_at(command, 0) is None);
    assert(root(command) =~= "and"@);
    lemma_binary_mnemonic(command);
}

proof fn lemma_operator_of_or_int_lit8()
    ensures
        operator("or-int/lit8"@) != ""@,
{
    let command = "or-int/lit8"@;
    reveal_strlit("or-int/lit8");
    lemma_operator_names();
    reveal_with_fuel(conversion_at, 11);
    reveal_with_fuel(index_of, 4);
    assert(conversion_at(command, 0) is None);
    assert(root(command) =~= "or"@);
    lemma_binary_mnemonic(command);
}

proof fn lemma_operator_of_xor_int_lit8()
    ensures
        operator("xor-int/lit8"@) != ""@,
{
    let command = "xor-int/lit8"@;
    reveal_strlit("xor-int/lit8");
    lemma_operator_names();
    reveal_with_fuel(conversion_at, 12);
    reveal_with_fuel(index_of, 5);
    assert(conversion_at(command, 0) is None);
    assert(root(command) =~= "xor"@);
    lemma_binary_mnemonic(command);
}

proof fn lemma_operator_of_shl_int_lit8()
    ensures
        operator("shl-int/lit8"@) != ""@,
{
    let command = "shl-int/lit8"@;
    reveal_strlit("shl-int/lit8");
    lemma_operator_names();
    reveal_with_fuel(conversion_at, 12);
    reveal_with_fuel(index_of, 5);
    assert(conversion_at(command, 0) is None);
    assert(root(command) =~= "shl"@);
    lemma_binary_mnemonic(command);
}

proof fn lemma_operator_of_shr_int_lit8()
    ensures
        operator("shr-int/lit8"@) != ""@,
{
    let command = "shr-int/lit8"@;
    reveal_strlit("shr-int/lit8");
    lemma_operator_names();
    reveal_with_fuel(conversion_at, 12);
    reveal_with_fuel(index_of, 5);
    assert(conversion_at(command, 0) is None);
    assert(root(command) =~= "shr"@);
    lemma_binary_mnemonic(command);
}

proof fn lemma_operator_of_ushr_int_lit8()
    ensures
        operator("ushr-int/lit8"@) != ""@,
{
    let command = "ushr-int/lit8"@;
    reveal_strlit("ushr-int/lit8");
    lemma_operator_names();
    reveal_with_fuel(conversion_at, 13);
    reveal_with_fuel(index_of, 6);
    assert(conversion_at(command, 0) is None);
    assert(root(command) =~= "ushr"@);
    lemma_binary_mnemonic(command);
}

proof fn lemma_binary_literal_operators(mnemonic: Seq<char>)
    requires
        is_binary_literal(mnemonic),
    ensures
        operator(mnemonic) != ""@,
{
    if mnemonic == "add-int/lit16"@ {
        lemma_operator_of_add_int_lit16();
    } else if mnemonic == "mul-int/lit16"@ {
        lemma_operator_of_mul_int_lit16();
    } else if mnemonic == "div-int/lit16"@ {
        lemma_operator_of_div_int_lit16();
    } else if mnemonic == "rem-int/lit16"@ {
        lemma_operator_of_rem_int_lit16();
    } else if mnemonic == "and-int/lit16"@ {
        lemma_operator_of_and_int_lit16();
    } else if mnemonic == "or-int/lit16"@ {
        lemma_operator_of_or_int_lit16();
    } else if mnemonic == "xor-int/lit16"@ {
        lemma_operator_of_xor_int_lit16();
    } else if mnemonic == "add-int/lit8"@ {
        lemma_operator_of_add_int_lit8();
    } else if mnemonic == "mul-int/lit8"@ {
        lemma_operator_of_mul_int_lit8();
    } else if mnemonic == "div-int/lit8"@ {
        lemma_operator_of_div_int_lit8();
    } else if mnemonic == "rem-int/lit8"@ {
        lemma_operator_of_rem_int_lit8();
    } else if mnemonic == "and-int/lit8"@ {
        lemma_operator_of_and_int_lit8();
    } else if mnemonic == "or-int/lit8"@ {
        lemma_operator_of_or_int_lit8();
    } else if mnemonic == "xor-int/lit8"@ {
        lemma_operator_of_xor_int_lit8();
    } else if mnemonic == "shl-int/lit8"@ {
        lemma_operator_of_shl_int_lit8();
    } else if mnemonic == "shr-int/lit8"@ {
        lemma_operator_of_shr_int_lit8();
    } else if mnemonic == "ushr-int/lit8"@ {
        lemma_operator_of_ushr_int_lit8();
    }
}

proof fn lemma_operator_of_rsub_int()
    ensures
        operator("rsub-int"@) != ""@,
{
    let command = "rsub-int"@;
    reveal_strlit("rsub-int");
    lemma_operator_names();
    reveal_with_fuel(conversion_at, 8);
    reveal_with_fuel(index_of, 6);
    assert(conversion_at(command, 0) is None);
    assert(root(command) =~= "rsub"@);
    lemma_binary_mnemonic(command);
}

proof fn lemma_operator_of_rsub_int_lit8()
    ensures
        operator("rsub-int/lit8"@) != ""@,
{
    let command = "rsub-int/lit8"@;
    reveal_strlit("rsub-int/lit8");
    lemma_operator_names();
    reveal_with_fuel(conversion_at, 13);
    reveal_with_fuel(index_of, 6);
    assert(conversion_at(command, 0) is None);
    assert(root(command) =~= "rsub"@);
    lemma_binary_mnemonic(command);
}

proof fn lemma_reverse_subtract_operators(mnemonic: Seq<char>)
    requires
        is_reverse_subtract(mnemonic),
    ensures
        operator(mnemonic) != ""@,
{
    if mnemonic == "rsub-int"@ {
        lemma_operator_of_rsub_int();
    } else if mnemonic == "rsub-int/lit8"@ {
        lemma_operator_of_rsub_int_lit8();
    }
}

/// Every entry of the opcode table is well formed: its template can be
/// filled from parameters of its kinds, and the rule for its result points
/// at one of its parameters.
pub proof fn lemma_table_well_formed(mnemonic: Seq<char>)
    ensures
        definition(mnemonic) matches Some(def) ==> def.well_formed(),
{
    reveal(definition);
    lemma_nop_entry();
    lemma_move_entry();
    lemma_move_result_entry();
    lemma_move_result_wide_entry();
    lemma_move_result_object_entry();
    lemma_move_exception_entry();
    lemma_return_void_entry();
    lemma_return_value_entry();
    lemma_constant_entry();
    lemma_constant_high16_entry();
    lemma_constant_wide_high16_entry();
    lemma_constant_class_entry();
    lemma_monitor_enter_entry();
    lemma_monitor_exit_entry();
    lemma_check_cast_entry();
    lemma_instance_of_entry();
    lemma_array_length_entry();
    lemma_new_instance_entry();
    lemma_new_array_entry();
    lemma_filled_new_array_entry();
    lemma_fill_array_data_entry();
    lemma_throw_entry();
    lemma_goto_entry();
    lemma_switch_entry();
    lemma_compare_less_entry();
    lemma_compare_greater_entry();
    lemma_compare_long_entry();
    lemma_branch_entry();
    lemma_branch_zero_entry();
    lemma_array_get_entry();
    lemma_array_put_entry();
    lemma_instance_get_entry();
    lemma_instance_put_entry();
    lemma_static_get_entry();
    lemma_static_put_entry();
    lemma_invoke_virtual_entry();
    lemma_invoke_super_entry();
    lemma_invoke_direct_entry();
    lemma_invoke_static_entry();
    lemma_invoke_interface_entry();
    lemma_unary_entry();
    lemma_to_long_entry();
    lemma_to_float_entry();
    lemma_to_double_entry();
    lemma_to_int_entry();
    lemma_to_byte_entry();
    lemma_to_char_entry();
    lemma_to_short_entry();
    lemma_binary_entry();
    lemma_binary_in_place_entry();
    lemma_binary_literal_entry();
    lemma_reverse_subtract_entry();
    lemma_invoke_polymorphic_entry();
    lemma_constant_method_handle_entry();
    lemma_constant_method_type_entry();
}

/// Every mnemonic whose template asks for an operator encodes one.
pub proof fn lemma_table_operators(mnemonic: Seq<char>)
    ensures
        definition(mnemonic) matches Some(def) && uses_operator(def.format, 0) ==> operator(
            mnemonic,
        ) != ""@,
{
    reveal(definition);
    if is_nop(mnemonic) {
        lemma_nop_entry();
    } else if is_move(mnemonic) {
        lemma_move_entry();
    } else if is_move_result(mnemonic) {
        lemma_move_result_entry();
    } else if is_move_result_wide(mnemonic) {
        lemma_move_result_wide_entry();
    } else if is_move_result_object(mnemonic) {
        lemma_move_result_object_entry();
    } else if is_move_exception(mnemonic) {
        lemma_move_exception_entry();
    } else if is_return_void(mnemonic) {
        lemma_return_void_entry();
    } else if is_return_value(mnemonic) {
        lemma_return_value_entry();
    } else if is_constant(mnemonic) {
        lemma_constant_entry();
    } else if is_constant_high16(mnemonic) {
        lemma_constant_high16_entry();
    } else if is_constant_wide_high16(mnemonic) {
        lemma_constant_wide_high16_entry();
    } else if is_constant_class(mnemonic) {
        lemma_constant_class_entry();
    } else if is_monitor_enter(mnemonic) {
        lemma_monitor_enter_entry();
    } else if is_monitor_exit(mnemonic) {
        lemma_monitor_exit_entry();
    } else if is_check_cast(mnemonic) {
        lemma_check_cast_entry();
    } else if is_instance_of(mnemonic) {
        lemma_instance_of_entry();
    } else if is_array_length(mnemonic) {
        lemma_array_length_entry();
    } else if is_new_instance(mnemonic) {
        lemma_new_instance_entry();
    } else if is_new_array(mnemonic) {
        lemma_new_array_entry();
    } else if is_filled_new_array(mnemonic) {
        lemma_filled_new_array_entry();
    } else if is_fill_array_data(mnemonic) {
        lemma_fill_array_data_entry();
    } else if is_throw(mnemonic) {
        lemma_throw_entry();
    } else if is_goto(mnemonic) {
        lemma_goto_entry();
    } else if is_switch(mnemonic) {
        lemma_switch_entry();
    } else if is_compare_less(mnemonic) {
        lemma_compare_less_entry();
    } else if is_compare_greater(mnemonic) {
        lemma_compare_greater_entry();
    } else if is_compare_long(mnemonic) {
        lemma_compare_long_entry();
    } else if is_branch(mnemonic) {
        lemma_branch_entry();
        lemma_branch_operators(mnemonic);
    } else if is_branch_zero(mnemonic) {
        lemma_branch_zero_entry();
        lemma_branch_zero_operators(mnemonic);
    } else if is_array_get(mnemonic) {
        lemma_array_get_entry();
    } else if is_array_put(mnemonic) {
        lemma_array_put_entry();
    } else if is_instance_get(mnemonic) {
        lemma_instance_get_entry();
    } else if is_instance_put(mnemonic) {
        lemma_instance_put_entry();
    } else if is_static_get(mnemonic) {
        lemma_static_get_entry();
    } else if is_static_put(mnemonic) {
        lemma_static_put_entry();
    } else if is_invoke_virtual(mnemonic) {
        lemma_invoke_virtual_entry();
    } else if is_invoke_super(mnemonic) {
        lemma_invoke_super_entry();
    } else if is_invoke_direct(mnemonic) {
        lemma_invoke_direct_entry();
    } else if is_invoke_static(mnemonic) {
        lemma_invoke_static_entry();
    } else if is_invoke_interface(mnemonic) {
        lemma_invoke_interface_entry();
    } else if is_unary(mnemonic) {
        lemma_unary_entry();
        lemma_unary_operators(mnemonic);
    } else if is_to_long(mnemonic) {
        lemma_to_long_entry();
        lemma_to_long_operators(mnemonic);
    } else if is_to_float(mnemonic) {
        lemma_to_float_entry();
        lemma_to_float_operators(mnemonic);
    } else if is_to_double(mnemonic) {
        lemma_to_double_entry();
        lemma_to_double_operators(mnemonic);
    } else if is_to_int(mnemonic) {
        lemma_to_int_entry();
        lemma_to_int_operators(mnemonic);
    } else if is_to_byte(mnemonic) {
        lemma_to_byte_entry();
        lemma_to_byte_operators(mnemonic);
    } else if is_to_char(mnemonic) {
        lemma_to_char_entry();
        lemma_to_char_operators(mnemonic);
    } else if is_to_short(mnemonic) {
        lemma_to_short_entry();
        lemma_to_short_operators(mnemonic);
    } else if is_binary(mnemonic) {
        lemma_binary_entry();
        lemma_binary_operators(mnemonic);
    } else if is_binary_in_place(mnemonic) {
        lemma_binary_in_place_entry();
        lemma_binary_in_place_operators(mnemonic);
    } else if is_binary_literal(mnemonic) {
        lemma_binary_literal_entry();
        lemma_binary_literal_operators(mnemonic);
    } else if is_reverse_subtract(mnemonic) {
        lemma_reverse_subtract_entry();
        lemma_reverse_subtract_operators(mnemonic);
    } else if is_invoke_polymorphic(mnemonic) {
        lemma_invoke_polymorphic_entry();
    } else if is_constant_method_handle(mnemonic) {
        lemma_constant_method_handle_entry();
    } else if is_constant_method_type(mnemonic) {
        lemma_constant_method_type_entry();
    }
}

} // verus!
