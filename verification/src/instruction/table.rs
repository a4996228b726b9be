//! The opcode table: for every mnemonic, the parameters that the command
//! takes, the template that renders it, whether it takes the result of the
//! command before it, and how the type of its own result is found.
//!
//! A template is text with placeholders. `{i}` stands for parameter `i`,
//! `{i.this}` and `{i.args}` for the first register of a register group and
//! for the others, and `{op}` for the operator that the mnemonic encodes.

use vstd::prelude::*;
use vstd::string::*;
use crate::text::str_eq;
use super::{InstructionDef, InstructionDefView, ParameterKind, ResultTypeDef, ResultTypeDefView};

verus! {

broadcast use vstd::string::group_string_axioms;

/// Whether the mnemonic names a command that does nothing.
pub open spec fn is_nop(mnemonic: Seq<char>) -> bool {
    mnemonic == "nop"@
}

/// The entry for a command that does nothing.
pub open spec fn nop_entry() -> InstructionDefView {
    InstructionDefView {
        parameters: Seq::empty(),
        format: "nop"@,
        is_moved_result: false,
        result_type: ResultTypeDefView::Nothing,
    }
}

/// Whether the mnemonic names a copy of one register to another.
pub open spec fn is_move(mnemonic: Seq<char>) -> bool {
    mnemonic == "move"@
    || mnemonic == "move/from16"@
    || mnemonic == "move/16"@
    || mnemonic == "move-wide"@
    || mnemonic == "move-wide/from16"@
    || mnemonic == "move-wide/16"@
    || mnemonic == "move-object"@
    || mnemonic == "move-object/from16"@
    || mnemonic == "move-object/16"@
}

/// The entry for a copy of one register to another.
pub open spec fn move_entry() -> InstructionDefView {
    InstructionDefView {
        parameters: seq![ParameterKind::Result, ParameterKind::Register],
        format: "{1}"@,
        is_moved_result: false,
        result_type: ResultTypeDefView::From(1),
    }
}

/// Whether the mnemonic names the taking of a single-width result.
pub open spec fn is_move_result(mnemonic: Seq<char>) -> bool {
    mnemonic == "move-result"@
}

/// The entry for the taking of a single-width result.
pub open spec fn move_result_entry() -> InstructionDefView {
    InstructionDefView {
        parameters: seq![ParameterKind::Result],
        format: "move-result"@,
        is_moved_result: true,
        result_type: ResultTypeDefView::Int,
    }
}

/// Whether the mnemonic names the taking of a double-width result.
pub open spec fn is_move_result_wide(mnemonic: Seq<char>) -> bool {
    mnemonic == "move-result-wide"@
}

/// The entry for the taking of a double-width result.
pub open spec fn move_result_wide_entry() -> InstructionDefView {
    InstructionDefView {
        parameters: seq![ParameterKind::Result],
        format: "move-result"@,
        is_moved_result: true,
        result_type: ResultTypeDefView::Long,
    }
}

/// Whether the mnemonic names the taking of an object result.
pub open spec fn is_move_result_object(mnemonic: Seq<char>) -> bool {
    mnemonic == "move-result-object"@
}

/// The entry for the taking of an object result.
pub open spec fn move_result_object_entry() -> InstructionDefView {
    InstructionDefView {
        parameters: seq![ParameterKind::Result],
        format: "move-result"@,
        is_moved_result: true,
        result_type: ResultTypeDefView::Object("java.lang.Object"@),
    }
}

/// Whether the mnemonic names the taking of a caught exception.
pub open spec fn is_move_exception(mnemonic: Seq<char>) -> bool {
    mnemonic == "move-exception"@
}

/// The entry for the taking of a caught exception.
pub open spec fn move_exception_entry() -> InstructionDefView {
    InstructionDefView {
        parameters: seq![ParameterKind::Result],
        format: "move-exception"@,
        is_moved_result: false,
        result_type: ResultTypeDefView::Exception,
    }
}

/// Whether the mnemonic names a return without a value.
pub open spec fn is_return_void(mnemonic: Seq<char>) -> bool {
    mnemonic == "return-void"@
}

/// The entry for a return without a value.
pub open spec fn return_void_entry() -> InstructionDefView {
    InstructionDefView {
        parameters: Seq::empty(),
        format: "return"@,
        is_moved_result: false,
        result_type: ResultTypeDefView::Nothing,
    }
}

/// Whether the mnemonic names a return of a value.
pub open spec fn is_return_value(mnemonic: Seq<char>) -> bool {
    mnemonic == "return"@
    || mnemonic == "return-wide"@
    || mnemonic == "return-object"@
}

/// The entry for a return of a value.
pub open spec fn return_value_entry() -> InstructionDefView {
    InstructionDefView {
        parameters: seq![ParameterKind::Register],
        format: "return {0}"@,
        is_moved_result: false,
        result_type: ResultTypeDefView::Nothing,
    }
}

/// Whether the mnemonic names the loading of a constant.
pub open spec fn is_constant(mnemonic: Seq<char>) -> bool {
    mnemonic == "const/4"@
    || mnemonic == "const/16"@
    || mnemonic == "const"@
    || mnemonic == "const-wide/16"@
    || mnemonic == "const-wide/32"@
    || mnemonic == "const-wide"@
    || mnemonic == "const-string"@
    || mnemonic == "const-string/jumbo"@
}

/// The entry for the loading of a constant.
pub open spec fn constant_entry() -> InstructionDefView {
    InstructionDefView {
        parameters: seq![ParameterKind::Result, ParameterKind::Literal],
        format: "{1}"@,
        is_moved_result: false,
        result_type: ResultTypeDefView::From(1),
    }
}

/// Whether the mnemonic names the loading of the high half of a single-width constant.
pub open spec fn is_constant_high16(mnemonic: Seq<char>) -> bool {
    mnemonic == "const/high16"@
}

/// The entry for the loading of the high half of a single-width constant.
pub open spec fn constant_high16_entry() -> InstructionDefView {
    InstructionDefView {
        parameters: seq![ParameterKind::Result, ParameterKind::Literal],
        format: "{1} << 16"@,
        is_moved_result: false,
        result_type: ResultTypeDefView::From(1),
    }
}

/// Whether the mnemonic names the loading of the high bits of a double-width constant.
pub open spec fn is_constant_wide_high16(mnemonic: Seq<char>) -> bool {
    mnemonic == "const-wide/high16"@
}

/// The entry for the loading of the high bits of a double-width constant.
pub open spec fn constant_wide_high16_entry() -> InstructionDefView {
    InstructionDefView {
        parameters: seq![ParameterKind::Result, ParameterKind::Literal],
        format: "{1} << 48"@,
        is_moved_result: false,
        result_type: ResultTypeDefView::From(1),
    }
}

/// Whether the mnemonic names the loading of a class object.
pub open spec fn is_constant_class(mnemonic: Seq<char>) -> bool {
    mnemonic == "const-class"@
}

/// The entry for the loading of a class object.
pub open spec fn constant_class_entry() -> InstructionDefView {
    InstructionDefView {
        parameters: seq![ParameterKind::Result, ParameterKind::Type],
        format: "class {1}"@,
        is_moved_result: false,
        result_type: ResultTypeDefView::Object("java.lang.Class"@),
    }
}

/// Whether the mnemonic names the taking of a monitor.
pub open spec fn is_monitor_enter(mnemonic: Seq<char>) -> bool {
    mnemonic == "monitor-enter"@
}

/// The entry for the taking of a monitor.
pub open spec fn monitor_enter_entry() -> InstructionDefView {
    InstructionDefView {
        parameters: seq![ParameterKind::Register],
        format: "monitor-enter {0}"@,
        is_moved_result: false,
        result_type: ResultTypeDefView::Nothing,
    }
}

/// Whether the mnemonic names the release of a monitor.
pub open spec fn is_monitor_exit(mnemonic: Seq<char>) -> bool {
    mnemonic == "monitor-exit"@
}

/// The entry for the release of a monitor.
pub open spec fn monitor_exit_entry() -> InstructionDefView {
    InstructionDefView {
        parameters: seq![ParameterKind::Register],
        format: "monitor-exit {0}"@,
        is_moved_result: false,
        result_type: ResultTypeDefView::Nothing,
    }
}

/// Whether the mnemonic names a checked cast.
pub open spec fn is_check_cast(mnemonic: Seq<char>) -> bool {
    mnemonic == "check-cast"@
}

/// The entry for a checked cast.
pub open spec fn check_cast_entry() -> InstructionDefView {
    InstructionDefView {
        parameters: seq![ParameterKind::DefaultEmptyResult, ParameterKind::Register, ParameterKind::Type],
        format: "({2}) {1}"@,
        is_moved_result: false,
        result_type: ResultTypeDefView::From(2),
    }
}

/// Whether the mnemonic names a type test.
pub open spec fn is_instance_of(mnemonic: Seq<char>) -> bool {
    mnemonic == "instance-of"@
}

/// The entry for a type test.
pub open spec fn instance_of_entry() -> InstructionDefView {
    InstructionDefView {
        parameters: seq![ParameterKind::Result, ParameterKind::Register, ParameterKind::Type],
        format: "{1} instance-of {2}"@,
        is_moved_result: false,
        result_type: ResultTypeDefView::From(2),
    }
}

/// Whether the mnemonic names the length of an array.
pub open spec fn is_array_length(mnemonic: Seq<char>) -> bool {
    mnemonic == "array-length"@
}

/// The entry for the length of an array.
pub open spec fn array_length_entry() -> InstructionDefView {
    InstructionDefView {
        parameters: seq![ParameterKind::Result, ParameterKind::Register],
        format: "array-length {1}"@,
        is_moved_result: false,
        result_type: ResultTypeDefView::Int,
    }
}

/// Whether the mnemonic names the creation of an object.
pub open spec fn is_new_instance(mnemonic: Seq<char>) -> bool {
    mnemonic == "new-instance"@
}

/// The entry for the creation of an object.
pub open spec fn new_instance_entry() -> InstructionDefView {
    InstructionDefView {
        parameters: seq![ParameterKind::Result, ParameterKind::Type],
        format: "new {1}"@,
        is_moved_result: false,
        result_type: ResultTypeDefView::From(1),
    }
}

/// Whether the mnemonic names the creation of an array.
pub open spec fn is_new_array(mnemonic: Seq<char>) -> bool {
    mnemonic == "new-array"@
}

/// The entry for the creation of an array.
pub open spec fn new_array_entry() -> InstructionDefView {
    InstructionDefView {
        parameters: seq![ParameterKind::Result, ParameterKind::Register, ParameterKind::Type],
        format: "new {2}[{1}]"@,
        is_moved_result: false,
        result_type: ResultTypeDefView::From(2),
    }
}

/// Whether the mnemonic names the creation of an array from registers.
pub open spec fn is_filled_new_array(mnemonic: Seq<char>) -> bool {
    mnemonic == "filled-new-array"@
    || mnemonic == "filled-new-array/range"@
}

/// The entry for the creation of an array from registers.
pub open spec fn filled_new_array_entry() -> InstructionDefView {
    InstructionDefView {
        parameters: seq![ParameterKind::DefaultEmptyResult, ParameterKind::Registers, ParameterKind::Type],
        format: "{{1}}"@,
        is_moved_result: false,
        result_type: ResultTypeDefView::From(2),
    }
}

/// Whether the mnemonic names the filling of an array from a data block.
pub open spec fn is_fill_array_data(mnemonic: Seq<char>) -> bool {
    mnemonic == "fill-array-data"@
}

/// The entry for the filling of an array from a data block.
pub open spec fn fill_array_data_entry() -> InstructionDefView {
    InstructionDefView {
        parameters: seq![ParameterKind::Register, ParameterKind::Data],
        format: "{0} = {\n{1}        }"@,
        is_moved_result: false,
        result_type: ResultTypeDefView::Nothing,
    }
}

/// Whether the mnemonic names the throwing of an exception.
pub open spec fn is_throw(mnemonic: Seq<char>) -> bool {
    mnemonic == "throw"@
}

/// The entry for the throwing of an exception.
pub open spec fn throw_entry() -> InstructionDefView {
    InstructionDefView {
        parameters: seq![ParameterKind::Register],
        format: "throw {0}"@,
        is_moved_result: false,
        result_type: ResultTypeDefView::Nothing,
    }
}

/// Whether the mnemonic names an unconditional jump.
pub open spec fn is_goto(mnemonic: Seq<char>) -> bool {
    mnemonic == "goto"@
    || mnemonic == "goto/16"@
    || mnemonic == "goto/32"@
}

/// The entry for an unconditional jump.
pub open spec fn goto_entry() -> InstructionDefView {
    InstructionDefView {
        parameters: seq![ParameterKind::Label],
        format: "goto {0}"@,
        is_moved_result: false,
        result_type: ResultTypeDefView::Nothing,
    }
}

/// Whether the mnemonic names a jump through a table.
pub open spec fn is_switch(mnemonic: Seq<char>) -> bool {
    mnemonic == "packed-switch"@
    || mnemonic == "sparse-switch"@
}

/// The entry for a jump through a table.
pub open spec fn switch_entry() -> InstructionDefView {
    InstructionDefView {
        parameters: seq![ParameterKind::Register, ParameterKind::Data],
        format: "switch({0})\n        {\n{1}        }"@,
        is_moved_result: false,
        result_type: ResultTypeDefView::Nothing,
    }
}

/// Whether the mnemonic names a comparison that takes an unordered pair for less.
pub open spec fn is_compare_less(mnemonic: Seq<char>) -> bool {
    mnemonic == "cmpl-float"@
    || mnemonic == "cmpl-double"@
}

/// The entry for a comparison that takes an unordered pair for less.
pub open spec fn compare_less_entry() -> InstructionDefView {
    InstructionDefView {
        parameters: seq![ParameterKind::Result, ParameterKind::Register, ParameterKind::Register],
        format: "{1} cmpl {2}"@,
        is_moved_result: false,
        result_type: ResultTypeDefView::Bool,
    }
}

/// Whether the mnemonic names a comparison that takes an unordered pair for greater.
pub open spec fn is_compare_greater(mnemonic: Seq<char>) -> bool {
    mnemonic == "cmpg-float"@
    || mnemonic == "cmpg-double"@
}

/// The entry for a comparison that takes an unordered pair for greater.
pub open spec fn compare_greater_entry() -> InstructionDefView {
    InstructionDefView {
        parameters: seq![ParameterKind::Result, ParameterKind::Register, ParameterKind::Register],
        format: "{1} cmpg {2}"@,
        is_moved_result: false,
        result_type: ResultTypeDefView::Bool,
    }
}

/// Whether the mnemonic names a comparison of two long values.
pub open spec fn is_compare_long(mnemonic: Seq<char>) -> bool {
    mnemonic == "cmp-long"@
}

/// The entry for a comparison of two long values.
pub open spec fn compare_long_entry() -> InstructionDefView {
    InstructionDefView {
        parameters: seq![ParameterKind::Result, ParameterKind::Register, ParameterKind::Register],
        format: "{1} cmp {2}"@,
        is_moved_result: false,
        result_type: ResultTypeDefView::Bool,
    }
}

/// Whether the mnemonic names a jump on the comparison of two registers.
pub open spec fn is_branch(mnemonic: Seq<char>) -> bool {
    mnemonic == "if-eq"@
    || mnemonic == "if-ne"@
    || mnemonic == "if-lt"@
    || mnemonic == "if-ge"@
    || mnemonic == "if-gt"@
    || mnemonic == "if-le"@
}

/// The entry for a jump on the comparison of two registers.
pub open spec fn branch_entry() -> InstructionDefView {
    InstructionDefView {
        parameters: seq![ParameterKind::Register, ParameterKind::Register, ParameterKind::Label],
        format: "if {0} {op} {1} goto {2}"@,
        is_moved_result: false,
        result_type: ResultTypeDefView::Nothing,
    }
}

/// Whether the mnemonic names a jump on the comparison of a register with zero.
pub open spec fn is_branch_zero(mnemonic: Seq<char>) -> bool {
    mnemonic == "if-eqz"@
    || mnemonic == "if-nez"@
    || mnemonic == "if-ltz"@
    || mnemonic == "if-gez"@
    || mnemonic == "if-gtz"@
    || mnemonic == "if-lez"@
}

/// The entry for a jump on the comparison of a register with zero.
pub open spec fn branch_zero_entry() -> InstructionDefView {
    InstructionDefView {
        parameters: seq![ParameterKind::Register, ParameterKind::Label],
        format: "if {0} {op} 0 goto {1}"@,
        is_moved_result: false,
        result_type: ResultTypeDefView::Nothing,
    }
}

/// Whether the mnemonic names the reading of an array element.
pub open spec fn is_array_get(mnemonic: Seq<char>) -> bool {
    mnemonic == "aget"@
    || mnemonic == "aget-wide"@
    || mnemonic == "aget-object"@
    || mnemonic == "aget-boolean"@
    || mnemonic == "aget-byte"@
    || mnemonic == "aget-char"@
    || mnemonic == "aget-short"@
}

/// The entry for the reading of an array element.
pub open spec fn array_get_entry() -> InstructionDefView {
    InstructionDefView {
        parameters: seq![ParameterKind::Result, ParameterKind::Register, ParameterKind::Register],
        format: "{1}[{2}]"@,
        is_moved_result: false,
        result_type: ResultTypeDefView::ElementFrom(1),
    }
}

/// Whether the mnemonic names the writing of an array element.
pub open spec fn is_array_put(mnemonic: Seq<char>) -> bool {
    mnemonic == "aput"@
    || mnemonic == "aput-wide"@
    || mnemonic == "aput-object"@
    || mnemonic == "aput-boolean"@
    || mnemonic == "aput-byte"@
    || mnemonic == "aput-char"@
    || mnemonic == "aput-short"@
}

/// The entry for the writing of an array element.
pub open spec fn array_put_entry() -> InstructionDefView {
    InstructionDefView {
        parameters: seq![ParameterKind::Register, ParameterKind::Register, ParameterKind::Register],
        format: "{1}[{2}] = {0}"@,
        is_moved_result: false,
        result_type: ResultTypeDefView::Nothing,
    }
}

/// Whether the mnemonic names the reading of an instance field.
pub open spec fn is_instance_get(mnemonic: Seq<char>) -> bool {
    mnemonic == "iget"@
    || mnemonic == "iget-wide"@
    || mnemonic == "iget-object"@
    || mnemonic == "iget-boolean"@
    || mnemonic == "iget-byte"@
    || mnemonic == "iget-char"@
    || mnemonic == "iget-short"@
}

/// The entry for the reading of an instance field.
pub open spec fn instance_get_entry() -> InstructionDefView {
    InstructionDefView {
        parameters: seq![ParameterKind::Result, ParameterKind::Register, ParameterKind::Field],
        format: "{1}.<{2}>"@,
        is_moved_result: false,
        result_type: ResultTypeDefView::From(2),
    }
}

/// Whether the mnemonic names the writing of an instance field.
pub open spec fn is_instance_put(mnemonic: Seq<char>) -> bool {
    mnemonic == "iput"@
    || mnemonic == "iput-wide"@
    || mnemonic == "iput-object"@
    || mnemonic == "iput-boolean"@
    || mnemonic == "iput-byte"@
    || mnemonic == "iput-char"@
    || mnemonic == "iput-short"@
}

/// The entry for the writing of an instance field.
pub open spec fn instance_put_entry() -> InstructionDefView {
    InstructionDefView {
        parameters: seq![ParameterKind::Register, ParameterKind::Register, ParameterKind::Field],
        format: "{1}.<{2}> = {0}"@,
        is_moved_result: false,
        result_type: ResultTypeDefView::Nothing,
    }
}

/// Whether the mnemonic names the reading of a static field.
pub open spec fn is_static_get(mnemonic: Seq<char>) -> bool {
    mnemonic == "sget"@
    || mnemonic == "sget-wide"@
    || mnemonic == "sget-object"@
    || mnemonic == "sget-boolean"@
    || mnemonic == "sget-byte"@
    || mnemonic == "sget-char"@
    || mnemonic == "sget-short"@
}

/// The entry for the reading of a static field.
pub open spec fn static_get_entry() -> InstructionDefView {
    InstructionDefView {
        parameters: seq![ParameterKind::Result, ParameterKind::Field],
        format: "<{1}>"@,
        is_moved_result: false,
        result_type: ResultTypeDefView::From(1),
    }
}

/// Whether the mnemonic names the writing of a static field.
pub open spec fn is_static_put(mnemonic: Seq<char>) -> bool {
    mnemonic == "sput"@
    || mnemonic == "sput-wide"@
    || mnemonic == "sput-object"@
    || mnemonic == "sput-boolean"@
    || mnemonic == "sput-byte"@
    || mnemonic == "sput-char"@
    || mnemonic == "sput-short"@
}

/// The entry for the writing of a static field.
pub open spec fn static_put_entry() -> InstructionDefView {
    InstructionDefView {
        parameters: seq![ParameterKind::Register, ParameterKind::Field],
        format: "<{1}> = {0}"@,
        is_moved_result: false,
        result_type: ResultTypeDefView::Nothing,
    }
}

/// Whether the mnemonic names a virtual call.
pub open spec fn is_invoke_virtual(mnemonic: Seq<char>) -> bool {
    mnemonic == "invoke-virtual"@
    || mnemonic == "invoke-virtual/range"@
}

/// The entry for a virtual call.
pub open spec fn invoke_virtual_entry() -> InstructionDefView {
    InstructionDefView {
        parameters: seq![ParameterKind::DefaultEmptyResult, ParameterKind::Registers, ParameterKind::Method],
        format: "invoke-virtual {1.this}.<{2}>({1.args})"@,
        is_moved_result: false,
        result_type: ResultTypeDefView::ReturnOf(2),
    }
}

/// Whether the mnemonic names a call of the superclass's method.
pub open spec fn is_invoke_super(mnemonic: Seq<char>) -> bool {
    mnemonic == "invoke-super"@
    || mnemonic == "invoke-super/range"@
}

/// The entry for a call of the superclass's method.
pub open spec fn invoke_super_entry() -> InstructionDefView {
    InstructionDefView {
        parameters: seq![ParameterKind::DefaultEmptyResult, ParameterKind::Registers, ParameterKind::Method],
        format: "invoke-super {1.this}.<{2}>({1.args})"@,
        is_moved_result: false,
        result_type: ResultTypeDefView::ReturnOf(2),
    }
}

/// Whether the mnemonic names a direct call.
pub open spec fn is_invoke_direct(mnemonic: Seq<char>) -> bool {
    mnemonic == "invoke-direct"@
    || mnemonic == "invoke-direct/range"@
}

/// The entry for a direct call.
pub open spec fn invoke_direct_entry() -> InstructionDefView {
    InstructionDefView {
        parameters: seq![ParameterKind::DefaultEmptyResult, ParameterKind::Registers, ParameterKind::Method],
        format: "invoke-direct {1.this}.<{2}>({1.args})"@,
        is_moved_result: false,
        result_type: ResultTypeDefView::ReturnOf(2),
    }
}

/// Whether the mnemonic names a static call.
pub open spec fn is_invoke_static(mnemonic: Seq<char>) -> bool {
    mnemonic == "invoke-static"@
    || mnemonic == "invoke-static/range"@
}

/// The entry for a static call.
pub open spec fn invoke_static_entry() -> InstructionDefView {
    InstructionDefView {
        parameters: seq![ParameterKind::DefaultEmptyResult, ParameterKind::Registers, ParameterKind::Method],
        format: "invoke-static <{2}>({1})"@,
        is_moved_result: false,
        result_type: ResultTypeDefView::ReturnOf(2),
    }
}

/// Whether the mnemonic names a call through an interface.
pub open spec fn is_invoke_interface(mnemonic: Seq<char>) -> bool {
    mnemonic == "invoke-interface"@
    || mnemonic == "invoke-interface/range"@
}

/// The entry for a call through an interface.
pub open spec fn invoke_interface_entry() -> InstructionDefView {
    InstructionDefView {
        parameters: seq![ParameterKind::DefaultEmptyResult, ParameterKind::Registers, ParameterKind::Method],
        format: "invoke-interface {1.this}.<{2}>({1.args})"@,
        is_moved_result: false,
        result_type: ResultTypeDefView::ReturnOf(2),
    }
}

/// Whether the mnemonic names a negation or a complement.
pub open spec fn is_unary(mnemonic: Seq<char>) -> bool {
    mnemonic == "neg-int"@
    || mnemonic == "not-int"@
    || mnemonic == "neg-long"@
    || mnemonic == "not-long"@
    || mnemonic == "neg-float"@
    || mnemonic == "neg-double"@
}

/// The entry for a negation or a complement.
pub open spec fn unary_entry() -> InstructionDefView {
    InstructionDefView {
        parameters: seq![ParameterKind::Result, ParameterKind::Register],
        format: "{op}{1}"@,
        is_moved_result: false,
        result_type: ResultTypeDefView::From(1),
    }
}

/// Whether the mnemonic names a conversion to long.
pub open spec fn is_to_long(mnemonic: Seq<char>) -> bool {
    mnemonic == "int-to-long"@
    || mnemonic == "float-to-long"@
    || mnemonic == "double-to-long"@
}

/// The entry for a conversion to long.
pub open spec fn to_long_entry() -> InstructionDefView {
    InstructionDefView {
        parameters: seq![ParameterKind::Result, ParameterKind::Register],
        format: "{op}{1}"@,
        is_moved_result: false,
        result_type: ResultTypeDefView::Long,
    }
}

/// Whether the mnemonic names a conversion to float.
pub open spec fn is_to_float(mnemonic: Seq<char>) -> bool {
    mnemonic == "int-to-float"@
    || mnemonic == "long-to-float"@
    || mnemonic == "double-to-float"@
}

/// The entry for a conversion to float.
pub open spec fn to_float_entry() -> InstructionDefView {
    InstructionDefView {
        parameters: seq![ParameterKind::Result, ParameterKind::Register],
        format: "{op}{1}"@,
        is_moved_result: false,
        result_type: ResultTypeDefView::Float,
    }
}

/// Whether the mnemonic names a conversion to double.
pub open spec fn is_to_double(mnemonic: Seq<char>) -> bool {
    mnemonic == "int-to-double"@
    || mnemonic == "long-to-double"@
    || mnemonic == "float-to-double"@
}

/// The entry for a conversion to double.
pub open spec fn to_double_entry() -> InstructionDefView {
    InstructionDefView {
        parameters: seq![ParameterKind::Result, ParameterKind::Register],
        format: "{op}{1}"@,
        is_moved_result: false,
        result_type: ResultTypeDefView::Double,
    }
}

/// Whether the mnemonic names a conversion to int.
pub open spec fn is_to_int(mnemonic: Seq<char>) -> bool {
    mnemonic == "long-to-int"@
    || mnemonic == "float-to-int"@
    || mnemonic == "double-to-int"@
}

/// The entry for a conversion to int.
pub open spec fn to_int_entry() -> InstructionDefView {
    InstructionDefView {
        parameters: seq![ParameterKind::Result, ParameterKind::Register],
        format: "{op}{1}"@,
        is_moved_result: false,
        result_type: ResultTypeDefView::Int,
    }
}

/// Whether the mnemonic names a conversion to byte.
pub open spec fn is_to_byte(mnemonic: Seq<char>) -> bool {
    mnemonic == "int-to-byte"@
}

/// The entry for a conversion to byte.
pub open spec fn to_byte_entry() -> InstructionDefView {
    InstructionDefView {
        parameters: seq![ParameterKind::Result, ParameterKind::Register],
        format: "{op}{1}"@,
        is_moved_result: false,
        result_type: ResultTypeDefView::Byte,
    }
}

/// Whether the mnemonic names a conversion to char.
pub open spec fn is_to_char(mnemonic: Seq<char>) -> bool {
    mnemonic == "int-to-char"@
}

/// The entry for a conversion to char.
pub open spec fn to_char_entry() -> InstructionDefView {
    InstructionDefView {
        parameters: seq![ParameterKind::Result, ParameterKind::Register],
        format: "{op}{1}"@,
        is_moved_result: false,
        result_type: ResultTypeDefView::Char,
    }
}

/// Whether the mnemonic names a conversion to short.
pub open spec fn is_to_short(mnemonic: Seq<char>) -> bool {
    mnemonic == "int-to-short"@
}

/// The entry for a conversion to short.
pub open spec fn to_short_entry() -> InstructionDefView {
    InstructionDefView {
        parameters: seq![ParameterKind::Result, ParameterKind::Register],
        format: "{op}{1}"@,
        is_moved_result: false,
        result_type: ResultTypeDefView::Short,
    }
}

/// Whether the mnemonic names an operation on two registers.
pub open spec fn is_binary(mnemonic: Seq<char>) -> bool {
    mnemonic == "add-int"@
    || mnemonic == "sub-int"@
    || mnemonic == "mul-int"@
    || mnemonic == "div-int"@
    || mnemonic == "rem-int"@
    || mnemonic == "and-int"@
    || mnemonic == "or-int"@
    || mnemonic == "xor-int"@
    || mnemonic == "shl-int"@
    || mnemonic == "shr-int"@
    || mnemonic == "ushr-int"@
    || mnemonic == "add-long"@
    || mnemonic == "sub-long"@
    || mnemonic == "mul-long"@
    || mnemonic == "div-long"@
    || mnemonic == "rem-long"@
    || mnemonic == "and-long"@
    || mnemonic == "or-long"@
    || mnemonic == "xor-long"@
    || mnemonic == "shl-long"@
    || mnemonic == "shr-long"@
    || mnemonic == "ushr-long"@
    || mnemonic == "add-float"@
    || mnemonic == "sub-float"@
    || mnemonic == "mul-float"@
    || mnemonic == "div-float"@
    || mnemonic == "rem-float"@
    || mnemonic == "add-double"@
    || mnemonic == "sub-double"@
    || mnemonic == "mul-double"@
    || mnemonic == "div-double"@
    || mnemonic == "rem-double"@
}

/// The entry for an operation on two registers.
pub open spec fn binary_entry() -> InstructionDefView {
    InstructionDefView {
        parameters: seq![ParameterKind::Result, ParameterKind::Register, ParameterKind::Register],
        format: "{1} {op} {2}"@,
        is_moved_result: false,
        result_type: ResultTypeDefView::From(1),
    }
}

/// Whether the mnemonic names an operation on two registers whose result replaces the first.
pub open spec fn is_binary_in_place(mnemonic: Seq<char>) -> bool {
    mnemonic == "add-int/2addr"@
    || mnemonic == "sub-int/2addr"@
    || mnemonic == "mul-int/2addr"@
    || mnemonic == "div-int/2addr"@
    || mnemonic == "rem-int/2addr"@
    || mnemonic == "and-int/2addr"@
    || mnemonic == "or-int/2addr"@
    || mnemonic == "xor-int/2addr"@
    || mnemonic == "shl-int/2addr"@
    || mnemonic == "shr-int/2addr"@
    || mnemonic == "ushr-int/2addr"@
    || mnemonic == "add-long/2addr"@
    || mnemonic == "sub-long/2addr"@
    || mnemonic == "mul-long/2addr"@
    || mnemonic == "div-long/2addr"@
    || mnemonic == "rem-long/2addr"@
    || mnemonic == "and-long/2addr"@
    || mnemonic == "or-long/2addr"@
    || mnemonic == "xor-long/2addr"@
    || mnemonic == "shl-long/2addr"@
    || mnemonic == "shr-long/2addr"@
    || mnemonic == "ushr-long/2addr"@
    || mnemonic == "add-float/2addr"@
    || mnemonic == "sub-float/2addr"@
    || mnemonic == "mul-float/2addr"@
    || mnemonic == "div-float/2addr"@
    || mnemonic == "rem-float/2addr"@
    || mnemonic == "add-double/2addr"@
    || mnemonic == "sub-double/2addr"@
    || mnemonic == "mul-double/2addr"@
    || mnemonic == "div-double/2addr"@
    || mnemonic == "rem-double/2addr"@
}

/// The entry for an operation on two registers whose result replaces the first.
pub open spec fn binary_in_place_entry() -> InstructionDefView {
    InstructionDefView {
        parameters: seq![ParameterKind::Register, ParameterKind::Register],
        format: "{0} {op}= {1}"@,
        is_moved_result: false,
        result_type: ResultTypeDefView::Nothing,
    }
}

/// Whether the mnemonic names an operation on a register and a literal.
pub open spec fn is_binary_literal(mnemonic: Seq<char>) -> bool {
    mnemonic == "add-int/lit16"@
    || mnemonic == "mul-int/lit16"@
    || mnemonic == "div-int/lit16"@
    || mnemonic == "rem-int/lit16"@
    || mnemonic == "and-int/lit16"@
    || mnemonic == "or-int/lit16"@
    || mnemonic == "xor-int/lit16"@
    || mnemonic == "add-int/lit8"@
    || mnemonic == "mul-int/lit8"@
    || mnemonic == "div-int/lit8"@
    || mnemonic == "rem-int/lit8"@
    || mnemonic == "and-int/lit8"@
    || mnemonic == "or-int/lit8"@
    || mnemonic == "xor-int/lit8"@
    || mnemonic == "shl-int/lit8"@
    || mnemonic == "shr-int/lit8"@
    || mnemonic == "ushr-int/lit8"@
}

/// The entry for an operation on a register and a literal.
pub open spec fn binary_literal_entry() -> InstructionDefView {
    InstructionDefView {
        parameters: seq![ParameterKind::Result, ParameterKind::Register, ParameterKind::Literal],
        format: "{1} {op} {2}"@,
        is_moved_result: false,
        result_type: ResultTypeDefView::From(1),
    }
}

/// Whether the mnemonic names a subtraction of a register from a literal.
pub open spec fn is_reverse_subtract(mnemonic: Seq<char>) -> bool {
    mnemonic == "rsub-int"@
    || mnemonic == "rsub-int/lit8"@
}

/// The entry for a subtraction of a register from a literal.
pub open spec fn reverse_subtract_entry() -> InstructionDefView {
    InstructionDefView {
        parameters: seq![ParameterKind::Result, ParameterKind::Register, ParameterKind::Literal],
        format: "{2} {op} {1}"@,
        is_moved_result: false,
        result_type: ResultTypeDefView::From(1),
    }
}

/// Whether the mnemonic names a signature-polymorphic call.
pub open spec fn is_invoke_polymorphic(mnemonic: Seq<char>) -> bool {
    mnemonic == "invoke-polymorphic"@
    || mnemonic == "invoke-polymorphic/range"@
}

/// The entry for a signature-polymorphic call.
pub open spec fn invoke_polymorphic_entry() -> InstructionDefView {
    InstructionDefView {
        parameters: seq![ParameterKind::DefaultEmptyResult, ParameterKind::Registers, ParameterKind::Method, ParameterKind::Call],
        format: "invoke-polymorphic {1.this}.<{2}>({1.args}), <{3}>"@,
        is_moved_result: false,
        result_type: ResultTypeDefView::ReturnOf(2),
    }
}

/// Whether the mnemonic names the loading of a method handle.
pub open spec fn is_constant_method_handle(mnemonic: Seq<char>) -> bool {
    mnemonic == "const-method-handle"@
}

/// The entry for the loading of a method handle.
pub open spec fn constant_method_handle_entry() -> InstructionDefView {
    InstructionDefView {
        parameters: seq![ParameterKind::Result, ParameterKind::MethodHandle],
        format: "{1}"@,
        is_moved_result: false,
        result_type: ResultTypeDefView::From(1),
    }
}

/// Whether the mnemonic names the loading of a method type.
pub open spec fn is_constant_method_type(mnemonic: Seq<char>) -> bool {
    mnemonic == "const-method-type"@
}

/// The entry for the loading of a method type.
pub open spec fn constant_method_type_entry() -> InstructionDefView {
    InstructionDefView {
        parameters: seq![ParameterKind::Result, ParameterKind::Call],
        format: "{1}"@,
        is_moved_result: false,
        result_type: ResultTypeDefView::From(1),
    }
}

/// The entry of the opcode table for a mnemonic in lower case, where the
/// table has one.
#[verifier::opaque]
pub open spec fn definition(mnemonic: Seq<char>) -> Option<InstructionDefView> {
    if is_nop(mnemonic) {
        Some(nop_entry())
    } else if is_move(mnemonic) {
        Some(move_entry())
    } else if is_move_result(mnemonic) {
        Some(move_result_entry())
    } else if is_move_result_wide(mnemonic) {
        Some(move_result_wide_entry())
    } else if is_move_result_object(mnemonic) {
        Some(move_result_object_entry())
    } else if is_move_exception(mnemonic) {
        Some(move_exception_entry())
    } else if is_return_void(mnemonic) {
        Some(return_void_entry())
    } else if is_return_value(mnemonic) {
        Some(return_value_entry())
    } else if is_constant(mnemonic) {
        Some(constant_entry())
    } else if is_constant_high16(mnemonic) {
        Some(constant_high16_entry())
    } else if is_constant_wide_high16(mnemonic) {
        Some(constant_wide_high16_entry())
    } else if is_constant_class(mnemonic) {
        Some(constant_class_entry())
    } else if is_monitor_enter(mnemonic) {
        Some(monitor_enter_entry())
    } else if is_monitor_exit(mnemonic) {
        Some(monitor_exit_entry())
    } else if is_check_cast(mnemonic) {
        Some(check_cast_entry())
    } else if is_instance_of(mnemonic) {
        Some(instance_of_entry())
    } else if is_array_length(mnemonic) {
        Some(array_length_entry())
    } else if is_new_instance(mnemonic) {
        Some(new_instance_entry())
    } else if is_new_array(mnemonic) {
        Some(new_array_entry())
    } else if is_filled_new_array(mnemonic) {
        Some(filled_new_array_entry())
    } else if is_fill_array_data(mnemonic) {
        Some(fill_array_data_entry())
    } else if is_throw(mnemonic) {
        Some(throw_entry())
    } else if is_goto(mnemonic) {
        Some(goto_entry())
    } else if is_switch(mnemonic) {
        Some(switch_entry())
    } else if is_compare_less(mnemonic) {
        Some(compare_less_entry())
    } else if is_compare_greater(mnemonic) {
        Some(compare_greater_entry())
    } else if is_compare_long(mnemonic) {
        Some(compare_long_entry())
    } else if is_branch(mnemonic) {
        Some(branch_entry())
    } else if is_branch_zero(mnemonic) {
        Some(branch_zero_entry())
    } else if is_array_get(mnemonic) {
        Some(array_get_entry())
    } else if is_array_put(mnemonic) {
        Some(array_put_entry())
    } else if is_instance_get(mnemonic) {
        Some(instance_get_entry())
    } else if is_instance_put(mnemonic) {
        Some(instance_put_entry())
    } else if is_static_get(mnemonic) {
        Some(static_get_entry())
    } else if is_static_put(mnemonic) {
        Some(static_put_entry())
    } else if is_invoke_virtual(mnemonic) {
        Some(invoke_virtual_entry())
    } else if is_invoke_super(mnemonic) {
        Some(invoke_super_entry())
    } else if is_invoke_direct(mnemonic) {
        Some(invoke_direct_entry())
    } else if is_invoke_static(mnemonic) {
        Some(invoke_static_entry())
    } else if is_invoke_interface(mnemonic) {
        Some(invoke_interface_entry())
    } else if is_unary(mnemonic) {
        Some(unary_entry())
    } else if is_to_long(mnemonic) {
        Some(to_long_entry())
    } else if is_to_float(mnemonic) {
        Some(to_float_entry())
    } else if is_to_double(mnemonic) {
        Some(to_double_entry())
    } else if is_to_int(mnemonic) {
        Some(to_int_entry())
    } else if is_to_byte(mnemonic) {
        Some(to_byte_entry())
    } else if is_to_char(mnemonic) {
        Some(to_char_entry())
    } else if is_to_short(mnemonic) {
        Some(to_short_entry())
    } else if is_binary(mnemonic) {
        Some(binary_entry())
    } else if is_binary_in_place(mnemonic) {
        Some(binary_in_place_entry())
    } else if is_binary_literal(mnemonic) {
        Some(binary_literal_entry())
    } else if is_reverse_subtract(mnemonic) {
        Some(reverse_subtract_entry())
    } else if is_invoke_polymorphic(mnemonic) {
        Some(invoke_polymorphic_entry())
    } else if is_constant_method_handle(mnemonic) {
        Some(constant_method_handle_entry())
    } else if is_constant_method_type(mnemonic) {
        Some(constant_method_type_entry())
    } else {
        None
    }
}

fn names_nop(mnemonic: &str) -> (r: bool)
    ensures
        r == is_nop(mnemonic@),
{
    str_eq(mnemonic, "nop")
}

fn entry_nop() -> (r: InstructionDef)
    ensures
        r@ == nop_entry(),
{
    let parameters: &'static [ParameterKind] = &[];
    assert(parameters@ =~= nop_entry().parameters);
    InstructionDef {
        parameters,
        format: "nop",
        is_moved_result: false,
        result_type: ResultTypeDef::Nothing,
    }
}

fn names_move(mnemonic: &str) -> (r: bool)
    ensures
        r == is_move(mnemonic@),
{
    str_eq(mnemonic, "move")
    || str_eq(mnemonic, "move/from16")
    || str_eq(mnemonic, "move/16")
    || str_eq(mnemonic, "move-wide")
    || str_eq(mnemonic, "move-wide/from16")
    || str_eq(mnemonic, "move-wide/16")
    || str_eq(mnemonic, "move-object")
    || str_eq(mnemonic, "move-object/from16")
    || str_eq(mnemonic, "move-object/16")
}

fn entry_move() -> (r: InstructionDef)
    ensures
        r@ == move_entry(),
{
    let parameters: &'static [ParameterKind] = &[ParameterKind::Result, ParameterKind::Register];
    assert(parameters@ =~= move_entry().parameters);
    InstructionDef {
        parameters,
        format: "{1}",
        is_moved_result: false,
        result_type: ResultTypeDef::From(1),
    }
}

fn names_move_result(mnemonic: &str) -> (r: bool)
    ensures
        r == is_move_result(mnemonic@),
{
    str_eq(mnemonic, "move-result")
}

fn entry_move_result() -> (r: InstructionDef)
    ensures
        r@ == move_result_entry(),
{
    let parameters: &'static [ParameterKind] = &[ParameterKind::Result];
    assert(parameters@ =~= move_result_entry().parameters);
    InstructionDef {
        parameters,
        format: "move-result",
        is_moved_result: true,
        result_type: ResultTypeDef::Int,
    }
}

fn names_move_result_wide(mnemonic: &str) -> (r: bool)
    ensures
        r == is_move_result_wide(mnemonic@),
{
    str_eq(mnemonic, "move-result-wide")
}

fn entry_move_result_wide() -> (r: InstructionDef)
    ensures
        r@ == move_result_wide_entry(),
{
    let parameters: &'static [ParameterKind] = &[ParameterKind::Result];
    assert(parameters@ =~= move_result_wide_entry().parameters);
    InstructionDef {
        parameters,
        format: "move-result",
        is_moved_result: true,
        result_type: ResultTypeDef::Long,
    }
}

fn names_move_result_object(mnemonic: &str) -> (r: bool)
    ensures
        r == is_move_result_object(mnemonic@),
{
    str_eq(mnemonic, "move-result-object")
}

fn entry_move_result_object() -> (r: InstructionDef)
    ensures
        r@ == move_result_object_entry(),
{
    let parameters: &'static [ParameterKind] = &[ParameterKind::Result];
    assert(parameters@ =~= move_result_object_entry().parameters);
    InstructionDef {
        parameters,
        format: "move-result",
        is_moved_result: true,
        result_type: ResultTypeDef::Object("java.lang.Object"),
    }
}

fn names_move_exception(mnemonic: &str) -> (r: bool)
    ensures
        r == is_move_exception(mnemonic@),
{
    str_eq(mnemonic, "move-exception")
}

fn entry_move_exception() -> (r: InstructionDef)
    ensures
        r@ == move_exception_entry(),
{
    let parameters: &'static [ParameterKind] = &[ParameterKind::Result];
    assert(parameters@ =~= move_exception_entry().parameters);
    InstructionDef {
        parameters,
        format: "move-exception",
        is_moved_result: false,
        result_type: ResultTypeDef::Exception,
    }
}

fn names_return_void(mnemonic: &str) -> (r: bool)
    ensures
        r == is_return_void(mnemonic@),
{
    str_eq(mnemonic, "return-void")
}

fn entry_return_void() -> (r: InstructionDef)
    ensures
        r@ == return_void_entry(),
{
    let parameters: &'static [ParameterKind] = &[];
    assert(parameters@ =~= return_void_entry().parameters);
    InstructionDef {
        parameters,
        format: "return",
        is_moved_result: false,
        result_type: ResultTypeDef::Nothing,
    }
}

fn names_return_value(mnemonic: &str) -> (r: bool)
    ensures
        r == is_return_value(mnemonic@),
{
    str_eq(mnemonic, "return")
    || str_eq(mnemonic, "return-wide")
    || str_eq(mnemonic, "return-object")
}

fn entry_return_value() -> (r: InstructionDef)
    ensures
        r@ == return_value_entry(),
{
    let parameters: &'static [ParameterKind] = &[ParameterKind::Register];
    assert(parameters@ =~= return_value_entry().parameters);
    InstructionDef {
        parameters,
        format: "return {0}",
        is_moved_result: false,
        result_type: ResultTypeDef::Nothing,
    }
}

fn names_constant(mnemonic: &str) -> (r: bool)
    ensures
        r == is_constant(mnemonic@),
{
    str_eq(mnemonic, "const/4")
    || str_eq(mnemonic, "const/16")
    || str_eq(mnemonic, "const")
    || str_eq(mnemonic, "const-wide/16")
    || str_eq(mnemonic, "const-wide/32")
    || str_eq(mnemonic, "const-wide")
    || str_eq(mnemonic, "const-string")
    || str_eq(mnemonic, "const-string/jumbo")
}

fn entry_constant() -> (r: InstructionDef)
    ensures
        r@ == constant_entry(),
{
    let parameters: &'static [ParameterKind] = &[ParameterKind::Result, ParameterKind::Literal];
    assert(parameters@ =~= constant_entry().parameters);
    InstructionDef {
        parameters,
        format: "{1}",
        is_moved_result: false,
        result_type: ResultTypeDef::From(1),
    }
}

fn names_constant_high16(mnemonic: &str) -> (r: bool)
    ensures
        r == is_constant_high16(mnemonic@),
{
    str_eq(mnemonic, "const/high16")
}

fn entry_constant_high16() -> (r: InstructionDef)
    ensures
        r@ == constant_high16_entry(),
{
    let parameters: &'static [ParameterKind] = &[ParameterKind::Result, ParameterKind::Literal];
    assert(parameters@ =~= constant_high16_entry().parameters);
    InstructionDef {
        parameters,
        format: "{1} << 16",
        is_moved_result: false,
        result_type: ResultTypeDef::From(1),
    }
}

fn names_constant_wide_high16(mnemonic: &str) -> (r: bool)
    ensures
        r == is_constant_wide_high16(mnemonic@),
{
    str_eq(mnemonic, "const-wide/high16")
}

fn entry_constant_wide_high16() -> (r: InstructionDef)
    ensures
        r@ == constant_wide_high16_entry(),
{
    let parameters: &'static [ParameterKind] = &[ParameterKind::Result, ParameterKind::Literal];
    assert(parameters@ =~= constant_wide_high16_entry().parameters);
    InstructionDef {
        parameters,
        format: "{1} << 48",
        is_moved_result: false,
        result_type: ResultTypeDef::From(1),
    }
}

fn names_constant_class(mnemonic: &str) -> (r: bool)
    ensures
        r == is_constant_class(mnemonic@),
{
    str_eq(mnemonic, "const-class")
}

fn entry_constant_class() -> (r: InstructionDef)
    ensures
        r@ == constant_class_entry(),
{
    let parameters: &'static [ParameterKind] = &[ParameterKind::Result, ParameterKind::Type];
    assert(parameters@ =~= constant_class_entry().parameters);
    InstructionDef {
        parameters,
        format: "class {1}",
        is_moved_result: false,
        result_type: ResultTypeDef::Object("java.lang.Class"),
    }
}

fn names_monitor_enter(mnemonic: &str) -> (r: bool)
    ensures
        r == is_monitor_enter(mnemonic@),
{
    str_eq(mnemonic, "monitor-enter")
}

fn entry_monitor_enter() -> (r: InstructionDef)
    ensures
        r@ == monitor_enter_entry(),
{
    let parameters: &'static [ParameterKind] = &[ParameterKind::Register];
    assert(parameters@ =~= monitor_enter_entry().parameters);
    InstructionDef {
        parameters,
        format: "monitor-enter {0}",
        is_moved_result: false,
        result_type: ResultTypeDef::Nothing,
    }
}

fn names_monitor_exit(mnemonic: &str) -> (r: bool)
    ensures
        r == is_monitor_exit(mnemonic@),
{
    str_eq(mnemonic, "monitor-exit")
}

fn entry_monitor_exit() -> (r: InstructionDef)
    ensures
        r@ == monitor_exit_entry(),
{
    let parameters: &'static [ParameterKind] = &[ParameterKind::Register];
    assert(parameters@ =~= monitor_exit_entry().parameters);
    InstructionDef {
        parameters,
        format: "monitor-exit {0}",
        is_moved_result: false,
        result_type: ResultTypeDef::Nothing,
    }
}

fn names_check_cast(mnemonic: &str) -> (r: bool)
    ensures
        r == is_check_cast(mnemonic@),
{
    str_eq(mnemonic, "check-cast")
}

fn entry_check_cast() -> (r: InstructionDef)
    ensures
        r@ == check_cast_entry(),
{
    let parameters: &'static [ParameterKind] = &[ParameterKind::DefaultEmptyResult, ParameterKind::Register, ParameterKind::Type];
    assert(parameters@ =~= check_cast_entry().parameters);
    InstructionDef {
        parameters,
        format: "({2}) {1}",
        is_moved_result: false,
        result_type: ResultTypeDef::From(2),
    }
}

fn names_instance_of(mnemonic: &str) -> (r: bool)
    ensures
        r == is_instance_of(mnemonic@),
{
    str_eq(mnemonic, "instance-of")
}

fn entry_instance_of() -> (r: InstructionDef)
    ensures
        r@ == instance_of_entry(),
{
    let parameters: &'static [ParameterKind] = &[ParameterKind::Result, ParameterKind::Register, ParameterKind::Type];
    assert(parameters@ =~= instance_of_entry().parameters);
    InstructionDef {
        parameters,
        format: "{1} instance-of {2}",
        is_moved_result: false,
        result_type: ResultTypeDef::From(2),
    }
}

fn names_array_length(mnemonic: &str) -> (r: bool)
    ensures
        r == is_array_length(mnemonic@),
{
    str_eq(mnemonic, "array-length")
}

fn entry_array_length() -> (r: InstructionDef)
    ensures
        r@ == array_length_entry(),
{
    let parameters: &'static [ParameterKind] = &[ParameterKind::Result, ParameterKind::Register];
    assert(parameters@ =~= array_length_entry().parameters);
    InstructionDef {
        parameters,
        format: "array-length {1}",
        is_moved_result: false,
        result_type: ResultTypeDef::Int,
    }
}

fn names_new_instance(mnemonic: &str) -> (r: bool)
    ensures
        r == is_new_instance(mnemonic@),
{
    str_eq(mnemonic, "new-instance")
}

fn entry_new_instance() -> (r: InstructionDef)
    ensures
        r@ == new_instance_entry(),
{
    let parameters: &'static [ParameterKind] = &[ParameterKind::Result, ParameterKind::Type];
    assert(parameters@ =~= new_instance_entry().parameters);
    InstructionDef {
        parameters,
        format: "new {1}",
        is_moved_result: false,
        result_type: ResultTypeDef::From(1),
    }
}

fn names_new_array(mnemonic: &str) -> (r: bool)
    ensures
        r == is_new_array(mnemonic@),
{
    str_eq(mnemonic, "new-array")
}

fn entry_new_array() -> (r: InstructionDef)
    ensures
        r@ == new_array_entry(),
{
    let parameters: &'static [ParameterKind] = &[ParameterKind::Result, ParameterKind::Register, ParameterKind::Type];
    assert(parameters@ =~= new_array_entry().parameters);
    InstructionDef {
        parameters,
        format: "new {2}[{1}]",
        is_moved_result: false,
        result_type: ResultTypeDef::From(2),
    }
}

fn names_filled_new_array(mnemonic: &str) -> (r: bool)
    ensures
        r == is_filled_new_array(mnemonic@),
{
    str_eq(mnemonic, "filled-new-array")
    || str_eq(mnemonic, "filled-new-array/range")
}

fn entry_filled_new_array() -> (r: InstructionDef)
    ensures
        r@ == filled_new_array_entry(),
{
    let parameters: &'static [ParameterKind] = &[ParameterKind::DefaultEmptyResult, ParameterKind::Registers, ParameterKind::Type];
    assert(parameters@ =~= filled_new_array_entry().parameters);
    InstructionDef {
        parameters,
        format: "{{1}}",
        is_moved_result: false,
        result_type: ResultTypeDef::From(2),
    }
}

fn names_fill_array_data(mnemonic: &str) -> (r: bool)
    ensures
        r == is_fill_array_data(mnemonic@),
{
    str_eq(mnemonic, "fill-array-data")
}

fn entry_fill_array_data() -> (r: InstructionDef)
    ensures
        r@ == fill_array_data_entry(),
{
    let parameters: &'static [ParameterKind] = &[ParameterKind::Register, ParameterKind::Data];
    assert(parameters@ =~= fill_array_data_entry().parameters);
    InstructionDef {
        parameters,
        format: "{0} = {\n{1}        }",
        is_moved_result: false,
        result_type: ResultTypeDef::Nothing,
    }
}

fn names_throw(mnemonic: &str) -> (r: bool)
    ensures
        r == is_throw(mnemonic@),
{
    str_eq(mnemonic, "throw")
}

fn entry_throw() -> (r: InstructionDef)
    ensures
        r@ == throw_entry(),
{
    let parameters: &'static [ParameterKind] = &[ParameterKind::Register];
    assert(parameters@ =~= throw_entry().parameters);
    InstructionDef {
        parameters,
        format: "throw {0}",
        is_moved_result: false,
        result_type: ResultTypeDef::Nothing,
    }
}

fn names_goto(mnemonic: &str) -> (r: bool)
    ensures
        r == is_goto(mnemonic@),
{
    str_eq(mnemonic, "goto")
    || str_eq(mnemonic, "goto/16")
    || str_eq(mnemonic, "goto/32")
}

fn entry_goto() -> (r: InstructionDef)
    ensures
        r@ == goto_entry(),
{
    let parameters: &'static [ParameterKind] = &[ParameterKind::Label];
    assert(parameters@ =~= goto_entry().parameters);
    InstructionDef {
        parameters,
        format: "goto {0}",
        is_moved_result: false,
        result_type: ResultTypeDef::Nothing,
    }
}

fn names_switch(mnemonic: &str) -> (r: bool)
    ensures
        r == is_switch(mnemonic@),
{
    str_eq(mnemonic, "packed-switch")
    || str_eq(mnemonic, "sparse-switch")
}

fn entry_switch() -> (r: InstructionDef)
    ensures
        r@ == switch_entry(),
{
    let parameters: &'static [ParameterKind] = &[ParameterKind::Register, ParameterKind::Data];
    assert(parameters@ =~= switch_entry().parameters);
    InstructionDef {
        parameters,
        format: "switch({0})\n        {\n{1}        }",
        is_moved_result: false,
        result_type: ResultTypeDef::Nothing,
    }
}

fn names_compare_less(mnemonic: &str) -> (r: bool)
    ensures
        r == is_compare_less(mnemonic@),
{
    str_eq(mnemonic, "cmpl-float")
    || str_eq(mnemonic, "cmpl-double")
}

fn entry_compare_less() -> (r: InstructionDef)
    ensures
        r@ == compare_less_entry(),
{
    let parameters: &'static [ParameterKind] = &[ParameterKind::Result, ParameterKind::Register, ParameterKind::Register];
    assert(parameters@ =~= compare_less_entry().parameters);
    InstructionDef {
        parameters,
        format: "{1} cmpl {2}",
        is_moved_result: false,
        result_type: ResultTypeDef::Bool,
    }
}

fn names_compare_greater(mnemonic: &str) -> (r: bool)
    ensures
        r == is_compare_greater(mnemonic@),
{
    str_eq(mnemonic, "cmpg-float")
    || str_eq(mnemonic, "cmpg-double")
}

fn entry_compare_greater() -> (r: InstructionDef)
    ensures
        r@ == compare_greater_entry(),
{
    let parameters: &'static [ParameterKind] = &[ParameterKind::Result, ParameterKind::Register, ParameterKind::Register];
    assert(parameters@ =~= compare_greater_entry().parameters);
    InstructionDef {
        parameters,
        format: "{1} cmpg {2}",
        is_moved_result: false,
        result_type: ResultTypeDef::Bool,
    }
}

fn names_compare_long(mnemonic: &str) -> (r: bool)
    ensures
        r == is_compare_long(mnemonic@),
{
    str_eq(mnemonic, "cmp-long")
}

fn entry_compare_long() -> (r: InstructionDef)
    ensures
        r@ == compare_long_entry(),
{
    let parameters: &'static [ParameterKind] = &[ParameterKind::Result, ParameterKind::Register, ParameterKind::Register];
    assert(parameters@ =~= compare_long_entry().parameters);
    InstructionDef {
        parameters,
        format: "{1} cmp {2}",
        is_moved_result: false,
        result_type: ResultTypeDef::Bool,
    }
}

fn names_branch(mnemonic: &str) -> (r: bool)
    ensures
        r == is_branch(mnemonic@),
{
    str_eq(mnemonic, "if-eq")
    || str_eq(mnemonic, "if-ne")
    || str_eq(mnemonic, "if-lt")
    || str_eq(mnemonic, "if-ge")
    || str_eq(mnemonic, "if-gt")
    || str_eq(mnemonic, "if-le")
}

fn entry_branch() -> (r: InstructionDef)
    ensures
        r@ == branch_entry(),
{
    let parameters: &'static [ParameterKind] = &[ParameterKind::Register, ParameterKind::Register, ParameterKind::Label];
    assert(parameters@ =~= branch_entry().parameters);
    InstructionDef {
        parameters,
        format: "if {0} {op} {1} goto {2}",
        is_moved_result: false,
        result_type: ResultTypeDef::Nothing,
    }
}

fn names_branch_zero(mnemonic: &str) -> (r: bool)
    ensures
        r == is_branch_zero(mnemonic@),
{
    str_eq(mnemonic, "if-eqz")
    || str_eq(mnemonic, "if-nez")
    || str_eq(mnemonic, "if-ltz")
    || str_eq(mnemonic, "if-gez")
    || str_eq(mnemonic, "if-gtz")
    || str_eq(mnemonic, "if-lez")
}

fn entry_branch_zero() -> (r: InstructionDef)
    ensures
        r@ == branch_zero_entry(),
{
    let parameters: &'static [ParameterKind] = &[ParameterKind::Register, ParameterKind::Label];
    assert(parameters@ =~= branch_zero_entry().parameters);
    InstructionDef {
        parameters,
        format: "if {0} {op} 0 goto {1}",
        is_moved_result: false,
        result_type: ResultTypeDef::Nothing,
    }
}

fn names_array_get(mnemonic: &str) -> (r: bool)
    ensures
        r == is_array_get(mnemonic@),
{
    str_eq(mnemonic, "aget")
    || str_eq(mnemonic, "aget-wide")
    || str_eq(mnemonic, "aget-object")
    || str_eq(mnemonic, "aget-boolean")
    || str_eq(mnemonic, "aget-byte")
    || str_eq(mnemonic, "aget-char")
    || str_eq(mnemonic, "aget-short")
}

fn entry_array_get() -> (r: InstructionDef)
    ensures
        r@ == array_get_entry(),
{
    let parameters: &'static [ParameterKind] = &[ParameterKind::Result, ParameterKind::Register, ParameterKind::Register];
    assert(parameters@ =~= array_get_entry().parameters);
    InstructionDef {
        parameters,
        format: "{1}[{2}]",
        is_moved_result: false,
        result_type: ResultTypeDef::ElementFrom(1),
    }
}

fn names_array_put(mnemonic: &str) -> (r: bool)
    ensures
        r == is_array_put(mnemonic@),
{
    str_eq(mnemonic, "aput")
    || str_eq(mnemonic, "aput-wide")
    || str_eq(mnemonic, "aput-object")
    || str_eq(mnemonic, "aput-boolean")
    || str_eq(mnemonic, "aput-byte")
    || str_eq(mnemonic, "aput-char")
    || str_eq(mnemonic, "aput-short")
}

fn entry_array_put() -> (r: InstructionDef)
    ensures
        r@ == array_put_entry(),
{
    let parameters: &'static [ParameterKind] = &[ParameterKind::Register, ParameterKind::Register, ParameterKind::Register];
    assert(parameters@ =~= array_put_entry().parameters);
    InstructionDef {
        parameters,
        format: "{1}[{2}] = {0}",
        is_moved_result: false,
        result_type: ResultTypeDef::Nothing,
    }
}

fn names_instance_get(mnemonic: &str) -> (r: bool)
    ensures
        r == is_instance_get(mnemonic@),
{
    str_eq(mnemonic, "iget")
    || str_eq(mnemonic, "iget-wide")
    || str_eq(mnemonic, "iget-object")
    || str_eq(mnemonic, "iget-boolean")
    || str_eq(mnemonic, "iget-byte")
    || str_eq(mnemonic, "iget-char")
    || str_eq(mnemonic, "iget-short")
}

fn entry_instance_get() -> (r: InstructionDef)
    ensures
        r@ == instance_get_entry(),
{
    let parameters: &'static [ParameterKind] = &[ParameterKind::Result, ParameterKind::Register, ParameterKind::Field];
    assert(parameters@ =~= instance_get_entry().parameters);
    InstructionDef {
        parameters,
        format: "{1}.<{2}>",
        is_moved_result: false,
        result_type: ResultTypeDef::From(2),
    }
}

fn names_instance_put(mnemonic: &str) -> (r: bool)
    ensures
        r == is_instance_put(mnemonic@),
{
    str_eq(mnemonic, "iput")
    || str_eq(mnemonic, "iput-wide")
    || str_eq(mnemonic, "iput-object")
    || str_eq(mnemonic, "iput-boolean")
    || str_eq(mnemonic, "iput-byte")
    || str_eq(mnemonic, "iput-char")
    || str_eq(mnemonic, "iput-short")
}

fn entry_instance_put() -> (r: InstructionDef)
    ensures
        r@ == instance_put_entry(),
{
    let parameters: &'static [ParameterKind] = &[ParameterKind::Register, ParameterKind::Register, ParameterKind::Field];
    assert(parameters@ =~= instance_put_entry().parameters);
    InstructionDef {
        parameters,
        format: "{1}.<{2}> = {0}",
        is_moved_result: false,
        result_type: ResultTypeDef::Nothing,
    }
}

fn names_static_get(mnemonic: &str) -> (r: bool)
    ensures
        r == is_static_get(mnemonic@),
{
    str_eq(mnemonic, "sget")
    || str_eq(mnemonic, "sget-wide")
    || str_eq(mnemonic, "sget-object")
    || str_eq(mnemonic, "sget-boolean")
    || str_eq(mnemonic, "sget-byte")
    || str_eq(mnemonic, "sget-char")
    || str_eq(mnemonic, "sget-short")
}

fn entry_static_get() -> (r: InstructionDef)
    ensures
        r@ == static_get_entry(),
{
    let parameters: &'static [ParameterKind] = &[ParameterKind::Result, ParameterKind::Field];
    assert(parameters@ =~= static_get_entry().parameters);
    InstructionDef {
        parameters,
        format: "<{1}>",
        is_moved_result: false,
        result_type: ResultTypeDef::From(1),
    }
}

fn names_static_put(mnemonic: &str) -> (r: bool)
    ensures
        r == is_static_put(mnemonic@),
{
    str_eq(mnemonic, "sput")
    || str_eq(mnemonic, "sput-wide")
    || str_eq(mnemonic, "sput-object")
    || str_eq(mnemonic, "sput-boolean")
    || str_eq(mnemonic, "sput-byte")
    || str_eq(mnemonic, "sput-char")
    || str_eq(mnemonic, "sput-short")
}

fn entry_static_put() -> (r: InstructionDef)
    ensures
        r@ == static_put_entry(),
{
    let parameters: &'static [ParameterKind] = &[ParameterKind::Register, ParameterKind::Field];
    assert(parameters@ =~= static_put_entry().parameters);
    InstructionDef {
        parameters,
        format: "<{1}> = {0}",
        is_moved_result: false,
        result_type: ResultTypeDef::Nothing,
    }
}

fn names_invoke_virtual(mnemonic: &str) -> (r: bool)
    ensures
        r == is_invoke_virtual(mnemonic@),
{
    str_eq(mnemonic, "invoke-virtual")
    || str_eq(mnemonic, "invoke-virtual/range")
}

fn entry_invoke_virtual() -> (r: InstructionDef)
    ensures
        r@ == invoke_virtual_entry(),
{
    let parameters: &'static [ParameterKind] = &[ParameterKind::DefaultEmptyResult, ParameterKind::Registers, ParameterKind::Method];
    assert(parameters@ =~= invoke_virtual_entry().parameters);
    InstructionDef {
        parameters,
        format: "invoke-virtual {1.this}.<{2}>({1.args})",
        is_moved_result: false,
        result_type: ResultTypeDef::ReturnOf(2),
    }
}

fn names_invoke_super(mnemonic: &str) -> (r: bool)
    ensures
        r == is_invoke_super(mnemonic@),
{
    str_eq(mnemonic, "invoke-super")
    || str_eq(mnemonic, "invoke-super/range")
}

fn entry_invoke_super() -> (r: InstructionDef)
    ensures
        r@ == invoke_super_entry(),
{
    let parameters: &'static [ParameterKind] = &[ParameterKind::DefaultEmptyResult, ParameterKind::Registers, ParameterKind::Method];
    assert(parameters@ =~= invoke_super_entry().parameters);
    InstructionDef {
        parameters,
        format: "invoke-super {1.this}.<{2}>({1.args})",
        is_moved_result: false,
        result_type: ResultTypeDef::ReturnOf(2),
    }
}

fn names_invoke_direct(mnemonic: &str) -> (r: bool)
    ensures
        r == is_invoke_direct(mnemonic@),
{
    str_eq(mnemonic, "invoke-direct")
    || str_eq(mnemonic, "invoke-direct/range")
}

fn entry_invoke_direct() -> (r: InstructionDef)
    ensures
        r@ == invoke_direct_entry(),
{
    let parameters: &'static [ParameterKind] = &[ParameterKind::DefaultEmptyResult, ParameterKind::Registers, ParameterKind::Method];
    assert(parameters@ =~= invoke_direct_entry().parameters);
    InstructionDef {
        parameters,
        format: "invoke-direct {1.this}.<{2}>({1.args})",
        is_moved_result: false,
        result_type: ResultTypeDef::ReturnOf(2),
    }
}

fn names_invoke_static(mnemonic: &str) -> (r: bool)
    ensures
        r == is_invoke_static(mnemonic@),
{
    str_eq(mnemonic, "invoke-static")
    || str_eq(mnemonic, "invoke-static/range")
}

fn entry_invoke_static() -> (r: InstructionDef)
    ensures
        r@ == invoke_static_entry(),
{
    let parameters: &'static [ParameterKind] = &[ParameterKind::DefaultEmptyResult, ParameterKind::Registers, ParameterKind::Method];
    assert(parameters@ =~= invoke_static_entry().parameters);
    InstructionDef {
        parameters,
        format: "invoke-static <{2}>({1})",
        is_moved_result: false,
        result_type: ResultTypeDef::ReturnOf(2),
    }
}

fn names_invoke_interface(mnemonic: &str) -> (r: bool)
    ensures
        r == is_invoke_interface(mnemonic@),
{
    str_eq(mnemonic, "invoke-interface")
    || str_eq(mnemonic, "invoke-interface/range")
}

fn entry_invoke_interface() -> (r: InstructionDef)
    ensures
        r@ == invoke_interface_entry(),
{
    let parameters: &'static [ParameterKind] = &[ParameterKind::DefaultEmptyResult, ParameterKind::Registers, ParameterKind::Method];
    assert(parameters@ =~= invoke_interface_entry().parameters);
    InstructionDef {
        parameters,
        format: "invoke-interface {1.this}.<{2}>({1.args})",
        is_moved_result: false,
        result_type: ResultTypeDef::ReturnOf(2),
    }
}

fn names_unary(mnemonic: &str) -> (r: bool)
    ensures
        r == is_unary(mnemonic@),
{
    str_eq(mnemonic, "neg-int")
    || str_eq(mnemonic, "not-int")
    || str_eq(mnemonic, "neg-long")
    || str_eq(mnemonic, "not-long")
    || str_eq(mnemonic, "neg-float")
    || str_eq(mnemonic, "neg-double")
}

fn entry_unary() -> (r: InstructionDef)
    ensures
        r@ == unary_entry(),
{
    let parameters: &'static [ParameterKind] = &[ParameterKind::Result, ParameterKind::Register];
    assert(parameters@ =~= unary_entry().parameters);
    InstructionDef {
        parameters,
        format: "{op}{1}",
        is_moved_result: false,
        result_type: ResultTypeDef::From(1),
    }
}

fn names_to_long(mnemonic: &str) -> (r: bool)
    ensures
        r == is_to_long(mnemonic@),
{
    str_eq(mnemonic, "int-to-long")
    || str_eq(mnemonic, "float-to-long")
    || str_eq(mnemonic, "double-to-long")
}

fn entry_to_long() -> (r: InstructionDef)
    ensures
        r@ == to_long_entry(),
{
    let parameters: &'static [ParameterKind] = &[ParameterKind::Result, ParameterKind::Register];
    assert(parameters@ =~= to_long_entry().parameters);
    InstructionDef {
        parameters,
        format: "{op}{1}",
        is_moved_result: false,
        result_type: ResultTypeDef::Long,
    }
}

fn names_to_float(mnemonic: &str) -> (r: bool)
    ensures
        r == is_to_float(mnemonic@),
{
    str_eq(mnemonic, "int-to-float")
    || str_eq(mnemonic, "long-to-float")
    || str_eq(mnemonic, "double-to-float")
}

fn entry_to_float() -> (r: InstructionDef)
    ensures
        r@ == to_float_entry(),
{
    let parameters: &'static [ParameterKind] = &[ParameterKind::Result, ParameterKind::Register];
    assert(parameters@ =~= to_float_entry().parameters);
    InstructionDef {
        parameters,
        format: "{op}{1}",
        is_moved_result: false,
        result_type: ResultTypeDef::Float,
    }
}

fn names_to_double(mnemonic: &str) -> (r: bool)
    ensures
        r == is_to_double(mnemonic@),
{
    str_eq(mnemonic, "int-to-double")
    || str_eq(mnemonic, "long-to-double")
    || str_eq(mnemonic, "float-to-double")
}

fn entry_to_double() -> (r: InstructionDef)
    ensures
        r@ == to_double_entry(),
{
    let parameters: &'static [ParameterKind] = &[ParameterKind::Result, ParameterKind::Register];
    assert(parameters@ =~= to_double_entry().parameters);
    InstructionDef {
        parameters,
        format: "{op}{1}",
        is_moved_result: false,
        result_type: ResultTypeDef::Double,
    }
}

fn names_to_int(mnemonic: &str) -> (r: bool)
    ensures
        r == is_to_int(mnemonic@),
{
    str_eq(mnemonic, "long-to-int")
    || str_eq(mnemonic, "float-to-int")
    || str_eq(mnemonic, "double-to-int")
}

fn entry_to_int() -> (r: InstructionDef)
    ensures
        r@ == to_int_entry(),
{
    let parameters: &'static [ParameterKind] = &[ParameterKind::Result, ParameterKind::Register];
    assert(parameters@ =~= to_int_entry().parameters);
    InstructionDef {
        parameters,
        format: "{op}{1}",
        is_moved_result: false,
        result_type: ResultTypeDef::Int,
    }
}

fn names_to_byte(mnemonic: &str) -> (r: bool)
    ensures
        r == is_to_byte(mnemonic@),
{
    str_eq(mnemonic, "int-to-byte")
}

fn entry_to_byte() -> (r: InstructionDef)
    ensures
        r@ == to_byte_entry(),
{
    let parameters: &'static [ParameterKind] = &[ParameterKind::Result, ParameterKind::Register];
    assert(parameters@ =~= to_byte_entry().parameters);
    InstructionDef {
        parameters,
        format: "{op}{1}",
        is_moved_result: false,
        result_type: ResultTypeDef::Byte,
    }
}

fn names_to_char(mnemonic: &str) -> (r: bool)
    ensures
        r == is_to_char(mnemonic@),
{
    str_eq(mnemonic, "int-to-char")
}

fn entry_to_char() -> (r: InstructionDef)
    ensures
        r@ == to_char_entry(),
{
    let parameters: &'static [ParameterKind] = &[ParameterKind::Result, ParameterKind::Register];
    assert(parameters@ =~= to_char_entry().parameters);
    InstructionDef {
        parameters,
        format: "{op}{1}",
        is_moved_result: false,
        result_type: ResultTypeDef::Char,
    }
}

fn names_to_short(mnemonic: &str) -> (r: bool)
    ensures
        r == is_to_short(mnemonic@),
{
    str_eq(mnemonic, "int-to-short")
}

fn entry_to_short() -> (r: InstructionDef)
    ensures
        r@ == to_short_entry(),
{
    let parameters: &'static [ParameterKind] = &[ParameterKind::Result, ParameterKind::Register];
    assert(parameters@ =~= to_short_entry().parameters);
    InstructionDef {
        parameters,
        format: "{op}{1}",
        is_moved_result: false,
        result_type: ResultTypeDef::Short,
    }
}

fn names_binary(mnemonic: &str) -> (r: bool)
    ensures
        r == is_binary(mnemonic@),
{
    str_eq(mnemonic, "add-int")
    || str_eq(mnemonic, "sub-int")
    || str_eq(mnemonic, "mul-int")
    || str_eq(mnemonic, "div-int")
    || str_eq(mnemonic, "rem-int")
    || str_eq(mnemonic, "and-int")
    || str_eq(mnemonic, "or-int")
    || str_eq(mnemonic, "xor-int")
    || str_eq(mnemonic, "shl-int")
    || str_eq(mnemonic, "shr-int")
    || str_eq(mnemonic, "ushr-int")
    || str_eq(mnemonic, "add-long")
    || str_eq(mnemonic, "sub-long")
    || str_eq(mnemonic, "mul-long")
    || str_eq(mnemonic, "div-long")
    || str_eq(mnemonic, "rem-long")
    || str_eq(mnemonic, "and-long")
    || str_eq(mnemonic, "or-long")
    || str_eq(mnemonic, "xor-long")
    || str_eq(mnemonic, "shl-long")
    || str_eq(mnemonic, "shr-long")
    || str_eq(mnemonic, "ushr-long")
    || str_eq(mnemonic, "add-float")
    || str_eq(mnemonic, "sub-float")
    || str_eq(mnemonic, "mul-float")
    || str_eq(mnemonic, "div-float")
    || str_eq(mnemonic, "rem-float")
    || str_eq(mnemonic, "add-double")
    || str_eq(mnemonic, "sub-double")
    || str_eq(mnemonic, "mul-double")
    || str_eq(mnemonic, "div-double")
    || str_eq(mnemonic, "rem-double")
}

fn entry_binary() -> (r: InstructionDef)
    ensures
        r@ == binary_entry(),
{
    let parameters: &'static [ParameterKind] = &[ParameterKind::Result, ParameterKind::Register, ParameterKind::Register];
    assert(parameters@ =~= binary_entry().parameters);
    InstructionDef {
        parameters,
        format: "{1} {op} {2}",
        is_moved_result: false,
        result_type: ResultTypeDef::From(1),
    }
}

fn names_binary_in_place(mnemonic: &str) -> (r: bool)
    ensures
        r == is_binary_in_place(mnemonic@),
{
    str_eq(mnemonic, "add-int/2addr")
    || str_eq(mnemonic, "sub-int/2addr")
    || str_eq(mnemonic, "mul-int/2addr")
    || str_eq(mnemonic, "div-int/2addr")
    || str_eq(mnemonic, "rem-int/2addr")
    || str_eq(mnemonic, "and-int/2addr")
    || str_eq(mnemonic, "or-int/2addr")
    || str_eq(mnemonic, "xor-int/2addr")
    || str_eq(mnemonic, "shl-int/2addr")
    || str_eq(mnemonic, "shr-int/2addr")
    || str_eq(mnemonic, "ushr-int/2addr")
    || str_eq(mnemonic, "add-long/2addr")
    || str_eq(mnemonic, "sub-long/2addr")
    || str_eq(mnemonic, "mul-long/2addr")
    || str_eq(mnemonic, "div-long/2addr")
    || str_eq(mnemonic, "rem-long/2addr")
    || str_eq(mnemonic, "and-long/2addr")
    || str_eq(mnemonic, "or-long/2addr")
    || str_eq(mnemonic, "xor-long/2addr")
    || str_eq(mnemonic, "shl-long/2addr")
    || str_eq(mnemonic, "shr-long/2addr")
    || str_eq(mnemonic, "ushr-long/2addr")
    || str_eq(mnemonic, "add-float/2addr")
    || str_eq(mnemonic, "sub-float/2addr")
    || str_eq(mnemonic, "mul-float/2addr")
    || str_eq(mnemonic, "div-float/2addr")
    || str_eq(mnemonic, "rem-float/2addr")
    || str_eq(mnemonic, "add-double/2addr")
    || str_eq(mnemonic, "sub-double/2addr")
    || str_eq(mnemonic, "mul-double/2addr")
    || str_eq(mnemonic, "div-double/2addr")
    || str_eq(mnemonic, "rem-double/2addr")
}

fn entry_binary_in_place() -> (r: InstructionDef)
    ensures
        r@ == binary_in_place_entry(),
{
    let parameters: &'static [ParameterKind] = &[ParameterKind::Register, ParameterKind::Register];
    assert(parameters@ =~= binary_in_place_entry().parameters);
    InstructionDef {
        parameters,
        format: "{0} {op}= {1}",
        is_moved_result: false,
        result_type: ResultTypeDef::Nothing,
    }
}

fn names_binary_literal(mnemonic: &str) -> (r: bool)
    ensures
        r == is_binary_literal(mnemonic@),
{
    str_eq(mnemonic, "add-int/lit16")
    || str_eq(mnemonic, "mul-int/lit16")
    || str_eq(mnemonic, "div-int/lit16")
    || str_eq(mnemonic, "rem-int/lit16")
    || str_eq(mnemonic, "and-int/lit16")
    || str_eq(mnemonic, "or-int/lit16")
    || str_eq(mnemonic, "xor-int/lit16")
    || str_eq(mnemonic, "add-int/lit8")
    || str_eq(mnemonic, "mul-int/lit8")
    || str_eq(mnemonic, "div-int/lit8")
    || str_eq(mnemonic, "rem-int/lit8")
    || str_eq(mnemonic, "and-int/lit8")
    || str_eq(mnemonic, "or-int/lit8")
    || str_eq(mnemonic, "xor-int/lit8")
    || str_eq(mnemonic, "shl-int/lit8")
    || str_eq(mnemonic, "shr-int/lit8")
    || str_eq(mnemonic, "ushr-int/lit8")
}

fn entry_binary_literal() -> (r: InstructionDef)
    ensures
        r@ == binary_literal_entry(),
{
    let parameters: &'static [ParameterKind] = &[ParameterKind::Result, ParameterKind::Register, ParameterKind::Literal];
    assert(parameters@ =~= binary_literal_entry().parameters);
    InstructionDef {
        parameters,
        format: "{1} {op} {2}",
        is_moved_result: false,
        result_type: ResultTypeDef::From(1),
    }
}

fn names_reverse_subtract(mnemonic: &str) -> (r: bool)
    ensures
        r == is_reverse_subtract(mnemonic@),
{
    str_eq(mnemonic, "rsub-int")
    || str_eq(mnemonic, "rsub-int/lit8")
}

fn entry_reverse_subtract() -> (r: InstructionDef)
    ensures
        r@ == reverse_subtract_entry(),
{
    let parameters: &'static [ParameterKind] = &[ParameterKind::Result, ParameterKind::Register, ParameterKind::Literal];
    assert(parameters@ =~= reverse_subtract_entry().parameters);
    InstructionDef {
        parameters,
        format: "{2} {op} {1}",
        is_moved_result: false,
        result_type: ResultTypeDef::From(1),
    }
}

fn names_invoke_polymorphic(mnemonic: &str) -> (r: bool)
    ensures
        r == is_invoke_polymorphic(mnemonic@),
{
    str_eq(mnemonic, "invoke-polymorphic")
    || str_eq(mnemonic, "invoke-polymorphic/range")
}

fn entry_invoke_polymorphic() -> (r: InstructionDef)
    ensures
        r@ == invoke_polymorphic_entry(),
{
    let parameters: &'static [ParameterKind] = &[ParameterKind::DefaultEmptyResult, ParameterKind::Registers, ParameterKind::Method, ParameterKind::Call];
    assert(parameters@ =~= invoke_polymorphic_entry().parameters);
    InstructionDef {
        parameters,
        format: "invoke-polymorphic {1.this}.<{2}>({1.args}), <{3}>",
        is_moved_result: false,
        result_type: ResultTypeDef::ReturnOf(2),
    }
}

fn names_constant_method_handle(mnemonic: &str) -> (r: bool)
    ensures
        r == is_constant_method_handle(mnemonic@),
{
    str_eq(mnemonic, "const-method-handle")
}

fn entry_constant_method_handle() -> (r: InstructionDef)
    ensures
        r@ == constant_method_handle_entry(),
{
    let parameters: &'static [ParameterKind] = &[ParameterKind::Result, ParameterKind::MethodHandle];
    assert(parameters@ =~= constant_method_handle_entry().parameters);
    InstructionDef {
        parameters,
        format: "{1}",
        is_moved_result: false,
        result_type: ResultTypeDef::From(1),
    }
}

fn names_constant_method_type(mnemonic: &str) -> (r: bool)
    ensures
        r == is_constant_method_type(mnemonic@),
{
    str_eq(mnemonic, "const-method-type")
}

fn entry_constant_method_type() -> (r: InstructionDef)
    ensures
        r@ == constant_method_type_entry(),
{
    let parameters: &'static [ParameterKind] = &[ParameterKind::Result, ParameterKind::Call];
    assert(parameters@ =~= constant_method_type_entry().parameters);
    InstructionDef {
        parameters,
        format: "{1}",
        is_moved_result: false,
        result_type: ResultTypeDef::From(1),
    }
}

/// Looks a mnemonic, in lower case, up in the opcode table.
pub fn instruction_def(mnemonic: &str) -> (r: Option<InstructionDef>)
    ensures
        match r {
            Some(def) => definition(mnemonic@) == Some(def@),
            None => definition(mnemonic@) is None,
        },
{
    reveal(definition);
    if names_nop(mnemonic) {
        Some(entry_nop())
    } else if names_move(mnemonic) {
        Some(entry_move())
    } else if names_move_result(mnemonic) {
        Some(entry_move_result())
    } else if names_move_result_wide(mnemonic) {
        Some(entry_move_result_wide())
    } else if names_move_result_object(mnemonic) {
        Some(entry_move_result_object())
    } else if names_move_exception(mnemonic) {
        Some(entry_move_exception())
    } else if names_return_void(mnemonic) {
        Some(entry_return_void())
    } else if names_return_value(mnemonic) {
        Some(entry_return_value())
    } else if names_constant(mnemonic) {
        Some(entry_constant())
    } else if names_constant_high16(mnemonic) {
        Some(entry_constant_high16())
    } else if names_constant_wide_high16(mnemonic) {
        Some(entry_constant_wide_high16())
    } else if names_constant_class(mnemonic) {
        Some(entry_constant_class())
    } else if names_monitor_enter(mnemonic) {
        Some(entry_monitor_enter())
    } else if names_monitor_exit(mnemonic) {
        Some(entry_monitor_exit())
    } else if names_check_cast(mnemonic) {
        Some(entry_check_cast())
    } else if names_instance_of(mnemonic) {
        Some(entry_instance_of())
    } else if names_array_length(mnemonic) {
        Some(entry_array_length())
    } else if names_new_instance(mnemonic) {
        Some(entry_new_instance())
    } else if names_new_array(mnemonic) {
        Some(entry_new_array())
    } else if names_filled_new_array(mnemonic) {
        Some(entry_filled_new_array())
    } else if names_fill_array_data(mnemonic) {
        Some(entry_fill_array_data())
    } else if names_throw(mnemonic) {
        Some(entry_throw())
    } else if names_goto(mnemonic) {
        Some(entry_goto())
    } else if names_switch(mnemonic) {
        Some(entry_switch())
    } else if names_compare_less(mnemonic) {
        Some(entry_compare_less())
    } else if names_compare_greater(mnemonic) {
        Some(entry_compare_greater())
    } else if names_compare_long(mnemonic) {
        Some(entry_compare_long())
    } else if names_branch(mnemonic) {
        Some(entry_branch())
    } else if names_branch_zero(mnemonic) {
        Some(entry_branch_zero())
    } else if names_array_get(mnemonic) {
        Some(entry_array_get())
    } else if names_array_put(mnemonic) {
        Some(entry_array_put())
    } else if names_instance_get(mnemonic) {
        Some(entry_instance_get())
    } else if names_instance_put(mnemonic) {
        Some(entry_instance_put())
    } else if names_static_get(mnemonic) {
        Some(entry_static_get())
    } else if names_static_put(mnemonic) {
        Some(entry_static_put())
    } else if names_invoke_virtual(mnemonic) {
        Some(entry_invoke_virtual())
    } else if names_invoke_super(mnemonic) {
        Some(entry_invoke_super())
    } else if names_invoke_direct(mnemonic) {
        Some(entry_invoke_direct())
    } else if names_invoke_static(mnemonic) {
        Some(entry_invoke_static())
    } else if names_invoke_interface(mnemonic) {
        Some(entry_invoke_interface())
    } else if names_unary(mnemonic) {
        Some(entry_unary())
    } else if names_to_long(mnemonic) {
        Some(entry_to_long())
    } else if names_to_float(mnemonic) {
        Some(entry_to_float())
    } else if names_to_double(mnemonic) {
        Some(entry_to_double())
    } else if names_to_int(mnemonic) {
        Some(entry_to_int())
    } else if names_to_byte(mnemonic) {
        Some(entry_to_byte())
    } else if names_to_char(mnemonic) {
        Some(entry_to_char())
    } else if names_to_short(mnemonic) {
        Some(entry_to_short())
    } else if names_binary(mnemonic) {
        Some(entry_binary())
    } else if names_binary_in_place(mnemonic) {
        Some(entry_binary_in_place())
    } else if names_binary_literal(mnemonic) {
        Some(entry_binary_literal())
    } else if names_reverse_subtract(mnemonic) {
        Some(entry_reverse_subtract())
    } else if names_invoke_polymorphic(mnemonic) {
        Some(entry_invoke_polymorphic())
    } else if names_constant_method_handle(mnemonic) {
        Some(entry_constant_method_handle())
    } else if names_constant_method_type(mnemonic) {
        Some(entry_constant_method_type())
    } else {
        None
    }
}

} // verus!
