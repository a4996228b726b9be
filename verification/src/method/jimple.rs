//! The declaration and body of a method in the output.

use vstd::prelude::*;
use vstd::string::*;
use crate::access_flag::AccessFlag;
use crate::annotation::{annotations_jimple, write_annotations, Annotation};
use crate::instruction::{Instruction, InstructionView};
use crate::text::{decimal_text, push_decimal};
use crate::warning::{Warning, WarningView};
use super::{Method, MethodParameter, MethodParameterView, MethodView};

verus! {

broadcast use vstd::string::group_string_axioms;

/// The first `n` parameters of a declaration: each with its annotations in
/// front of its type and the name `@p` with its position, commas between
/// them.
pub open spec fn parameters_jimple(parameters: Seq<MethodParameterView>, n: int) -> Seq<char>
    decreases n,
{
    if n <= 0 {
        Seq::empty()
    } else {
        parameters_jimple(parameters, n - 1) + (if n > 1 {
            ", "@
        } else {
            Seq::empty()
        }) + annotations_jimple(
            parameters[n - 1].annotations,
            -1,
            " "@,
            parameters[n - 1].annotations.len() as int,
        ) + parameters[n - 1].parameter_type.name() + " @p"@ + decimal_text((n - 1) as nat)
    }
}

/// Whether an empty line stands in front of instruction `at`: it does
/// between a command and what is no command.
pub open spec fn set_apart(instructions: Seq<InstructionView>, at: int) -> bool {
    at > 0 && instructions[at - 1].is_command() && !instructions[at].is_command()
}

/// The first `n` instructions of a body as the output writes them.
pub open spec fn body_jimple(instructions: Seq<InstructionView>, n: int) -> Seq<char>
    decreases n,
{
    if n <= 0 {
        Seq::empty()
    } else {
        body_jimple(instructions, n - 1) + (if set_apart(instructions, n - 1) {
            "\n"@
        } else {
            Seq::empty()
        }) + instructions[n - 1].jimple()
    }
}

/// What writing the first `n` instructions of a body warns of.
pub open spec fn body_warnings(instructions: Seq<InstructionView>, n: int) -> Seq<WarningView>
    decreases n,
{
    if n <= 0 {
        Seq::empty()
    } else {
        body_warnings(instructions, n - 1) + instructions[n - 1].jimple_warnings()
    }
}

impl MethodView {
    /// The method as the output writes it: its annotations, its declaration,
    /// and its instructions between braces.
    #[verifier::opaque]
    pub open spec fn jimple(self) -> Seq<char> {
        annotations_jimple(self.annotations, 1, Seq::empty(), self.annotations.len() as int)
            + "    "@ + AccessFlag::modifiers(self.visibility, self.visibility.len() as int)
            + self.return_type.name() + " "@ + self.name + "("@ + parameters_jimple(
            self.parameters,
            self.parameters.len() as int,
        ) + ")\n"@ + "    {\n"@ + body_jimple(self.instructions, self.instructions.len() as int)
            + "    }\n"@
    }

    /// What writing the method warns of.
    pub open spec fn jimple_warnings(self) -> Seq<WarningView> {
        body_warnings(self.instructions, self.instructions.len() as int)
    }
}

fn write_parameters(parameters: &Vec<MethodParameter>, output: &mut String)
    ensures
        final(output)@ == old(output)@ + parameters_jimple(
            parameters.deep_view(),
            parameters@.len() as int,
        ),
{
    let ghost before = output@;
    let ghost views = parameters.deep_view();
    let mut i: usize = 0;
    assert(before + parameters_jimple(views, 0) =~= before);
    while i < parameters.len()
        invariant
            i <= parameters@.len(),
            views == parameters.deep_view(),
            output@ == before + parameters_jimple(views, i as int),
        decreases parameters@.len() - i,
    {
        let ghost so_far = output@;
        assert(views[i as int] == parameters@[i as int]@);
        if i > 0 {
            output.append(", ");
        } else {
            assert(so_far + Seq::<char>::empty() =~= so_far);
        }
        write_annotations(&parameters[i].annotations, output, -1, " ");
        output.append(parameters[i].parameter_type.get_name().as_str());
        output.append(" @p");
        push_decimal(output, i as u128);
        i += 1;
        assert(output@ =~= before + parameters_jimple(views, i as int));
    }
}

fn write_body(instructions: &Vec<Instruction>, output: &mut String, warnings: &mut Vec<Warning>)
    ensures
        final(output)@ == old(output)@ + body_jimple(
            instructions.deep_view(),
            instructions@.len() as int,
        ),
        final(warnings).deep_view() == old(warnings).deep_view() + body_warnings(
            instructions.deep_view(),
            instructions@.len() as int,
        ),
{
    let ghost before = output@;
    let ghost warned = warnings.deep_view();
    let ghost views = instructions.deep_view();
    let mut had_delimiter = true;
    let mut i: usize = 0;
    assert(before + body_jimple(views, 0) =~= before);
    assert(warned + body_warnings(views, 0) =~= warned);
    while i < instructions.len()
        invariant
            i <= instructions@.len(),
            views == instructions.deep_view(),
            had_delimiter == (i == 0 || !views[i - 1].is_command()),
            output@ == before + body_jimple(views, i as int),
            warnings.deep_view() == warned + body_warnings(views, i as int),
        decreases instructions@.len() - i,
    {
        let ghost so_far = output@;
        assert(views[i as int] == instructions@[i as int]@);
        if instructions[i].is_command() {
            had_delimiter = false;
            assert(so_far + Seq::<char>::empty() =~= so_far);
        } else if !had_delimiter {
            output.append("\n");
            had_delimiter = true;
        } else {
            assert(so_far + Seq::<char>::empty() =~= so_far);
        }
        instructions[i].write_jimple(output, warnings);
        i += 1;
        assert(output@ =~= before + body_jimple(views, i as int));
        assert(warnings.deep_view() =~= warned + body_warnings(views, i as int));
    }
}

impl Method {
    /// Appends the method to `output`, and to `warnings` what writing its
    /// instructions warns of.
    pub fn write_jimple(&self, output: &mut String, warnings: &mut Vec<Warning>)
        ensures
            final(output)@ == old(output)@ + self@.jimple(),
            final(warnings).deep_view() == old(warnings).deep_view() + self@.jimple_warnings(),
    {
        let ghost before = output@;
        reveal(MethodView::jimple);
        write_annotations(&self.annotations, output, 1, "");
        proof {
            reveal_strlit("");
            assert(""@ =~= Seq::<char>::empty());
        }
        output.append("    ");
        AccessFlag::write_jimple_list(output, self.visibility.as_slice());
        output.append(self.return_type.get_name().as_str());
        output.append(" ");
        output.append(self.name.as_str());
        output.append("(");
        write_parameters(&self.parameters, output);
        output.append(")\n");
        output.append("    {\n");
        write_body(&self.instructions, output, warnings);
        output.append("    }\n");
        assert(output@ =~= before + self@.jimple());
    }
}

} // verus!
