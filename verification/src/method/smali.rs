//! The declaration and body of a method in the input.

use vstd::prelude::*;
use vstd::string::*;
use crate::access_flag::AccessFlag;
use crate::annotation::{read_annotation, Annotation, AnnotationView};
use crate::error::{ParseError, ParseErrorView};
use crate::field::{annotation_blocks, read_annotation_blocks};
use crate::instruction::smali::block_end;
use crate::instruction::{Instruction, InstructionView};
use crate::tokenizer::{
    lemma_prepend_empty, lemma_repeat_done, lemma_repeat_fail, lemma_repeat_step, moved, parsed,
    prepend, repeat, Cursor, Moved, Parsed, Tokenizer,
};
use crate::types::{at_closing_parenthesis, Type, TypeView};
use super::{Method, MethodParameter, MethodParameterView, MethodView};

verus! {

broadcast use vstd::string::group_string_axioms;

/// What the body of a method has gathered: the annotations of its
/// parameters, its own annotations, and its instructions.
pub struct MethodBody {
    pub parameters: Seq<MethodParameterView>,
    pub annotations: Seq<AnnotationView>,
    pub instructions: Seq<InstructionView>,
}

/// A parameter type of a declaration, as yet without annotations.
pub open spec fn bare_parameter(input: Cursor) -> Parsed<MethodParameterView> {
    match TypeView::read(input) {
        Ok((end, parameter_type)) => Ok(
            (end, MethodParameterView { parameter_type, annotations: Seq::empty() }),
        ),
        Err(e) => Err(e),
    }
}

pub open spec fn one_bare_parameter() -> spec_fn(Cursor) -> Parsed<MethodParameterView> {
    |input: Cursor| bare_parameter(input)
}

/// Walks the parameters from `from` on while registers are left to skip:
/// the parameter reached and the registers left over.
pub open spec fn parameter_slot(parameters: Seq<MethodParameterView>, index: int, from: int) -> (
    int,
    int,
)
    decreases parameters.len() - from,
{
    if 0 <= from < parameters.len() && index > 0 {
        parameter_slot(
            parameters,
            index - parameters[from].parameter_type.register_count(),
            from + 1,
        )
    } else {
        (from, index)
    }
}

/// The parameter that the register `p<register>` holds. In a method that is
/// not static the first registers hold the receiver. A register in the
/// middle of a wide parameter, or behind the last parameter, holds none.
pub open spec fn annotated_parameter(
    parameters: Seq<MethodParameterView>,
    is_static: bool,
    return_type: TypeView,
    register: int,
) -> Option<int> {
    let index = if is_static {
        register
    } else {
        register - return_type.register_count()
    };
    let (slot, left) = parameter_slot(parameters, index, 0);
    if left < 0 || slot >= parameters.len() {
        None
    } else {
        Some(slot)
    }
}

/// `body` with more annotations on one of its parameters.
pub open spec fn with_parameter_annotations(
    body: MethodBody,
    slot: int,
    annotations: Seq<AnnotationView>,
) -> MethodBody {
    MethodBody {
        parameters: body.parameters.update(
            slot,
            MethodParameterView {
                parameter_type: body.parameters[slot].parameter_type,
                annotations: body.parameters[slot].annotations + annotations,
            },
        ),
        annotations: body.annotations,
        instructions: body.instructions,
    }
}

/// What follows `.param`: the register of a parameter, the rest of the line,
/// which is not interpreted, the annotations of the parameter, and
/// `.end param`.
pub open spec fn read_param(input: Cursor, body: MethodBody, is_static: bool, return_type: TypeView) -> Parsed<
    MethodBody,
> {
    match input.expect_char('p') {
        Ok(next) => match next.read_number() {
            Ok((next, register)) => match annotated_parameter(
                body.parameters,
                is_static,
                return_type,
                register as int,
            ) {
                Some(slot) => match next.read_to(seq!['\n']).0.expect_eol() {
                    Ok(next) => match annotation_blocks(next) {
                        Ok((next, annotations)) => match block_end(next, "param"@) {
                            Ok(next) => match next.expect_eol() {
                                Ok(end) => Ok(
                                    (end, with_parameter_annotations(body, slot, annotations)),
                                ),
                                Err(e) => Err(e),
                            },
                            Err(e) => Err(e),
                        },
                        Err(e) => Err(e),
                    },
                    Err(e) => Err(e),
                },
                None => Err(input.unexpected("a valid parameter number"@)),
            },
            Err(e) => Err(e),
        },
        Err(e) => Err(e),
    }
}

/// What follows `.locals`: a number, which is not kept.
pub open spec fn read_locals(input: Cursor) -> Moved {
    match input.read_number() {
        Ok((next, _)) => next.expect_eol(),
        Err(e) => Err(e),
    }
}

/// One member of a method body: an annotation, the number of locals, the
/// annotations of a parameter, or an instruction.
#[verifier::opaque]
pub open spec fn read_member(input: Cursor, body: MethodBody, is_static: bool, return_type: TypeView) -> Parsed<
    MethodBody,
> {
    match input.expect_directive("annotation"@) {
        Ok(next) => match read_annotation(next, false) {
            Ok((end, annotation)) => Ok(
                (
                    end,
                    MethodBody {
                        parameters: body.parameters,
                        annotations: body.annotations.push(annotation),
                        instructions: body.instructions,
                    },
                ),
            ),
            Err(e) => Err(e),
        },
        Err(_) => match input.expect_directive("locals"@) {
            Ok(next) => match read_locals(next) {
                Ok(end) => Ok((end, body)),
                Err(e) => Err(e),
            },
            Err(_) => match input.expect_directive("param"@) {
                Ok(next) => read_param(next, body, is_static, return_type),
                Err(_) => match InstructionView::read(input) {
                    Ok((end, instruction)) => Ok(
                        (
                            end,
                            MethodBody {
                                parameters: body.parameters,
                                annotations: body.annotations,
                                instructions: body.instructions.push(instruction),
                            },
                        ),
                    ),
                    Err(e) => Err(e),
                },
            },
        },
    }
}

/// Steps over lines that end the scope of a local variable: they say
/// nothing that the output shows.
pub open spec fn skip_local_ends(input: Cursor) -> Moved
    decreases input.text.len() - input.pos,
{
    match input.expect_directive("end"@) {
        Ok(next) => match next.expect_keyword("local"@) {
            Ok(next) => match next.read_to(seq!['\n']).0.expect_eol() {
                Ok(line) => if line.follows(input) && input.pos < line.pos {
                    skip_local_ends(line)
                } else {
                    Err(input.unexpected(Seq::empty()))
                },
                Err(e) => Err(e),
            },
            Err(_) => Ok(input),
        },
        Err(_) => Ok(input),
    }
}

/// The members of a method body up to the directive `end`, which is not
/// stepped over, gathered into `body`.
pub open spec fn read_body(input: Cursor, body: MethodBody, is_static: bool, return_type: TypeView) -> Parsed<
    MethodBody,
>
    decreases input.text.len() - input.pos,
{
    if input.expect_directive("end"@) is Ok {
        Ok((input, body))
    } else {
        match read_member(input, body, is_static, return_type) {
            Ok((next, gathered)) => match skip_local_ends(next) {
                Ok(after) => if after.follows(input) && input.pos < after.pos {
                    read_body(after, gathered, is_static, return_type)
                } else {
                    Err(input.unexpected(Seq::empty()))
                },
                Err(e) => Err(e),
            },
            Err(e) => Err(e),
        }
    }
}

/// The declaration of a method: access flags, name, parameter types between
/// parentheses, return type, and the end of the line.
pub open spec fn read_declaration(input: Cursor) -> Parsed<MethodView> {
    let (next, visibility) = AccessFlag::read_list_spec(input);
    match next.read_keyword() {
        Ok((next, name)) => match next.expect_char('(') {
            Ok(next) => match repeat(next, at_closing_parenthesis(), one_bare_parameter()) {
                Ok((next, parameters)) => match next.expect_char(')') {
                    Ok(next) => match TypeView::read(next) {
                        Ok((next, return_type)) => match next.expect_eol() {
                            Ok(end) => Ok(
                                (
                                    end,
                                    MethodView {
                                        name,
                                        visibility,
                                        parameters,
                                        return_type,
                                        annotations: Seq::empty(),
                                        instructions: Seq::empty(),
                                    },
                                ),
                            ),
                            Err(e) => Err(e),
                        },
                        Err(e) => Err(e),
                    },
                    Err(e) => Err(e),
                },
                Err(e) => Err(e),
            },
            Err(e) => Err(e),
        },
        Err(e) => Err(e),
    }
}

impl MethodView {
    /// What follows `.method`: the declaration, the body, and `.end method`.
    pub open spec fn read(input: Cursor) -> Parsed<MethodView> {
        match read_declaration(input) {
            Ok((next, declared)) => match read_body(
                next,
                MethodBody {
                    parameters: declared.parameters,
                    annotations: Seq::empty(),
                    instructions: Seq::empty(),
                },
                declared.visibility.contains(AccessFlag::Static),
                declared.return_type,
            ) {
                Ok((next, body)) => match block_end(next, "method"@) {
                    Ok(next) => match next.expect_eol() {
                        Ok(end) => Ok(
                            (
                                end,
                                MethodView {
                                    name: declared.name,
                                    visibility: declared.visibility,
                                    parameters: body.parameters,
                                    return_type: declared.return_type,
                                    annotations: body.annotations,
                                    instructions: body.instructions,
                                },
                            ),
                        ),
                        Err(e) => Err(e),
                    },
                    Err(e) => Err(e),
                },
                Err(e) => Err(e),
            },
            Err(e) => Err(e),
        }
    }
}

/// What a method body has gathered so far.
pub open spec fn gathered(
    parameters: &Vec<MethodParameter>,
    annotations: &Vec<Annotation>,
    instructions: &Vec<Instruction>,
) -> MethodBody {
    MethodBody {
        parameters: parameters.deep_view(),
        annotations: annotations.deep_view(),
        instructions: instructions.deep_view(),
    }
}

fn contains_static(flags: &Vec<AccessFlag>) -> (r: bool)
    ensures
        r == flags@.contains(AccessFlag::Static),
{
    let mut i: usize = 0;
    while i < flags.len()
        invariant
            i <= flags@.len(),
            forall|j: int| 0 <= j < i ==> flags@[j] != AccessFlag::Static,
        decreases flags@.len() - i,
    {
        if flags[i] == AccessFlag::Static {
            return true;
        }
        i += 1;
    }
    false
}

fn read_bare_parameters(input: &Tokenizer) -> (r: Result<(Tokenizer, Vec<MethodParameter>), ParseError>)
    ensures
        parsed(r, repeat(input@, at_closing_parenthesis(), one_bare_parameter())),
        r matches Ok((t, _)) ==> t@.follows(input@),
{
    let mut cursor = input.clone();
    let mut parameters: Vec<MethodParameter> = Vec::new();
    let _ = input.offset();
    proof {
        lemma_prepend_empty(repeat(input@, at_closing_parenthesis(), one_bare_parameter()));
        assert(parameters.deep_view() =~= Seq::<MethodParameterView>::empty());
    }
    while cursor.expect_char(')').is_err()
        invariant
            cursor@.follows(input@),
            repeat(input@, at_closing_parenthesis(), one_bare_parameter()) == prepend(
                parameters.deep_view(),
                repeat(cursor@, at_closing_parenthesis(), one_bare_parameter()),
            ),
        decreases cursor@.text.len() - cursor@.pos,
    {
        let ghost acc = parameters.deep_view();
        match Type::read(&cursor) {
            Ok((next, parameter_type)) => {
                let annotations: Vec<Annotation> = Vec::new();
                assert(annotations.deep_view() =~= Seq::<AnnotationView>::empty());
                let parameter = MethodParameter { parameter_type, annotations };
                proof {
                    lemma_repeat_step(
                        acc,
                        cursor@,
                        next@,
                        parameter@,
                        at_closing_parenthesis(),
                        one_bare_parameter(),
                    );
                }
                cursor = next;
                parameters.push(parameter);
                assert(parameters.deep_view() =~= acc.push(parameter@));
            },
            Err(e) => {
                proof {
                    lemma_repeat_fail(
                        acc,
                        cursor@,
                        e@,
                        at_closing_parenthesis(),
                        one_bare_parameter(),
                    );
                }
                return Err(e);
            },
        }
    }
    proof {
        lemma_repeat_done(
            parameters.deep_view(),
            cursor@,
            at_closing_parenthesis(),
            one_bare_parameter(),
        );
    }
    Ok((cursor, parameters))
}

/// The parameter that the register `p<register>` holds.
fn find_parameter(
    parameters: &Vec<MethodParameter>,
    is_static: bool,
    return_type: &Type,
    register: i64,
) -> (r: Option<usize>)
    ensures
        match r {
            Some(slot) => annotated_parameter(
                parameters.deep_view(),
                is_static,
                return_type@,
                register as int,
            ) == Some(slot as int) && slot < parameters@.len(),
            None => annotated_parameter(
                parameters.deep_view(),
                is_static,
                return_type@,
                register as int,
            ) is None,
        },
{
    let ghost views = parameters.deep_view();
    let mut index: i128 = register as i128;
    if !is_static {
        index = index - return_type.register_count() as i128;
    }
    let ghost start = index as int;
    let mut slot: usize = 0;
    while slot < parameters.len() && index > 0
        invariant
            slot <= parameters@.len(),
            views == parameters.deep_view(),
            index <= start <= i64::MAX,
            -0x1_0000_0000_0000_0000 <= index,
            parameter_slot(views, index as int, slot as int) == parameter_slot(views, start, 0),
        decreases parameters@.len() - slot,
    {
        assert(views[slot as int] == parameters@[slot as int]@);
        index = index - parameters[slot].parameter_type.register_count() as i128;
        slot += 1;
    }
    if index < 0 || slot >= parameters.len() {
        None
    } else {
        Some(slot)
    }
}

fn skip_ends_of_locals(input: &Tokenizer) -> (r: Result<Tokenizer, ParseError>)
    ensures
        moved(r, skip_local_ends(input@)),
        r matches Ok(t) ==> t@.follows(input@),
{
    let mut cursor = input.clone();
    let _ = input.offset();
    loop
        invariant
            cursor@.follows(input@),
            skip_local_ends(cursor@) == skip_local_ends(input@),
        decreases cursor@.text.len() - cursor@.pos,
    {
        match cursor.expect_directive("end") {
            Ok(next) => match next.expect_keyword("local") {
                Ok(next) => {
                    let stops = ['\n'];
                    assert(stops@ =~= seq!['\n']);
                    let (rest, _) = next.read_to(&stops);
                    let line = rest.expect_eol()?;
                    cursor = line;
                },
                Err(_) => {
                    return Ok(cursor);
                },
            },
            Err(_) => {
                return Ok(cursor);
            },
        }
    }
}

impl Method {
    fn read_param(
        input: &Tokenizer,
        parameters: &mut Vec<MethodParameter>,
        is_static: bool,
        return_type: &Type,
        annotations: Ghost<Seq<AnnotationView>>,
        instructions: Ghost<Seq<InstructionView>>,
    ) -> (r: Result<Tokenizer, ParseError>)
        ensures
            match r {
                Ok(t) => read_param(
                    input@,
                    MethodBody {
                        parameters: old(parameters).deep_view(),
                        annotations: annotations@,
                        instructions: instructions@,
                    },
                    is_static,
                    return_type@,
                ) == Ok::<(Cursor, MethodBody), ParseErrorView>(
                    (
                        t@,
                        MethodBody {
                            parameters: final(parameters).deep_view(),
                            annotations: annotations@,
                            instructions: instructions@,
                        },
                    ),
                ) && t@.follows(input@) && t@.pos > input@.pos,
                Err(e) => read_param(
                    input@,
                    MethodBody {
                        parameters: old(parameters).deep_view(),
                        annotations: annotations@,
                        instructions: instructions@,
                    },
                    is_static,
                    return_type@,
                ) == Err::<(Cursor, MethodBody), ParseErrorView>(e@),
            },
    {
        let ghost views = parameters.deep_view();
        let next = input.expect_char('p')?;
        let (next, register) = next.read_number()?;
        let slot = match find_parameter(parameters, is_static, return_type, register) {
            Some(slot) => slot,
            None => {
                return Err(input.unexpected("a valid parameter number".to_owned()));
            },
        };
        let stops = ['\n'];
        assert(stops@ =~= seq!['\n']);
        let (next, _) = next.read_to(&stops);
        let next = next.expect_eol()?;
        let (next, mut found) = read_annotation_blocks(&next)?;
        let next = next.expect_directive("end")?;
        let next = next.expect_keyword("param")?;
        let end = next.expect_eol()?;
        let ghost added = found.deep_view();
        assert(views[slot as int] == parameters@[slot as int]@);
        let ghost had = parameters@[slot as int].annotations.deep_view();
        let parameter = &mut parameters[slot];
        parameter.annotations.append(&mut found);
        proof {
            assert(parameters@[slot as int].annotations.deep_view() =~= had + added);
            assert(parameters.deep_view() =~= views.update(
                slot as int,
                MethodParameterView {
                    parameter_type: views[slot as int].parameter_type,
                    annotations: views[slot as int].annotations + added,
                },
            ));
        }
        Ok(end)
    }

    /// Reads one member of the body and adds it to what was gathered.
    fn read_member(
        input: &Tokenizer,
        parameters: &mut Vec<MethodParameter>,
        annotations: &mut Vec<Annotation>,
        instructions: &mut Vec<Instruction>,
        is_static: bool,
        return_type: &Type,
    ) -> (r: Result<Tokenizer, ParseError>)
        ensures
            match r {
                Ok(t) => read_member(
                    input@,
                    gathered(old(parameters), old(annotations), old(instructions)),
                    is_static,
                    return_type@,
                ) == Ok::<(Cursor, MethodBody), ParseErrorView>(
                    (t@, gathered(final(parameters), final(annotations), final(instructions))),
                ) && t@.follows(input@) && t@.pos > input@.pos,
                Err(e) => read_member(
                    input@,
                    gathered(old(parameters), old(annotations), old(instructions)),
                    is_static,
                    return_type@,
                ) == Err::<(Cursor, MethodBody), ParseErrorView>(e@),
            },
    {
        reveal(read_member);
        if let Ok(next) = input.expect_directive("annotation") {
            let (end, annotation) = Annotation::read(&next, false)?;
            let ghost had = annotations.deep_view();
            annotations.push(annotation);
            assert(annotations.deep_view() =~= had.push(annotation@));
            Ok(end)
        } else if let Ok(next) = input.expect_directive("locals") {
            let (next, _) = next.read_number()?;
            let end = next.expect_eol()?;
            Ok(end)
        } else if let Ok(next) = input.expect_directive("param") {
            Self::read_param(
                &next,
                parameters,
                is_static,
                return_type,
                Ghost(annotations.deep_view()),
                Ghost(instructions.deep_view()),
            )
        } else {
            let (end, instruction) = Instruction::read(input)?;
            let ghost had = instructions.deep_view();
            instructions.push(instruction);
            assert(instructions.deep_view() =~= had.push(instruction@));
            Ok(end)
        }
    }

    /// Reads the members of the body up to the directive `end`.
    fn read_body(
        input: &Tokenizer,
        parameters: &mut Vec<MethodParameter>,
        annotations: &mut Vec<Annotation>,
        instructions: &mut Vec<Instruction>,
        is_static: bool,
        return_type: &Type,
    ) -> (r: Result<Tokenizer, ParseError>)
        ensures
            match r {
                Ok(t) => read_body(
                    input@,
                    gathered(old(parameters), old(annotations), old(instructions)),
                    is_static,
                    return_type@,
                ) == Ok::<(Cursor, MethodBody), ParseErrorView>(
                    (t@, gathered(final(parameters), final(annotations), final(instructions))),
                ) && t@.follows(input@),
                Err(e) => read_body(
                    input@,
                    gathered(old(parameters), old(annotations), old(instructions)),
                    is_static,
                    return_type@,
                ) == Err::<(Cursor, MethodBody), ParseErrorView>(e@),
            },
    {
        let mut cursor = input.clone();
        let _ = input.offset();
        let ghost whole = read_body(
            input@,
            gathered(parameters, annotations, instructions),
            is_static,
            return_type@,
        );
        while cursor.expect_directive("end").is_err()
            invariant
                cursor@.follows(input@),
                whole == read_body(
                    input@,
                    gathered(old(parameters), old(annotations), old(instructions)),
                    is_static,
                    return_type@,
                ),
                read_body(
                    cursor@,
                    gathered(parameters, annotations, instructions),
                    is_static,
                    return_type@,
                ) == whole,
            decreases cursor@.text.len() - cursor@.pos,
        {
            let member_end = match Self::read_member(
                &cursor,
                parameters,
                annotations,
                instructions,
                is_static,
                return_type,
            ) {
                Ok(end) => end,
                Err(e) => {
                    return Err(e);
                },
            };
            let after = match skip_ends_of_locals(&member_end) {
                Ok(after) => after,
                Err(e) => {
                    return Err(e);
                },
            };
            cursor = after;
        }
        Ok(cursor)
    }

    pub fn read(input: &Tokenizer) -> (r: Result<(Tokenizer, Self), ParseError>)
        ensures
            parsed(r, MethodView::read(input@)),
            r matches Ok((t, _)) ==> t@.follows(input@),
    {
        let (next, visibility) = AccessFlag::read_list(input);
        let (next, name) = next.read_keyword()?;
        let next = next.expect_char('(')?;
        let (next, mut parameters) = read_bare_parameters(&next)?;
        let next = next.expect_char(')')?;
        let (next, return_type) = Type::read(&next)?;
        let first = next.expect_eol()?;
        let is_static = contains_static(&visibility);
        let mut annotations: Vec<Annotation> = Vec::new();
        let mut instructions: Vec<Instruction> = Vec::new();
        proof {
            assert(annotations.deep_view() =~= Seq::<AnnotationView>::empty());
            assert(instructions.deep_view() =~= Seq::<InstructionView>::empty());
        }
        let next = Self::read_body(
            &first,
            &mut parameters,
            &mut annotations,
            &mut instructions,
            is_static,
            &return_type,
        )?;
        let next = next.expect_directive("end")?;
        let next = next.expect_keyword("method")?;
        let end = next.expect_eol()?;
        Ok((end, Method { name, visibility, parameters, return_type, annotations, instructions }))
    }
}

} // verus!
