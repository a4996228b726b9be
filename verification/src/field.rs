//! Fields: their declaration in the input and in the output.

use vstd::prelude::*;
use vstd::string::*;
use crate::access_flag::AccessFlag;
use crate::annotation::{
    annotations_jimple, read_annotation, write_annotations, Annotation, AnnotationView,
};
use crate::error::{ParseError, ParseErrorView};
use crate::instruction::smali::{at_end_directive, block_end};
use crate::literal::{Literal, LiteralView};
use crate::tokenizer::{
    lemma_prepend_empty, lemma_repeat_done, lemma_repeat_fail, lemma_repeat_step, parsed, prepend,
    repeat, Cursor, Parsed, Tokenizer,
};
use crate::types::{Type, TypeView};

verus! {

broadcast use vstd::string::group_string_axioms;

#[derive(Debug, PartialEq)]
pub struct Field {
    pub name: String,
    pub field_type: Type,
    pub visibility: Vec<AccessFlag>,
    pub initial_value: Option<Literal>,
    pub annotations: Vec<Annotation>,
}

pub struct FieldView {
    pub name: Seq<char>,
    pub field_type: TypeView,
    pub visibility: Seq<AccessFlag>,
    pub initial_value: Option<LiteralView>,
    pub annotations: Seq<AnnotationView>,
}

impl View for Field {
    type V = FieldView;

    open spec fn view(&self) -> FieldView {
        FieldView {
            name: self.name@,
            field_type: self.field_type@,
            visibility: self.visibility@,
            initial_value: self.initial_value.deep_view(),
            annotations: self.annotations.deep_view(),
        }
    }
}

impl DeepView for Field {
    type V = FieldView;

    open spec fn deep_view(&self) -> FieldView {
        self@
    }
}

/// The directive `annotation` and the annotation behind it.
pub open spec fn annotation_block(input: Cursor) -> Parsed<AnnotationView> {
    match input.expect_directive("annotation"@) {
        Ok(next) => read_annotation(next, false),
        Err(e) => Err(e),
    }
}

pub open spec fn one_annotation_block() -> spec_fn(Cursor) -> Parsed<AnnotationView> {
    |input: Cursor| annotation_block(input)
}

/// The annotations of a member up to the directive `end`, which is not
/// stepped over.
pub open spec fn annotation_blocks(input: Cursor) -> Parsed<Seq<AnnotationView>> {
    repeat(input, at_end_directive(), one_annotation_block())
}

/// What may follow `=` behind the type of a field: its initial value.
pub open spec fn read_initial_value(input: Cursor) -> Parsed<Option<LiteralView>> {
    match input.expect_char('=') {
        Ok(next) => match LiteralView::read(next) {
            Ok((end, literal)) => Ok((end, Some(literal))),
            Err(e) => Err(e),
        },
        Err(_) => Ok((input, None)),
    }
}

/// What may follow the line of a field: its annotations and the closing
/// directive.
pub open spec fn read_field_annotations(input: Cursor) -> Parsed<Seq<AnnotationView>> {
    if input.expect_directive("annotation"@) is Ok {
        match annotation_blocks(input) {
            Ok((next, annotations)) => match block_end(next, "field"@) {
                Ok(next) => match next.expect_eol() {
                    Ok(end) => Ok((end, annotations)),
                    Err(e) => Err(e),
                },
                Err(e) => Err(e),
            },
            Err(e) => Err(e),
        }
    } else {
        Ok((input, Seq::empty()))
    }
}

impl FieldView {
    /// What follows `.field`: the access flags, the name, a colon, the type,
    /// an initial value where there is one, and the annotations.
    pub open spec fn read(input: Cursor) -> Parsed<FieldView> {
        let (next, visibility) = AccessFlag::read_list_spec(input);
        match next.read_keyword() {
            Ok((next, name)) => match next.expect_char(':') {
                Ok(next) => match TypeView::read(next) {
                    Ok((next, field_type)) => match read_initial_value(next) {
                        Ok((next, initial_value)) => match next.expect_eol() {
                            Ok(next) => match read_field_annotations(next) {
                                Ok((end, annotations)) => Ok(
                                    (
                                        end,
                                        FieldView {
                                            name,
                                            field_type,
                                            visibility,
                                            initial_value,
                                            annotations,
                                        },
                                    ),
                                ),
                                Err(e) => Err(e),
                            },
                            Err(e) => Err(e),
                        },
                        Err(e) => Err(e),
                    },
                    Err(e) => Err(e),
                },
                Err(e) => Err(e),
            },
            Err(e) => Err(e),
        }
    }

    /// The field as the output writes it: its annotations, then its
    /// modifiers, type and name, and its initial value where it has one.
    #[verifier::opaque]
    pub open spec fn jimple(self) -> Seq<char> {
        annotations_jimple(self.annotations, 1, Seq::empty(), self.annotations.len() as int)
            + "    "@ + AccessFlag::modifiers(self.visibility, self.visibility.len() as int)
            + self.field_type.name() + " "@ + self.name + (match self.initial_value {
            Some(value) => " = "@ + value.text(),
            None => Seq::empty(),
        }) + ";\n"@
    }
}

/// Reads annotation blocks up to the directive `end`.
pub fn read_annotation_blocks(input: &Tokenizer) -> (r: Result<(Tokenizer, Vec<Annotation>), ParseError>)
    ensures
        parsed(r, annotation_blocks(input@)),
        r matches Ok((t, _)) ==> t@.follows(input@),
{
    let mut cursor = input.clone();
    let mut annotations: Vec<Annotation> = Vec::new();
    let _ = input.offset();
    proof {
        lemma_prepend_empty(annotation_blocks(input@));
        assert(annotations.deep_view() =~= Seq::<AnnotationView>::empty());
    }
    while cursor.expect_directive("end").is_err()
        invariant
            cursor@.follows(input@),
            annotation_blocks(input@) == prepend(
                annotations.deep_view(),
                annotation_blocks(cursor@),
            ),
        decreases cursor@.text.len() - cursor@.pos,
    {
        let ghost acc = annotations.deep_view();
        let next = match cursor.expect_directive("annotation") {
            Ok(next) => next,
            Err(e) => {
                proof {
                    lemma_repeat_fail(acc, cursor@, e@, at_end_directive(), one_annotation_block());
                }
                return Err(e);
            },
        };
        match Annotation::read(&next, false) {
            Ok((next, annotation)) => {
                proof {
                    lemma_repeat_step(
                        acc,
                        cursor@,
                        next@,
                        annotation@,
                        at_end_directive(),
                        one_annotation_block(),
                    );
                }
                cursor = next;
                annotations.push(annotation);
                assert(annotations.deep_view() =~= acc.push(annotation@));
            },
            Err(e) => {
                proof {
                    lemma_repeat_fail(acc, cursor@, e@, at_end_directive(), one_annotation_block());
                }
                return Err(e);
            },
        }
    }
    proof {
        lemma_repeat_done(
            annotations.deep_view(),
            cursor@,
            at_end_directive(),
            one_annotation_block(),
        );
    }
    Ok((cursor, annotations))
}

impl Field {
    fn read_initial_value(input: &Tokenizer) -> (r: Result<(Tokenizer, Option<Literal>), ParseError>)
        ensures
            parsed(r, read_initial_value(input@)),
            r matches Ok((t, _)) ==> t@.follows(input@),
    {
        let _ = input.offset();
        match input.expect_char('=') {
            Ok(next) => {
                let (end, literal) = Literal::read(&next)?;
                Ok((end, Some(literal)))
            },
            Err(_) => Ok((input.clone(), None)),
        }
    }

    fn read_annotations(input: &Tokenizer) -> (r: Result<(Tokenizer, Vec<Annotation>), ParseError>)
        ensures
            parsed(r, read_field_annotations(input@)),
            r matches Ok((t, _)) ==> t@.follows(input@),
    {
        let _ = input.offset();
        if input.expect_directive("annotation").is_ok() {
            let (next, annotations) = read_annotation_blocks(input)?;
            let next = next.expect_directive("end")?;
            let next = next.expect_keyword("field")?;
            let end = next.expect_eol()?;
            Ok((end, annotations))
        } else {
            let annotations: Vec<Annotation> = Vec::new();
            assert(annotations.deep_view() =~= Seq::<AnnotationView>::empty());
            Ok((input.clone(), annotations))
        }
    }

    pub fn read(input: &Tokenizer) -> (r: Result<(Tokenizer, Self), ParseError>)
        ensures
            parsed(r, FieldView::read(input@)),
            r matches Ok((t, _)) ==> t@.follows(input@) && t@.pos > input@.pos,
    {
        let (next, visibility) = AccessFlag::read_list(input);
        let (next, name) = next.read_keyword()?;
        let next = next.expect_char(':')?;
        let (next, field_type) = Type::read(&next)?;
        let (next, initial_value) = Self::read_initial_value(&next)?;
        let next = next.expect_eol()?;
        let (end, annotations) = Self::read_annotations(&next)?;
        Ok((end, Field { name, field_type, visibility, initial_value, annotations }))
    }

    /// Appends the field to `output`.
    pub fn write_jimple(&self, output: &mut String)
        ensures
            final(output)@ == old(output)@ + self@.jimple(),
    {
        let ghost before = output@;
        reveal(FieldView::jimple);
        write_annotations(&self.annotations, output, 1, "");
        proof {
            reveal_strlit("");
            assert(""@ =~= Seq::<char>::empty());
        }
        output.append("    ");
        AccessFlag::write_jimple_list(output, self.visibility.as_slice());
        output.append(self.field_type.get_name().as_str());
        output.append(" ");
        output.append(self.name.as_str());
        match &self.initial_value {
            Some(initial_value) => {
                output.append(" = ");
                output.append(initial_value.to_string().as_str());
            },
            None => {},
        }
        output.append(";\n");
        assert(output@ =~= before + self@.jimple());
    }
}

} // verus!
