//! Type descriptors and the signatures built from them.

use vstd::prelude::*;
use vstd::string::*;
use crate::error::{ParseError, ParseErrorView};
use crate::text::push_char;
use crate::tokenizer::{
    lemma_repeat_done, lemma_repeat_fail, lemma_repeat_step, parsed, prepend, repeat, Cursor, Parsed, Tokenizer,
};

verus! {

broadcast use vstd::string::group_string_axioms;

#[derive(Debug, PartialEq)]
pub enum Type {
    Bool,
    Byte,
    Char,
    Short,
    Int,
    Long,
    Float,
    Double,
    Void,
    Object(String),
    Array(Box<Type>),
}

/// What a [`Type`] stands for.
pub enum TypeView {
    Bool,
    Byte,
    Char,
    Short,
    Int,
    Long,
    Float,
    Double,
    Void,
    Object(Seq<char>),
    Array(Box<TypeView>),
}

impl Type {
    /// What the type stands for.
    pub open spec fn model(&self) -> TypeView
        decreases self,
    {
        match self {
            Type::Bool => TypeView::Bool,
            Type::Byte => TypeView::Byte,
            Type::Char => TypeView::Char,
            Type::Short => TypeView::Short,
            Type::Int => TypeView::Int,
            Type::Long => TypeView::Long,
            Type::Float => TypeView::Float,
            Type::Double => TypeView::Double,
            Type::Void => TypeView::Void,
            Type::Object(name) => TypeView::Object(name@),
            Type::Array(element) => TypeView::Array(Box::new(element.model())),
        }
    }
}

impl View for Type {
    type V = TypeView;

    open spec fn view(&self) -> TypeView {
        self.model()
    }
}

impl DeepView for Type {
    type V = TypeView;

    open spec fn deep_view(&self) -> TypeView {
        self@
    }
}

/// A class name as descriptors write it, with periods in place of slashes.
pub open spec fn dotted(name: Seq<char>) -> Seq<char> {
    name.map_values(|c: char| if c == '/' { '.' } else { c })
}

/// The views of a list of types.
pub open spec fn type_views(types: Seq<Type>) -> Seq<TypeView> {
    types.map_values(|t: Type| t@)
}

/// `items` with `separator` between each two neighbours.
pub open spec fn joined(items: Seq<Seq<char>>, separator: Seq<char>) -> Seq<char>
    decreases items.len(),
{
    if items.len() == 0 {
        Seq::empty()
    } else if items.len() == 1 {
        items[0]
    } else {
        joined(items.drop_last(), separator) + separator + items.last()
    }
}

impl TypeView {
    /// One type descriptor: a letter for a primitive type, `L`, a class name
    /// and `;` for an object type, `[` and a descriptor for an array type.
    pub open spec fn read(input: Cursor) -> Parsed<TypeView>
        decreases input.text.len() - input.pos,
    {
        match input.read_char() {
            Ok((next, c)) => if c == 'Z' {
                Ok((next, TypeView::Bool))
            } else if c == 'B' {
                Ok((next, TypeView::Byte))
            } else if c == 'C' {
                Ok((next, TypeView::Char))
            } else if c == 'S' {
                Ok((next, TypeView::Short))
            } else if c == 'I' {
                Ok((next, TypeView::Int))
            } else if c == 'J' {
                Ok((next, TypeView::Long))
            } else if c == 'F' {
                Ok((next, TypeView::Float))
            } else if c == 'D' {
                Ok((next, TypeView::Double))
            } else if c == 'V' {
                Ok((next, TypeView::Void))
            } else if c == 'L' {
                let (end, name) = next.read_to(seq![';']);
                match end.expect_char(';') {
                    Ok(after) => if name.len() == 0 {
                        Err(input.unexpected("a type"@))
                    } else {
                        Ok((after, TypeView::Object(dotted(name))))
                    },
                    Err(e) => Err(e),
                }
            } else if c == '[' && input.pos < next.pos <= input.text.len() {
                match TypeView::read(next) {
                    Ok((after, element)) => Ok((after, TypeView::Array(Box::new(element)))),
                    Err(e) => Err(e),
                }
            } else {
                Err(input.unexpected("a type"@))
            },
            Err(_) => Err(input.unexpected("a type"@)),
        }
    }

    /// The name of the type as the output writes it.
    pub open spec fn name(self) -> Seq<char>
        decreases self,
    {
        match self {
            TypeView::Bool => "bool"@,
            TypeView::Byte => "byte"@,
            TypeView::Char => "char"@,
            TypeView::Short => "short"@,
            TypeView::Int => "int"@,
            TypeView::Long => "long"@,
            TypeView::Float => "float"@,
            TypeView::Double => "double"@,
            TypeView::Void => "void"@,
            TypeView::Object(name) => name,
            TypeView::Array(element) => element.name() + "[]"@,
        }
    }

    /// How many registers a value of the type takes.
    pub open spec fn register_count(self) -> nat {
        match self {
            TypeView::Long | TypeView::Double => 2,
            _ => 1,
        }
    }
}

/// The names of a list of types.
pub open spec fn type_names(types: Seq<TypeView>) -> Seq<Seq<char>> {
    types.map_values(|t: TypeView| t.name())
}

impl Clone for Type {
    fn clone(&self) -> (r: Self)
        ensures
            r@ == self@,
        decreases self,
    {
        match self {
            Type::Bool => Type::Bool,
            Type::Byte => Type::Byte,
            Type::Char => Type::Char,
            Type::Short => Type::Short,
            Type::Int => Type::Int,
            Type::Long => Type::Long,
            Type::Float => Type::Float,
            Type::Double => Type::Double,
            Type::Void => Type::Void,
            Type::Object(name) => Type::Object(name.clone()),
            Type::Array(element) => Type::Array(Box::new((**element).clone())),
        }
    }
}

fn dots_for_slashes(name: &str) -> (r: String)
    ensures
        r@ == dotted(name@),
{
    let mut r = String::new();
    for c in it: name.chars()
        invariant
            it.seq() == name@,
            r@ == dotted(it.seq().take(it.index())),
    {
        assert(it.seq().take(it.index() + 1) == it.seq().take(it.index()).push(c));
        push_char(
            &mut r,
            if c == '/' {
                '.'
            } else {
                c
            },
        );
    }
    r
}

impl Type {
    pub fn read(input: &Tokenizer) -> (r: Result<(Tokenizer, Self), ParseError>)
        ensures
            parsed(r, TypeView::read(input@)),
            r matches Ok((t, _)) ==> t@.follows(input@) && t@.pos > input@.pos,
        decreases input@.text.len() - input@.pos,
    {
        let start = input;
        let (input, c) = match input.read_char() {
            Ok(read) => read,
            Err(_) => {
                return Err(start.unexpected("a type".to_owned()));
            },
        };
        match c {
            'Z' => Ok((input, Type::Bool)),
            'B' => Ok((input, Type::Byte)),
            'C' => Ok((input, Type::Char)),
            'S' => Ok((input, Type::Short)),
            'I' => Ok((input, Type::Int)),
            'J' => Ok((input, Type::Long)),
            'F' => Ok((input, Type::Float)),
            'D' => Ok((input, Type::Double)),
            'V' => Ok((input, Type::Void)),
            'L' => {
                let stops = [';'];
                assert(stops@ =~= seq![';']);
                let (input, name) = input.read_to(&stops);
                let input = input.expect_char(';')?;
                if name.as_str().unicode_len() == 0 {
                    return Err(start.unexpected("a type".to_owned()));
                }
                Ok((input, Type::Object(dots_for_slashes(name.as_str()))))
            },
            '[' => {
                let (input, subtype) = Type::read(&input)?;
                Ok((input, Type::Array(Box::new(subtype))))
            },
            _ => Err(start.unexpected("a type".to_owned())),
        }
    }

    pub fn get_name(&self) -> (r: String)
        ensures
            r@ == self@.name(),
        decreases self,
    {
        match self {
            Type::Bool => "bool".to_owned(),
            Type::Byte => "byte".to_owned(),
            Type::Char => "char".to_owned(),
            Type::Short => "short".to_owned(),
            Type::Int => "int".to_owned(),
            Type::Long => "long".to_owned(),
            Type::Float => "float".to_owned(),
            Type::Double => "double".to_owned(),
            Type::Void => "void".to_owned(),
            Type::Object(name) => name.clone(),
            Type::Array(subtype) => {
                let mut r = subtype.get_name();
                r.append("[]");
                r
            },
        }
    }

    pub fn register_count(&self) -> (r: usize)
        ensures
            r == self@.register_count(),
    {
        match self {
            Type::Long | Type::Double => 2,
            _ => 1,
        }
    }

    /// Whether two types are the same type.
    pub fn same(&self, other: &Type) -> (r: bool)
        ensures
            r == (self@ == other@),
        decreases self,
    {
        match (self, other) {
            (Type::Bool, Type::Bool) => true,
            (Type::Byte, Type::Byte) => true,
            (Type::Char, Type::Char) => true,
            (Type::Short, Type::Short) => true,
            (Type::Int, Type::Int) => true,
            (Type::Long, Type::Long) => true,
            (Type::Float, Type::Float) => true,
            (Type::Double, Type::Double) => true,
            (Type::Void, Type::Void) => true,
            (Type::Object(name), Type::Object(other_name)) => *name == *other_name,
            (Type::Array(element), Type::Array(other_element)) => element.same(other_element),
            _ => false,
        }
    }

    /// The type as the output writes it: its name.
    pub fn to_string(&self) -> (r: String)
        ensures
            r@ == self@.name(),
    {
        self.get_name()
    }
}

/// Appends the names of `types`, separated by a comma and a space.
pub(crate) fn push_type_names(out: &mut String, types: &Vec<Type>)
    ensures
        final(out)@ == old(out)@ + joined(type_names(type_views(types@)), ", "@),
{
    let ghost names = type_names(type_views(types@));
    let mut i: usize = 0;
    while i < types.len()
        invariant
            i <= types@.len(),
            names == type_names(type_views(types@)),
            out@ == old(out)@ + joined(names.take(i as int), ", "@),
        decreases types@.len() - i,
    {
        let ghost before = out@;
        if i > 0 {
            out.append(", ");
        }
        let name = types[i].get_name();
        out.append(name.as_str());
        proof {
            let head = names.take(i + 1);
            assert(head.drop_last() == names.take(i as int));
            assert(head.last() == types@[i as int]@.name());
            if i == 0 {
                assert(joined(head, ", "@) == head[0]);
                assert(joined(names.take(0), ", "@) == Seq::<char>::empty());
            } else {
                assert(joined(head, ", "@) == joined(names.take(i as int), ", "@) + ", "@
                    + head.last());
            }
        }
        i += 1;
    }
    assert(names.take(types@.len() as int) == names);
}

#[derive(Debug, PartialEq)]
pub struct FieldSignature {
    pub object_type: Type,
    pub field_name: String,
    pub field_type: Type,
}

pub struct FieldSignatureView {
    pub object_type: TypeView,
    pub field_name: Seq<char>,
    pub field_type: TypeView,
}

impl View for FieldSignature {
    type V = FieldSignatureView;

    open spec fn view(&self) -> FieldSignatureView {
        FieldSignatureView {
            object_type: self.object_type@,
            field_name: self.field_name@,
            field_type: self.field_type@,
        }
    }
}

impl DeepView for FieldSignature {
    type V = FieldSignatureView;

    open spec fn deep_view(&self) -> FieldSignatureView {
        self@
    }
}

/// The arrow between an owner and its member.
pub open spec fn expect_arrow(input: Cursor) -> Result<Cursor, ParseErrorView> {
    match input.expect_char('-') {
        Ok(next) => next.expect_char('>'),
        Err(e) => Err(e),
    }
}

impl FieldSignatureView {
    /// `Owner->name:Type`.
    pub open spec fn read(input: Cursor) -> Parsed<FieldSignatureView> {
        match TypeView::read(input) {
            Ok((input, object_type)) => match expect_arrow(input) {
                Ok(input) => match input.read_keyword() {
                    Ok((input, field_name)) => match input.expect_char(':') {
                        Ok(input) => match TypeView::read(input) {
                            Ok((input, field_type)) => Ok(
                                (input, FieldSignatureView { object_type, field_name, field_type }),
                            ),
                            Err(e) => Err(e),
                        },
                        Err(e) => Err(e),
                    },
                    Err(e) => Err(e),
                },
                Err(e) => Err(e),
            },
            Err(e) => Err(e),
        }
    }

    /// `Type Owner.name`.
    pub open spec fn text(self) -> Seq<char> {
        self.field_type.name() + " "@ + self.object_type.name() + "."@ + self.field_name
    }
}

impl Clone for FieldSignature {
    fn clone(&self) -> (r: Self)
        ensures
            r@ == self@,
    {
        FieldSignature {
            object_type: self.object_type.clone(),
            field_name: self.field_name.clone(),
            field_type: self.field_type.clone(),
        }
    }
}

impl FieldSignature {
    pub fn read(input: &Tokenizer) -> (r: Result<(Tokenizer, Self), ParseError>)
        ensures
            parsed(r, FieldSignatureView::read(input@)),
            r matches Ok((t, _)) ==> t@.follows(input@) && t@.pos > input@.pos,
    {
        let (input, object_type) = Type::read(input)?;
        let input = input.expect_char('-')?;
        let input = input.expect_char('>')?;
        let (input, field_name) = input.read_keyword()?;
        let input = input.expect_char(':')?;
        let (input, field_type) = Type::read(&input)?;
        Ok((input, FieldSignature { object_type, field_name, field_type }))
    }

    pub fn to_string(&self) -> (r: String)
        ensures
            r@ == self@.text(),
    {
        let mut r = self.field_type.get_name();
        r.append(" ");
        r.append(self.object_type.get_name().as_str());
        r.append(".");
        r.append(self.field_name.as_str());
        r
    }
}

#[derive(Debug, PartialEq)]
pub struct CallSignature {
    pub parameter_types: Vec<Type>,
    pub return_type: Type,
}

pub struct CallSignatureView {
    pub parameter_types: Seq<TypeView>,
    pub return_type: TypeView,
}

impl View for CallSignature {
    type V = CallSignatureView;

    open spec fn view(&self) -> CallSignatureView {
        CallSignatureView {
            parameter_types: type_views(self.parameter_types@),
            return_type: self.return_type@,
        }
    }
}

impl DeepView for CallSignature {
    type V = CallSignatureView;

    open spec fn deep_view(&self) -> CallSignatureView {
        self@
    }
}

/// Whether a closing parenthesis comes next.
pub open spec fn at_closing_parenthesis() -> spec_fn(Cursor) -> bool {
    |input: Cursor| input.expect_char(')') is Ok
}

pub open spec fn one_type() -> spec_fn(Cursor) -> Parsed<TypeView> {
    |input: Cursor| TypeView::read(input)
}

impl CallSignatureView {
    /// `(` parameter types `)` return type.
    pub open spec fn read(input: Cursor) -> Parsed<CallSignatureView> {
        match input.expect_char('(') {
            Ok(input) => match repeat(input, at_closing_parenthesis(), one_type()) {
                Ok((input, parameter_types)) => match input.expect_char(')') {
                    Ok(input) => match TypeView::read(input) {
                        Ok((input, return_type)) => Ok(
                            (input, CallSignatureView { parameter_types, return_type }),
                        ),
                        Err(e) => Err(e),
                    },
                    Err(e) => Err(e),
                },
                Err(e) => Err(e),
            },
            Err(e) => Err(e),
        }
    }

    /// `Return (Parameter, ...)`.
    pub open spec fn text(self) -> Seq<char> {
        self.return_type.name() + " ("@ + joined(type_names(self.parameter_types), ", "@) + ")"@
    }
}

/// Clones a list of types.
pub(crate) fn clone_types(types: &Vec<Type>) -> (r: Vec<Type>)
    ensures
        type_views(r@) == type_views(types@),
{
    let mut r: Vec<Type> = Vec::new();
    let mut i: usize = 0;
    while i < types.len()
        invariant
            i <= types@.len(),
            r@.len() == i,
            forall|j: int| 0 <= j < i ==> (#[trigger] r@[j])@ == types@[j]@,
        decreases types@.len() - i,
    {
        r.push(types[i].clone());
        i += 1;
    }
    assert(type_views(r@) =~= type_views(types@));
    r
}

impl Clone for CallSignature {
    fn clone(&self) -> (r: Self)
        ensures
            r@ == self@,
    {
        CallSignature {
            parameter_types: clone_types(&self.parameter_types),
            return_type: self.return_type.clone(),
        }
    }
}

impl CallSignature {
    pub fn read(input: &Tokenizer) -> (r: Result<(Tokenizer, Self), ParseError>)
        ensures
            parsed(r, CallSignatureView::read(input@)),
            r matches Ok((t, _)) ==> t@.follows(input@) && t@.pos > input@.pos,
    {
        let mut cursor = input.expect_char('(')?;
        let ghost first = cursor@;
        let mut parameter_types: Vec<Type> = Vec::new();
        assert(type_views(parameter_types@) =~= Seq::<TypeView>::empty());
        assert(prepend(Seq::<TypeView>::empty(), repeat(first, at_closing_parenthesis(), one_type()))
            == repeat(first, at_closing_parenthesis(), one_type())) by {
            match repeat(first, at_closing_parenthesis(), one_type()) {
                Ok((end, rest)) => {
                    assert(Seq::<TypeView>::empty() + rest =~= rest);
                },
                Err(_) => {},
            }
        }
        while cursor.expect_char(')').is_err()
            invariant
                cursor@.follows(first),
                first.follows(input@),
                first.pos > input@.pos,
                input@.expect_char('(') == Ok::<Cursor, ParseErrorView>(first),
                repeat(first, at_closing_parenthesis(), one_type()) == prepend(
                    type_views(parameter_types@),
                    repeat(cursor@, at_closing_parenthesis(), one_type()),
                ),
            decreases cursor@.text.len() - cursor@.pos,
        {
            let ghost before = cursor@;
            let ghost acc = type_views(parameter_types@);
            let (next, parameter_type) = match Type::read(&cursor) {
                Ok(read) => read,
                Err(e) => {
                    proof {
                        lemma_repeat_fail(
                            acc,
                            before,
                            e@,
                            at_closing_parenthesis(),
                            one_type(),
                        );
                    }
                    return Err(e);
                },
            };
            proof {
                lemma_repeat_step(
                    acc,
                    before,
                    next@,
                    parameter_type@,
                    at_closing_parenthesis(),
                    one_type(),
                );
            }
            cursor = next;
            parameter_types.push(parameter_type);
            assert(type_views(parameter_types@) =~= acc.push(parameter_type@));
        }
        proof {
            lemma_repeat_done(
                type_views(parameter_types@),
                cursor@,
                at_closing_parenthesis(),
                one_type(),
            );
        }
        let cursor = cursor.expect_char(')')?;
        let (input, return_type) = Type::read(&cursor)?;
        Ok((input, CallSignature { parameter_types, return_type }))
    }

    pub fn to_string(&self) -> (r: String)
        ensures
            r@ == self@.text(),
    {
        let mut r = self.return_type.get_name();
        r.append(" (");
        push_type_names(&mut r, &self.parameter_types);
        r.append(")");
        r
    }
}

#[derive(Debug, PartialEq)]
pub struct MethodSignature {
    pub object_type: Type,
    pub method_name: String,
    pub call_signature: CallSignature,
}

pub struct MethodSignatureView {
    pub object_type: TypeView,
    pub method_name: Seq<char>,
    pub call_signature: CallSignatureView,
}

impl View for MethodSignature {
    type V = MethodSignatureView;

    open spec fn view(&self) -> MethodSignatureView {
        MethodSignatureView {
            object_type: self.object_type@,
            method_name: self.method_name@,
            call_signature: self.call_signature@,
        }
    }
}

impl DeepView for MethodSignature {
    type V = MethodSignatureView;

    open spec fn deep_view(&self) -> MethodSignatureView {
        self@
    }
}

impl MethodSignatureView {
    /// `Owner->name(` parameter types `)` return type.
    pub open spec fn read(input: Cursor) -> Parsed<MethodSignatureView> {
        match TypeView::read(input) {
            Ok((input, object_type)) => match expect_arrow(input) {
                Ok(input) => match input.read_keyword() {
                    Ok((input, method_name)) => match CallSignatureView::read(input) {
                        Ok((input, call_signature)) => Ok(
                            (input, MethodSignatureView { object_type, method_name, call_signature }),
                        ),
                        Err(e) => Err(e),
                    },
                    Err(e) => Err(e),
                },
                Err(e) => Err(e),
            },
            Err(e) => Err(e),
        }
    }

    /// `Return Owner.name(Parameter, ...)`.
    pub open spec fn text(self) -> Seq<char> {
        self.call_signature.return_type.name() + " "@ + self.object_type.name() + "."@
            + self.method_name + "("@ + joined(
            type_names(self.call_signature.parameter_types),
            ", "@,
        ) + ")"@
    }
}

impl Clone for MethodSignature {
    fn clone(&self) -> (r: Self)
        ensures
            r@ == self@,
    {
        MethodSignature {
            object_type: self.object_type.clone(),
            method_name: self.method_name.clone(),
            call_signature: self.call_signature.clone(),
        }
    }
}

impl MethodSignature {
    pub fn read(input: &Tokenizer) -> (r: Result<(Tokenizer, Self), ParseError>)
        ensures
            parsed(r, MethodSignatureView::read(input@)),
            r matches Ok((t, _)) ==> t@.follows(input@) && t@.pos > input@.pos,
    {
        let (input, object_type) = Type::read(input)?;
        let input = input.expect_char('-')?;
        let input = input.expect_char('>')?;
        let (input, method_name) = input.read_keyword()?;
        let (input, call_signature) = CallSignature::read(&input)?;
        Ok((input, MethodSignature { object_type, method_name, call_signature }))
    }

    pub fn to_string(&self) -> (r: String)
        ensures
            r@ == self@.text(),
    {
        let mut r = self.call_signature.return_type.get_name();
        r.append(" ");
        r.append(self.object_type.get_name().as_str());
        r.append(".");
        r.append(self.method_name.as_str());
        r.append("(");
        push_type_names(&mut r, &self.call_signature.parameter_types);
        r.append(")");
        r
    }
}

} // verus!
