//! Classes: one input file, and the one output file that it becomes.

use vstd::prelude::*;
use vstd::string::*;
use crate::access_flag::AccessFlag;
use crate::annotation::{
    annotations_jimple, read_annotation, write_annotations, Annotation, AnnotationView,
};
use crate::error::{ParseError, ParseErrorView};
use crate::field::{Field, FieldView};
use crate::literal::{Literal, LiteralView};
use crate::method::optimization::optimized;
use crate::method::{Method, MethodView};
use crate::text::str_eq;
use crate::tokenizer::{parsed, Cursor, Parsed, Tokenizer};
use crate::types::{joined, type_names, type_views, push_type_names, Type, TypeView};
use crate::warning::{Warning, WarningView};

verus! {

broadcast use vstd::string::group_string_axioms;

#[derive(Debug)]
pub struct Class {
    pub class_type: Type,
    pub access_flags: Vec<AccessFlag>,
    pub super_class: Option<Type>,
    pub interfaces: Vec<Type>,
    pub source_file: Option<String>,
    pub annotations: Vec<Annotation>,
    pub fields: Vec<Field>,
    pub methods: Vec<Method>,
}

pub struct ClassView {
    pub class_type: TypeView,
    pub access_flags: Seq<AccessFlag>,
    pub super_class: Option<TypeView>,
    pub interfaces: Seq<TypeView>,
    pub source_file: Option<Seq<char>>,
    pub annotations: Seq<AnnotationView>,
    pub fields: Seq<FieldView>,
    pub methods: Seq<MethodView>,
}

impl View for Class {
    type V = ClassView;

    open spec fn view(&self) -> ClassView {
        ClassView {
            class_type: self.class_type@,
            access_flags: self.access_flags@,
            super_class: self.super_class.deep_view(),
            interfaces: type_views(self.interfaces@),
            source_file: self.source_file.deep_view(),
            annotations: self.annotations.deep_view(),
            fields: self.fields.deep_view(),
            methods: self.methods.deep_view(),
        }
    }
}

impl DeepView for Class {
    type V = ClassView;

    open spec fn deep_view(&self) -> ClassView {
        self@
    }
}

/// What follows `.super`: the type that the class extends, unless that is
/// the root of all classes or of all enums, which the output does not name.
pub open spec fn read_super_class(input: Cursor) -> Parsed<Option<TypeView>> {
    match TypeView::read(input) {
        Ok((next, super_class)) => match next.expect_eol() {
            Ok(end) => Ok(
                (
                    end,
                    if super_class == TypeView::Object("java.lang.Object"@) || super_class
                        == TypeView::Object("java.lang.Enum"@) {
                        None
                    } else {
                        Some(super_class)
                    },
                ),
            ),
            Err(e) => Err(e),
        },
        Err(e) => Err(e),
    }
}

/// What follows `.implements`: an interface of the class.
pub open spec fn read_interface(input: Cursor) -> Parsed<TypeView> {
    match TypeView::read(input) {
        Ok((next, interface)) => match next.expect_eol() {
            Ok(end) => Ok((end, interface)),
            Err(e) => Err(e),
        },
        Err(e) => Err(e),
    }
}

/// What follows `.source`: the name of the source file as a string.
pub open spec fn read_source_file(input: Cursor) -> Parsed<Seq<char>> {
    match LiteralView::read(input) {
        Ok((next, literal)) => match literal {
            LiteralView::String(source) => match next.expect_eol() {
                Ok(end) => Ok((end, source)),
                Err(e) => Err(e),
            },
            _ => Err(input.unexpected("a string literal"@)),
        },
        Err(e) => Err(e),
    }
}

/// One member of a class, added to what the class holds already: its
/// superclass, an interface, its source file, an annotation, a field or a
/// method.
#[verifier::opaque]
pub open spec fn read_class_member(input: Cursor, class: ClassView) -> Parsed<ClassView> {
    match input.read_directive() {
        Ok((next, directive)) => if directive == "super"@ {
            match read_super_class(next) {
                Ok((end, super_class)) => Ok((end, ClassView { super_class, ..class })),
                Err(e) => Err(e),
            }
        } else if directive == "implements"@ {
            match read_interface(next) {
                Ok((end, interface)) => Ok(
                    (end, ClassView { interfaces: class.interfaces.push(interface), ..class }),
                ),
                Err(e) => Err(e),
            }
        } else if directive == "source"@ {
            match read_source_file(next) {
                Ok((end, source)) => Ok((end, ClassView { source_file: Some(source), ..class })),
                Err(e) => Err(e),
            }
        } else if directive == "annotation"@ {
            match read_annotation(next, false) {
                Ok((end, annotation)) => Ok(
                    (end, ClassView { annotations: class.annotations.push(annotation), ..class }),
                ),
                Err(e) => Err(e),
            }
        } else if directive == "field"@ {
            match FieldView::read(next) {
                Ok((end, field)) => Ok((end, ClassView { fields: class.fields.push(field), ..class })),
                Err(e) => Err(e),
            }
        } else if directive == "method"@ {
            match MethodView::read(next) {
                Ok((end, method)) => Ok(
                    (end, ClassView { methods: class.methods.push(method), ..class }),
                ),
                Err(e) => Err(e),
            }
        } else {
            Err(input.unexpected("a supported directive"@))
        },
        Err(e) => Err(e),
    }
}

/// The members of a class up to the end of the input, added to `class`.
pub open spec fn read_class_members(input: Cursor, class: ClassView) -> Parsed<ClassView>
    decreases input.text.len() - input.pos,
{
    if input.expect_eof() is Ok {
        Ok((input, class))
    } else {
        match read_class_member(input, class) {
            Ok((next, grown)) => if next.follows(input) && input.pos < next.pos {
                read_class_members(next, grown)
            } else {
                Err(input.unexpected(Seq::empty()))
            },
            Err(e) => Err(e),
        }
    }
}

/// The first `n` fields as the output writes them; an empty line stands
/// between two members of a class.
pub open spec fn fields_jimple(fields: Seq<FieldView>, n: int) -> Seq<char>
    decreases n,
{
    if n <= 0 {
        Seq::empty()
    } else {
        fields_jimple(fields, n - 1) + (if n > 1 {
            "\n"@
        } else {
            Seq::empty()
        }) + fields[n - 1].jimple()
    }
}

/// The first `n` methods as the output writes them behind the fields.
pub open spec fn methods_jimple(methods: Seq<MethodView>, n: int, first: bool) -> Seq<char>
    decreases n,
{
    if n <= 0 {
        Seq::empty()
    } else {
        methods_jimple(methods, n - 1, first) + (if n > 1 || !first {
            "\n"@
        } else {
            Seq::empty()
        }) + methods[n - 1].jimple()
    }
}

/// What writing the first `n` methods warns of.
pub open spec fn methods_warnings(methods: Seq<MethodView>, n: int) -> Seq<WarningView>
    decreases n,
{
    if n <= 0 {
        Seq::empty()
    } else {
        methods_warnings(methods, n - 1) + methods[n - 1].jimple_warnings()
    }
}

/// The first `n` methods with their bodies rewritten.
pub open spec fn methods_optimized(methods: Seq<MethodView>, n: int) -> Seq<MethodView>
    decreases n,
{
    if n <= 0 {
        Seq::empty()
    } else {
        methods_optimized(methods, n - 1).push(
            MethodView {
                instructions: optimized(
                    methods[n - 1].instructions,
                    methods[n - 1].described(),
                ).done,
                ..methods[n - 1]
            },
        )
    }
}

/// What rewriting the bodies of the first `n` methods warns of.
pub open spec fn optimization_warnings(methods: Seq<MethodView>, n: int) -> Seq<WarningView>
    decreases n,
{
    if n <= 0 {
        Seq::empty()
    } else {
        optimization_warnings(methods, n - 1) + optimized(
            methods[n - 1].instructions,
            methods[n - 1].described(),
        ).warnings
    }
}

impl ClassView {
    /// A class of the given type and flags that holds nothing yet.
    pub open spec fn declared(class_type: TypeView, access_flags: Seq<AccessFlag>) -> ClassView {
        ClassView {
            class_type,
            access_flags,
            super_class: None,
            interfaces: Seq::empty(),
            source_file: None,
            annotations: Seq::empty(),
            fields: Seq::empty(),
            methods: Seq::empty(),
        }
    }

    /// A whole input: `.class`, the access flags and the type, then the
    /// members of the class up to the end of the input.
    pub open spec fn read(input: Cursor) -> Parsed<ClassView> {
        match input.expect_directive("class"@) {
            Ok(next) => {
                let (next, access_flags) = AccessFlag::read_list_spec(next);
                match TypeView::read(next) {
                    Ok((next, class_type)) => match next.expect_eol() {
                        Ok(next) => read_class_members(
                            next,
                            ClassView::declared(class_type, access_flags),
                        ),
                        Err(e) => Err(e),
                    },
                    Err(e) => Err(e),
                }
            },
            Err(e) => Err(e),
        }
    }

    /// The word that the output declares the class with.
    pub open spec fn keyword(self) -> Seq<char> {
        if self.access_flags.contains(AccessFlag::Interface) {
            "interface"@
        } else if self.access_flags.contains(AccessFlag::Annotation) {
            "@interface"@
        } else if self.access_flags.contains(AccessFlag::Enum) {
            "enum"@
        } else {
            "class"@
        }
    }

    /// What the declaration says of the superclass.
    pub open spec fn extension(self) -> Seq<char> {
        match self.super_class {
            Some(super_class) => " extends "@ + super_class.name(),
            None => Seq::empty(),
        }
    }

    /// What the declaration says of the interfaces.
    pub open spec fn implementation(self) -> Seq<char> {
        if self.interfaces.len() > 0 {
            " implements "@ + joined(type_names(self.interfaces), ", "@)
        } else {
            Seq::empty()
        }
    }

    /// The declaration of the class: modifiers, keyword and type, what it
    /// extends and what it implements.
    pub open spec fn declaration(self) -> Seq<char> {
        AccessFlag::modifiers(self.access_flags, self.access_flags.len() as int) + self.keyword()
            + " "@ + self.class_type.name() + self.extension() + self.implementation() + "\n"@
    }

    /// The class as the output writes it.
    pub open spec fn jimple(self) -> Seq<char> {
        (match self.source_file {
            Some(source_file) => "// source: "@ + source_file + "\n"@,
            None => Seq::empty(),
        }) + annotations_jimple(self.annotations, 0, Seq::empty(), self.annotations.len() as int)
            + self.declaration() + "{\n"@ + fields_jimple(self.fields, self.fields.len() as int)
            + methods_jimple(self.methods, self.methods.len() as int, self.fields.len() == 0)
            + "}\n"@
    }

    /// What writing the class warns of.
    pub open spec fn jimple_warnings(self) -> Seq<WarningView> {
        methods_warnings(self.methods, self.methods.len() as int)
    }
}

fn has_flag(flags: &Vec<AccessFlag>, flag: AccessFlag) -> (r: bool)
    ensures
        r == flags@.contains(flag),
{
    let mut i: usize = 0;
    while i < flags.len()
        invariant
            i <= flags@.len(),
            forall|j: int| 0 <= j < i ==> flags@[j] != flag,
        decreases flags@.len() - i,
    {
        if flags[i] == flag {
            return true;
        }
        i += 1;
    }
    false
}

impl Class {
    pub fn read_super_class(input: &Tokenizer) -> (r: Result<(Tokenizer, Option<Type>), ParseError>)
        ensures
            parsed(r, read_super_class(input@)),
            r matches Ok((t, _)) ==> t@.follows(input@) && t@.pos > input@.pos,
    {
        let (next, super_class) = Type::read(input)?;
        let end = next.expect_eol()?;
        let root = match &super_class {
            Type::Object(name) => str_eq(name.as_str(), "java.lang.Object") || str_eq(
                name.as_str(),
                "java.lang.Enum",
            ),
            _ => false,
        };
        Ok(
            (
                end,
                if root {
                    None
                } else {
                    Some(super_class)
                },
            ),
        )
    }

    pub fn read_interface(input: &Tokenizer) -> (r: Result<(Tokenizer, Type), ParseError>)
        ensures
            parsed(r, read_interface(input@)),
            r matches Ok((t, _)) ==> t@.follows(input@) && t@.pos > input@.pos,
    {
        let (next, interface) = Type::read(input)?;
        let end = next.expect_eol()?;
        Ok((end, interface))
    }

    pub fn read_source_file(input: &Tokenizer) -> (r: Result<(Tokenizer, String), ParseError>)
        ensures
            parsed(r, read_source_file(input@)),
            r matches Ok((t, _)) ==> t@.follows(input@) && t@.pos > input@.pos,
    {
        let (next, literal) = Literal::read(input)?;
        match literal {
            Literal::String(source) => {
                let end = next.expect_eol()?;
                Ok((end, source))
            },
            _ => Err(input.unexpected("a string literal".to_owned())),
        }
    }

    /// Reads one member of the class and adds it to the class.
    fn read_member(&mut self, input: &Tokenizer) -> (r: Result<Tokenizer, ParseError>)
        ensures
            match r {
                Ok(t) => read_class_member(input@, old(self)@) == Ok::<
                    (Cursor, ClassView),
                    ParseErrorView,
                >((t@, final(self)@)) && t@.follows(input@) && t@.pos > input@.pos,
                Err(e) => read_class_member(input@, old(self)@) == Err::<
                    (Cursor, ClassView),
                    ParseErrorView,
                >(e@),
            },
    {
        reveal(read_class_member);
        let (next, directive) = input.read_directive()?;
        let name = directive.as_str();
        if str_eq(name, "super") {
            let (end, super_class) = Self::read_super_class(&next)?;
            self.super_class = super_class;
            Ok(end)
        } else if str_eq(name, "implements") {
            let (end, interface) = Self::read_interface(&next)?;
            let ghost had = type_views(self.interfaces@);
            self.interfaces.push(interface);
            assert(type_views(self.interfaces@) =~= had.push(interface@));
            Ok(end)
        } else if str_eq(name, "source") {
            let (end, file_name) = Self::read_source_file(&next)?;
            self.source_file = Some(file_name);
            Ok(end)
        } else if str_eq(name, "annotation") {
            let (end, annotation) = Annotation::read(&next, false)?;
            let ghost had = self.annotations.deep_view();
            self.annotations.push(annotation);
            assert(self.annotations.deep_view() =~= had.push(annotation@));
            Ok(end)
        } else if str_eq(name, "field") {
            let (end, field) = Field::read(&next)?;
            let ghost had = self.fields.deep_view();
            self.fields.push(field);
            assert(self.fields.deep_view() =~= had.push(field@));
            Ok(end)
        } else if str_eq(name, "method") {
            let (end, method) = Method::read(&next)?;
            let ghost had = self.methods.deep_view();
            self.methods.push(method);
            assert(self.methods.deep_view() =~= had.push(method@));
            Ok(end)
        } else {
            Err(input.unexpected("a supported directive".to_owned()))
        }
    }

    pub fn read(input: &Tokenizer) -> (r: Result<(Tokenizer, Self), ParseError>)
        ensures
            parsed(r, ClassView::read(input@)),
    {
        let next = input.expect_directive("class")?;
        let (next, access_flags) = AccessFlag::read_list(&next);
        let (next, class_type) = Type::read(&next)?;
        let first = next.expect_eol()?;
        let mut class = Class {
            class_type,
            access_flags,
            super_class: None,
            interfaces: Vec::new(),
            source_file: None,
            annotations: Vec::new(),
            fields: Vec::new(),
            methods: Vec::new(),
        };
        proof {
            assert(type_views(class.interfaces@) =~= Seq::<TypeView>::empty());
            assert(class.annotations.deep_view() =~= Seq::<AnnotationView>::empty());
            assert(class.fields.deep_view() =~= Seq::<FieldView>::empty());
            assert(class.methods.deep_view() =~= Seq::<MethodView>::empty());
        }
        let ghost whole = read_class_members(first@, class@);
        let mut cursor = first.clone();
        while cursor.expect_eof().is_err()
            invariant
                cursor@.follows(first@),
                whole == ClassView::read(input@),
                read_class_members(cursor@, class@) == whole,
            decreases cursor@.text.len() - cursor@.pos,
        {
            let next = match class.read_member(&cursor) {
                Ok(next) => next,
                Err(e) => {
                    return Err(e);
                },
            };
            cursor = next;
        }
        Ok((cursor, class))
    }

    /// Rewrites the body of every method of the class.
    pub fn optimize(&mut self, warnings: &mut Vec<Warning>)
        ensures
            final(self)@ == (ClassView {
                methods: methods_optimized(old(self)@.methods, old(self)@.methods.len() as int),
                ..old(self)@
            }),
            final(warnings).deep_view() == old(warnings).deep_view() + optimization_warnings(
                old(self)@.methods,
                old(self)@.methods.len() as int,
            ),
    {
        let ghost before = self.methods.deep_view();
        let ghost warned = warnings.deep_view();
        let mut i: usize = 0;
        assert(warned + optimization_warnings(before, 0) =~= warned);
        while i < self.methods.len()
            invariant
                i <= self.methods@.len(),
                self.methods@.len() == before.len(),
                self.methods.deep_view().take(i as int) == methods_optimized(before, i as int),
                forall|j: int| i <= j < before.len() ==> (#[trigger] self.methods.deep_view()[j])
                    == before[j],
                warnings.deep_view() == warned + optimization_warnings(before, i as int),
                self.class_type == old(self).class_type,
                self.access_flags == old(self).access_flags,
                self.super_class == old(self).super_class,
                self.interfaces == old(self).interfaces,
                self.source_file == old(self).source_file,
                self.annotations == old(self).annotations,
                self.fields == old(self).fields,
            decreases self.methods@.len() - i,
        {
            let ghost all = self.methods.deep_view();
            assert(all[i as int] == self.methods@[i as int]@);
            let method = &mut self.methods[i];
            method.optimize(warnings);
            proof {
                let rewritten = MethodView {
                    instructions: optimized(before[i as int].instructions, before[i as int].described()).done,
                    ..before[i as int]
                };
                assert(self.methods@[i as int]@ == rewritten);
                assert(self.methods.deep_view() =~= all.update(i as int, rewritten));
                assert(self.methods.deep_view().take(i + 1) =~= methods_optimized(
                    before,
                    i as int,
                ).push(rewritten));
                assert(warnings.deep_view() =~= warned + (optimization_warnings(before, i as int)
                    + optimized(before[i as int].instructions, before[i as int].described()).warnings));
            }
            i += 1;
        }
        proof {
            assert(self.methods.deep_view().take(i as int) =~= self.methods.deep_view());
        }
    }

    fn keyword(&self) -> (r: &'static str)
        ensures
            r@ == self@.keyword(),
    {
        if has_flag(&self.access_flags, AccessFlag::Interface) {
            "interface"
        } else if has_flag(&self.access_flags, AccessFlag::Annotation) {
            "@interface"
        } else if has_flag(&self.access_flags, AccessFlag::Enum) {
            "enum"
        } else {
            "class"
        }
    }

    fn write_extension(&self, output: &mut String)
        ensures
            final(output)@ == old(output)@ + self@.extension(),
    {
        let ghost before = output@;
        match &self.super_class {
            Some(super_class) => {
                output.append(" extends ");
                output.append(super_class.get_name().as_str());
                assert(output@ =~= before + self@.extension());
            },
            None => {
                assert(before + Seq::<char>::empty() =~= before);
            },
        }
    }

    fn write_implementation(&self, output: &mut String)
        ensures
            final(output)@ == old(output)@ + self@.implementation(),
    {
        let ghost before = output@;
        if self.interfaces.len() > 0 {
            output.append(" implements ");
            push_type_names(output, &self.interfaces);
            assert(output@ =~= before + self@.implementation());
        } else {
            assert(before + Seq::<char>::empty() =~= before);
        }
    }

    fn write_declaration(&self, output: &mut String)
        ensures
            final(output)@ == old(output)@ + self@.declaration(),
    {
        let ghost before = output@;
        AccessFlag::write_jimple_list(output, self.access_flags.as_slice());
        output.append(self.keyword());
        output.append(" ");
        output.append(self.class_type.get_name().as_str());
        self.write_extension(output);
        self.write_implementation(output);
        output.append("\n");
        assert(output@ =~= before + self@.declaration());
    }

    fn write_fields(&self, output: &mut String)
        ensures
            final(output)@ == old(output)@ + fields_jimple(self@.fields, self@.fields.len() as int),
    {
        let ghost before = output@;
        let ghost views = self.fields.deep_view();
        let mut i: usize = 0;
        assert(before + fields_jimple(views, 0) =~= before);
        while i < self.fields.len()
            invariant
                i <= self.fields@.len(),
                views == self.fields.deep_view(),
                output@ == before + fields_jimple(views, i as int),
            decreases self.fields@.len() - i,
        {
            let ghost so_far = output@;
            assert(views[i as int] == self.fields@[i as int]@);
            if i > 0 {
                output.append("\n");
            } else {
                assert(so_far + Seq::<char>::empty() =~= so_far);
            }
            self.fields[i].write_jimple(output);
            i += 1;
            assert(output@ =~= before + fields_jimple(views, i as int));
        }
    }

    fn write_methods(&self, output: &mut String, warnings: &mut Vec<Warning>)
        ensures
            final(output)@ == old(output)@ + methods_jimple(
                self@.methods,
                self@.methods.len() as int,
                self@.fields.len() == 0,
            ),
            final(warnings).deep_view() == old(warnings).deep_view() + methods_warnings(
                self@.methods,
                self@.methods.len() as int,
            ),
    {
        let ghost before = output@;
        let ghost warned = warnings.deep_view();
        let ghost views = self.methods.deep_view();
        let first = self.fields.len() == 0;
        let mut i: usize = 0;
        assert(before + methods_jimple(views, 0, first) =~= before);
        assert(warned + methods_warnings(views, 0) =~= warned);
        while i < self.methods.len()
            invariant
                i <= self.methods@.len(),
                views == self.methods.deep_view(),
                first == (self@.fields.len() == 0),
                output@ == before + methods_jimple(views, i as int, first),
                warnings.deep_view() == warned + methods_warnings(views, i as int),
            decreases self.methods@.len() - i,
        {
            let ghost so_far = output@;
            assert(views[i as int] == self.methods@[i as int]@);
            if i > 0 || !first {
                output.append("\n");
            } else {
                assert(so_far + Seq::<char>::empty() =~= so_far);
            }
            self.methods[i].write_jimple(output, warnings);
            i += 1;
            assert(output@ =~= before + methods_jimple(views, i as int, first));
            assert(warnings.deep_view() =~= warned + methods_warnings(views, i as int));
        }
    }

    /// Appends the class to `output`, and to `warnings` what writing its
    /// methods warns of.
    pub fn write_jimple(&self, output: &mut String, warnings: &mut Vec<Warning>)
        ensures
            final(output)@ == old(output)@ + self@.jimple(),
            final(warnings).deep_view() == old(warnings).deep_view() + self@.jimple_warnings(),
    {
        let ghost before = output@;
        match &self.source_file {
            Some(source_file) => {
                output.append("// source: ");
                output.append(source_file.as_str());
                output.append("\n");
            },
            None => {
                assert(before + Seq::<char>::empty() =~= before);
            },
        }
        write_annotations(&self.annotations, output, 0, "");
        proof {
            reveal_strlit("");
            assert(""@ =~= Seq::<char>::empty());
        }
        self.write_declaration(output);
        output.append("{\n");
        self.write_fields(output);
        self.write_methods(output, warnings);
        output.append("}\n");
        assert(output@ =~= before + self@.jimple());
    }
}

} // verus!
