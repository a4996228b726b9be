//! Annotations of classes, fields, methods and parameters.

use vstd::prelude::*;
use vstd::string::*;
use crate::error::{Error, ParseError, ParseErrorView};
use crate::literal::{Literal, LiteralView};
use crate::text::str_eq;
use crate::tokenizer::{parsed, Cursor, Parsed, Tokenizer};
use crate::types::{Type, TypeView};

verus! {

broadcast use vstd::string::group_string_axioms;

/// Who gets to see an annotation.
#[derive(Debug, Clone, Copy, PartialEq, Eq, Structural)]
pub enum AnnotationVisibility {
    Build,
    Runtime,
    System,
}

impl View for AnnotationVisibility {
    type V = AnnotationVisibility;

    open spec fn view(&self) -> AnnotationVisibility {
        *self
    }
}

impl DeepView for AnnotationVisibility {
    type V = AnnotationVisibility;

    open spec fn deep_view(&self) -> AnnotationVisibility {
        *self
    }
}

#[derive(Debug, PartialEq)]
pub enum AnnotationParameterValue {
    Literal(Literal),
    Enum(Type, String),
    Array(Vec<AnnotationParameterValue>),
    SubAnnotation(Annotation),
}

#[derive(Debug, PartialEq)]
pub struct AnnotationParameter {
    pub name: String,
    pub value: AnnotationParameterValue,
}

#[derive(Debug, PartialEq)]
pub struct Annotation {
    pub annotation_type: Type,
    pub visibility: AnnotationVisibility,
    pub parameters: Vec<AnnotationParameter>,
}

pub enum AnnotationParameterValueView {
    Literal(LiteralView),
    Enum(TypeView, Seq<char>),
    Array(Seq<AnnotationParameterValueView>),
    SubAnnotation(AnnotationView),
}

pub struct AnnotationParameterView {
    pub name: Seq<char>,
    pub value: AnnotationParameterValueView,
}

pub struct AnnotationView {
    pub annotation_type: TypeView,
    pub visibility: AnnotationVisibility,
    pub parameters: Seq<AnnotationParameterView>,
}

impl AnnotationParameterValue {
    /// What the value stands for.
    pub open spec fn model(&self) -> AnnotationParameterValueView
        decreases self,
    {
        match self {
            AnnotationParameterValue::Literal(literal) => AnnotationParameterValueView::Literal(
                literal@,
            ),
            AnnotationParameterValue::Enum(class, constant) => AnnotationParameterValueView::Enum(
                class@,
                constant@,
            ),
            AnnotationParameterValue::Array(values) => AnnotationParameterValueView::Array(
                Seq::new(
                    values@.len(),
                    |i: int|
                        if 0 <= i < values@.len() {
                            values@[i].model()
                        } else {
                            arbitrary()
                        },
                ),
            ),
            AnnotationParameterValue::SubAnnotation(annotation) => AnnotationParameterValueView::SubAnnotation(
            annotation.model()),
        }
    }
}

impl AnnotationParameter {
    /// What the parameter stands for.
    pub open spec fn model(&self) -> AnnotationParameterView
        decreases self,
    {
        AnnotationParameterView { name: self.name@, value: self.value.model() }
    }
}

impl Annotation {
    /// What the annotation stands for.
    pub open spec fn model(&self) -> AnnotationView
        decreases self,
    {
        AnnotationView {
            annotation_type: self.annotation_type@,
            visibility: self.visibility,
            parameters: Seq::new(
                self.parameters@.len(),
                |i: int|
                    if 0 <= i < self.parameters@.len() {
                        self.parameters@[i].model()
                    } else {
                        arbitrary()
                    },
            ),
        }
    }
}

impl View for AnnotationParameterValue {
    type V = AnnotationParameterValueView;

    open spec fn view(&self) -> AnnotationParameterValueView {
        self.model()
    }
}

impl DeepView for AnnotationParameterValue {
    type V = AnnotationParameterValueView;

    open spec fn deep_view(&self) -> AnnotationParameterValueView {
        self.model()
    }
}

impl View for AnnotationParameter {
    type V = AnnotationParameterView;

    open spec fn view(&self) -> AnnotationParameterView {
        self.model()
    }
}

impl DeepView for AnnotationParameter {
    type V = AnnotationParameterView;

    open spec fn deep_view(&self) -> AnnotationParameterView {
        self.model()
    }
}

impl View for Annotation {
    type V = AnnotationView;

    open spec fn view(&self) -> AnnotationView {
        self.model()
    }
}

impl DeepView for Annotation {
    type V = AnnotationView;

    open spec fn deep_view(&self) -> AnnotationView {
        self.model()
    }
}

/// `prefix` put in front of the values that a list yields.
pub open spec fn with_front<V>(prefix: Seq<V>, r: Parsed<Seq<V>>) -> Parsed<Seq<V>> {
    match r {
        Ok((end, rest)) => Ok((end, prefix + rest)),
        Err(e) => Err(e),
    }
}

proof fn lemma_with_front_push<V>(acc: Seq<V>, v: V, r: Parsed<Seq<V>>)
    ensures
        with_front(acc, with_front(seq![v], r)) == with_front(acc.push(v), r),
{
    match r {
        Ok((end, rest)) => {
            assert(acc + (seq![v] + rest) =~= acc.push(v) + rest);
        },
        Err(_) => {},
    }
}

proof fn lemma_with_front_empty<V>(r: Parsed<Seq<V>>)
    ensures
        with_front(Seq::empty(), r) == r,
{
    match r {
        Ok((end, rest)) => {
            assert(Seq::<V>::empty() + rest =~= rest);
        },
        Err(_) => {},
    }
}

impl AnnotationVisibility {
    /// The visibility that a keyword names.
    pub open spec fn of_keyword(keyword: Seq<char>) -> Option<AnnotationVisibility> {
        if keyword == "build"@ {
            Some(AnnotationVisibility::Build)
        } else if keyword == "runtime"@ {
            Some(AnnotationVisibility::Runtime)
        } else if keyword == "system"@ {
            Some(AnnotationVisibility::System)
        } else {
            None
        }
    }

    pub open spec fn read_spec(input: Cursor) -> Parsed<AnnotationVisibility> {
        match input.read_keyword() {
            Ok((end, keyword)) => match AnnotationVisibility::of_keyword(keyword) {
                Some(visibility) => Ok((end, visibility)),
                None => Err(input.unexpected("annotation visibility"@)),
            },
            Err(e) => Err(e),
        }
    }

    /// The visibility that `value` names, or the error that holds `value`.
    pub fn try_from(value: &str) -> (r: Result<Self, Error>)
        ensures
            match r {
                Ok(visibility) => AnnotationVisibility::of_keyword(value@) == Some(visibility),
                Err(e) => AnnotationVisibility::of_keyword(value@) is None && (e
                    matches Error::UnrecognizedToken(token) && token@ == value@),
            },
    {
        if str_eq(value, "build") {
            Ok(AnnotationVisibility::Build)
        } else if str_eq(value, "runtime") {
            Ok(AnnotationVisibility::Runtime)
        } else if str_eq(value, "system") {
            Ok(AnnotationVisibility::System)
        } else {
            Err(Error::UnrecognizedToken(value.to_owned()))
        }
    }

    pub fn read(input: &Tokenizer) -> (r: Result<(Tokenizer, Self), ParseError>)
        ensures
            parsed(r, AnnotationVisibility::read_spec(input@)),
            r matches Ok((t, _)) ==> t@.follows(input@) && t@.pos > input@.pos,
    {
        let (end, keyword) = input.read_keyword()?;
        match Self::try_from(keyword.as_str()) {
            Ok(visibility) => Ok((end, visibility)),
            Err(_) => Err(input.unexpected("annotation visibility".to_owned())),
        }
    }
}

/// An enum constant: the type, an arrow, the constant, a colon and the type
/// once more.
pub open spec fn read_enum(input: Cursor) -> Parsed<AnnotationParameterValueView> {
    match TypeView::read(input) {
        Ok((next, class)) => match crate::types::expect_arrow(next) {
            Ok(next) => match next.read_keyword() {
                Ok((next, constant)) => match next.expect_char(':') {
                    Ok(next) => match TypeView::read(next) {
                        Ok((end, again)) => if class == again {
                            Ok((end, AnnotationParameterValueView::Enum(class, constant)))
                        } else {
                            Err(next.unexpected(class.name()))
                        },
                        Err(e) => Err(e),
                    },
                    Err(e) => Err(e),
                },
                Err(e) => Err(e),
            },
            Err(e) => Err(e),
        },
        Err(e) => Err(e),
    }
}

/// One value of an annotation parameter: an enum constant, an annotation, a
/// list of values between braces, or a literal.
pub open spec fn read_value(input: Cursor) -> Parsed<AnnotationParameterValueView>
    decreases input.text.len() - input.pos, 0int,
{
    match input.expect_directive("enum"@) {
        Ok(next) => read_enum(next),
        Err(_) => match input.expect_directive("subannotation"@) {
            Ok(next) => if next.follows(input) && input.pos < next.pos {
                match read_annotation(next, true) {
                    Ok((end, annotation)) => Ok(
                        (end, AnnotationParameterValueView::SubAnnotation(annotation)),
                    ),
                    Err(e) => Err(e),
                }
            } else {
                Err(input.unexpected(Seq::empty()))
            },
            Err(_) => match input.expect_char('{') {
                Ok(inside) => {
                    let entries: Parsed<Seq<AnnotationParameterValueView>> = if inside.expect_char(
                        '}',
                    ) is Ok {
                        Ok((inside, Seq::empty()))
                    } else {
                        match inside.expect_eol() {
                            Ok(first) => if first.follows(input) && input.pos < first.pos {
                                read_entries(first)
                            } else {
                                Err(input.unexpected(Seq::empty()))
                            },
                            Err(e) => Err(e),
                        }
                    };
                    match entries {
                        Ok((end, values)) => match end.expect_char('}') {
                            Ok(after) => Ok((after, AnnotationParameterValueView::Array(values))),
                            Err(e) => Err(e),
                        },
                        Err(e) => Err(e),
                    }
                },
                Err(_) => match LiteralView::read(input) {
                    Ok((end, literal)) => Ok((end, AnnotationParameterValueView::Literal(literal))),
                    Err(e) => Err(e),
                },
            },
        },
    }
}

/// The values of a list, one a line, each with an optional comma behind it,
/// up to the closing brace, which is not stepped over.
pub open spec fn read_entries(input: Cursor) -> Parsed<Seq<AnnotationParameterValueView>>
    decreases input.text.len() - input.pos, 1int,
{
    if input.expect_char('}') is Ok {
        Ok((input, Seq::empty()))
    } else {
        match read_value(input) {
            Ok((next, entry)) => {
                let next = match next.expect_char(',') {
                    Ok(after) => after,
                    Err(_) => next,
                };
                match next.expect_eol() {
                    Ok(line) => if line.follows(input) && input.pos < line.pos {
                        with_front(seq![entry], read_entries(line))
                    } else {
                        Err(input.unexpected(Seq::empty()))
                    },
                    Err(e) => Err(e),
                }
            },
            Err(e) => Err(e),
        }
    }
}

/// One parameter of an annotation: a name, an equals sign, a value and the
/// end of the line.
pub open spec fn read_parameter(input: Cursor) -> Parsed<AnnotationParameterView>
    decreases input.text.len() - input.pos, 2int,
{
    match input.read_keyword() {
        Ok((next, name)) => match next.expect_char('=') {
            Ok(next) => if next.follows(input) && input.pos < next.pos {
                match read_value(next) {
                    Ok((next, value)) => match next.expect_eol() {
                        Ok(end) => Ok((end, AnnotationParameterView { name, value })),
                        Err(e) => Err(e),
                    },
                    Err(e) => Err(e),
                }
            } else {
                Err(input.unexpected(Seq::empty()))
            },
            Err(e) => Err(e),
        },
        Err(e) => Err(e),
    }
}

/// The parameters of an annotation up to the directive `end`, which is not
/// stepped over.
pub open spec fn read_parameters(input: Cursor) -> Parsed<Seq<AnnotationParameterView>>
    decreases input.text.len() - input.pos, 3int,
{
    if input.expect_directive("end"@) is Ok {
        Ok((input, Seq::empty()))
    } else {
        match read_parameter(input) {
            Ok((next, parameter)) => if next.follows(input) && input.pos < next.pos {
                with_front(seq![parameter], read_parameters(next))
            } else {
                Err(input.unexpected(Seq::empty()))
            },
            Err(e) => Err(e),
        }
    }
}

/// What follows `.annotation` or `.subannotation`: the visibility, which an
/// annotation inside another does not have, the type, the parameters one a
/// line, and the closing directive. Behind an annotation that stands on its
/// own the line ends.
pub open spec fn read_annotation(input: Cursor, subannotation: bool) -> Parsed<AnnotationView>
    decreases input.text.len() - input.pos, 4int,
{
    let head: Parsed<AnnotationVisibility> = if subannotation {
        Ok((input, AnnotationVisibility::Build))
    } else {
        AnnotationVisibility::read_spec(input)
    };
    match head {
        Ok((next, visibility)) => match TypeView::read(next) {
            Ok((next, annotation_type)) => match next.expect_eol() {
                Ok(next) => if next.follows(input) && input.pos < next.pos {
                    match read_parameters(next) {
                        Ok((next, parameters)) => match next.expect_directive("end"@) {
                            Ok(next) => {
                                let end = if subannotation {
                                    next.expect_keyword("subannotation"@)
                                } else {
                                    match next.expect_keyword("annotation"@) {
                                        Ok(next) => next.expect_eol(),
                                        Err(e) => Err(e),
                                    }
                                };
                                match end {
                                    Ok(end) => Ok(
                                        (
                                            end,
                                            AnnotationView { annotation_type, visibility, parameters },
                                        ),
                                    ),
                                    Err(e) => Err(e),
                                }
                            },
                            Err(e) => Err(e),
                        },
                        Err(e) => Err(e),
                    }
                } else {
                    Err(input.unexpected(Seq::empty()))
                },
                Err(e) => Err(e),
            },
            Err(e) => Err(e),
        },
        Err(e) => Err(e),
    }
}

impl AnnotationParameterValue {
    fn read_enum(input: &Tokenizer) -> (r: Result<(Tokenizer, Self), ParseError>)
        ensures
            parsed(r, read_enum(input@)),
            r matches Ok((t, _)) ==> t@.follows(input@) && t@.pos > input@.pos,
    {
        let (next, enum_type) = Type::read(input)?;
        let next = next.expect_char('-')?;
        let next = next.expect_char('>')?;
        let (next, value) = next.read_keyword()?;
        let next = next.expect_char(':')?;
        let (end, enum_type2) = Type::read(&next)?;
        if !enum_type.same(&enum_type2) {
            return Err(next.unexpected(enum_type.get_name()));
        }
        Ok((end, AnnotationParameterValue::Enum(enum_type, value)))
    }

    fn read_entries(input: &Tokenizer) -> (r: Result<(Tokenizer, Vec<Self>), ParseError>)
        ensures
            parsed(r, read_entries(input@)),
            r matches Ok((t, _)) ==> t@.follows(input@),
        decreases input@.text.len() - input@.pos, 1int,
    {
        let mut cursor = input.clone();
        let mut entries: Vec<Self> = Vec::new();
        let _ = input.offset();
        proof {
            lemma_with_front_empty(read_entries(input@));
            assert(entries.deep_view() =~= Seq::<AnnotationParameterValueView>::empty());
        }
        while cursor.expect_char('}').is_err()
            invariant
                cursor@.follows(input@),
                read_entries(input@) == with_front(entries.deep_view(), read_entries(cursor@)),
            decreases cursor@.text.len() - cursor@.pos,
        {
            let ghost acc = entries.deep_view();
            let ghost before = cursor@;
            let (next, entry) = Self::read(&cursor)?;
            let next = match next.expect_char(',') {
                Ok(after) => after,
                Err(_) => next,
            };
            let line = next.expect_eol()?;
            proof {
                lemma_with_front_push(acc, entry@, read_entries(line@));
            }
            cursor = line;
            entries.push(entry);
            assert(entries.deep_view() =~= acc.push(entry@));
        }
        proof {
            assert(entries.deep_view() + Seq::<AnnotationParameterValueView>::empty()
                =~= entries.deep_view());
        }
        Ok((cursor, entries))
    }

    pub fn read(input: &Tokenizer) -> (r: Result<(Tokenizer, Self), ParseError>)
        ensures
            parsed(r, read_value(input@)),
            r matches Ok((t, _)) ==> t@.follows(input@) && t@.pos > input@.pos,
        decreases input@.text.len() - input@.pos, 0int,
    {
        if let Ok(next) = input.expect_directive("enum") {
            Self::read_enum(&next)
        } else if let Ok(next) = input.expect_directive("subannotation") {
            let (end, annotation) = Annotation::read(&next, true)?;
            Ok((end, AnnotationParameterValue::SubAnnotation(annotation)))
        } else if let Ok(inside) = input.expect_char('{') {
            let (end, entries) = if inside.expect_char('}').is_ok() {
                let entries: Vec<Self> = Vec::new();
                assert(entries.deep_view() =~= Seq::<AnnotationParameterValueView>::empty());
                (inside, entries)
            } else {
                let first = inside.expect_eol()?;
                Self::read_entries(&first)?
            };
            let after = end.expect_char('}')?;
            proof {
                assert(AnnotationParameterValue::Array(entries)@
                    == AnnotationParameterValueView::Array(entries.deep_view())) by {
                    assert(AnnotationParameterValue::Array(entries).model()->Array_0
                        =~= entries.deep_view());
                }
            }
            Ok((after, AnnotationParameterValue::Array(entries)))
        } else {
            let (end, value) = Literal::read(input)?;
            Ok((end, AnnotationParameterValue::Literal(value)))
        }
    }
}

impl AnnotationParameter {
    pub fn read(input: &Tokenizer) -> (r: Result<(Tokenizer, Self), ParseError>)
        ensures
            parsed(r, read_parameter(input@)),
            r matches Ok((t, _)) ==> t@.follows(input@) && t@.pos > input@.pos,
        decreases input@.text.len() - input@.pos, 2int,
    {
        let (next, name) = input.read_keyword()?;
        let next = next.expect_char('=')?;
        let (next, value) = AnnotationParameterValue::read(&next)?;
        let end = next.expect_eol()?;
        Ok((end, AnnotationParameter { name, value }))
    }
}

impl Annotation {
    fn read_parameters(input: &Tokenizer) -> (r: Result<(Tokenizer, Vec<AnnotationParameter>), ParseError>)
        ensures
            parsed(r, read_parameters(input@)),
            r matches Ok((t, _)) ==> t@.follows(input@),
        decreases input@.text.len() - input@.pos, 3int,
    {
        let mut cursor = input.clone();
        let mut parameters: Vec<AnnotationParameter> = Vec::new();
        let _ = input.offset();
        proof {
            lemma_with_front_empty(read_parameters(input@));
            assert(parameters.deep_view() =~= Seq::<AnnotationParameterView>::empty());
        }
        while cursor.expect_directive("end").is_err()
            invariant
                cursor@.follows(input@),
                read_parameters(input@) == with_front(
                    parameters.deep_view(),
                    read_parameters(cursor@),
                ),
            decreases cursor@.text.len() - cursor@.pos,
        {
            let ghost acc = parameters.deep_view();
            let (next, parameter) = AnnotationParameter::read(&cursor)?;
            proof {
                lemma_with_front_push(acc, parameter@, read_parameters(next@));
            }
            cursor = next;
            parameters.push(parameter);
            assert(parameters.deep_view() =~= acc.push(parameter@));
        }
        proof {
            assert(parameters.deep_view() + Seq::<AnnotationParameterView>::empty()
                =~= parameters.deep_view());
        }
        Ok((cursor, parameters))
    }

    pub fn read(input: &Tokenizer, subannotation: bool) -> (r: Result<(Tokenizer, Self), ParseError>)
        ensures
            parsed(r, read_annotation(input@, subannotation)),
            r matches Ok((t, _)) ==> t@.follows(input@) && t@.pos > input@.pos,
        decreases input@.text.len() - input@.pos, 4int,
    {
        let _ = input.offset();
        let (next, visibility) = if subannotation {
            (input.clone(), AnnotationVisibility::Build)
        } else {
            AnnotationVisibility::read(input)?
        };
        let (next, annotation_type) = Type::read(&next)?;
        let next = next.expect_eol()?;
        let (next, parameters) = Self::read_parameters(&next)?;
        let next = next.expect_directive("end")?;
        let end = if subannotation {
            next.expect_keyword("subannotation")?
        } else {
            let next = next.expect_keyword("annotation")?;
            next.expect_eol()?
        };
        let annotation = Annotation { annotation_type, visibility, parameters };
        proof {
            assert(annotation.model().parameters =~= annotation.parameters.deep_view());
        }
        Ok((end, annotation))
    }
}

/// The first `n` values of a list as text, with commas between them.
pub open spec fn values_text(values: Seq<AnnotationParameterValueView>, n: int) -> Seq<char>
    decreases values, n,
{
    if n <= 0 || n > values.len() {
        Seq::empty()
    } else if n == 1 {
        values[0].text()
    } else {
        values_text(values, n - 1) + ", "@ + values[n - 1].text()
    }
}

/// The first `n` parameters of an annotation as text, with commas between
/// them.
pub open spec fn parameters_text(parameters: Seq<AnnotationParameterView>, n: int) -> Seq<char>
    decreases parameters, n,
{
    if n <= 0 || n > parameters.len() {
        Seq::empty()
    } else if n == 1 {
        parameters[0].name + " = "@ + parameters[0].value.text()
    } else {
        parameters_text(parameters, n - 1) + ", "@ + parameters[n - 1].name + " = "@ + parameters[n
            - 1].value.text()
    }
}

/// Four spaces for each level.
pub open spec fn indentation(level: int) -> Seq<char>
    decreases level,
{
    if level <= 0 {
        Seq::empty()
    } else {
        indentation(level - 1) + "    "@
    }
}

impl AnnotationParameterValueView {
    /// The value as the output writes it.
    pub open spec fn text(self) -> Seq<char>
        decreases self,
    {
        match self {
            AnnotationParameterValueView::Literal(literal) => literal.text(),
            AnnotationParameterValueView::Enum(class, constant) => class.name() + "."@ + constant,
            AnnotationParameterValueView::Array(values) => "{"@ + values_text(
                values,
                values.len() as int,
            ) + "}"@,
            AnnotationParameterValueView::SubAnnotation(annotation) => annotation.text(),
        }
    }
}

impl AnnotationParameterView {
    /// The parameter as the output writes it: the name, an equals sign and
    /// the value.
    pub open spec fn text(self) -> Seq<char> {
        self.name + " = "@ + self.value.text()
    }
}

impl AnnotationView {
    /// The annotation as the output writes it inside a line: `@`, the type,
    /// and the parameters between parentheses.
    pub open spec fn text(self) -> Seq<char>
        decreases self,
    {
        "@"@ + self.annotation_type.name() + "("@ + parameters_text(
            self.parameters,
            self.parameters.len() as int,
        ) + ")"@
    }

    /// What is said behind an annotation of its visibility.
    pub open spec fn remark(self) -> Seq<char> {
        match self.visibility {
            AnnotationVisibility::Build => " // build"@,
            AnnotationVisibility::System => " // system"@,
            AnnotationVisibility::Runtime => Seq::empty(),
        }
    }

    /// The annotation as the output writes it. With a level of indentation
    /// it fills a line of its own, which ends with a remark on its
    /// visibility; with a negative level it stands inside a line.
    pub open spec fn jimple(self, indent_level: int) -> Seq<char> {
        if indent_level >= 0 {
            indentation(indent_level) + self.text() + self.remark() + "\n"@
        } else {
            self.text()
        }
    }
}

/// The annotations as the output writes them, one behind the other, each
/// followed by `separator`.
pub open spec fn annotations_jimple(
    annotations: Seq<AnnotationView>,
    indent_level: int,
    separator: Seq<char>,
    n: int,
) -> Seq<char>
    decreases n,
{
    if n <= 0 {
        Seq::empty()
    } else {
        annotations_jimple(annotations, indent_level, separator, n - 1) + annotations[n
            - 1].jimple(indent_level) + separator
    }
}

impl AnnotationParameterValue {
    /// Appends the value to `output`.
    pub fn write_jimple(&self, output: &mut String)
        ensures
            final(output)@ == old(output)@ + self@.text(),
        decreases self,
    {
        let ghost before = output@;
        match self {
            AnnotationParameterValue::Literal(literal) => {
                output.append(literal.to_string().as_str());
            },
            AnnotationParameterValue::Enum(class, constant) => {
                output.append(class.get_name().as_str());
                output.append(".");
                output.append(constant.as_str());
                assert(output@ =~= before + self@.text());
            },
            AnnotationParameterValue::Array(array) => {
                let ghost views = self.model()->Array_0;
                output.append("{");
                let ghost opened = output@;
                let mut i: usize = 0;
                assert(opened + values_text(views, 0) =~= opened);
                while i < array.len()
                    invariant
                        i <= array@.len(),
                        views.len() == array@.len(),
                        forall|j: int| 0 <= j < array@.len() ==> views[j] == array@[j].model(),
                        self.model() == AnnotationParameterValueView::Array(views),
                        *self == AnnotationParameterValue::Array(*array),
                        output@ == opened + values_text(views, i as int),
                    decreases array@.len() - i,
                {
                    let ghost so_far = output@;
                    if i > 0 {
                        output.append(", ");
                    }
                    array[i].write_jimple(output);
                    i += 1;
                    assert(output@ =~= opened + values_text(views, i as int));
                }
                output.append("}");
                assert(output@ =~= before + self@.text());
            },
            AnnotationParameterValue::SubAnnotation(annotation) => {
                annotation.write_inline(output);
            },
        }
    }
}

impl AnnotationParameter {
    /// Appends the parameter to `output`.
    pub fn write_jimple(&self, output: &mut String)
        ensures
            final(output)@ == old(output)@ + self@.text(),
        decreases self,
    {
        let ghost before = output@;
        output.append(self.name.as_str());
        output.append(" = ");
        self.value.write_jimple(output);
        assert(output@ =~= before + self@.text());
    }
}

impl Annotation {
    /// Appends the annotation to `output` in the form that stands inside a
    /// line.
    fn write_inline(&self, output: &mut String)
        ensures
            final(output)@ == old(output)@ + self@.text(),
        decreases self,
    {
        let ghost before = output@;
        let ghost views = self.model().parameters;
        output.append("@");
        output.append(self.annotation_type.get_name().as_str());
        output.append("(");
        let ghost opened = output@;
        let mut i: usize = 0;
        assert(opened + parameters_text(views, 0) =~= opened);
        while i < self.parameters.len()
            invariant
                i <= self.parameters@.len(),
                views.len() == self.parameters@.len(),
                forall|j: int|
                    0 <= j < self.parameters@.len() ==> views[j] == self.parameters@[j].model(),
                output@ == opened + parameters_text(views, i as int),
            decreases self.parameters@.len() - i,
        {
            if i > 0 {
                output.append(", ");
            }
            self.parameters[i].write_jimple(output);
            i += 1;
            assert(output@ =~= opened + parameters_text(views, i as int));
        }
        output.append(")");
        assert(output@ =~= before + self@.text());
    }

    fn push_indentation(output: &mut String, level: i32)
        ensures
            final(output)@ == old(output)@ + indentation(level as int),
    {
        let ghost before = output@;
        let mut i: i32 = 0;
        assert(before + indentation(0) =~= before);
        while i < level
            invariant
                0 <= i,
                i <= level || level < 0,
                level < 0 ==> i == 0,
                output@ == before + indentation(i as int),
            decreases level - i,
        {
            output.append("    ");
            i += 1;
            assert(output@ =~= before + indentation(i as int));
        }
        proof {
            if level < 0 {
                assert(indentation(level as int) =~= indentation(0));
            }
        }
    }

    /// Appends the annotation to `output`: on a line of its own at the given
    /// level of indentation, or inside a line where the level is negative.
    pub fn write_jimple(&self, output: &mut String, indent_level: i32)
        ensures
            final(output)@ == old(output)@ + self@.jimple(indent_level as int),
    {
        let ghost before = output@;
        if indent_level >= 0 {
            Self::push_indentation(output, indent_level);
            self.write_inline(output);
            match self.visibility {
                AnnotationVisibility::Build => {
                    output.append(" // build");
                },
                AnnotationVisibility::System => {
                    output.append(" // system");
                },
                AnnotationVisibility::Runtime => {},
            }
            output.append("\n");
            assert(output@ =~= before + self@.jimple(indent_level as int));
        } else {
            self.write_inline(output);
        }
    }
}

/// Appends each of the annotations to `output`, followed by `separator`.
pub fn write_annotations(
    annotations: &Vec<Annotation>,
    output: &mut String,
    indent_level: i32,
    separator: &str,
)
    ensures
        final(output)@ == old(output)@ + annotations_jimple(
            annotations.deep_view(),
            indent_level as int,
            separator@,
            annotations@.len() as int,
        ),
{
    let ghost before = output@;
    let ghost views = annotations.deep_view();
    let mut i: usize = 0;
    assert(before + annotations_jimple(views, indent_level as int, separator@, 0) =~= before);
    while i < annotations.len()
        invariant
            i <= annotations@.len(),
            views == annotations.deep_view(),
            output@ == before + annotations_jimple(views, indent_level as int, separator@, i as int),
        decreases annotations@.len() - i,
    {
        assert(views[i as int] == annotations@[i as int]@);
        annotations[i].write_jimple(output, indent_level);
        output.append(separator);
        i += 1;
        assert(output@ =~= before + annotations_jimple(
            views,
            indent_level as int,
            separator@,
            i as int,
        ));
    }
}

} // verus!
