//! Access flags of classes, fields and methods: the keywords of the input
//! and the modifiers of the output.

use vstd::prelude::*;
use vstd::string::*;
use crate::error::{Error, ParseError, ParseErrorView};
use crate::text::{is_blank, str_eq};
use crate::tokenizer::{parsed, Cursor, Parsed, Tokenizer};

verus! {

broadcast use vstd::string::group_string_axioms;

/// An access flag specified on a class, field or method.
#[derive(Debug, Clone, Copy, PartialEq, Eq, Structural)]
pub enum AccessFlag {
    Public,
    Private,
    Protected,
    Static,
    Final,
    Synchronized,
    Volatile,
    Bridge,
    Transient,
    Varargs,
    Native,
    Interface,
    Abstract,
    Strictfp,
    Synthetic,
    Annotation,
    Enum,
    Constructor,
    DeclaredSynchronized,
}

impl View for AccessFlag {
    type V = AccessFlag;

    open spec fn view(&self) -> AccessFlag {
        *self
    }
}

impl DeepView for AccessFlag {
    type V = AccessFlag;

    open spec fn deep_view(&self) -> AccessFlag {
        *self
    }
}

impl AccessFlag {
    /// The keyword that stands for the flag.
    pub open spec fn keyword(self) -> Seq<char> {
        match self {
            AccessFlag::Public => "public"@,
            AccessFlag::Private => "private"@,
            AccessFlag::Protected => "protected"@,
            AccessFlag::Static => "static"@,
            AccessFlag::Final => "final"@,
            AccessFlag::Synchronized => "synchronized"@,
            AccessFlag::Volatile => "volatile"@,
            AccessFlag::Bridge => "bridge"@,
            AccessFlag::Transient => "transient"@,
            AccessFlag::Varargs => "varargs"@,
            AccessFlag::Native => "native"@,
            AccessFlag::Interface => "interface"@,
            AccessFlag::Abstract => "abstract"@,
            AccessFlag::Strictfp => "strictfp"@,
            AccessFlag::Synthetic => "synthetic"@,
            AccessFlag::Annotation => "annotation"@,
            AccessFlag::Enum => "enum"@,
            AccessFlag::Constructor => "constructor"@,
            AccessFlag::DeclaredSynchronized => "declared-synchronized"@,
        }
    }

    /// The flag that a keyword stands for.
    pub open spec fn of_keyword(keyword: Seq<char>) -> Option<AccessFlag> {
        if keyword == "public"@ {
            Some(AccessFlag::Public)
        } else if keyword == "private"@ {
            Some(AccessFlag::Private)
        } else if keyword == "protected"@ {
            Some(AccessFlag::Protected)
        } else if keyword == "static"@ {
            Some(AccessFlag::Static)
        } else if keyword == "final"@ {
            Some(AccessFlag::Final)
        } else if keyword == "synchronized"@ {
            Some(AccessFlag::Synchronized)
        } else if keyword == "volatile"@ {
            Some(AccessFlag::Volatile)
        } else if keyword == "bridge"@ {
            Some(AccessFlag::Bridge)
        } else if keyword == "transient"@ {
            Some(AccessFlag::Transient)
        } else if keyword == "varargs"@ {
            Some(AccessFlag::Varargs)
        } else if keyword == "native"@ {
            Some(AccessFlag::Native)
        } else if keyword == "interface"@ {
            Some(AccessFlag::Interface)
        } else if keyword == "abstract"@ {
            Some(AccessFlag::Abstract)
        } else if keyword == "strictfp"@ {
            Some(AccessFlag::Strictfp)
        } else if keyword == "synthetic"@ {
            Some(AccessFlag::Synthetic)
        } else if keyword == "annotation"@ {
            Some(AccessFlag::Annotation)
        } else if keyword == "enum"@ {
            Some(AccessFlag::Enum)
        } else if keyword == "constructor"@ {
            Some(AccessFlag::Constructor)
        } else if keyword == "declared-synchronized"@ {
            Some(AccessFlag::DeclaredSynchronized)
        } else {
            None
        }
    }

    /// One access flag: a known keyword with a blank behind it.
    pub open spec fn read_spec(input: Cursor) -> Parsed<AccessFlag> {
        match input.read_keyword() {
            Ok((next, keyword)) => match AccessFlag::of_keyword(keyword) {
                Some(flag) => match next.next_char() {
                    Some(c) => if is_blank(c) {
                        Ok((next, flag))
                    } else {
                        Err(next.unexpected("a space"@))
                    },
                    None => Err(next.unexpected("a space"@)),
                },
                None => Err(input.unexpected("an access flag"@)),
            },
            Err(e) => Err(e),
        }
    }

    /// As many access flags as can be read, and the position behind them.
    pub open spec fn read_list_spec(input: Cursor) -> (Cursor, Seq<AccessFlag>)
        decreases input.text.len() - input.pos,
    {
        match AccessFlag::read_spec(input) {
            Ok((next, flag)) => if next.follows(input) && input.pos < next.pos {
                let (end, rest) = AccessFlag::read_list_spec(next);
                (end, seq![flag] + rest)
            } else {
                (input, Seq::empty())
            },
            Err(_) => (input, Seq::empty()),
        }
    }

    /// What one flag of `list` adds to a declaration in the output: nothing
    /// for a flag that the declaration's own keyword expresses, nothing for
    /// `abstract` on an interface, else the keyword and a space.
    pub open spec fn modifier(self, list: Seq<AccessFlag>) -> Seq<char> {
        match self {
            AccessFlag::Interface
            | AccessFlag::Annotation
            | AccessFlag::Enum
            | AccessFlag::Constructor => Seq::empty(),
            AccessFlag::Abstract => if list.contains(AccessFlag::Interface) {
                Seq::empty()
            } else {
                self.keyword() + " "@
            },
            _ => self.keyword() + " "@,
        }
    }

    /// The modifiers that the first `n` flags of `list` add, in order.
    pub open spec fn modifiers(list: Seq<AccessFlag>, n: int) -> Seq<char>
        decreases n,
    {
        if n <= 0 {
            Seq::empty()
        } else {
            AccessFlag::modifiers(list, n - 1) + list[n - 1].modifier(list)
        }
    }

    /// The keyword of the flag.
    pub fn to_string(&self) -> (r: String)
        ensures
            r@ == self.keyword(),
    {
        match self {
            AccessFlag::Public => "public".to_owned(),
            AccessFlag::Private => "private".to_owned(),
            AccessFlag::Protected => "protected".to_owned(),
            AccessFlag::Static => "static".to_owned(),
            AccessFlag::Final => "final".to_owned(),
            AccessFlag::Synchronized => "synchronized".to_owned(),
            AccessFlag::Volatile => "volatile".to_owned(),
            AccessFlag::Bridge => "bridge".to_owned(),
            AccessFlag::Transient => "transient".to_owned(),
            AccessFlag::Varargs => "varargs".to_owned(),
            AccessFlag::Native => "native".to_owned(),
            AccessFlag::Interface => "interface".to_owned(),
            AccessFlag::Abstract => "abstract".to_owned(),
            AccessFlag::Strictfp => "strictfp".to_owned(),
            AccessFlag::Synthetic => "synthetic".to_owned(),
            AccessFlag::Annotation => "annotation".to_owned(),
            AccessFlag::Enum => "enum".to_owned(),
            AccessFlag::Constructor => "constructor".to_owned(),
            AccessFlag::DeclaredSynchronized => "declared-synchronized".to_owned(),
        }
    }

    /// The flag that `value` names, or the error that holds `value`.
    pub fn try_from(value: &str) -> (r: Result<Self, Error>)
        ensures
            match r {
                Ok(flag) => AccessFlag::of_keyword(value@) == Some(flag),
                Err(e) => AccessFlag::of_keyword(value@) is None && (e matches Error::UnrecognizedToken(
                    token,
                ) && token@ == value@),
            },
    {
        if str_eq(value, "public") {
            Ok(AccessFlag::Public)
        } else if str_eq(value, "private") {
            Ok(AccessFlag::Private)
        } else if str_eq(value, "protected") {
            Ok(AccessFlag::Protected)
        } else if str_eq(value, "static") {
            Ok(AccessFlag::Static)
        } else if str_eq(value, "final") {
            Ok(AccessFlag::Final)
        } else if str_eq(value, "synchronized") {
            Ok(AccessFlag::Synchronized)
        } else if str_eq(value, "volatile") {
            Ok(AccessFlag::Volatile)
        } else if str_eq(value, "bridge") {
            Ok(AccessFlag::Bridge)
        } else if str_eq(value, "transient") {
            Ok(AccessFlag::Transient)
        } else if str_eq(value, "varargs") {
            Ok(AccessFlag::Varargs)
        } else if str_eq(value, "native") {
            Ok(AccessFlag::Native)
        } else if str_eq(value, "interface") {
            Ok(AccessFlag::Interface)
        } else if str_eq(value, "abstract") {
            Ok(AccessFlag::Abstract)
        } else if str_eq(value, "strictfp") {
            Ok(AccessFlag::Strictfp)
        } else if str_eq(value, "synthetic") {
            Ok(AccessFlag::Synthetic)
        } else if str_eq(value, "annotation") {
            Ok(AccessFlag::Annotation)
        } else if str_eq(value, "enum") {
            Ok(AccessFlag::Enum)
        } else if str_eq(value, "constructor") {
            Ok(AccessFlag::Constructor)
        } else if str_eq(value, "declared-synchronized") {
            Ok(AccessFlag::DeclaredSynchronized)
        } else {
            Err(Error::UnrecognizedToken(value.to_owned()))
        }
    }

    pub fn read(input: &Tokenizer) -> (r: Result<(Tokenizer, Self), ParseError>)
        ensures
            parsed(r, AccessFlag::read_spec(input@)),
            r matches Ok((t, _)) ==> t@.follows(input@) && t@.pos > input@.pos,
    {
        let start = input;
        let (input, keyword) = start.read_keyword()?;
        let access_flag = match Self::try_from(keyword.as_str()) {
            Ok(flag) => flag,
            Err(_) => {
                return Err(start.unexpected("an access flag".to_owned()));
            },
        };
        match input.next_char() {
            Some(c) => {
                if c == ' ' || c == '\t' {
                    Ok((input, access_flag))
                } else {
                    Err(input.unexpected("a space".to_owned()))
                }
            },
            None => Err(input.unexpected("a space".to_owned())),
        }
    }

    pub fn read_list(input: &Tokenizer) -> (r: (Tokenizer, Vec<Self>))
        ensures
            r.0@ == AccessFlag::read_list_spec(input@).0,
            r.1@ == AccessFlag::read_list_spec(input@).1,
            r.0@.follows(input@),
    {
        let mut cursor = input.clone();
        let mut result: Vec<Self> = Vec::new();
        let _ = cursor.offset();
        loop
            invariant
                cursor@.follows(input@),
                AccessFlag::read_list_spec(input@).0 == AccessFlag::read_list_spec(cursor@).0,
                AccessFlag::read_list_spec(input@).1 == result@ + AccessFlag::read_list_spec(
                    cursor@,
                ).1,
            ensures
                cursor@.follows(input@),
                AccessFlag::read_list_spec(input@).0 == cursor@,
                AccessFlag::read_list_spec(input@).1 == result@,
            decreases cursor@.text.len() - cursor@.pos,
        {
            match Self::read(&cursor) {
                Ok((next, access_flag)) => {
                    proof {
                        let rest = AccessFlag::read_list_spec(next@).1;
                        assert(result@ + (seq![access_flag] + rest) =~= result@.push(access_flag)
                            + rest);
                    }
                    cursor = next;
                    result.push(access_flag);
                },
                Err(_) => {
                    assert(result@ + Seq::<AccessFlag>::empty() =~= result@);
                    break ;
                },
            }
        }
        (cursor, result)
    }

    fn has_interface(list: &[Self]) -> (r: bool)
        ensures
            r == list@.contains(AccessFlag::Interface),
    {
        let mut i: usize = 0;
        while i < list.len()
            invariant
                i <= list@.len(),
                forall|j: int| 0 <= j < i ==> list@[j] != AccessFlag::Interface,
            decreases list@.len() - i,
        {
            if list[i] == AccessFlag::Interface {
                return true;
            }
            i += 1;
        }
        false
    }

    /// Appends to `output` the modifiers that the flags of `list` stand for.
    pub fn write_jimple_list(output: &mut String, list: &[Self])
        ensures
            final(output)@ == old(output)@ + AccessFlag::modifiers(list@, list@.len() as int),
    {
        let on_interface = Self::has_interface(list);
        let mut i: usize = 0;
        assert(old(output)@ + AccessFlag::modifiers(list@, 0) =~= old(output)@);
        while i < list.len()
            invariant
                i <= list@.len(),
                on_interface == list@.contains(AccessFlag::Interface),
                output@ == old(output)@ + AccessFlag::modifiers(list@, i as int),
            decreases list@.len() - i,
        {
            let ghost before = output@;
            match list[i] {
                AccessFlag::Interface
                | AccessFlag::Annotation
                | AccessFlag::Enum
                | AccessFlag::Constructor => {
                    assert(before + Seq::<char>::empty() =~= before);
                },
                AccessFlag::Abstract => {
                    if !on_interface {
                        output.append(list[i].to_string().as_str());
                        output.append(" ");
                    }
                    assert(output@ =~= before + list@[i as int].modifier(list@));
                },
                _ => {
                    output.append(list[i].to_string().as_str());
                    output.append(" ");
                    assert(output@ =~= before + list@[i as int].modifier(list@));
                },
            }
            assert(output@ =~= old(output)@ + (AccessFlag::modifiers(list@, i as int)
                + list@[i as int].modifier(list@)));
            i += 1;
        }
    }
}

} // verus!
