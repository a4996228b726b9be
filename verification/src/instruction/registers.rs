//! Registers and register groups: how the input names them and how the
//! output lists them.

use itertools::Itertools;
use vstd::prelude::*;
use vstd::string::*;
use crate::error::{ParseError, ParseErrorView};
use crate::text::{decimal_text, push_decimal};
use crate::tokenizer::{moved, parsed, prepend, Cursor, Parsed, Tokenizer};
use crate::types::{joined, Type, TypeView};
use crate::warning::{Warning, WarningView};

verus! {

broadcast use vstd::string::group_string_axioms;

/// A register of the virtual machine: a parameter slot or a local slot.
#[derive(Debug, Clone, Copy, Hash, PartialEq, Eq, Structural)]
pub enum Register {
    Parameter(usize),
    Local(usize),
}

impl View for Register {
    type V = Register;

    open spec fn view(&self) -> Register {
        *self
    }
}

impl DeepView for Register {
    type V = Register;

    open spec fn deep_view(&self) -> Register {
        *self
    }
}

impl Register {
    /// `p` or `v` and the index.
    pub open spec fn text(self) -> Seq<char> {
        match self {
            Register::Parameter(index) => seq!['p'] + decimal_text(index as nat),
            Register::Local(index) => seq!['v'] + decimal_text(index as nat),
        }
    }

    /// The register that a slot letter and an index name. The index has to be
    /// one that a slot can have.
    pub open spec fn indexed(parameter: bool, index: i64) -> Option<Register> {
        if 0 <= index <= usize::MAX {
            if parameter {
                Some(Register::Parameter(index as usize))
            } else {
                Some(Register::Local(index as usize))
            }
        } else {
            None
        }
    }

    /// `p` and a number, or `v` and a number.
    pub open spec fn read_spec(input: Cursor) -> Parsed<Register> {
        match input.expect_char('p') {
            Ok(next) => match next.read_number() {
                Ok((end, index)) => match Register::indexed(true, index) {
                    Some(register) => Ok((end, register)),
                    None => Err(input.unexpected("a register"@)),
                },
                Err(e) => Err(e),
            },
            Err(_) => match input.expect_char('v') {
                Ok(next) => match next.read_number() {
                    Ok((end, index)) => match Register::indexed(false, index) {
                        Some(register) => Ok((end, register)),
                        None => Err(input.unexpected("a register"@)),
                    },
                    Err(e) => Err(e),
                },
                Err(_) => Err(input.unexpected("a register"@)),
            },
        }
    }

    fn with_index(parameter: bool, index: i64) -> (r: Option<Register>)
        ensures
            r == Register::indexed(parameter, index),
    {
        if index < 0 || index as u64 > usize::MAX as u64 {
            None
        } else if parameter {
            Some(Register::Parameter(index as usize))
        } else {
            Some(Register::Local(index as usize))
        }
    }

    pub fn read(input: &Tokenizer) -> (r: Result<(Tokenizer, Self), ParseError>)
        ensures
            parsed(r, Register::read_spec(input@)),
            r matches Ok((t, _)) ==> t@.follows(input@) && t@.pos > input@.pos,
    {
        if let Ok(next) = input.expect_char('p') {
            let (end, index) = next.read_number()?;
            match Self::with_index(true, index) {
                Some(register) => Ok((end, register)),
                None => Err(input.unexpected("a register".to_owned())),
            }
        } else if let Ok(next) = input.expect_char('v') {
            let (end, index) = next.read_number()?;
            match Self::with_index(false, index) {
                Some(register) => Ok((end, register)),
                None => Err(input.unexpected("a register".to_owned())),
            }
        } else {
            Err(input.unexpected("a register".to_owned()))
        }
    }

    pub fn to_string(&self) -> (r: String)
        ensures
            r@ == self.text(),
    {
        match self {
            Register::Parameter(index) => {
                let mut r = "p".to_owned();
                proof {
                    reveal_strlit("p");
                    assert("p"@ =~= seq!['p']);
                }
                push_decimal(&mut r, *index as u128);
                r
            },
            Register::Local(index) => {
                let mut r = "v".to_owned();
                proof {
                    reveal_strlit("v");
                    assert("v"@ =~= seq!['v']);
                }
                push_decimal(&mut r, *index as u128);
                r
            },
        }
    }
}

/// A register seen from inside a method: the receiver, a parameter or a
/// local, the latter two with the type of what they hold.
#[derive(Debug, PartialEq)]
pub enum Variable {
    This,
    Parameter(usize, Type),
    Local(usize, Type),
}

pub enum VariableView {
    This,
    Parameter(usize, TypeView),
    Local(usize, TypeView),
}

impl View for Variable {
    type V = VariableView;

    open spec fn view(&self) -> VariableView {
        match self {
            Variable::This => VariableView::This,
            Variable::Parameter(index, held) => VariableView::Parameter(*index, held@),
            Variable::Local(index, held) => VariableView::Local(*index, held@),
        }
    }
}

impl DeepView for Variable {
    type V = VariableView;

    open spec fn deep_view(&self) -> VariableView {
        self@
    }
}

impl VariableView {
    /// `@this`, `@p` and the index, or `$v` and the index.
    pub open spec fn text(self) -> Seq<char> {
        match self {
            VariableView::This => "@this"@,
            VariableView::Parameter(index, _) => "@p"@ + decimal_text(index as nat),
            VariableView::Local(index, _) => "$v"@ + decimal_text(index as nat),
        }
    }
}

impl Variable {
    pub fn to_string(&self) -> (r: String)
        ensures
            r@ == self@.text(),
    {
        match self {
            Variable::This => "@this".to_owned(),
            Variable::Parameter(index, _) => {
                let mut r = "@p".to_owned();
                push_decimal(&mut r, *index as u128);
                r
            },
            Variable::Local(index, _) => {
                let mut r = "$v".to_owned();
                push_decimal(&mut r, *index as u128);
                r
            },
        }
    }

}

impl Clone for Variable {
    fn clone(&self) -> (r: Self)
        ensures
            r@ == self@,
    {
        match self {
            Variable::This => Variable::This,
            Variable::Parameter(index, held) => Variable::Parameter(*index, held.clone()),
            Variable::Local(index, held) => Variable::Local(*index, held.clone()),
        }
    }
}

/// A group of registers: a list, or the span between two registers.
#[derive(Debug, PartialEq)]
pub enum Registers {
    List(Vec<Register>),
    Range(Register, Register),
}

pub enum RegistersView {
    List(Seq<Register>),
    Range(Register, Register),
}

impl View for Registers {
    type V = RegistersView;

    open spec fn view(&self) -> RegistersView {
        match self {
            Registers::List(list) => RegistersView::List(list@),
            Registers::Range(from, to) => RegistersView::Range(*from, *to),
        }
    }
}

impl DeepView for Registers {
    type V = RegistersView;

    open spec fn deep_view(&self) -> RegistersView {
        self@
    }
}

impl Clone for Registers {
    fn clone(&self) -> (r: Self)
        ensures
            r@ == self@,
    {
        match self {
            Registers::List(list) => {
                let mut copy: Vec<Register> = Vec::new();
                let mut i: usize = 0;
                while i < list.len()
                    invariant
                        i <= list@.len(),
                        copy@ == list@.take(i as int),
                    decreases list@.len() - i,
                {
                    copy.push(list[i]);
                    i += 1;
                    assert(copy@ =~= list@.take(i as int));
                }
                assert(list@.take(list@.len() as int) == list@);
                Registers::List(copy)
            },
            Registers::Range(from, to) => Registers::Range(*from, *to),
        }
    }
}

/// The registers from index `from` to index `to`, both included.
pub open spec fn span(parameter: bool, from: usize, to: usize) -> Seq<Register> {
    Seq::new(
        if to >= from {
            (to - from + 1) as nat
        } else {
            0
        },
        |i: int|
            if parameter {
                Register::Parameter((from + i) as usize)
            } else {
                Register::Local((from + i) as usize)
            },
    )
}

/// The members of a range: every register from the first to the last, where
/// both are of one kind.
pub open spec fn range_members(from: Register, to: Register) -> Option<Seq<Register>> {
    match (from, to) {
        (Register::Parameter(first), Register::Parameter(last)) => Some(span(true, first, last)),
        (Register::Local(first), Register::Local(last)) => Some(span(false, first, last)),
        _ => None,
    }
}

/// The texts of a list of registers.
pub open spec fn register_texts(list: Seq<Register>) -> Seq<Seq<char>> {
    list.map_values(|r: Register| r.text())
}

/// A list of registers as text: all of it separated by commas, or, where the
/// first is to be split off and there is one, the first and the others.
pub open spec fn list_text(list: Seq<Register>, split_first: bool) -> (Option<Seq<char>>, Seq<char>) {
    if split_first && list.len() > 0 {
        (Some(list[0].text()), joined(register_texts(list.skip(1)), ", "@))
    } else {
        (None, joined(register_texts(list), ", "@))
    }
}

impl RegistersView {
    /// The members of the group, where it has them: a range between
    /// registers of two kinds has none.
    pub open spec fn members(self) -> Option<Seq<Register>> {
        match self {
            RegistersView::List(list) => Some(list),
            RegistersView::Range(from, to) => range_members(from, to),
        }
    }

    /// The group as text. A range is written by its members; one that has
    /// none is written as its two ends with `..` between them, never split.
    pub open spec fn text(self, split_first: bool) -> (Option<Seq<char>>, Seq<char>) {
        match self.members() {
            Some(list) => list_text(list, split_first),
            None => (None, self->Range_0.text() + " .. "@ + self->Range_1.text()),
        }
    }

    /// What writing the group warns of.
    pub open spec fn warnings(self) -> Seq<WarningView> {
        match self {
            RegistersView::Range(from, to) => if range_members(from, to) is None {
                seq![WarningView::InvalidRange { from, to }]
            } else {
                Seq::empty()
            },
            _ => Seq::empty(),
        }
    }

    /// Two registers with `..` between them.
    pub open spec fn read_range(input: Cursor) -> Parsed<RegistersView> {
        match Register::read_spec(input) {
            Ok((next, from)) => match next.expect_char('.') {
                Ok(next) => match next.expect_char('.') {
                    Ok(next) => match Register::read_spec(next) {
                        Ok((end, to)) => Ok((end, RegistersView::Range(from, to))),
                        Err(e) => Err(e),
                    },
                    Err(e) => Err(e),
                },
                Err(e) => Err(e),
            },
            Err(e) => Err(e),
        }
    }

    /// Registers with commas between them, up to a closing brace, which is
    /// not stepped over; no register at all is a list too.
    pub open spec fn read_members(input: Cursor) -> Parsed<Seq<Register>>
        decreases input.text.len() - input.pos,
    {
        match Register::read_spec(input) {
            Ok((next, register)) => if next.expect_char('}') is Ok {
                Ok((next, seq![register]))
            } else {
                match next.expect_char(',') {
                    Ok(after) => if after.follows(input) && input.pos < after.pos {
                        prepend(seq![register], RegistersView::read_members(after))
                    } else {
                        Err(input.unexpected(Seq::empty()))
                    },
                    Err(e) => Err(e),
                }
            },
            Err(_) => Ok((input, Seq::empty())),
        }
    }

    pub open spec fn read_list(input: Cursor) -> Parsed<RegistersView> {
        match RegistersView::read_members(input) {
            Ok((end, list)) => Ok((end, RegistersView::List(list))),
            Err(e) => Err(e),
        }
    }

    /// A register group between braces: a range where one can be read, a
    /// list otherwise.
    pub open spec fn read(input: Cursor) -> Parsed<RegistersView> {
        match input.expect_char('{') {
            Ok(inside) => {
                let group = match RegistersView::read_range(inside) {
                    Ok(range) => Ok(range),
                    Err(_) => RegistersView::read_list(inside),
                };
                match group {
                    Ok((end, registers)) => match end.expect_char('}') {
                        Ok(after) => Ok((after, registers)),
                        Err(e) => Err(e),
                    },
                    Err(e) => Err(e),
                }
            },
            Err(e) => Err(e),
        }
    }
}

/// The items with the separator between each two neighbours.
///
/// Trusted: stands for `itertools::Itertools::join`, called on the items of a
/// list of strings. The contract claims what its source shows: the first item
/// is written out, then the separator and the item for each further one; an
/// empty list gives the empty string.
#[verifier::external_body]
pub(crate) fn join(items: &Vec<String>, separator: &str) -> (r: String)
    ensures
        r@ == joined(items.deep_view(), separator@),
{
    items.iter().join(separator)
}

impl Registers {
    /// The registers of the span from `from` to `to`, or `None` where the two
    /// are not of one kind.
    pub fn resolve_range(from: &Register, to: &Register) -> (r: Option<Vec<Register>>)
        ensures
            r.deep_view() == range_members(*from, *to),
    {
        let (parameter, first, last) = match (from, to) {
            (Register::Parameter(first), Register::Parameter(last)) => (true, *first, *last),
            (Register::Local(first), Register::Local(last)) => (false, *first, *last),
            _ => {
                return None;
            },
        };
        let mut list: Vec<Register> = Vec::new();
        if first <= last {
            let mut index: usize = first;
            loop
                invariant_except_break
                    first <= index <= last,
                    list@ == span(parameter, first, last).take(index - first),
                ensures
                    list@ == span(parameter, first, last),
                decreases last - index,
            {
                list.push(
                    if parameter {
                        Register::Parameter(index)
                    } else {
                        Register::Local(index)
                    },
                );
                assert(list@ =~= span(parameter, first, last).take(index - first + 1));
                if index == last {
                    assert(span(parameter, first, last).take(last - first + 1) == span(
                        parameter,
                        first,
                        last,
                    ));
                    break ;
                }
                index += 1;
            }
        } else {
            assert(list@ =~= span(parameter, first, last));
        }
        assert(list.deep_view() =~= list@);
        Some(list)
    }

    fn texts(list: &[Register], from: usize) -> (r: Vec<String>)
        requires
            from <= list@.len(),
        ensures
            r.deep_view() == register_texts(list@.skip(from as int)),
    {
        let mut r: Vec<String> = Vec::new();
        let mut i: usize = from;
        while i < list.len()
            invariant
                from <= i <= list@.len(),
                r@.len() == i - from,
                forall|j: int| 0 <= j < i - from ==> (#[trigger] r@[j])@ == list@[from + j].text(),
            decreases list@.len() - i,
        {
            r.push(list[i].to_string());
            i += 1;
        }
        assert(r.deep_view() =~= register_texts(list@.skip(from as int)));
        r
    }

    pub fn stringify_list(list: &[Register], split_first: bool) -> (r: (Option<String>, String))
        ensures
            r.0.deep_view() == list_text(list@, split_first).0,
            r.1@ == list_text(list@, split_first).1,
    {
        if split_first && list.len() > 0 {
            (Some(list[0].to_string()), join(&Self::texts(list, 1), ", "))
        } else {
            assert(list@.skip(0) == list@);
            (None, join(&Self::texts(list, 0), ", "))
        }
    }

    /// The group as text, its first register split off where that is asked
    /// for.
    pub fn text(&self, split_first: bool) -> (r: (Option<String>, String))
        ensures
            r.0.deep_view() == self@.text(split_first).0,
            r.1@ == self@.text(split_first).1,
    {
        match self {
            Registers::List(list) => Self::stringify_list(list.as_slice(), split_first),
            Registers::Range(from, to) => {
                match Self::resolve_range(from, to) {
                    Some(list) => {
                        assert(list.deep_view() =~= list@);
                        Self::stringify_list(list.as_slice(), split_first)
                    },
                    None => {
                        let mut text = from.to_string();
                        text.append(" .. ");
                        text.append(to.to_string().as_str());
                        (None, text)
                    },
                }
            },
        }
    }

    /// Warns of the group where it is a range between registers of two kinds.
    pub fn check(&self, warnings: &mut Vec<Warning>)
        ensures
            final(warnings).deep_view() == old(warnings).deep_view() + self@.warnings(),
    {
        let ghost before = warnings.deep_view();
        assert(before + Seq::<WarningView>::empty() =~= before);
        match self {
            Registers::Range(from, to) => {
                let of_one_kind = match (from, to) {
                    (Register::Parameter(_), Register::Parameter(_)) => true,
                    (Register::Local(_), Register::Local(_)) => true,
                    _ => false,
                };
                if !of_one_kind {
                    warnings.push(Warning::InvalidRange { from: *from, to: *to });
                    assert(warnings.deep_view() =~= before + seq![
                        WarningView::InvalidRange { from: *from, to: *to },
                    ]);
                }
            },
            Registers::List(_) => {},
        }
    }

    /// The group as text, its first register split off where that is asked
    /// for. A range between registers of two kinds is warned of.
    pub fn to_string(&self, split_first: bool, warnings: &mut Vec<Warning>) -> (r: (
        Option<String>,
        String,
    ))
        ensures
            r.0.deep_view() == self@.text(split_first).0,
            r.1@ == self@.text(split_first).1,
            final(warnings).deep_view() == old(warnings).deep_view() + self@.warnings(),
    {
        self.check(warnings);
        self.text(split_first)
    }

    fn read_range(input: &Tokenizer) -> (r: Result<(Tokenizer, Self), ParseError>)
        ensures
            parsed(r, RegistersView::read_range(input@)),
            r matches Ok((t, _)) ==> t@.follows(input@) && t@.pos > input@.pos,
    {
        let (next, from) = Register::read(input)?;
        let next = next.expect_char('.')?;
        let next = next.expect_char('.')?;
        let (end, to) = Register::read(&next)?;
        Ok((end, Registers::Range(from, to)))
    }

    fn read_members(input: &Tokenizer) -> (r: Result<(Tokenizer, Vec<Register>), ParseError>)
        ensures
            parsed(r, RegistersView::read_members(input@)),
            r matches Ok((t, _)) ==> t@.follows(input@),
        decreases input@.text.len() - input@.pos,
    {
        let _ = input.offset();
        match Register::read(input) {
            Ok((next, register)) => {
                if next.expect_char('}').is_ok() {
                    let mut list: Vec<Register> = Vec::new();
                    list.push(register);
                    assert(list.deep_view() =~= seq![register]);
                    Ok((next, list))
                } else {
                    let after = next.expect_char(',')?;
                    let (end, rest) = Self::read_members(&after)?;
                    let mut list: Vec<Register> = Vec::new();
                    list.push(register);
                    let mut rest = rest;
                    let ghost tail = rest.deep_view();
                    list.append(&mut rest);
                    assert(list.deep_view() =~= seq![register] + tail);
                    Ok((end, list))
                }
            },
            Err(_) => {
                let list: Vec<Register> = Vec::new();
                assert(list.deep_view() =~= Seq::<Register>::empty());
                Ok((input.clone(), list))
            },
        }
    }

    fn read_list(input: &Tokenizer) -> (r: Result<(Tokenizer, Self), ParseError>)
        ensures
            parsed(r, RegistersView::read_list(input@)),
            r matches Ok((t, _)) ==> t@.follows(input@),
    {
        let (end, list) = Self::read_members(input)?;
        assert(list.deep_view() =~= list@);
        Ok((end, Registers::List(list)))
    }

    pub fn read(input: &Tokenizer) -> (r: Result<(Tokenizer, Self), ParseError>)
        ensures
            parsed(r, RegistersView::read(input@)),
            r matches Ok((t, _)) ==> t@.follows(input@) && t@.pos > input@.pos,
    {
        let inside = input.expect_char('{')?;
        let (end, result) = match Self::read_range(&inside) {
            Ok(range) => range,
            Err(_) => Self::read_list(&inside)?,
        };
        let after = end.expect_char('}')?;
        Ok((after, result))
    }
}

} // verus!
