//! The rewriting of a method body: data blocks leave the body and replace
//! the labels that refer to them, runs of line markers become one, moved
//! results go to the command that produced them, and a checked cast gets the
//! register that it works on for its result.

use vstd::prelude::*;
use vstd::string::*;
use crate::instruction::optimization::{unresolved_among, DataTable};
use crate::instruction::registers::Register;
use crate::instruction::{
    CommandData, CommandDataView, CommandParameterView, Instruction, InstructionView,
};
use crate::warning::{Warning, WarningView};
use super::{Method, MethodView};

verus! {

broadcast use vstd::string::group_string_axioms;

/// What is left of a body once its data blocks are taken out.
pub struct Extraction {
    /// The instructions that stay, in order.
    pub kept: Seq<InstructionView>,
    /// The blocks taken out, each under the label that stood in front of it.
    pub data: Map<Seq<char>, CommandDataView>,
    /// How many blocks stay because no label stands in front of them.
    pub dangling: nat,
}

/// Takes the data blocks out of `rest`, which follows the instructions
/// `kept` that were gone through already. A block leaves together with the
/// label in front of it; a block without one stays and is counted.
pub open spec fn extract_from(
    kept: Seq<InstructionView>,
    data: Map<Seq<char>, CommandDataView>,
    dangling: nat,
    rest: Seq<InstructionView>,
) -> Extraction
    decreases rest.len(),
{
    if rest.len() == 0 {
        Extraction { kept, data, dangling }
    } else {
        match rest[0] {
            InstructionView::Data(block) => if kept.len() > 0 && kept.last() is Label {
                extract_from(
                    kept.drop_last(),
                    data.insert(kept.last()->Label_0, block),
                    dangling,
                    rest.skip(1),
                )
            } else {
                extract_from(kept.push(rest[0]), data, dangling + 1, rest.skip(1))
            },
            _ => extract_from(kept.push(rest[0]), data, dangling, rest.skip(1)),
        }
    }
}

/// A body without its labelled data blocks, and those blocks.
pub open spec fn extracted(instructions: Seq<InstructionView>) -> Extraction {
    extract_from(Seq::empty(), Map::empty(), 0, instructions)
}

/// `count` warnings of a data block without a label.
pub open spec fn dangling_warnings(count: nat, method: Seq<char>) -> Seq<WarningView> {
    Seq::new(count, |i: int| WarningView::DataWithoutLabel { method })
}

/// The position of the last command among `done`.
pub open spec fn last_command(done: Seq<InstructionView>) -> Option<int>
    decreases done.len(),
{
    if done.len() == 0 {
        None
    } else if done.last().is_command() {
        Some(done.len() - 1)
    } else {
        last_command(done.drop_last())
    }
}

/// The one line marker that two neighbouring line markers become: it runs
/// from the lesser start to the greater end.
pub open spec fn merged_lines(earlier: InstructionView, later: InstructionView) -> Option<
    InstructionView,
> {
    match (earlier, later) {
        (InstructionView::LineNumber(from, to), InstructionView::LineNumber(from2, to2)) => Some(
            InstructionView::LineNumber(
                if from2 < from {
                    from2
                } else {
                    from
                },
                if to2 > to {
                    to2
                } else {
                    to
                },
            ),
        ),
        _ => None,
    }
}

/// A body in the course of being rewritten, and the warnings so far.
pub struct Rewritten {
    pub done: Seq<InstructionView>,
    pub warnings: Seq<WarningView>,
}

/// What the rewritten instructions `done` become when `next` follows them.
/// A line marker behind a line marker is merged into it. A moved result goes
/// to the nearest command before it, past anything that is no command, where
/// that command has an empty optional result; else it stays and is warned of.
/// Anything else is added at the end.
pub open spec fn absorb(done: Seq<InstructionView>, next: InstructionView, method: Seq<char>) -> Rewritten {
    if done.len() > 0 && merged_lines(done.last(), next) is Some {
        Rewritten {
            done: done.update(done.len() - 1, merged_lines(done.last(), next)->0),
            warnings: Seq::empty(),
        }
    } else {
        match next.moved_result() {
            Some(result) => match last_command(done) {
                Some(at) => if done[at].takes_result() {
                    Rewritten {
                        done: done.update(at, done[at].with_result(result)),
                        warnings: Seq::empty(),
                    }
                } else {
                    Rewritten {
                        done: done.push(next),
                        warnings: seq![WarningView::FailedInlining { method }],
                    }
                },
                None => Rewritten {
                    done: done.push(next),
                    warnings: seq![WarningView::FailedInlining { method }],
                },
            },
            None => Rewritten { done: done.push(next), warnings: Seq::empty() },
        }
    }
}

/// Goes through `rest` from front to back: each instruction has its data
/// labels resolved and is then absorbed by what was rewritten before it.
pub open spec fn rewrite_from(
    done: Seq<InstructionView>,
    warnings: Seq<WarningView>,
    rest: Seq<InstructionView>,
    data: Map<Seq<char>, CommandDataView>,
    method: Seq<char>,
) -> Rewritten
    decreases rest.len(),
{
    if rest.len() == 0 {
        Rewritten { done, warnings }
    } else {
        let step = absorb(done, rest[0].resolve(data), method);
        rewrite_from(
            step.done,
            warnings + rest[0].unresolved(data) + step.warnings,
            rest.skip(1),
            data,
            method,
        )
    }
}

/// Every instruction with the result of a checked cast put in.
pub open spec fn casts_fixed(instructions: Seq<InstructionView>) -> Seq<InstructionView> {
    instructions.map_values(|i: InstructionView| i.fix_check_cast())
}

/// The rewritten body of a method and the warnings of rewriting it. `method`
/// is how warnings name the method.
pub open spec fn optimized(instructions: Seq<InstructionView>, method: Seq<char>) -> Rewritten {
    let extraction = extracted(instructions);
    let rewritten = rewrite_from(
        Seq::empty(),
        dangling_warnings(extraction.dangling, method),
        extraction.kept,
        extraction.data,
        method,
    );
    Rewritten { done: casts_fixed(rewritten.done), warnings: rewritten.warnings }
}

impl MethodView {
    /// How warnings name the method: its return type and its name.
    pub open spec fn described(self) -> Seq<char> {
        self.return_type.name() + " "@ + self.name
    }
}

/// Takes the labelled data blocks out of `instructions` and hands them back.
fn extract_data(instructions: &mut Vec<Instruction>, method: &str, warnings: &mut Vec<Warning>) -> (r:
    DataTable)
    ensures
        final(instructions).deep_view() == extracted(old(instructions).deep_view()).kept,
        r@ == extracted(old(instructions).deep_view()).data,
        final(warnings).deep_view() == old(warnings).deep_view() + dangling_warnings(
            extracted(old(instructions).deep_view()).dangling,
            method@,
        ),
{
    let mut result = DataTable::new();
    let mut i: usize = 0;
    let ghost mut dangling: nat = 0;
    proof {
        assert(instructions.deep_view().take(0) =~= Seq::<InstructionView>::empty());
        assert(instructions.deep_view().skip(0) =~= instructions.deep_view());
        assert(warnings.deep_view() + dangling_warnings(0, method@) =~= warnings.deep_view());
    }
    while i < instructions.len()
        invariant
            i <= instructions@.len(),
            extract_from(
                instructions.deep_view().take(i as int),
                result@,
                dangling,
                instructions.deep_view().skip(i as int),
            ) == extracted(old(instructions).deep_view()),
            warnings.deep_view() == old(warnings).deep_view() + dangling_warnings(dangling, method@),
        decreases instructions@.len() - i,
    {
        let ghost all = instructions.deep_view();
        let ghost warned = warnings.deep_view();
        assert(all.skip(i as int)[0] == all[i as int]);
        assert(all.skip(i as int).skip(1) =~= all.skip(i + 1));
        assert(all[i as int] == instructions@[i as int]@);
        let is_data = matches!(instructions[i], Instruction::Data(_));
        let labelled = if is_data && i > 0 {
            assert(all[i - 1] == instructions@[i - 1]@);
            assert(all.take(i as int).last() == all[i - 1]);
            matches!(instructions[i - 1], Instruction::Label(_))
        } else {
            false
        };
        if labelled {
            let block = instructions.remove(i);
            let label = instructions.remove(i - 1);
            proof {
                assert(instructions.deep_view().take(i - 1) =~= all.take(i as int).drop_last());
                assert(instructions.deep_view().skip(i - 1) =~= all.skip(i + 1));
            }
            match (label, block) {
                (Instruction::Label(label), Instruction::Data(data)) => {
                    result.insert(label, data);
                },
                _ => {},
            }
            i -= 1;
        } else {
            proof {
                assert(all.take(i + 1) =~= all.take(i as int).push(all[i as int]));
            }
            if is_data {
                warnings.push(Warning::DataWithoutLabel { method: method.to_owned() });
                proof {
                    assert(warnings.deep_view() =~= warned.push(
                        WarningView::DataWithoutLabel { method: method@ },
                    ));
                    assert(dangling_warnings(dangling + 1, method@) =~= dangling_warnings(
                        dangling,
                        method@,
                    ).push(WarningView::DataWithoutLabel { method: method@ }));
                    dangling = dangling + 1;
                }
            }
            i += 1;
        }
    }
    proof {
        assert(instructions.deep_view().skip(i as int) =~= Seq::<InstructionView>::empty());
        assert(instructions.deep_view().take(i as int) =~= instructions.deep_view());
    }
    result
}

/// The position of the last command before `end`.
fn find_last_command(instructions: &Vec<Instruction>, end: usize) -> (r: Option<usize>)
    requires
        end <= instructions@.len(),
    ensures
        match r {
            Some(at) => at < end && last_command(instructions.deep_view().take(end as int))
                == Some(at as int),
            None => last_command(instructions.deep_view().take(end as int)) is None,
        },
{
    let ghost all = instructions.deep_view();
    let mut j: usize = end;
    while j > 0
        invariant
            j <= end <= instructions@.len(),
            all == instructions.deep_view(),
            last_command(all.take(end as int)) == last_command(all.take(j as int)),
        decreases j,
    {
        assert(all.take(j as int).last() == all[j - 1]);
        assert(all.take(j as int).drop_last() =~= all.take(j - 1));
        assert(all[j - 1] == instructions@[j - 1]@);
        if instructions[j - 1].is_command() {
            return Some(j - 1);
        }
        j -= 1;
    }
    None
}

/// The bounds of a line marker.
fn line_bounds(instruction: &Instruction) -> (r: Option<(i64, i64)>)
    ensures
        match r {
            Some((from, to)) => instruction@ == InstructionView::LineNumber(from, to),
            None => !(instruction@ is LineNumber),
        },
{
    match instruction {
        Instruction::LineNumber(from, to) => Some((*from, *to)),
        _ => None,
    }
}

/// Lets the instructions before `i`, which are rewritten already, absorb the
/// instruction at `i`, and hands back the position to go on from.
fn absorb_at(instructions: &mut Vec<Instruction>, i: usize, method: &str, warnings: &mut Vec<Warning>) -> (next:
    usize)
    requires
        i < old(instructions)@.len(),
    ensures
        next <= final(instructions)@.len(),
        final(instructions)@.len() - next == old(instructions)@.len() - i - 1,
        final(instructions).deep_view().take(next as int) == absorb(
            old(instructions).deep_view().take(i as int),
            old(instructions).deep_view()[i as int],
            method@,
        ).done,
        final(instructions).deep_view().skip(next as int) == old(instructions).deep_view().skip(
            i + 1,
        ),
        final(warnings).deep_view() == old(warnings).deep_view() + absorb(
            old(instructions).deep_view().take(i as int),
            old(instructions).deep_view()[i as int],
            method@,
        ).warnings,
{
    let ghost all = instructions.deep_view();
    let ghost done = all.take(i as int);
    let ghost warned = warnings.deep_view();
    proof {
        assert(warned + Seq::<WarningView>::empty() =~= warned);
        assert(all[i as int] == instructions@[i as int]@);
        if i > 0 {
            assert(done.last() == all[i - 1]);
            assert(all[i - 1] == instructions@[i - 1]@);
        }
    }
    let merged: Option<(i64, i64)> = if i > 0 {
        match (line_bounds(&instructions[i - 1]), line_bounds(&instructions[i])) {
            (Some((from, to)), Some((from2, to2))) => Some(
                (
                    if from2 < from {
                        from2
                    } else {
                        from
                    },
                    if to2 > to {
                        to2
                    } else {
                        to
                    },
                ),
            ),
            _ => None,
        }
    } else {
        None
    };
    match merged {
        Some((from, to)) => {
            instructions.set(i - 1, Instruction::LineNumber(from, to));
            let _ = instructions.remove(i);
            proof {
                assert(instructions.deep_view().take(i as int) =~= done.update(
                    i - 1,
                    InstructionView::LineNumber(from, to),
                ));
                assert(instructions.deep_view().skip(i as int) =~= all.skip(i + 1));
            }
            return i;
        },
        None => {},
    }
    assert(!(done.len() > 0 && merged_lines(done.last(), all[i as int]) is Some));
    match instructions[i].get_moved_result() {
        Some(result) => {
            match find_last_command(instructions, i) {
                Some(at) => {
                    assert(done[at as int] == instructions@[at as int]@);
                    let target = &mut instructions[at];
                    if target.inline_result(result) {
                        let _ = instructions.remove(i);
                        proof {
                            assert(instructions.deep_view().take(i as int) =~= done.update(
                                at as int,
                                done[at as int].with_result(result),
                            ));
                            assert(instructions.deep_view().skip(i as int) =~= all.skip(i + 1));
                        }
                        return i;
                    }
                    proof {
                        assert(instructions.deep_view() =~= all);
                    }
                },
                None => {},
            }
            warnings.push(Warning::FailedInlining { method: method.to_owned() });
            proof {
                assert(warnings.deep_view() =~= warned + seq![
                    WarningView::FailedInlining { method: method@ },
                ]);
            }
        },
        None => {},
    }
    let length = instructions.len();
    proof {
        assert(instructions.deep_view().len() == all.len());
        assert(i < length);
        assert(instructions.deep_view().take(i + 1) =~= done.push(all[i as int]));
    }
    i + 1
}

/// Rewrites `instructions` from front to back.
fn rewrite(instructions: &mut Vec<Instruction>, data: &DataTable, method: &str, warnings: &mut Vec<Warning>)
    ensures
        final(instructions).deep_view() == rewrite_from(
            Seq::empty(),
            old(warnings).deep_view(),
            old(instructions).deep_view(),
            data@,
            method@,
        ).done,
        final(warnings).deep_view() == rewrite_from(
            Seq::empty(),
            old(warnings).deep_view(),
            old(instructions).deep_view(),
            data@,
            method@,
        ).warnings,
{
    let mut i: usize = 0;
    proof {
        assert(instructions.deep_view().take(0) =~= Seq::<InstructionView>::empty());
        assert(instructions.deep_view().skip(0) =~= instructions.deep_view());
    }
    while i < instructions.len()
        invariant
            i <= instructions@.len(),
            rewrite_from(
                instructions.deep_view().take(i as int),
                warnings.deep_view(),
                instructions.deep_view().skip(i as int),
                data@,
                method@,
            ) == rewrite_from(
                Seq::empty(),
                old(warnings).deep_view(),
                old(instructions).deep_view(),
                data@,
                method@,
            ),
        decreases instructions@.len() - i,
    {
        let ghost all = instructions.deep_view();
        let ghost warned = warnings.deep_view();
        proof {
            assert(all.skip(i as int)[0] == all[i as int]);
            assert(all.skip(i as int).skip(1) =~= all.skip(i + 1));
            assert(all[i as int] == instructions@[i as int]@);
        }
        let current = &mut instructions[i];
        current.resolve_data(data, warnings);
        proof {
            assert(instructions.deep_view() =~= all.update(i as int, all[i as int].resolve(data@)));
            assert(instructions.deep_view().take(i as int) =~= all.take(i as int));
            assert(instructions.deep_view().skip(i + 1) =~= all.skip(i + 1));
        }
        i = absorb_at(instructions, i, method, warnings);
    }
    proof {
        assert(instructions.deep_view().skip(i as int) =~= Seq::<InstructionView>::empty());
        assert(instructions.deep_view().take(i as int) =~= instructions.deep_view());
    }
}

/// Puts the result of every checked cast in.
fn fix_casts(instructions: &mut Vec<Instruction>)
    ensures
        final(instructions).deep_view() == casts_fixed(old(instructions).deep_view()),
{
    let ghost before = instructions.deep_view();
    let mut i: usize = 0;
    while i < instructions.len()
        invariant
            i <= instructions@.len(),
            instructions@.len() == before.len(),
            forall|j: int| 0 <= j < i ==> (#[trigger] instructions.deep_view()[j])
                == before[j].fix_check_cast(),
            forall|j: int| i <= j < before.len() ==> (#[trigger] instructions.deep_view()[j])
                == before[j],
        decreases instructions@.len() - i,
    {
        let ghost all = instructions.deep_view();
        assert(all[i as int] == instructions@[i as int]@);
        let current = &mut instructions[i];
        current.fix_check_cast();
        proof {
            assert(instructions.deep_view() =~= all.update(
                i as int,
                all[i as int].fix_check_cast(),
            ));
        }
        i += 1;
    }
    assert(instructions.deep_view() =~= casts_fixed(before));
}

impl Method {
    /// How warnings name the method.
    fn described(&self) -> (r: String)
        ensures
            r@ == self@.described(),
    {
        let mut r = self.return_type.get_name();
        r.append(" ");
        r.append(self.name.as_str());
        r
    }

    /// Rewrites the body of the method. Every condition that the rewriting
    /// cannot deal with is warned of and leaves the instruction as it is.
    pub fn optimize(&mut self, warnings: &mut Vec<Warning>)
        ensures
            final(self)@.instructions == optimized(
                old(self)@.instructions,
                old(self)@.described(),
            ).done,
            final(warnings).deep_view() == old(warnings).deep_view() + optimized(
                old(self)@.instructions,
                old(self)@.described(),
            ).warnings,
            final(self).name == old(self).name,
            final(self).visibility == old(self).visibility,
            final(self).parameters == old(self).parameters,
            final(self).return_type == old(self).return_type,
            final(self).annotations == old(self).annotations,
    {
        let method = self.described();
        let ghost before = warnings.deep_view();
        let ghost extraction = extracted(self.instructions.deep_view());
        let command_data = extract_data(&mut self.instructions, method.as_str(), warnings);
        rewrite(&mut self.instructions, &command_data, method.as_str(), warnings);
        fix_casts(&mut self.instructions);
        proof {
            lemma_rewrite_warnings(
                Seq::empty(),
                before,
                dangling_warnings(extraction.dangling, method@),
                extraction.kept,
                extraction.data,
                method@,
            );
        }
    }
}

/// The warnings that were there when a rewriting began stay in front of the
/// ones that it adds.
pub proof fn lemma_rewrite_warnings(
    done: Seq<InstructionView>,
    before: Seq<WarningView>,
    warnings: Seq<WarningView>,
    rest: Seq<InstructionView>,
    data: Map<Seq<char>, CommandDataView>,
    method: Seq<char>,
)
    ensures
        rewrite_from(done, before + warnings, rest, data, method).done == rewrite_from(
            done,
            warnings,
            rest,
            data,
            method,
        ).done,
        rewrite_from(done, before + warnings, rest, data, method).warnings == before
            + rewrite_from(done, warnings, rest, data, method).warnings,
    decreases rest.len(),
{
    if rest.len() > 0 {
        let step = absorb(done, rest[0].resolve(data), method);
        let added = rest[0].unresolved(data) + step.warnings;
        assert(before + warnings + rest[0].unresolved(data) + step.warnings =~= before + (warnings
            + rest[0].unresolved(data) + step.warnings));
        lemma_rewrite_warnings(
            step.done,
            before,
            warnings + rest[0].unresolved(data) + step.warnings,
            rest.skip(1),
            data,
            method,
        );
    }
}

/// A body without data blocks loses nothing when its data blocks are taken
/// out.
pub proof fn lemma_extract_without_data(
    kept: Seq<InstructionView>,
    data: Map<Seq<char>, CommandDataView>,
    dangling: nat,
    rest: Seq<InstructionView>,
)
    requires
        forall|i: int| 0 <= i < rest.len() ==> !(#[trigger] rest[i] is Data),
    ensures
        extract_from(kept, data, dangling, rest) == (Extraction { kept: kept + rest, data, dangling }),
    decreases rest.len(),
{
    if rest.len() == 0 {
        assert(kept + rest =~= kept);
    } else {
        assert(!(rest[0] is Data));
        assert forall|i: int| 0 <= i < rest.skip(1).len() implies !(#[trigger] rest.skip(1)[i]
            is Data) by {
            assert(rest.skip(1)[i] == rest[i + 1]);
        }
        lemma_extract_without_data(kept.push(rest[0]), data, dangling, rest.skip(1));
        assert(kept.push(rest[0]) + rest.skip(1) =~= kept + rest);
    }
}

/// Resolving against no blocks at all changes no instruction.
pub proof fn lemma_resolve_nothing(instruction: InstructionView)
    ensures
        instruction.resolve(Map::empty()) == instruction,
{
    match instruction {
        InstructionView::Command { command, parameters } => {
            assert(parameters.map_values(|p: CommandParameterView| p.resolve(Map::empty()))
                =~= parameters);
        },
        _ => {},
    }
}

/// The markers of `count` single lines that follow one another, from line
/// `first` on.
pub open spec fn line_markers(first: int, count: nat) -> Seq<InstructionView> {
    Seq::new(
        count,
        |i: int| InstructionView::LineNumber((first + i) as i64, (first + i) as i64),
    )
}

/// Behind a marker that ends at line `to`, the markers of the `count` lines
/// that follow are all merged into it.
pub proof fn lemma_markers_merge(
    from: i64,
    to: i64,
    count: nat,
    warnings: Seq<WarningView>,
    data: Map<Seq<char>, CommandDataView>,
    method: Seq<char>,
)
    requires
        from <= to,
        to + count <= i64::MAX,
    ensures
        rewrite_from(
            seq![InstructionView::LineNumber(from, to)],
            warnings,
            line_markers(to + 1, count),
            data,
            method,
        ) == (Rewritten {
            done: seq![InstructionView::LineNumber(from, (to + count) as i64)],
            warnings,
        }),
    decreases count,
{
    let rest = line_markers(to + 1, count);
    let done = seq![InstructionView::LineNumber(from, to)];
    if count > 0 {
        let next = InstructionView::LineNumber((to + 1) as i64, (to + 1) as i64);
        assert(rest[0] == next);
        assert(rest[0].resolve(data) == next);
        assert(rest[0].unresolved(data) =~= Seq::<WarningView>::empty());
        let step = absorb(done, next, method);
        assert(done.last() == InstructionView::LineNumber(from, to));
        assert(merged_lines(done.last(), next) == Some(
            InstructionView::LineNumber(from, (to + 1) as i64),
        ));
        assert(step.done =~= seq![InstructionView::LineNumber(from, (to + 1) as i64)]);
        assert(step.warnings =~= Seq::<WarningView>::empty());
        assert(warnings + rest[0].unresolved(data) + step.warnings =~= warnings);
        assert(rest.skip(1) =~= line_markers(to + 2, (count - 1) as nat));
        lemma_markers_merge(from, (to + 1) as i64, (count - 1) as nat, warnings, data, method);
    }
}

/// The markers of lines `first`, `first + 1` and so on, one behind the other
/// and `count` in all, become the one marker that runs from line `first` to
/// line `first + count - 1`, and nothing is warned of.
pub proof fn lemma_line_markers_collapse(first: i64, count: nat, method: Seq<char>)
    requires
        count >= 1,
        first + count - 1 <= i64::MAX,
    ensures
        optimized(line_markers(first as int, count), method) == (Rewritten {
            done: seq![InstructionView::LineNumber(first, (first + count - 1) as i64)],
            warnings: Seq::empty(),
        }),
{
    let markers = line_markers(first as int, count);
    lemma_extract_without_data(Seq::empty(), Map::empty(), 0, markers);
    assert(Seq::<InstructionView>::empty() + markers =~= markers);
    let none = dangling_warnings(0, method);
    assert(none =~= Seq::<WarningView>::empty());
    let data = Map::<Seq<char>, CommandDataView>::empty();
    let head = InstructionView::LineNumber(first, first);
    assert(markers[0] == head);
    let step = absorb(Seq::empty(), head, method);
    assert(step.done =~= seq![head]);
    assert(step.warnings =~= Seq::<WarningView>::empty());
    assert(markers[0].unresolved(data) =~= Seq::<WarningView>::empty());
    assert(none + markers[0].unresolved(data) + step.warnings =~= none);
    assert(markers.skip(1) =~= line_markers(first + 1, (count - 1) as nat));
    lemma_markers_merge(first, first, (count - 1) as nat, none, data, method);
    let merged = seq![InstructionView::LineNumber(first, (first + count - 1) as i64)];
    assert(casts_fixed(merged) =~= merged);
}

/// The last command of a body is a command of that body.
pub proof fn lemma_last_command(done: Seq<InstructionView>)
    ensures
        last_command(done) matches Some(at) ==> 0 <= at < done.len() && done[at].is_command(),
    decreases done.len(),
{
    if done.len() > 0 && !done.last().is_command() {
        lemma_last_command(done.drop_last());
    }
}

/// The taking of a result stays where it is, and is warned of, wherever no
/// command before it has an empty optional result.
pub proof fn lemma_absorb_without_taker(
    done: Seq<InstructionView>,
    mover: InstructionView,
    method: Seq<char>,
)
    requires
        mover.moved_result() is Some,
        forall|at: int| 0 <= at < done.len() ==> !(#[trigger] done[at]).takes_result(),
    ensures
        absorb(done, mover, method) == (Rewritten {
            done: done.push(mover),
            warnings: seq![WarningView::FailedInlining { method }],
        }),
{
    lemma_last_command(done);
}

/// A command with an empty optional result and, right behind it, the taking
/// of a result become the command with the register of the second for its
/// result. Only data labels that remain are warned of.
pub proof fn lemma_result_inlined(call: InstructionView, mover: InstructionView, method: Seq<char>)
    requires
        call.takes_result(),
        mover.moved_result() is Some,
    ensures
        optimized(seq![call, mover], method) == (Rewritten {
            done: seq![call.with_result(mover.moved_result()->0)],
            warnings: call.unresolved(Map::empty()) + mover.unresolved(Map::empty()),
        }),
{
    let body = seq![call, mover];
    let data = Map::<Seq<char>, CommandDataView>::empty();
    lemma_extract_without_data(Seq::empty(), Map::empty(), 0, body);
    assert(Seq::<InstructionView>::empty() + body =~= body);
    let none = dangling_warnings(0, method);
    assert(none =~= Seq::<WarningView>::empty());
    lemma_resolve_nothing(call);
    lemma_resolve_nothing(mover);
    let first = absorb(Seq::empty(), call, method);
    assert(call.moved_result() is None);
    assert(first.done =~= seq![call]);
    assert(first.warnings =~= Seq::<WarningView>::empty());
    let warned = none + call.unresolved(data) + first.warnings;
    assert(warned =~= call.unresolved(data));
    assert(body.skip(1) =~= seq![mover]);
    assert(body.skip(1)[0] == mover);
    let second = absorb(first.done, mover, method);
    assert(merged_lines(first.done.last(), mover) is None);
    assert(last_command(first.done) == Some(0int)) by {
        assert(first.done.last() == call);
    }
    let filled = call.with_result(mover.moved_result()->0);
    assert(second.done =~= seq![filled]);
    assert(second.warnings =~= Seq::<WarningView>::empty());
    assert(warned + mover.unresolved(data) + second.warnings =~= call.unresolved(data)
        + mover.unresolved(data));
    assert(body.skip(1).skip(1) =~= Seq::<InstructionView>::empty());
    let all = call.unresolved(data) + mover.unresolved(data);
    assert(rewrite_from(second.done, all, body.skip(1).skip(1), data, method) == (Rewritten {
        done: second.done,
        warnings: all,
    }));
    assert(rewrite_from(first.done, warned, body.skip(1), data, method) == rewrite_from(
        second.done,
        all,
        body.skip(1).skip(1),
        data,
        method,
    ));
    assert(body[0] == call);
    assert(rewrite_from(Seq::empty(), none, body, data, method) == rewrite_from(
        first.done,
        warned,
        body.skip(1),
        data,
        method,
    ));
    assert(filled.cast_operand() is None);
    assert(casts_fixed(seq![filled]) =~= seq![filled]);
}

/// The taking of a result that is all there is of a body stays, and is
/// warned of.
pub proof fn lemma_result_retained(mover: InstructionView, method: Seq<char>)
    requires
        mover.moved_result() is Some,
    ensures
        optimized(seq![mover], method) == (Rewritten {
            done: seq![mover],
            warnings: mover.unresolved(Map::empty()) + seq![
                WarningView::FailedInlining { method },
            ],
        }),
{
    let body = seq![mover];
    let data = Map::<Seq<char>, CommandDataView>::empty();
    lemma_extract_without_data(Seq::empty(), Map::empty(), 0, body);
    assert(Seq::<InstructionView>::empty() + body =~= body);
    let none = dangling_warnings(0, method);
    assert(none =~= Seq::<WarningView>::empty());
    lemma_resolve_nothing(mover);
    lemma_absorb_without_taker(Seq::empty(), mover, method);
    let step = absorb(Seq::empty(), mover, method);
    assert(step.done =~= seq![mover]);
    assert(none + mover.unresolved(data) + step.warnings =~= mover.unresolved(data) + seq![
        WarningView::FailedInlining { method },
    ]);
    assert(body.skip(1) =~= Seq::<InstructionView>::empty());
    let all = mover.unresolved(data) + seq![WarningView::FailedInlining { method }];
    assert(rewrite_from(step.done, all, body.skip(1), data, method) == (Rewritten {
        done: step.done,
        warnings: all,
    }));
    assert(body[0] == mover);
    assert(rewrite_from(Seq::empty(), none, body, data, method) == rewrite_from(
        step.done,
        all,
        body.skip(1),
        data,
        method,
    ));
    assert(mover.cast_operand() is None);
    assert(casts_fixed(seq![mover]) =~= seq![mover]);
}

/// The label of a parameter that refers to a data block by its label.
pub open spec fn label_of(parameter: CommandParameterView) -> Option<Seq<char>> {
    match parameter {
        CommandParameterView::Data(CommandDataView::Label(label)) => Some(label),
        _ => None,
    }
}

/// Whether `warnings` tells of the data label of a parameter, where it
/// still has one.
pub open spec fn label_warned(parameter: CommandParameterView, warnings: Seq<WarningView>) -> bool {
    match label_of(parameter) {
        Some(label) => warnings.contains(WarningView::UnresolvedData { label }),
        None => true,
    }
}

/// Whether every data label that is left in a command has been warned of.
pub open spec fn labels_warned(instructions: Seq<InstructionView>, warnings: Seq<WarningView>) -> bool {
    forall|at: int, index: int|
        0 <= at < instructions.len() && (#[trigger] instructions[at]) is Command && 0 <= index
            < instructions[at]->parameters.len() ==> label_warned(
            #[trigger] instructions[at]->parameters[index],
            warnings,
        )
}

/// Whether no block of the table is itself a label.
pub open spec fn blocks_only(data: Map<Seq<char>, CommandDataView>) -> bool {
    forall|label: Seq<char>| data.contains_key(label) ==> !(#[trigger] data[label] is Label)
}

/// Whether no data block among the instructions is itself a label. What the
/// parser reads is so.
pub open spec fn no_label_blocks(instructions: Seq<InstructionView>) -> bool {
    forall|at: int|
        0 <= at < instructions.len() ==> !((#[trigger] instructions[at])
            matches InstructionView::Data(CommandDataView::Label(_)))
}

proof fn lemma_extract_blocks_only(
    kept: Seq<InstructionView>,
    data: Map<Seq<char>, CommandDataView>,
    dangling: nat,
    rest: Seq<InstructionView>,
)
    requires
        blocks_only(data),
        no_label_blocks(rest),
    ensures
        blocks_only(extract_from(kept, data, dangling, rest).data),
    decreases rest.len(),
{
    if rest.len() > 0 {
        assert forall|at: int| 0 <= at < rest.skip(1).len() implies !((
        #[trigger] rest.skip(1)[at]) matches InstructionView::Data(CommandDataView::Label(_))) by {
            assert(rest.skip(1)[at] == rest[at + 1]);
        }
        match rest[0] {
            InstructionView::Data(block) => {
                if kept.len() > 0 && kept.last() is Label {
                    let grown = data.insert(kept.last()->Label_0, block);
                    assert(!(block is Label));
                    assert(blocks_only(grown));
                    lemma_extract_blocks_only(kept.drop_last(), grown, dangling, rest.skip(1));
                } else {
                    lemma_extract_blocks_only(
                        kept.push(rest[0]),
                        data,
                        dangling + 1,
                        rest.skip(1),
                    );
                }
            },
            _ => {
                lemma_extract_blocks_only(kept.push(rest[0]), data, dangling, rest.skip(1));
            },
        }
    }
}

/// Each data label that resolving leaves among the first `n` parameters is
/// among the warnings of resolving them.
proof fn lemma_unresolved_among(
    parameters: Seq<CommandParameterView>,
    data: Map<Seq<char>, CommandDataView>,
    n: int,
    index: int,
)
    requires
        blocks_only(data),
        0 <= index < n <= parameters.len(),
    ensures
        label_warned(parameters[index].resolve(data), unresolved_among(parameters, data, n)),
    decreases n,
{
    let earlier = unresolved_among(parameters, data, n - 1);
    let last = parameters[n - 1].unresolved(data);
    match label_of(parameters[index].resolve(data)) {
        Some(label) => {
            let warning = WarningView::UnresolvedData { label };
            if index < n - 1 {
                lemma_unresolved_among(parameters, data, n - 1, index);
                let at = choose|at: int| 0 <= at < earlier.len() && earlier[at] == warning;
                assert((earlier + last)[at] == warning);
            } else {
                assert(last[0] == warning);
                assert((earlier + last)[earlier.len() as int] == warning);
            }
        },
        None => {},
    }
}

proof fn lemma_warned_grows(
    parameter: CommandParameterView,
    warnings: Seq<WarningView>,
    before: Seq<WarningView>,
    after: Seq<WarningView>,
)
    requires
        label_warned(parameter, warnings),
    ensures
        label_warned(parameter, before + warnings + after),
{
    match label_of(parameter) {
        Some(label) => {
            let warning = WarningView::UnresolvedData { label };
            let found = choose|found: int| 0 <= found < warnings.len() && warnings[found] == warning;
            assert((before + warnings + after)[before.len() + found] == warning);
        },
        None => {},
    }
}

proof fn lemma_rewrite_labels_warned(
    done: Seq<InstructionView>,
    warnings: Seq<WarningView>,
    rest: Seq<InstructionView>,
    data: Map<Seq<char>, CommandDataView>,
    method: Seq<char>,
)
    requires
        blocks_only(data),
        labels_warned(done, warnings),
    ensures
        labels_warned(
            rewrite_from(done, warnings, rest, data, method).done,
            rewrite_from(done, warnings, rest, data, method).warnings,
        ),
    decreases rest.len(),
{
    if rest.len() > 0 {
        let next = rest[0].resolve(data);
        let step = absorb(done, next, method);
        let told = rest[0].unresolved(data);
        let grown = warnings + told + step.warnings;
        lemma_last_command(done);
        assert forall|at: int, index: int|
            0 <= at < step.done.len() && (#[trigger] step.done[at]) is Command && 0 <= index
                < step.done[at]->parameters.len() implies label_warned(
            #[trigger] step.done[at]->parameters[index],
            grown,
        ) by {
            let parameter = step.done[at]->parameters[index];
            if at < done.len() {
                // An instruction that was there before keeps every
                // parameter but, at most, its result.
                assert(done[at] is Command);
                if label_of(parameter) is Some {
                    assert(done[at]->parameters[index] == parameter);
                }
                if index < done[at]->parameters.len() && done[at]->parameters[index] == parameter {
                    lemma_warned_grows(
                        parameter,
                        warnings,
                        Seq::empty(),
                        told + step.warnings,
                    );
                    assert(Seq::<WarningView>::empty() + warnings + (told + step.warnings)
                        =~= grown);
                }
            } else {
                assert(step.done[at] == next);
                assert(rest[0] is Command);
                lemma_unresolved_among(
                    rest[0]->parameters,
                    data,
                    rest[0]->parameters.len() as int,
                    index,
                );
                lemma_warned_grows(parameter, told, warnings, step.warnings);
            }
        }
        lemma_rewrite_labels_warned(step.done, grown, rest.skip(1), data, method);
    }
}

/// After the rewriting of a body, every data label that is left in a command
/// has been warned of: where nothing of the kind is warned of, no command
/// refers to a data block by its label any more.
pub proof fn lemma_labels_resolved_or_warned(instructions: Seq<InstructionView>, method: Seq<char>)
    requires
        no_label_blocks(instructions),
    ensures
        labels_warned(
            optimized(instructions, method).done,
            optimized(instructions, method).warnings,
        ),
{
    let extraction = extracted(instructions);
    lemma_extract_blocks_only(Seq::empty(), Map::empty(), 0, instructions);
    let begun = dangling_warnings(extraction.dangling, method);
    let rewritten = rewrite_from(Seq::empty(), begun, extraction.kept, extraction.data, method);
    lemma_rewrite_labels_warned(Seq::empty(), begun, extraction.kept, extraction.data, method);
    let fixed = casts_fixed(rewritten.done);
    assert forall|at: int, index: int|
        0 <= at < fixed.len() && (#[trigger] fixed[at]) is Command && 0 <= index
            < fixed[at]->parameters.len() implies label_warned(
        #[trigger] fixed[at]->parameters[index],
        rewritten.warnings,
    ) by {
        assert(fixed[at] == rewritten.done[at].fix_check_cast());
        assert(rewritten.done[at] is Command);
        if label_of(fixed[at]->parameters[index]) is Some {
            assert(rewritten.done[at]->parameters[index] == fixed[at]->parameters[index]);
        }
    }
}

} // verus!
