//! The optimiser: a store/load peephole rewrite, then canonical label names.
use crate::instruction::{Instruction, Operand};
use crate::opcodes::{OP_CALL, OP_DUP, OP_JUMP, OP_JUMP_IF, OP_LOAD_IMM, OP_STORE_IMM};
use crate::program::{Listing, Program};
use crate::table::{find_key, key_index, keyed, lemma_key_index, lemma_key_index_at};
use crate::text::{decimal, decimal_string, lemma_decimal_injective};
use vstd::prelude::*;

verus! {

/// Why a program cannot be optimised.
#[derive(Debug, Clone, Copy, PartialEq, Eq, Structural)]
pub enum OptimizeError {
    /// The jump or call at this address names a label the table lacks.
    UnresolvedLabel { at: usize },
}

/// Whether `code` starts with `StoreImm(x), LoadImm(x)` for one name `x`.
pub open spec fn starts_with_store_load(code: Seq<(u8, Operand)>) -> bool {
    &&& code.len() >= 2
    &&& code[0].0 == OP_STORE_IMM
    &&& code[1].0 == OP_LOAD_IMM
    &&& code[0].1 == code[1].1
}

/// The store/load rewrite: each `StoreImm(x)` directly followed by
/// `LoadImm(x)` becomes `Dup, StoreImm(x)`, scanning left to right; after a
/// rewrite the scan starts afresh.
pub open spec fn elide(code: Seq<(u8, Operand)>) -> Seq<(u8, Operand)>
    decreases code.len(),
{
    if code.len() == 0 {
        code
    } else if starts_with_store_load(code) {
        seq![(OP_DUP, Operand::Nothing), code[0]] + elide(code.skip(2))
    } else {
        seq![code[0]] + elide(code.skip(1))
    }
}

/// Whether an opcode names a label of the program as its target.
pub open spec fn targets_label(op: u8) -> bool {
    op == OP_JUMP || op == OP_JUMP_IF || op == OP_CALL
}

/// Whether an instruction's target, if it has one, is in the label table.
pub open spec fn resolved(labels: Seq<(Seq<char>, usize)>, c: (u8, Operand)) -> bool {
    targets_label(c.0) ==> (c.1 matches Operand::Text(name) && key_index(labels, name) is Some)
}

/// Whether every target of the code is in the label table.
pub open spec fn all_resolved(l: Listing) -> bool {
    forall|i: int| 0 <= i < l.code.len() ==> resolved(l.labels, #[trigger] l.code[i])
}

/// An instruction with its target renamed to the numeral of its label's index.
pub open spec fn canonical_instruction(labels: Seq<(Seq<char>, usize)>, c: (u8, Operand)) -> (u8, Operand) {
    if targets_label(c.0) {
        match c.1 {
            Operand::Text(name) => match key_index(labels, name) {
                Some(i) => (c.0, Operand::Text(decimal(i))),
                None => c,
            },
            _ => c,
        }
    } else {
        c
    }
}

/// The label table with each name replaced by the numeral of its index.
pub open spec fn canonical_labels(labels: Seq<(Seq<char>, usize)>) -> Seq<(Seq<char>, usize)> {
    Seq::new(labels.len(), |i: int| (decimal(i as nat), labels[i].1))
}

/// Canonical label names: label `i` of the table is named by the numeral
/// of `i`, and every jump and call target follows its label.
pub open spec fn canonical(l: Listing) -> Listing {
    Listing {
        code: l.code.map_values(|c: (u8, Operand)| canonical_instruction(l.labels, c)),
        labels: canonical_labels(l.labels),
    }
}

/// Whether `at` is the first address whose target is not in the table.
pub open spec fn first_unresolved(l: Listing, at: int) -> bool {
    &&& 0 <= at < l.code.len()
    &&& !resolved(l.labels, l.code[at])
    &&& forall|j: int| 0 <= j < at ==> resolved(l.labels, #[trigger] l.code[j])
}

/// In a canonical table, the numeral of `i` finds entry `i`.
proof fn lemma_canonical_index(labels: Seq<(Seq<char>, usize)>, i: nat)
    requires
        i < labels.len(),
    ensures
        key_index(canonical_labels(labels), decimal(i)) == Some(i),
{
    let c = canonical_labels(labels);
    assert forall|j: int| 0 <= j < i implies c[j].0 != decimal(i) by {
        if c[j].0 == decimal(i) {
            lemma_decimal_injective(j as nat, i);
        }
    }
    lemma_key_index_at(c, decimal(i), i as int);
}

/// Canonicalising labels twice gives what canonicalising once gives.
pub proof fn lemma_canonical_idempotent(l: Listing)
    requires
        all_resolved(l),
    ensures
        all_resolved(canonical(l)),
        canonical(canonical(l)) == canonical(l),
{
    let c = canonical(l);
    assert forall|k: int| 0 <= k < c.code.len() implies resolved(c.labels, #[trigger] c.code[k])
        && canonical_instruction(c.labels, c.code[k]) == c.code[k] by {
        let x = l.code[k];
        assert(resolved(l.labels, x));
        assert(c.code[k] == canonical_instruction(l.labels, x));
        if targets_label(x.0) {
            if let Operand::Text(name) = x.1 {
                let i = key_index(l.labels, name)->0;
                lemma_key_index(l.labels, name);
                lemma_canonical_index(l.labels, i);
                assert(c.code[k] == (x.0, Operand::Text(decimal(i))));
            }
        }
    }
    assert(canonical(c).labels =~= c.labels);
    assert(canonical(c).code =~= c.code);
}

/// The store/load rewrite on a program; labels are kept as they are.
pub fn elide_store_load(program: &Program) -> (r: Program)
    ensures
        r@ == (Listing { code: elide(program@.code), labels: program@.labels }),
{
    let code = &program.instructions;
    let ghost all = program@.code;
    let mut out: Vec<Instruction> = Vec::new();
    let mut i: usize = 0;
    assert(all.skip(0) =~= all);
    assert(out@.map_values(|x: Instruction| x.model()) =~= Seq::<(u8, Operand)>::empty());
    while i < code.len()
        invariant
            i <= code@.len(),
            all == code@.map_values(|x: Instruction| x.model()),
            elide(all) == out@.map_values(|x: Instruction| x.model()) + elide(all.skip(i as int)),
        decreases code@.len() - i,
    {
        let ghost rest = all.skip(i as int);
        let ghost before = out@.map_values(|x: Instruction| x.model());
        let mut pair = false;
        if i + 1 < code.len() {
            if let Instruction::StoreImm(a) = &code[i] {
                if let Instruction::LoadImm(b) = &code[i + 1] {
                    pair = a.eq(b);
                }
            }
        }
        assert(rest[0] == all[i as int]);
        if pair {
            assert(rest[1] == all[i + 1]);
            assert(starts_with_store_load(rest));
            out.push(Instruction::Dup);
            out.push(code[i].duplicate());
            assert(rest.skip(2) =~= all.skip(i + 2));
            assert(out@.map_values(|x: Instruction| x.model()) =~= before + seq![(OP_DUP, Operand::Nothing), rest[0]]);
            i = i + 2;
        } else {
            assert(!starts_with_store_load(rest)) by {
                if starts_with_store_load(rest) {
                    assert(rest[1] == all[i + 1]);
                }
            }
            out.push(code[i].duplicate());
            assert(rest.skip(1) =~= all.skip(i + 1));
            assert(out@.map_values(|x: Instruction| x.model()) =~= before + seq![rest[0]]);
            i = i + 1;
        }
    }
    assert(all.skip(i as int) =~= Seq::<(u8, Operand)>::empty());
    assert(elide(all) =~= out@.map_values(|x: Instruction| x.model()));
    Program { instructions: out, labels: copy_labels(&program.labels) }
}

fn copy_labels(labels: &Vec<(String, usize)>) -> (r: Vec<(String, usize)>)
    ensures
        keyed(r@) == keyed(labels@),
{
    let mut out: Vec<(String, usize)> = Vec::new();
    let mut i: usize = 0;
    while i < labels.len()
        invariant
            i <= labels@.len(),
            keyed(out@) =~= keyed(labels@).take(i as int),
        decreases labels@.len() - i,
    {
        let ghost prev = out@;
        out.push((labels[i].0.clone(), labels[i].1));
        assert(keyed(out@) =~= keyed(prev).push(keyed(labels@)[i as int]));
        assert(keyed(labels@).take(i + 1) =~= keyed(labels@).take(i as int).push(keyed(labels@)[i as int]));
        i = i + 1;
    }
    assert(keyed(labels@).take(i as int) =~= keyed(labels@));
    out
}

fn canonical_table(labels: &Vec<(String, usize)>) -> (r: Vec<(String, usize)>)
    ensures
        keyed(r@) == canonical_labels(keyed(labels@)),
{
    let mut out: Vec<(String, usize)> = Vec::new();
    let mut i: usize = 0;
    while i < labels.len()
        invariant
            i <= labels@.len(),
            keyed(out@) =~= canonical_labels(keyed(labels@)).take(i as int),
        decreases labels@.len() - i,
    {
        let name = decimal_string(i as u64);
        assert(name@ == decimal(i as nat));
        let ghost prev = out@;
        let ghost c = canonical_labels(keyed(labels@));
        out.push((name, labels[i].1));
        assert(keyed(out@) =~= keyed(prev).push(c[i as int]));
        assert(c.take(i + 1) =~= c.take(i as int).push(c[i as int]));
        i = i + 1;
    }
    assert(canonical_labels(keyed(labels@)).take(i as int) =~= canonical_labels(keyed(labels@)));
    out
}

/// The name a jump or call target gets: the numeral of its label's index.
fn retarget(labels: &Vec<(String, usize)>, name: &String) -> (r: Option<String>)
    ensures
        match r {
            Some(s) => key_index(keyed(labels@), name@) matches Some(i) && s@ == decimal(i),
            None => key_index(keyed(labels@), name@) is None,
        },
{
    match find_key(labels, name.as_str()) {
        Some(i) => Some(decimal_string(i as u64)),
        None => None,
    }
}

/// Label canonicalisation: label `i` of the table is renamed to the numeral
/// of `i`, and each jump and call target to the new name of its label. Native
/// call targets are left alone. A target missing from the table is an error.
pub fn canonicalize(program: &Program) -> (r: Result<Program, OptimizeError>)
    ensures
        match r {
            Ok(p) => all_resolved(program@) && p@ == canonical(program@),
            Err(OptimizeError::UnresolvedLabel { at }) => first_unresolved(program@, at as int),
        },
{
    let code = &program.instructions;
    let ghost l = program@;
    let mut out: Vec<Instruction> = Vec::new();
    let mut k: usize = 0;
    while k < code.len()
        invariant
            k <= code@.len(),
            l == program@,
            l.code == code@.map_values(|x: Instruction| x.model()),
            out@.map_values(|x: Instruction| x.model()) =~= l.code.take(k as int).map_values(
                |c: (u8, Operand)| canonical_instruction(l.labels, c),
            ),
            forall|j: int| 0 <= j < k ==> resolved(l.labels, #[trigger] l.code[j]),
        decreases code@.len() - k,
    {
        assert(l.code[k as int] == code@[k as int].model());
        let next = match &code[k] {
            Instruction::Jump(name) => match retarget(&program.labels, name) {
                Some(s) => Instruction::Jump(s),
                None => return Err(OptimizeError::UnresolvedLabel { at: k }),
            },
            Instruction::JumpIf(name) => match retarget(&program.labels, name) {
                Some(s) => Instruction::JumpIf(s),
                None => return Err(OptimizeError::UnresolvedLabel { at: k }),
            },
            Instruction::Call(name) => match retarget(&program.labels, name) {
                Some(s) => Instruction::Call(s),
                None => return Err(OptimizeError::UnresolvedLabel { at: k }),
            },
            other => other.duplicate(),
        };
        assert(next.model() == canonical_instruction(l.labels, l.code[k as int]));
        let ghost prev = out@;
        out.push(next);
        assert(out@.map_values(|x: Instruction| x.model()) =~= prev.map_values(|x: Instruction| x.model()).push(next.model()));
        assert(l.code.take(k + 1) =~= l.code.take(k as int).push(l.code[k as int]));
        k = k + 1;
    }
    assert(l.code.take(k as int) =~= l.code);
    let labels = canonical_table(&program.labels);
    let r = Program { instructions: out, labels };
    assert(r@.code =~= canonical(l).code);
    Ok(r)
}

/// Optimises a program: the store/load rewrite, then label canonicalisation.
pub fn optimise(program: &Program) -> (r: Result<Program, OptimizeError>)
    ensures
        ({
            let e = Listing { code: elide(program@.code), labels: program@.labels };
            match r {
                Ok(p) => all_resolved(e) && p@ == canonical(e),
                Err(OptimizeError::UnresolvedLabel { at }) => first_unresolved(e, at as int),
            }
        }),
{
    let elided = elide_store_load(program);
    canonicalize(&elided)
}

} // verus!
