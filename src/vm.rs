//! The execution engine: two stacks, a variable store and a registry of
//! native handler names, driven one instruction at a time.
//!
//! The engine itself never ends the process and never calls into the host.
//! Each step reports a [`Step`]: whether the machine can go on, has run off
//! the end, asks to exit, needs a native handler run or a float operation
//! computed, or has faulted. A fault leaves the machine as it was before the
//! faulting instruction, with the pointer at that instruction.
use crate::instruction::Instruction;
use crate::program::Program;
use crate::table::{
    find_key, key_index, keyed, lemma_table_push, lemma_table_remove, lemma_table_update,
    lemma_unique_index, str_eq, table_map, unique_keys,
};
use crate::value::{
    binary, binary_spec, compare, compare_spec, equality, equality_spec, Arith, BinOp, CmpOp,
    Fault, FloatOp, Value,
};
use vstd::prelude::*;

verus! {

/// The engine: a program, the instruction pointer, the data and call stacks,
/// the variable store and the names of the registered native handlers.
pub struct VM {
    program: Program,
    ptr: usize,
    call_stack: Vec<usize>,
    data_stack: Vec<Value>,
    memory: Vec<(String, Value)>,
    native_handlers: Vec<String>,
}

/// The state of an engine, as mathematical values.
pub struct Machine {
    pub code: Seq<Instruction>,
    pub labels: Seq<(Seq<char>, usize)>,
    pub natives: Set<Seq<char>>,
    pub ptr: usize,
    pub calls: Seq<usize>,
    pub data: Seq<Value>,
    pub memory: Map<Seq<char>, Value>,
}

/// What a step came to, as mathematical values.
pub enum Event {
    Continue,
    Halted,
    Exit(i32),
    Native(Seq<char>),
    Float(FloatOp, u64, u64),
    Fault(Fault),
}

/// What a step came to.
#[derive(Debug)]
pub enum Step {
    /// An instruction ran; the machine can go on.
    Continue,
    /// The pointer is past the last instruction: the program has ended.
    Halted,
    /// The program asks to end with this status.
    Exit(i32),
    /// The registered native handler of this name is to run now, with the
    /// pointer already past its instruction.
    Native(String),
    /// The host is to compute this float operation on two bit patterns and
    /// push the result; the operands are popped and the pointer advanced.
    Float(FloatOp, u64, u64),
    /// A fault: the machine is as it was before the instruction.
    Fault(Fault),
}

impl Step {
    pub open spec fn event(&self) -> Event {
        match self {
            Step::Continue => Event::Continue,
            Step::Halted => Event::Halted,
            Step::Exit(c) => Event::Exit(*c),
            Step::Native(n) => Event::Native(n@),
            Step::Float(op, x, y) => Event::Float(*op, *x, *y),
            Step::Fault(f) => Event::Fault(*f),
        }
    }
}

pub open spec fn advance(m: Machine) -> Machine {
    Machine { ptr: (m.ptr + 1) as usize, ..m }
}

pub open spec fn with_data(m: Machine, d: Seq<Value>) -> Machine {
    Machine { data: d, ..m }
}

/// The address a label names, if the table has it.
pub open spec fn label_target(m: Machine, name: Seq<char>) -> Option<usize> {
    match key_index(m.labels, name) {
        Some(i) => Some(m.labels[i as int].1),
        None => None,
    }
}

/// Ends an operation on the top `k` values with result `r`: a value replaces
/// them; a float operation pops them for the host; a fault changes nothing.
pub open spec fn finish(m: Machine, k: int, r: Result<Arith, Fault>) -> (Machine, Event) {
    match r {
        Err(f) => (m, Event::Fault(f)),
        Ok(Arith::Done(v)) => (
            advance(with_data(m, m.data.take(m.data.len() - k).push(v))),
            Event::Continue,
        ),
        Ok(Arith::Float(op, x, y)) => (
            advance(with_data(m, m.data.take(m.data.len() - k))),
            Event::Float(op, x, y),
        ),
    }
}

pub open spec fn underflow(m: Machine) -> (Machine, Event) {
    (m, Event::Fault(Fault::StackUnderflow))
}

pub open spec fn binary_step(m: Machine, op: BinOp) -> (Machine, Event) {
    let n = m.data.len();
    if n < 2 {
        underflow(m)
    } else {
        finish(m, 2, binary_spec(op, m.data[n - 2], m.data[n - 1]))
    }
}

pub open spec fn immediate_step(m: Machine, op: BinOp, rhs: Value) -> (Machine, Event) {
    let n = m.data.len();
    if n < 1 {
        underflow(m)
    } else {
        finish(m, 1, binary_spec(op, m.data[n - 1], rhs))
    }
}

pub open spec fn compare_step(m: Machine, op: CmpOp) -> (Machine, Event) {
    let n = m.data.len();
    if n < 2 {
        underflow(m)
    } else {
        finish(m, 2, compare_spec(op, m.data[n - 2], m.data[n - 1]))
    }
}

pub open spec fn equality_step(m: Machine, negate: bool) -> (Machine, Event) {
    let n = m.data.len();
    if n < 2 {
        underflow(m)
    } else {
        finish(m, 2, Ok(equality_spec(m.data[n - 2], m.data[n - 1], negate)))
    }
}

pub open spec fn push_step(m: Machine, v: Value) -> (Machine, Event) {
    (advance(with_data(m, m.data.push(v))), Event::Continue)
}

pub open spec fn load_step(m: Machine, name: Seq<char>, keep: int) -> (Machine, Event) {
    if m.memory.contains_key(name) {
        (advance(with_data(m, m.data.take(keep).push(m.memory[name]))), Event::Continue)
    } else {
        (m, Event::Fault(Fault::UndefinedVariable))
    }
}

pub open spec fn jump_step(m: Machine, name: Seq<char>, keep: int) -> (Machine, Event) {
    match label_target(m, name) {
        Some(t) => (Machine { ptr: t, data: m.data.take(keep), ..m }, Event::Continue),
        None => (m, Event::Fault(Fault::UndefinedLabel)),
    }
}

/// One step of the machine.
pub open spec fn step_spec(m: Machine) -> (Machine, Event) {
    let n = m.data.len() as int;
    let d = m.data;
    if m.ptr >= m.code.len() {
        (m, Event::Halted)
    } else {
        match m.code[m.ptr as int] {
            Instruction::Exit => if n < 1 {
                underflow(m)
            } else {
                match d[n - 1] {
                    Value::Int(c) => (with_data(m, d.take(n - 1)), Event::Exit(c as i32)),
                    Value::UInt(c) => (with_data(m, d.take(n - 1)), Event::Exit(c as i32)),
                    _ => (m, Event::Fault(Fault::TypeMismatch)),
                }
            },
            Instruction::ExitImmediate(c) => (m, Event::Exit(c as i32)),
            Instruction::PushInt(v) => push_step(m, Value::Int(v)),
            Instruction::PushUInt(v) => push_step(m, Value::UInt(v)),
            Instruction::PushFloat(v) => push_step(m, Value::Float(v)),
            Instruction::PushBool(v) => push_step(m, Value::Bool(v)),
            Instruction::PushString(s) => push_step(m, Value::String(s)),
            Instruction::Pop => if n < 1 {
                underflow(m)
            } else {
                (advance(with_data(m, d.take(n - 1))), Event::Continue)
            },
            Instruction::Dup => if n < 1 {
                underflow(m)
            } else {
                push_step(m, d[n - 1])
            },
            Instruction::Swap => if n < 2 {
                underflow(m)
            } else {
                (advance(with_data(m, d.take(n - 2).push(d[n - 1]).push(d[n - 2]))), Event::Continue)
            },
            Instruction::Add => binary_step(m, BinOp::Add),
            Instruction::AddI(v) => immediate_step(m, BinOp::Add, Value::Int(v)),
            Instruction::AddU(v) => immediate_step(m, BinOp::Add, Value::UInt(v)),
            Instruction::AddF(v) => immediate_step(m, BinOp::Add, Value::Float(v)),
            Instruction::Sub => binary_step(m, BinOp::Sub),
            Instruction::SubI(v) => immediate_step(m, BinOp::Sub, Value::Int(v)),
            Instruction::SubU(v) => immediate_step(m, BinOp::Sub, Value::UInt(v)),
            Instruction::SubF(v) => immediate_step(m, BinOp::Sub, Value::Float(v)),
            Instruction::Mul => binary_step(m, BinOp::Mul),
            Instruction::MulI(v) => immediate_step(m, BinOp::Mul, Value::Int(v)),
            Instruction::MulU(v) => immediate_step(m, BinOp::Mul, Value::UInt(v)),
            Instruction::MulF(v) => immediate_step(m, BinOp::Mul, Value::Float(v)),
            Instruction::Div => binary_step(m, BinOp::Div),
            Instruction::DivI(v) => immediate_step(m, BinOp::Div, Value::Int(v)),
            Instruction::DivU(v) => immediate_step(m, BinOp::Div, Value::UInt(v)),
            Instruction::DivF(v) => immediate_step(m, BinOp::Div, Value::Float(v)),
            Instruction::Mod => binary_step(m, BinOp::Mod),
            Instruction::ModI(v) => immediate_step(m, BinOp::Mod, Value::Int(v)),
            Instruction::ModU(v) => immediate_step(m, BinOp::Mod, Value::UInt(v)),
            Instruction::Exp => binary_step(m, BinOp::Exp),
            Instruction::ExpI(v) => immediate_step(m, BinOp::Exp, Value::Int(v)),
            Instruction::ExpU(v) => immediate_step(m, BinOp::Exp, Value::UInt(v)),
            Instruction::ExpF(v) => immediate_step(m, BinOp::Exp, Value::Float(v)),
            Instruction::Load => if n < 1 {
                underflow(m)
            } else {
                match d[n - 1] {
                    Value::String(s) => load_step(m, s@, n - 1),
                    _ => (m, Event::Fault(Fault::TypeMismatch)),
                }
            },
            Instruction::LoadImm(s) => load_step(m, s@, n),
            Instruction::Store => if n < 2 {
                underflow(m)
            } else {
                match d[n - 2] {
                    Value::String(s) => (
                        advance(Machine { data: d.take(n - 2), memory: m.memory.insert(s@, d[n - 1]), ..m }),
                        Event::Continue,
                    ),
                    _ => (m, Event::Fault(Fault::TypeMismatch)),
                }
            },
            Instruction::StoreImm(s) => if n < 1 {
                underflow(m)
            } else {
                (
                    advance(Machine { data: d.take(n - 1), memory: m.memory.insert(s@, d[n - 1]), ..m }),
                    Event::Continue,
                )
            },
            Instruction::Free => if n < 1 {
                underflow(m)
            } else {
                match d[n - 1] {
                    Value::String(s) => (
                        advance(Machine { data: d.take(n - 1), memory: m.memory.remove(s@), ..m }),
                        Event::Continue,
                    ),
                    _ => (m, Event::Fault(Fault::TypeMismatch)),
                }
            },
            Instruction::FreeImm(s) => (advance(Machine { memory: m.memory.remove(s@), ..m }), Event::Continue),
            Instruction::CmpEqual => equality_step(m, false),
            Instruction::CmpNotEqual => equality_step(m, true),
            Instruction::CmpGreaterThan => compare_step(m, CmpOp::Greater),
            Instruction::CmpLessThan => compare_step(m, CmpOp::Less),
            Instruction::CmpGreaterEqual => compare_step(m, CmpOp::GreaterEqual),
            Instruction::CmpLessEqual => compare_step(m, CmpOp::LessEqual),
            Instruction::Jump(l) => jump_step(m, l@, n),
            Instruction::JumpIf(l) => if n < 1 {
                underflow(m)
            } else {
                match d[n - 1] {
                    Value::Bool(true) => jump_step(m, l@, n - 1),
                    Value::Bool(false) => (advance(with_data(m, d.take(n - 1))), Event::Continue),
                    _ => (m, Event::Fault(Fault::TypeMismatch)),
                }
            },
            Instruction::Call(l) => match label_target(m, l@) {
                Some(t) => (Machine { ptr: t, calls: m.calls.push((m.ptr + 1) as usize), ..m }, Event::Continue),
                None => (m, Event::Fault(Fault::UndefinedLabel)),
            },
            Instruction::CallNative(name) => if m.natives.contains(name@) {
                (advance(m), Event::Native(name@))
            } else {
                (m, Event::Fault(Fault::UndefinedNativeHandler))
            },
            Instruction::Ret => if m.calls.len() == 0 {
                (m, Event::Fault(Fault::CallStackUnderflow))
            } else {
                (Machine { ptr: m.calls.last(), calls: m.calls.drop_last(), ..m }, Event::Continue)
            },
        }
    }
}

/// Up to `fuel` steps: the machine runs while steps come to `Continue`.
pub open spec fn run_spec(m: Machine, fuel: nat) -> (Machine, Event)
    decreases fuel,
{
    if fuel == 0 {
        (m, Event::Continue)
    } else {
        let (next, e) = step_spec(m);
        if e is Continue {
            run_spec(next, (fuel - 1) as nat)
        } else {
            (next, e)
        }
    }
}

/// A `Call` to a defined label pushes the address after it and jumps; a
/// later `Ret`, met with the call stack as the call left it, returns to that
/// address and restores the call stack.
pub proof fn lemma_call_then_ret(m: Machine, later: Machine)
    requires
        m.ptr < m.code.len() <= usize::MAX,
        m.code[m.ptr as int] matches Instruction::Call(l) && label_target(m, l@) is Some,
        later.calls == step_spec(m).0.calls,
        later.ptr < later.code.len(),
        later.code[later.ptr as int] is Ret,
    ensures
        step_spec(m).1 is Continue,
        step_spec(later).1 is Continue,
        step_spec(later).0.ptr == m.ptr + 1,
        step_spec(later).0.calls == m.calls,
{
    assert(step_spec(m).0.calls == m.calls.push((m.ptr + 1) as usize));
    assert(later.calls.drop_last() =~= m.calls);
}

/// A step that faults leaves the machine as it was.
pub proof fn lemma_fault_changes_nothing(m: Machine)
    ensures
        step_spec(m).1 is Fault ==> step_spec(m).0 == m,
{
}

/// `Pop` on an empty data stack and `Ret` on an empty call stack fault, and
/// change nothing.
pub proof fn lemma_underflows(m: Machine)
    requires
        m.ptr < m.code.len(),
    ensures
        m.code[m.ptr as int] is Pop && m.data.len() == 0 ==> step_spec(m) == (m, Event::Fault(Fault::StackUnderflow)),
        m.code[m.ptr as int] is Ret && m.calls.len() == 0 ==> step_spec(m) == (m, Event::Fault(Fault::CallStackUnderflow)),
{
}

impl View for VM {
    type V = Machine;

    closed spec fn view(&self) -> Machine {
        Machine {
            code: self.program.instructions@,
            labels: keyed(self.program.labels@),
            natives: Set::new(
                |n: Seq<char>|
                    exists|i: int| 0 <= i < self.native_handlers@.len() && #[trigger] self.native_handlers@[i]@ == n,
            ),
            ptr: self.ptr,
            calls: self.call_stack@,
            data: self.data_stack@,
            memory: table_map(keyed(self.memory@)),
        }
    }
}

impl VM {
    /// The engine's internal invariant: variable names are unique in the store.
    pub closed spec fn wf(&self) -> bool {
        &&& unique_keys(keyed(self.memory@))
        &&& self.program.instructions@.len() <= usize::MAX
    }

    /// A fresh engine for `program`: pointer at the start, empty stacks,
    /// store and registry.
    pub fn new(program: Program) -> (r: VM)
        ensures
            r.wf(),
            r@.code == program.instructions@,
            r@.labels == keyed(program.labels@),
            r@.natives == Set::<Seq<char>>::empty(),
            r@.ptr == 0,
            r@.calls == Seq::<usize>::empty(),
            r@.data == Seq::<Value>::empty(),
            r@.memory == Map::<Seq<char>, Value>::empty(),
    {
        let count = program.instructions.len();
        assert(program.instructions@.len() == count);
        let r = VM {
            program,
            ptr: 0,
            call_stack: Vec::new(),
            data_stack: Vec::new(),
            memory: Vec::new(),
            native_handlers: Vec::new(),
        };
        assert(r@.natives =~= Set::<Seq<char>>::empty());
        assert(r@.memory =~= Map::<Seq<char>, Value>::empty());
        r
    }

    /// The address of the next instruction.
    pub fn pointer(&self) -> (r: usize)
        ensures
            r == self@.ptr,
    {
        self.ptr
    }

    /// How many return addresses the call stack holds.
    pub fn call_depth(&self) -> (r: usize)
        ensures
            r == self@.calls.len(),
    {
        self.call_stack.len()
    }

    /// How many values the data stack holds.
    pub fn depth(&self) -> (r: usize)
        ensures
            r == self@.data.len(),
    {
        self.data_stack.len()
    }

    /// Pushes a value on the data stack.
    pub fn push(&mut self, value: Value)
        requires
            old(self).wf(),
        ensures
            final(self).wf(),
            final(self)@ == with_data(old(self)@, old(self)@.data.push(value)),
    {
        self.data_stack.push(value);
    }

    /// Pops the top of the data stack; on an empty stack, a `StackUnderflow`
    /// and no change.
    pub fn pop(&mut self) -> (r: Result<Value, Fault>)
        requires
            old(self).wf(),
        ensures
            final(self).wf(),
            old(self)@.data.len() == 0 ==> r == Err::<Value, _>(Fault::StackUnderflow) && final(self)@ == old(self)@,
            old(self)@.data.len() > 0 ==> r == Ok::<_, Fault>(old(self)@.data.last())
                && final(self)@ == with_data(old(self)@, old(self)@.data.drop_last()),
    {
        match self.data_stack.pop() {
            Some(v) => Ok(v),
            None => Err(Fault::StackUnderflow),
        }
    }

    /// Pushes a copy of the top of the data stack; on an empty stack, a
    /// `StackUnderflow` and no change.
    pub fn dup(&mut self) -> (r: Result<(), Fault>)
        requires
            old(self).wf(),
        ensures
            final(self).wf(),
            old(self)@.data.len() == 0 ==> r == Err::<(), _>(Fault::StackUnderflow) && final(self)@ == old(self)@,
            old(self)@.data.len() > 0 ==> r is Ok
                && final(self)@ == with_data(old(self)@, old(self)@.data.push(old(self)@.data.last())),
    {
        let n = self.data_stack.len();
        if n == 0 {
            return Err(Fault::StackUnderflow);
        }
        let top = self.data_stack[n - 1].duplicate();
        self.data_stack.push(top);
        Ok(())
    }

    /// Exchanges the top two values; with fewer than two, a `StackUnderflow`
    /// and no change.
    pub fn swap(&mut self) -> (r: Result<(), Fault>)
        requires
            old(self).wf(),
        ensures
            final(self).wf(),
            old(self)@.data.len() < 2 ==> r == Err::<(), _>(Fault::StackUnderflow) && final(self)@ == old(self)@,
            old(self)@.data.len() >= 2 ==> r is Ok && final(self)@ == with_data(
                old(self)@,
                old(self)@.data.take(old(self)@.data.len() - 2).push(old(self)@.data[old(self)@.data.len() - 1]).push(
                    old(self)@.data[old(self)@.data.len() - 2],
                ),
            ),
    {
        let n = self.data_stack.len();
        if n < 2 {
            return Err(Fault::StackUnderflow);
        }
        let top = self.data_stack.pop().unwrap();
        let below = self.data_stack.pop().unwrap();
        self.data_stack.push(top);
        self.data_stack.push(below);
        assert(self.data_stack@ =~= old(self)@.data.take(n - 2).push(old(self)@.data[n - 1]).push(old(self)@.data[n - 2]));
        Ok(())
    }

    /// Binds a variable, replacing any earlier value.
    pub fn set_memory(&mut self, name: &str, value: Value)
        requires
            old(self).wf(),
        ensures
            final(self).wf(),
            final(self)@ == (Machine { memory: old(self)@.memory.insert(name@, value), ..old(self)@ }),
    {
        let ghost s = keyed(self.memory@);
        match find_key(&self.memory, name) {
            Some(i) => {
                proof {
                    lemma_unique_index(s, name@);
                    crate::table::lemma_key_index(s, name@);
                    lemma_table_update(s, i as int, value);
                }
                self.memory[i] = (name.to_owned(), value);
                assert(keyed(self.memory@) =~= s.update(i as int, (s[i as int].0, value)));
            },
            None => {
                proof {
                    lemma_table_push(s, name@, value);
                }
                self.memory.push((name.to_owned(), value));
                assert(keyed(self.memory@) =~= s.push((name@, value)));
            },
        }
    }

    /// The value of a variable, if it is bound.
    pub fn get_memory(&self, name: &str) -> (r: Option<&Value>)
        ensures
            r is Some <==> self@.memory.contains_key(name@),
            r matches Some(v) ==> *v == self@.memory[name@],
    {
        match find_key(&self.memory, name) {
            Some(i) => Some(&self.memory[i].1),
            None => None,
        }
    }

    /// Unbinds a variable; a name that is not bound is left alone.
    pub fn free_memory(&mut self, name: &str)
        requires
            old(self).wf(),
        ensures
            final(self).wf(),
            final(self)@ == (Machine { memory: old(self)@.memory.remove(name@), ..old(self)@ }),
    {
        let ghost s = keyed(self.memory@);
        match find_key(&self.memory, name) {
            Some(i) => {
                proof {
                    crate::table::lemma_key_index(s, name@);
                    lemma_table_remove(s, i as int);
                }
                self.memory.remove(i);
                assert(keyed(self.memory@) =~= s.remove(i as int));
            },
            None => {
                assert(table_map(s).remove(name@) =~= table_map(s));
            },
        }
    }

    /// Whether a native handler is registered under `name`.
    pub fn has_native_handler(&self, name: &str) -> (r: bool)
        ensures
            r == self@.natives.contains(name@),
    {
        let mut i: usize = 0;
        while i < self.native_handlers.len()
            invariant
                i <= self.native_handlers@.len(),
                forall|j: int| 0 <= j < i ==> self.native_handlers@[j]@ != name@,
            decreases self.native_handlers@.len() - i,
        {
            if str_eq(self.native_handlers[i].as_str(), name) {
                assert(self.native_handlers@[i as int]@ == name@);
                return true;
            }
            i += 1;
        }
        false
    }

    /// Registers a native handler name. The host keeps the handler itself and
    /// runs it when a step reports [`Step::Native`] with this name.
    pub fn register_native_handler(&mut self, name: &str)
        requires
            old(self).wf(),
        ensures
            final(self).wf(),
            final(self)@ == (Machine { natives: old(self)@.natives.insert(name@), ..old(self)@ }),
    {
        if self.has_native_handler(name) {
            assert(self@.natives.insert(name@) =~= self@.natives);
            return;
        }
        let ghost before = self.native_handlers@;
        self.native_handlers.push(name.to_owned());
        assert(self.native_handlers@[before.len() as int]@ == name@);
        assert forall|n: Seq<char>| self@.natives.contains(n) <==> old(self)@.natives.insert(name@).contains(n) by {
            if old(self)@.natives.contains(n) {
                let j = choose|j: int| 0 <= j < before.len() && #[trigger] before[j]@ == n;
                assert(self.native_handlers@[j]@ == n);
            }
            if self@.natives.contains(n) && n != name@ {
                let j = choose|j: int| 0 <= j < self.native_handlers@.len() && #[trigger] self.native_handlers@[j]@ == n;
                assert(before[j]@ == n);
            }
        }
        assert(self@.natives =~= old(self)@.natives.insert(name@));
    }

    fn finish_exec(&mut self, k: usize, r: Result<Arith, Fault>) -> (s: Step)
        requires
            old(self).wf(),
            k <= old(self)@.data.len(),
            old(self)@.ptr < old(self)@.code.len(),
        ensures
            final(self).wf(),
            (final(self)@, s.event()) == finish(old(self)@, k as int, r),
    {
        let n = self.data_stack.len();
        match r {
            Err(f) => Step::Fault(f),
            Ok(Arith::Done(v)) => {
                self.data_stack.truncate(n - k);
                self.data_stack.push(v);
                self.ptr = self.ptr + 1;
                Step::Continue
            },
            Ok(Arith::Float(op, x, y)) => {
                self.data_stack.truncate(n - k);
                self.ptr = self.ptr + 1;
                Step::Float(op, x, y)
            },
        }
    }

    fn binary_exec(&mut self, op: BinOp) -> (s: Step)
        requires
            old(self).wf(),
            old(self)@.ptr < old(self)@.code.len(),
        ensures
            final(self).wf(),
            (final(self)@, s.event()) == binary_step(old(self)@, op),
    {
        let n = self.data_stack.len();
        if n < 2 {
            return Step::Fault(Fault::StackUnderflow);
        }
        let r = binary(op, &self.data_stack[n - 2], &self.data_stack[n - 1]);
        self.finish_exec(2, r)
    }

    fn immediate_exec(&mut self, op: BinOp, rhs: Value) -> (s: Step)
        requires
            old(self).wf(),
            old(self)@.ptr < old(self)@.code.len(),
        ensures
            final(self).wf(),
            (final(self)@, s.event()) == immediate_step(old(self)@, op, rhs),
    {
        let n = self.data_stack.len();
        if n < 1 {
            return Step::Fault(Fault::StackUnderflow);
        }
        let r = binary(op, &self.data_stack[n - 1], &rhs);
        self.finish_exec(1, r)
    }

    fn compare_exec(&mut self, op: CmpOp) -> (s: Step)
        requires
            old(self).wf(),
            old(self)@.ptr < old(self)@.code.len(),
        ensures
            final(self).wf(),
            (final(self)@, s.event()) == compare_step(old(self)@, op),
    {
        let n = self.data_stack.len();
        if n < 2 {
            return Step::Fault(Fault::StackUnderflow);
        }
        let r = compare(op, &self.data_stack[n - 2], &self.data_stack[n - 1]);
        self.finish_exec(2, r)
    }

    fn equality_exec(&mut self, negate: bool) -> (s: Step)
        requires
            old(self).wf(),
            old(self)@.ptr < old(self)@.code.len(),
        ensures
            final(self).wf(),
            (final(self)@, s.event()) == equality_step(old(self)@, negate),
    {
        let n = self.data_stack.len();
        if n < 2 {
            return Step::Fault(Fault::StackUnderflow);
        }
        let r = equality(&self.data_stack[n - 2], &self.data_stack[n - 1], negate);
        self.finish_exec(2, Ok(r))
    }

    fn push_exec(&mut self, v: Value) -> (s: Step)
        requires
            old(self).wf(),
            old(self)@.ptr < old(self)@.code.len(),
        ensures
            final(self).wf(),
            (final(self)@, s.event()) == push_step(old(self)@, v),
    {
        self.data_stack.push(v);
        self.ptr = self.ptr + 1;
        Step::Continue
    }

    fn load_exec(&mut self, name: &str, keep: usize) -> (s: Step)
        requires
            old(self).wf(),
            old(self)@.ptr < old(self)@.code.len(),
            keep <= old(self)@.data.len(),
        ensures
            final(self).wf(),
            (final(self)@, s.event()) == load_step(old(self)@, name@, keep as int),
    {
        let v = match self.get_memory(name) {
            Some(v) => v.duplicate(),
            None => return Step::Fault(Fault::UndefinedVariable),
        };
        self.data_stack.truncate(keep);
        self.data_stack.push(v);
        self.ptr = self.ptr + 1;
        Step::Continue
    }

    fn jump_exec(&mut self, name: &str, keep: usize) -> (s: Step)
        requires
            old(self).wf(),
            keep <= old(self)@.data.len(),
        ensures
            final(self).wf(),
            (final(self)@, s.event()) == jump_step(old(self)@, name@, keep as int),
    {
        match find_key(&self.program.labels, name) {
            Some(i) => {
                let target = self.program.labels[i].1;
                self.data_stack.truncate(keep);
                self.ptr = target;
                Step::Continue
            },
            None => Step::Fault(Fault::UndefinedLabel),
        }
    }

    /// Runs one instruction, or reports that the program has ended.
    pub fn step(&mut self) -> (s: Step)
        requires
            old(self).wf(),
        ensures
            final(self).wf(),
            (final(self)@, s.event()) == step_spec(old(self)@),
    {
        if self.ptr >= self.program.instructions.len() {
            return Step::Halted;
        }
        let n = self.data_stack.len();
        let instr = self.program.instructions[self.ptr].duplicate();
        match instr {
            Instruction::Exit => {
                if n < 1 {
                    return Step::Fault(Fault::StackUnderflow);
                }
                let code: i32 = match &self.data_stack[n - 1] {
                    Value::Int(c) => #[verifier::truncate] (*c as i32),
                    Value::UInt(c) => #[verifier::truncate] (*c as i32),
                    _ => return Step::Fault(Fault::TypeMismatch),
                };
                self.data_stack.truncate(n - 1);
                Step::Exit(code)
            },
            Instruction::ExitImmediate(c) => Step::Exit(c as i32),
            Instruction::PushInt(v) => self.push_exec(Value::Int(v)),
            Instruction::PushUInt(v) => self.push_exec(Value::UInt(v)),
            Instruction::PushFloat(v) => self.push_exec(Value::Float(v)),
            Instruction::PushBool(v) => self.push_exec(Value::Bool(v)),
            Instruction::PushString(s) => self.push_exec(Value::String(s)),
            Instruction::Pop => {
                if n < 1 {
                    return Step::Fault(Fault::StackUnderflow);
                }
                self.data_stack.truncate(n - 1);
                self.ptr = self.ptr + 1;
                Step::Continue
            },
            Instruction::Dup => {
                if n < 1 {
                    return Step::Fault(Fault::StackUnderflow);
                }
                let top = self.data_stack[n - 1].duplicate();
                self.push_exec(top)
            },
            Instruction::Swap => match self.swap() {
                Ok(()) => {
                    self.ptr = self.ptr + 1;
                    Step::Continue
                },
                Err(f) => Step::Fault(f),
            },
            Instruction::Add => self.binary_exec(BinOp::Add),
            Instruction::AddI(v) => self.immediate_exec(BinOp::Add, Value::Int(v)),
            Instruction::AddU(v) => self.immediate_exec(BinOp::Add, Value::UInt(v)),
            Instruction::AddF(v) => self.immediate_exec(BinOp::Add, Value::Float(v)),
            Instruction::Sub => self.binary_exec(BinOp::Sub),
            Instruction::SubI(v) => self.immediate_exec(BinOp::Sub, Value::Int(v)),
            Instruction::SubU(v) => self.immediate_exec(BinOp::Sub, Value::UInt(v)),
            Instruction::SubF(v) => self.immediate_exec(BinOp::Sub, Value::Float(v)),
            Instruction::Mul => self.binary_exec(BinOp::Mul),
            Instruction::MulI(v) => self.immediate_exec(BinOp::Mul, Value::Int(v)),
            Instruction::MulU(v) => self.immediate_exec(BinOp::Mul, Value::UInt(v)),
            Instruction::MulF(v) => self.immediate_exec(BinOp::Mul, Value::Float(v)),
            Instruction::Div => self.binary_exec(BinOp::Div),
            Instruction::DivI(v) => self.immediate_exec(BinOp::Div, Value::Int(v)),
            Instruction::DivU(v) => self.immediate_exec(BinOp::Div, Value::UInt(v)),
            Instruction::DivF(v) => self.immediate_exec(BinOp::Div, Value::Float(v)),
            Instruction::Mod => self.binary_exec(BinOp::Mod),
            Instruction::ModI(v) => self.immediate_exec(BinOp::Mod, Value::Int(v)),
            Instruction::ModU(v) => self.immediate_exec(BinOp::Mod, Value::UInt(v)),
            Instruction::Exp => self.binary_exec(BinOp::Exp),
            Instruction::ExpI(v) => self.immediate_exec(BinOp::Exp, Value::Int(v)),
            Instruction::ExpU(v) => self.immediate_exec(BinOp::Exp, Value::UInt(v)),
            Instruction::ExpF(v) => self.immediate_exec(BinOp::Exp, Value::Float(v)),
            Instruction::Load => {
                if n < 1 {
                    return Step::Fault(Fault::StackUnderflow);
                }
                let name = match &self.data_stack[n - 1] {
                    Value::String(s) => s.clone(),
                    _ => return Step::Fault(Fault::TypeMismatch),
                };
                self.load_exec(name.as_str(), n - 1)
            },
            Instruction::LoadImm(name) => self.load_exec(name.as_str(), n),
            Instruction::Store => {
                if n < 2 {
                    return Step::Fault(Fault::StackUnderflow);
                }
                let name = match &self.data_stack[n - 2] {
                    Value::String(s) => s.clone(),
                    _ => return Step::Fault(Fault::TypeMismatch),
                };
                let v = self.data_stack[n - 1].duplicate();
                self.data_stack.truncate(n - 2);
                self.set_memory(name.as_str(), v);
                self.ptr = self.ptr + 1;
                Step::Continue
            },
            Instruction::StoreImm(name) => {
                if n < 1 {
                    return Step::Fault(Fault::StackUnderflow);
                }
                let v = self.data_stack[n - 1].duplicate();
                self.data_stack.truncate(n - 1);
                self.set_memory(name.as_str(), v);
                self.ptr = self.ptr + 1;
                Step::Continue
            },
            Instruction::Free => {
                if n < 1 {
                    return Step::Fault(Fault::StackUnderflow);
                }
                let name = match &self.data_stack[n - 1] {
                    Value::String(s) => s.clone(),
                    _ => return Step::Fault(Fault::TypeMismatch),
                };
                self.data_stack.truncate(n - 1);
                self.free_memory(name.as_str());
                self.ptr = self.ptr + 1;
                Step::Continue
            },
            Instruction::FreeImm(name) => {
                self.free_memory(name.as_str());
                self.ptr = self.ptr + 1;
                Step::Continue
            },
            Instruction::CmpEqual => self.equality_exec(false),
            Instruction::CmpNotEqual => self.equality_exec(true),
            Instruction::CmpGreaterThan => self.compare_exec(CmpOp::Greater),
            Instruction::CmpLessThan => self.compare_exec(CmpOp::Less),
            Instruction::CmpGreaterEqual => self.compare_exec(CmpOp::GreaterEqual),
            Instruction::CmpLessEqual => self.compare_exec(CmpOp::LessEqual),
            Instruction::Jump(label) => self.jump_exec(label.as_str(), n),
            Instruction::JumpIf(label) => {
                if n < 1 {
                    return Step::Fault(Fault::StackUnderflow);
                }
                let cond = match &self.data_stack[n - 1] {
                    Value::Bool(b) => *b,
                    _ => return Step::Fault(Fault::TypeMismatch),
                };
                if cond {
                    self.jump_exec(label.as_str(), n - 1)
                } else {
                    self.data_stack.truncate(n - 1);
                    self.ptr = self.ptr + 1;
                    Step::Continue
                }
            },
            Instruction::Call(label) => {
                match find_key(&self.program.labels, label.as_str()) {
                    Some(i) => {
                        let target = self.program.labels[i].1;
                        self.call_stack.push(self.ptr + 1);
                        self.ptr = target;
                        Step::Continue
                    },
                    None => Step::Fault(Fault::UndefinedLabel),
                }
            },
            Instruction::CallNative(name) => {
                if self.has_native_handler(name.as_str()) {
                    self.ptr = self.ptr + 1;
                    Step::Native(name)
                } else {
                    Step::Fault(Fault::UndefinedNativeHandler)
                }
            },
            Instruction::Ret => {
                match self.call_stack.pop() {
                    Some(addr) => {
                        self.ptr = addr;
                        Step::Continue
                    },
                    None => Step::Fault(Fault::CallStackUnderflow),
                }
            },
        }
    }

    /// Runs until a step comes to something other than `Continue`, for at
    /// most `fuel` steps. `Continue` is returned when the fuel ran out.
    pub fn run(&mut self, fuel: u64) -> (s: Step)
        requires
            old(self).wf(),
        ensures
            final(self).wf(),
            (final(self)@, s.event()) == run_spec(old(self)@, fuel as nat),
    {
        let mut left = fuel;
        while left > 0
            invariant
                self.wf(),
                run_spec(old(self)@, fuel as nat) == run_spec(self@, left as nat),
            decreases left,
        {
            let s = self.step();
            match s {
                Step::Continue => {},
                _ => return s,
            }
            left = left - 1;
        }
        Step::Continue
    }
}

} // verus!
