//! The execution engine: machine state, the effect of each operation on the
//! stack and the direction, and the fetch-execute-advance cycle.

use vstd::prelude::*;
use vstd::wrapping::i32_specs::{wrapping_add, wrapping_sub, wrapping_mul};
use rand::Rng;
use crate::arith::{divide, modulo, quotient, remainder};
use crate::grid::{Grid, LoadError, covers, fits, index_of};
use crate::position::{HEIGHT, WIDTH};
use crate::opcode::{Opcode, opcode_of};
use crate::position::{Direction, Point};

verus! {

/// A run-time fault: the run cannot go on.
#[derive(Clone, Copy, Debug, PartialEq, Eq, Structural)]
pub enum Fault {
    /// An operation needed more values than the stack held.
    StackUnderflow,
    /// `/` or `%` with 0 on top of the stack.
    DivideByZero,
}

/// The operation takes two values off the stack and pushes one result.
pub open spec fn is_binary(op: Opcode) -> bool {
    op is Add || op is Sub || op is Mul || op is Div || op is Rem || op is Greater
}

/// What a binary operation pushes for lower value `b` and top value `a`.
pub open spec fn combine(op: Opcode, b: i32, a: i32) -> i32 {
    match op {
        Opcode::Add => wrapping_add(b, a),
        Opcode::Sub => wrapping_sub(b, a),
        Opcode::Mul => wrapping_mul(b, a),
        Opcode::Div => quotient(b, a),
        Opcode::Rem => remainder(b, a),
        Opcode::Greater => if b > a {
            1
        } else {
            0
        },
        _ => 0,
    }
}

/// The stack after operation `op` runs on stack `s` (top last), or the fault
/// it raises. Operations that do not touch the stack leave it as it is.
pub open spec fn effect(op: Opcode, s: Seq<i32>) -> Result<Seq<i32>, Fault> {
    if is_binary(op) {
        if s.len() < 2 {
            Err(Fault::StackUnderflow)
        } else if (op is Div || op is Rem) && s.last() == 0 {
            Err(Fault::DivideByZero)
        } else {
            Ok(s.drop_last().drop_last().push(combine(op, s[s.len() - 2], s.last())))
        }
    } else {
        match op {
            Opcode::Push(n) => Ok(s.push(n as i32)),
            Opcode::Discard => Ok(
                if s.len() == 0 {
                    s
                } else {
                    s.drop_last()
                },
            ),
            Opcode::Not => if s.len() < 1 {
                Err(Fault::StackUnderflow)
            } else {
                Ok(
                    s.drop_last().push(
                        if s.last() == 0 {
                            1
                        } else {
                            0
                        },
                    ),
                )
            },
            Opcode::Dup => if s.len() < 1 {
                Err(Fault::StackUnderflow)
            } else {
                Ok(s.push(s.last()))
            },
            _ => Ok(s),
        }
    }
}

/// The direction that random draw `choice` (one of 0 to 3) selects.
pub open spec fn chosen(choice: u32) -> Direction {
    if choice == 0 {
        Direction { x: 0, y: -1i32 }
    } else if choice == 1 {
        Direction { x: 1, y: 0 }
    } else if choice == 2 {
        Direction { x: 0, y: 1 }
    } else {
        Direction { x: -1i32, y: 0 }
    }
}

/// The direction after operation `op`, with `choice` as the random draw.
pub open spec fn turned(op: Opcode, choice: u32, d: Direction) -> Direction {
    match op {
        Opcode::Left => Direction { x: -1i32, y: 0 },
        Opcode::Up => Direction { x: 0, y: -1i32 },
        Opcode::Right => Direction { x: 1, y: 0 },
        Opcode::Down => Direction { x: 0, y: 1 },
        Opcode::Random => chosen(choice),
        _ => d,
    }
}

/// The abstract state of the engine.
pub struct Machine {
    pub cells: Seq<char>,
    pub pointer: Point,
    pub direction: Direction,
    pub stack: Seq<i32>,
    pub running: bool,
}

/// The operation under the instruction pointer.
pub open spec fn current(m: Machine) -> Opcode {
    opcode_of(m.cells[index_of(m.pointer.x as int, m.pointer.y as int)])
}

/// One step of machine `m` with `choice` as the random draw: execute the
/// operation under the pointer, then advance the pointer, unless the
/// operation halts. A halted machine stays as it is.
pub open spec fn step_model(m: Machine, choice: u32) -> Result<Machine, Fault> {
    let op = current(m);
    if !m.running {
        Ok(m)
    } else if op is Halt {
        Ok(Machine { running: false, ..m })
    } else {
        match effect(op, m.stack) {
            Err(f) => Err(f),
            Ok(s) => {
                let d = turned(op, choice, m.direction);
                Ok(Machine { stack: s, direction: d, pointer: m.pointer.moved(d), ..m })
            },
        }
    }
}

/// Step result `r` and state `after` are what one step of `m` with draw
/// `choice` gives: the next machine, or the fault with `m` left as it was.
pub open spec fn step_outcome(m: Machine, choice: u32, r: Result<(), Fault>, after: Machine) -> bool {
    match step_model(m, choice) {
        Ok(n) => r is Ok && after == n,
        Err(f) => r == Err::<(), Fault>(f) && after == m,
    }
}

/// The machine after steps with the draws `choices`, one per step, or `None`
/// where one of the steps faults.
pub open spec fn steps_model(m: Machine, choices: Seq<u32>) -> Option<Machine>
    decreases choices.len(),
{
    if choices.len() == 0 {
        Some(m)
    } else {
        match steps_model(m, choices.drop_last()) {
            Some(p) => match step_model(p, choices.last()) {
                Ok(q) => Some(q),
                Err(_) => None,
            },
            None => None,
        }
    }
}

/// Every draw is one of the four directions.
pub open spec fn valid_choices(choices: Seq<u32>) -> bool {
    forall|i: int| 0 <= i < choices.len() ==> #[trigger] choices[i] < 4
}

/// Relies on rand's `thread_rng` and `Rng::gen_range`: a value drawn from the
/// half-open range `0..4`.
#[verifier::external_body]
fn draw_direction_index() -> (r: u32)
    ensures
        r < 4,
{
    rand::thread_rng().gen_range(0..4u32)
}

/// The whole state of a run: the program, the instruction pointer, the
/// direction of travel, the stack and whether the program still runs.
#[derive(Debug)]
pub struct State {
    pub program: Grid,
    pub instruction_pointer: Point,
    pub stack: Vec<i32>,
    pub direction: Direction,
    pub running: bool,
}

impl View for State {
    type V = Machine;

    open spec fn view(&self) -> Machine {
        Machine {
            cells: self.program@,
            pointer: self.instruction_pointer,
            direction: self.direction,
            stack: self.stack@,
            running: self.running,
        }
    }
}

impl State {
    /// The grid is whole, the pointer on it and the direction cardinal.
    pub open spec fn wf(self) -> bool {
        self.program.wf() && self.instruction_pointer.wf() && self.direction.wf()
    }

    /// A running state at the top left corner, heading right, with an empty
    /// stack.
    pub fn new(program: Grid) -> (r: State)
        requires
            program.wf(),
        ensures
            r.wf(),
            r.program == program,
            r.instruction_pointer == (Point { x: 0, y: 0 }),
            r.direction == (Direction { x: 1, y: 0 }),
            r.stack@ == Seq::<i32>::empty(),
            r.running,
    {
        State {
            program,
            instruction_pointer: Point::default(),
            stack: Vec::new(),
            direction: Direction::default(),
            running: true,
        }
    }

    /// The operation under the instruction pointer.
    pub fn fetch(&self) -> (r: Opcode)
        requires
            self.wf(),
        ensures
            r == current(self@),
            r matches Opcode::Push(n) ==> n <= 9,
    {
        Opcode::decode(self.program.get(&self.instruction_pointer))
    }
}

/// Runs operation `op` on `stack` (top last). On a fault the stack is left
/// as it was.
pub fn apply(stack: &mut Vec<i32>, op: Opcode) -> (r: Result<(), Fault>)
    requires
        op matches Opcode::Push(n) ==> n <= 9,
    ensures
        match effect(op, old(stack)@) {
            Ok(s) => r is Ok && final(stack)@ == s,
            Err(f) => r == Err::<(), Fault>(f) && final(stack)@ == old(stack)@,
        },
{
    match op {
        Opcode::Push(n) => {
            stack.push(n as i32);
            Ok(())
        },
        Opcode::Discard => {
            let _ = stack.pop();
            Ok(())
        },
        Opcode::Not => {
            match stack.pop() {
                Some(a) => {
                    stack.push(
                        if a == 0 {
                            1
                        } else {
                            0
                        },
                    );
                    Ok(())
                },
                None => Err(Fault::StackUnderflow),
            }
        },
        Opcode::Dup => {
            let n = stack.len();
            if n < 1 {
                return Err(Fault::StackUnderflow);
            }
            let top = stack[n - 1];
            stack.push(top);
            Ok(())
        },
        Opcode::Add | Opcode::Sub | Opcode::Mul | Opcode::Div | Opcode::Rem | Opcode::Greater => {
            let n = stack.len();
            if n < 2 {
                return Err(Fault::StackUnderflow);
            }
            let a = stack[n - 1];
            let b = stack[n - 2];
            let v: i32 = match op {
                Opcode::Add => b.wrapping_add(a),
                Opcode::Sub => b.wrapping_sub(a),
                Opcode::Mul => b.wrapping_mul(a),
                Opcode::Div => {
                    if a == 0 {
                        return Err(Fault::DivideByZero);
                    }
                    divide(b, a)
                },
                Opcode::Rem => {
                    if a == 0 {
                        return Err(Fault::DivideByZero);
                    }
                    modulo(b, a)
                },
                _ => if b > a {
                    1
                } else {
                    0
                },
            };
            stack.pop();
            stack.pop();
            stack.push(v);
            Ok(())
        },
        _ => Ok(()),
    }
}

/// The direction that random draw `choice` selects.
pub fn direction_for(choice: u32) -> (r: Direction)
    requires
        choice < 4,
    ensures
        r == chosen(choice),
        r.wf(),
{
    if choice == 0 {
        Direction::up()
    } else if choice == 1 {
        Direction::right()
    } else if choice == 2 {
        Direction::down()
    } else {
        Direction::left()
    }
}

impl State {
    /// One step with `choice` as the random draw: execute the operation
    /// under the pointer and advance, as `step_model` says. On a fault the
    /// state is left as it was.
    pub fn step_with(&mut self, choice: u32) -> (r: Result<(), Fault>)
        requires
            old(self).wf(),
            choice < 4,
        ensures
            final(self).wf(),
            final(self).program == old(self).program,
            step_outcome(old(self)@, choice, r, final(self)@),
    {
        if !self.running {
            return Ok(());
        }
        let op = self.fetch();
        if op == Opcode::Halt {
            self.running = false;
            return Ok(());
        }
        match apply(&mut self.stack, op) {
            Ok(()) => {},
            Err(f) => return Err(f),
        }
        self.direction = match op {
            Opcode::Left => Direction::left(),
            Opcode::Up => Direction::up(),
            Opcode::Right => Direction::right(),
            Opcode::Down => Direction::down(),
            Opcode::Random => direction_for(choice),
            _ => self.direction,
        };
        let d = self.direction;
        self.instruction_pointer.move_point(&d);
        Ok(())
    }

    /// One step, with a fresh random draw where the operation is `?`.
    pub fn step(&mut self) -> (r: Result<(), Fault>)
        requires
            old(self).wf(),
        ensures
            final(self).wf(),
            final(self).program == old(self).program,
            exists|choice: u32|
                choice < 4 && #[trigger] step_outcome(old(self)@, choice, r, final(self)@),
    {
        let choice: u32 = if self.running && self.fetch() == Opcode::Random {
            draw_direction_index()
        } else {
            0
        };
        self.step_with(choice)
    }

    /// Steps until the program halts, a fault occurs or `fuel` steps have
    /// been taken. On `Ok` the program has halted or used all the fuel; on a
    /// fault the state is the one in which the faulting operation ran.
    pub fn run(&mut self, fuel: u64) -> (r: Result<(), Fault>)
        requires
            old(self).wf(),
        ensures
            final(self).wf(),
            final(self).program == old(self).program,
            exists|choices: Seq<u32>|
                #![trigger steps_model(old(self)@, choices)]
                valid_choices(choices) && choices.len() <= fuel && steps_model(old(self)@, choices)
                    == Some(final(self)@) && match r {
                    Ok(()) => !final(self).running || choices.len() == fuel,
                    Err(f) => exists|c: u32|
                        c < 4 && #[trigger] step_model(final(self)@, c) == Err::<Machine, Fault>(
                            f,
                        ),
                },
    {
        let ghost choices: Seq<u32> = Seq::empty();
        let mut taken: u64 = 0;
        while taken < fuel && self.running
            invariant
                self.wf(),
                self.program == old(self).program,
                taken <= fuel,
                choices.len() == taken,
                valid_choices(choices),
                steps_model(old(self)@, choices) == Some(self@),
            decreases fuel - taken,
        {
            let ghost before = self@;
            let choice: u32 = if self.fetch() == Opcode::Random {
                draw_direction_index()
            } else {
                0
            };
            match self.step_with(choice) {
                Ok(()) => {},
                Err(f) => {
                    assert(step_model(self@, choice) == Err::<Machine, Fault>(f));
                    return Err(f);
                },
            }
            proof {
                let next = choices.push(choice);
                assert(next.drop_last() == choices);
                assert(steps_model(old(self)@, next) == Some(self@));
                choices = next;
            }
            taken = taken + 1;
        }
        Ok(())
    }
}

/// A digit pushed and at once discarded leaves the stack as it was.
pub proof fn lemma_push_then_discard(s: Seq<i32>, n: u8)
    requires
        n <= 9,
    ensures
        effect(Opcode::Push(n), s) == Ok::<Seq<i32>, Fault>(s.push(n as i32)),
        effect(Opcode::Discard, s.push(n as i32)) == Ok::<Seq<i32>, Fault>(s),
{
    assert(s.push(n as i32).drop_last() == s);
}

/// `+` gives the same stack whichever of two values was pushed first, and
/// the value it leaves on top is their sum (wrapped to 32 bits, which is the
/// sum itself wherever that fits).
pub proof fn lemma_add_commutes(s: Seq<i32>, a: i32, b: i32)
    ensures
        effect(Opcode::Add, s.push(a).push(b)) == Ok::<Seq<i32>, Fault>(
            s.push(wrapping_add(a, b)),
        ),
        effect(Opcode::Add, s.push(b).push(a)) == Ok::<Seq<i32>, Fault>(
            s.push(wrapping_add(a, b)),
        ),
        i32::MIN <= a + b <= i32::MAX ==> wrapping_add(a, b) == a + b,
{
    assert(s.push(a).push(b).drop_last().drop_last() == s);
    assert(s.push(b).push(a).drop_last().drop_last() == s);
}

/// The value pushed second (`a`, the top) is the right operand and the value
/// pushed first (`b`) the left one, for `-`, `/` and `` ` ``.
pub proof fn lemma_operand_order(s: Seq<i32>, b: i32, a: i32)
    ensures
        effect(Opcode::Sub, s.push(b).push(a)) == Ok::<Seq<i32>, Fault>(
            s.push(wrapping_sub(b, a)),
        ),
        a != 0 ==> effect(Opcode::Div, s.push(b).push(a)) == Ok::<Seq<i32>, Fault>(
            s.push(quotient(b, a)),
        ),
        effect(Opcode::Greater, s.push(b).push(a)) == Ok::<Seq<i32>, Fault>(
            s.push(
                if b > a {
                    1i32
                } else {
                    0i32
                },
            ),
        ),
        i32::MIN <= b - a <= i32::MAX ==> wrapping_sub(b, a) == b - a,
{
    assert(s.push(b).push(a).drop_last().drop_last() == s);
}

impl Default for State {
    /// A running state on a grid of spaces, at the top left corner, heading
    /// right, with an empty stack.
    fn default() -> (r: State)
        ensures
            r.wf(),
            forall|x: int, y: int|
                0 <= x < WIDTH && 0 <= y < HEIGHT ==> #[trigger] r.program.cell(x, y) == ' ',
            r.instruction_pointer == (Point { x: 0, y: 0 }),
            r.direction == (Direction { x: 1, y: 0 }),
            r.stack@ == Seq::<i32>::empty(),
            r.running,
    {
        State::new(Grid::new())
    }
}

impl State {
    /// A fresh running state whose grid holds `lines`, or `SourceTooLarge`
    /// where the text does not fit the grid.
    pub fn from_lines(lines: &Vec<Vec<char>>) -> (r: Result<State, LoadError>)
        ensures
            r is Ok <==> fits(lines@),
            r is Err ==> r == Err::<State, LoadError>(LoadError::SourceTooLarge),
            r is Ok ==> {
                let st = r->Ok_0;
                &&& st.wf()
                &&& st.instruction_pointer == (Point { x: 0, y: 0 })
                &&& st.direction == (Direction { x: 1, y: 0 })
                &&& st.stack@ == Seq::<i32>::empty()
                &&& st.running
                &&& forall|x: int, y: int|
                    0 <= x < WIDTH && 0 <= y < HEIGHT ==> #[trigger] st.program.cell(x, y) == if covers(
                        lines@,
                        x,
                        y,
                    ) {
                        lines@[y]@[x]
                    } else {
                        ' '
                    }
            },
    {
        match Grid::from_lines(lines) {
            Ok(g) => Ok(State::new(g)),
            Err(e) => Err(e),
        }
    }
}

/// `?` can set each of the four cardinal directions, and nothing else: every
/// cardinal direction is chosen by some draw, and every draw chooses one.
pub proof fn lemma_random_covers_directions(d: Direction, c: u32)
    requires
        d.wf(),
        c < 4,
    ensures
        exists|k: u32| k < 4 && #[trigger] chosen(k) == d,
        chosen(c).wf(),
{
    if d == chosen(0) {
    } else if d == chosen(1) {
    } else if d == chosen(2) {
    } else {
        assert(chosen(3) == d);
    }
}

} // verus!
