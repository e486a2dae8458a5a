use befunge::arith::{divide, modulo};
use befunge::engine::{apply, direction_for, Fault, State};
use befunge::grid::{Grid, LoadError};
use befunge::opcode::Opcode;
use befunge::position::{Direction, Point};

fn source(rows: &[&str]) -> Vec<Vec<char>> {
    rows.iter().map(|r| r.chars().collect()).collect()
}

fn run_program(rows: &[&str]) -> (State, Result<(), Fault>) {
    let mut state = State::from_lines(&source(rows)).unwrap();
    let r = state.run(10_000);
    (state, r)
}

#[test]
fn move_and_move_back_returns_everywhere() {
    let dirs = [Direction::left(), Direction::right(), Direction::up(), Direction::down()];
    for &(x, y) in &[(0usize, 0usize), (79, 24), (0, 24), (79, 0), (40, 12)] {
        for d in dirs.iter() {
            let mut p = Point { x, y };
            p.move_point(d);
            p.move_point(&d.opposite());
            assert_eq!(p, Point { x, y });
        }
    }
}

#[test]
fn move_wraps_at_every_edge() {
    let mut p = Point { x: 0, y: 0 };
    p.move_point(&Direction::left());
    assert_eq!(p, Point { x: 79, y: 0 });
    p.move_point(&Direction::up());
    assert_eq!(p, Point { x: 79, y: 24 });
    p.move_point(&Direction::right());
    assert_eq!(p, Point { x: 0, y: 24 });
    p.move_point(&Direction::down());
    assert_eq!(p, Point { x: 0, y: 0 });
}

#[test]
fn push_then_discard_restores_stack() {
    for n in 0u8..=9 {
        let mut stack = vec![4, -2];
        apply(&mut stack, Opcode::Push(n)).unwrap();
        assert_eq!(stack, vec![4, -2, n as i32]);
        apply(&mut stack, Opcode::Discard).unwrap();
        assert_eq!(stack, vec![4, -2]);
    }
    let (state, r) = run_program(&["17$@"]);
    assert_eq!(r, Ok(()));
    assert_eq!(state.stack, vec![1]);
}

#[test]
fn discard_on_empty_stack_is_harmless() {
    let (state, r) = run_program(&["$@"]);
    assert_eq!(r, Ok(()));
    assert!(state.stack.is_empty());
    assert!(!state.running);
}

#[test]
fn add_is_commutative() {
    let (s1, _) = run_program(&["34+@"]);
    let (s2, _) = run_program(&["43+@"]);
    assert_eq!(s1.stack, vec![7]);
    assert_eq!(s2.stack, vec![7]);
    let mut a = vec![-20, 55];
    let mut b = vec![55, -20];
    apply(&mut a, Opcode::Add).unwrap();
    apply(&mut b, Opcode::Add).unwrap();
    assert_eq!(a, vec![35]);
    assert_eq!(a, b);
}

#[test]
fn subtract_respects_operand_order() {
    let (state, r) = run_program(&["53-@"]);
    assert_eq!(r, Ok(()));
    assert_eq!(state.stack, vec![2]);
    let (state, _) = run_program(&["35-@"]);
    assert_eq!(state.stack, vec![-2]);
}

#[test]
fn divide_and_greater_respect_operand_order() {
    let (state, _) = run_program(&["82/@"]);
    assert_eq!(state.stack, vec![4]);
    let (state, _) = run_program(&["28/@"]);
    assert_eq!(state.stack, vec![0]);
    let (state, _) = run_program(&["53`@"]);
    assert_eq!(state.stack, vec![1]);
    let (state, _) = run_program(&["35`@"]);
    assert_eq!(state.stack, vec![0]);
    let (state, _) = run_program(&["55`@"]);
    assert_eq!(state.stack, vec![0]);
}

#[test]
fn divide_by_zero_faults() {
    let (state, r) = run_program(&["50/@"]);
    assert_eq!(r, Err(Fault::DivideByZero));
    assert!(state.running);
    assert_eq!(state.instruction_pointer, Point { x: 2, y: 0 });
    let (_, r) = run_program(&["70%@"]);
    assert_eq!(r, Err(Fault::DivideByZero));
}

#[test]
fn arithmetic_program_leaves_nine() {
    let (state, r) = run_program(&["12+3*@"]);
    assert_eq!(r, Ok(()));
    assert_eq!(state.stack, vec![9]);
    assert!(!state.running);
}

#[test]
fn halt_alone_changes_nothing_else() {
    let (state, r) = run_program(&["@"]);
    assert_eq!(r, Ok(()));
    assert!(state.stack.is_empty());
    assert_eq!(state.instruction_pointer, Point { x: 0, y: 0 });
    assert_eq!(state.direction, Direction { x: 1, y: 0 });
    assert!(!state.running);
}

#[test]
fn random_reaches_all_four_directions() {
    let mut state = State::from_lines(&source(&["?"])).unwrap();
    let mut seen = [0u32; 4];
    for _ in 0..2000 {
        state.instruction_pointer = Point { x: 0, y: 0 };
        state.step().unwrap();
        let d = state.direction;
        let k = [Direction::up(), Direction::right(), Direction::down(), Direction::left()]
            .iter()
            .position(|c| *c == d)
            .unwrap();
        seen[k] += 1;
    }
    assert!(seen.iter().all(|&n| n > 0));
}

#[test]
fn direction_for_each_draw() {
    assert_eq!(direction_for(0), Direction { x: 0, y: -1 });
    assert_eq!(direction_for(1), Direction { x: 1, y: 0 });
    assert_eq!(direction_for(2), Direction { x: 0, y: 1 });
    assert_eq!(direction_for(3), Direction { x: -1, y: 0 });
}

#[test]
fn too_many_rows_is_refused() {
    let rows: Vec<&str> = std::iter::repeat("1").take(26).collect();
    assert_eq!(State::from_lines(&source(&rows)).err(), Some(LoadError::SourceTooLarge));
    let rows: Vec<&str> = std::iter::repeat("1").take(25).collect();
    assert!(State::from_lines(&source(&rows)).is_ok());
}

#[test]
fn too_wide_row_is_refused() {
    let wide = "2".repeat(81);
    assert_eq!(
        State::from_lines(&source(&["1", &wide])).err(),
        Some(LoadError::SourceTooLarge)
    );
    let full = "2".repeat(80);
    assert!(State::from_lines(&source(&["1", &full])).is_ok());
}

#[test]
fn failed_load_leaves_grid_unchanged() {
    let mut grid = Grid::from_lines(&source(&["12", "34"])).unwrap();
    let wide = "9".repeat(81);
    assert_eq!(grid.load(&source(&["55", &wide])), Err(LoadError::SourceTooLarge));
    assert_eq!(grid.get(&Point { x: 0, y: 0 }), '1');
    assert_eq!(grid.get(&Point { x: 1, y: 1 }), '4');
    assert_eq!(grid.get(&Point { x: 2, y: 0 }), ' ');
}

#[test]
fn load_keeps_uncovered_cells() {
    let mut grid = Grid::from_lines(&source(&["123", "456"])).unwrap();
    assert_eq!(grid.load(&source(&["a"])), Ok(()));
    assert_eq!(grid.get(&Point { x: 0, y: 0 }), 'a');
    assert_eq!(grid.get(&Point { x: 1, y: 0 }), '2');
    assert_eq!(grid.get(&Point { x: 2, y: 1 }), '6');
    assert_eq!(grid.get(&Point { x: 79, y: 24 }), ' ');
}

#[test]
fn stack_underflow_faults() {
    for prog in ["+@", "1-@", "*@", "1/@", "%@", "!@", ":@", "1`@"] {
        let (state, r) = run_program(&[prog]);
        assert_eq!(r, Err(Fault::StackUnderflow), "{}", prog);
        assert!(state.running);
    }
}

#[test]
fn digits_push_their_value() {
    let (state, _) = run_program(&["0123456789@"]);
    assert_eq!(state.stack, vec![0, 1, 2, 3, 4, 5, 6, 7, 8, 9]);
}

#[test]
fn not_and_duplicate() {
    let (state, _) = run_program(&["0!5!@"]);
    assert_eq!(state.stack, vec![1, 0]);
    let (state, _) = run_program(&["3:*@"]);
    assert_eq!(state.stack, vec![9]);
}

#[test]
fn truncating_division_and_remainder() {
    assert_eq!(divide(-7, 2), -3);
    assert_eq!(modulo(-7, 2), -1);
    assert_eq!(divide(7, -2), -3);
    assert_eq!(modulo(7, -2), 1);
    assert_eq!(divide(i32::MIN, -1), i32::MIN);
    assert_eq!(modulo(i32::MIN, -1), 0);
    let mut s = vec![-7, 2];
    apply(&mut s, Opcode::Rem).unwrap();
    assert_eq!(s, vec![-1]);
}

#[test]
fn arithmetic_wraps_at_32_bits() {
    let mut s = vec![i32::MAX, 1];
    apply(&mut s, Opcode::Add).unwrap();
    assert_eq!(s, vec![i32::MIN]);
    let mut s = vec![i32::MIN, 1];
    apply(&mut s, Opcode::Sub).unwrap();
    assert_eq!(s, vec![i32::MAX]);
    let mut s = vec![65536, 65536];
    apply(&mut s, Opcode::Mul).unwrap();
    assert_eq!(s, vec![0]);
}

#[test]
fn arrows_steer_the_pointer() {
    // Right to the arrow, down one row, then left along the second row onto the
    // halt in its first column.
    let (state, r) = run_program(&["  v", "@1<"]);
    assert_eq!(r, Ok(()));
    assert_eq!(state.stack, vec![1]);
    assert_eq!(state.instruction_pointer, Point { x: 0, y: 1 });
    // Up from the first row wraps to the last one.
    let mut rows = vec!["^"; 1];
    let mut last = vec![""; 23];
    rows.append(&mut last);
    rows.push("@");
    let (state, r) = run_program(&rows);
    assert_eq!(r, Ok(()));
    assert_eq!(state.instruction_pointer, Point { x: 0, y: 24 });
}

#[test]
fn pointer_wraps_past_the_right_edge() {
    let mut state = State::from_lines(&source(&["1"])).unwrap();
    assert_eq!(state.run(81), Ok(()));
    assert_eq!(state.stack, vec![1, 1]);
    assert!(state.running);
    assert_eq!(state.instruction_pointer, Point { x: 1, y: 0 });
}

#[test]
fn default_state_is_blank_and_running() {
    let state = State::default();
    assert!(state.running);
    assert!(state.stack.is_empty());
    assert_eq!(state.instruction_pointer, Point::default());
    assert_eq!(state.direction, Direction::default());
    assert_eq!(state.program.get(&Point { x: 5, y: 5 }), ' ');
    assert_eq!(Grid::new().get(&Point { x: 79, y: 24 }), ' ');
}

#[test]
fn decode_reads_the_table() {
    assert_eq!(Opcode::decode('@'), Opcode::Halt);
    assert_eq!(Opcode::decode('7'), Opcode::Push(7));
    assert_eq!(Opcode::decode('`'), Opcode::Greater);
    assert_eq!(Opcode::decode('x'), Opcode::Nop);
    assert_eq!(Opcode::decode(' '), Opcode::Nop);
}
