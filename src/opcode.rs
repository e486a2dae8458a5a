//! The instruction set: which character stands for which operation.

use vstd::prelude::*;

verus! {

/// One operation of the language.
#[derive(Clone, Copy, Debug, PartialEq, Eq, Structural)]
pub enum Opcode {
    /// `@`: stop the program.
    Halt,
    /// `<`: travel left.
    Left,
    /// `^`: travel up.
    Up,
    /// `>`: travel right.
    Right,
    /// `v`: travel down.
    Down,
    /// `0` to `9`: push the digit's value.
    Push(u8),
    /// `+`: sum of the two top values.
    Add,
    /// `-`: lower value minus top value.
    Sub,
    /// `*`: product of the two top values.
    Mul,
    /// `/`: lower value divided by top value, truncated.
    Div,
    /// `%`: remainder of the truncated division.
    Rem,
    /// `$`: discard the top value.
    Discard,
    /// `!`: 1 if the top value is 0, else 0.
    Not,
    /// `` ` ``: 1 if the lower value is greater than the top value, else 0.
    Greater,
    /// `:`: duplicate the top value.
    Dup,
    /// `?`: travel in a direction chosen at random.
    Random,
    /// Any other character, space included: do nothing.
    Nop,
}

/// The operation that character `c` stands for.
pub open spec fn opcode_of(c: char) -> Opcode {
    if c == '@' {
        Opcode::Halt
    } else if c == '<' {
        Opcode::Left
    } else if c == '^' {
        Opcode::Up
    } else if c == '>' {
        Opcode::Right
    } else if c == 'v' {
        Opcode::Down
    } else if '0' <= c <= '9' {
        Opcode::Push((c as u32 - '0' as u32) as u8)
    } else if c == '+' {
        Opcode::Add
    } else if c == '-' {
        Opcode::Sub
    } else if c == '*' {
        Opcode::Mul
    } else if c == '/' {
        Opcode::Div
    } else if c == '%' {
        Opcode::Rem
    } else if c == '$' {
        Opcode::Discard
    } else if c == '!' {
        Opcode::Not
    } else if c == '`' {
        Opcode::Greater
    } else if c == ':' {
        Opcode::Dup
    } else if c == '?' {
        Opcode::Random
    } else {
        Opcode::Nop
    }
}

impl Opcode {
    /// Reads character `c` as an operation; characters outside the table are
    /// no-ops.
    pub fn decode(c: char) -> (r: Opcode)
        ensures
            r == opcode_of(c),
            r matches Opcode::Push(n) ==> n <= 9,
    {
        match c {
            '@' => Opcode::Halt,
            '<' => Opcode::Left,
            '^' => Opcode::Up,
            '>' => Opcode::Right,
            'v' => Opcode::Down,
            '0'..='9' => Opcode::Push((c as u32 - '0' as u32) as u8),
            '+' => Opcode::Add,
            '-' => Opcode::Sub,
            '*' => Opcode::Mul,
            '/' => Opcode::Div,
            '%' => Opcode::Rem,
            '$' => Opcode::Discard,
            '!' => Opcode::Not,
            '`' => Opcode::Greater,
            ':' => Opcode::Dup,
            '?' => Opcode::Random,
            _ => Opcode::Nop,
        }
    }
}

} // verus!
