//! Two-byte instructions and their nibble fields.

use vstd::prelude::*;

verus! {

/// The upper four bits of a byte.
pub open spec fn high_nibble(b: u8) -> u8 {
    (b / 16) as u8
}

/// The lower four bits of a byte.
pub open spec fn low_nibble(b: u8) -> u8 {
    (b % 16) as u8
}

/// Extracts the upper four bits of a byte.
pub fn high(b: u8) -> (r: u8)
    ensures
        r == high_nibble(b),
        r < 16,
{
    assert((b >> 4) & 0xF == b / 16) by (bit_vector);
    (b >> 4) & 0xF
}

/// Extracts the lower four bits of a byte.
pub fn low(b: u8) -> (r: u8)
    ensures
        r == low_nibble(b),
        r < 16,
{
    assert(b & 0xF == b % 16) by (bit_vector);
    b & 0xF
}

/// The upper-case hexadecimal digit for a value below sixteen.
pub open spec fn hex_char(n: u8) -> char {
    if n == 0 {
        '0'
    } else if n == 1 {
        '1'
    } else if n == 2 {
        '2'
    } else if n == 3 {
        '3'
    } else if n == 4 {
        '4'
    } else if n == 5 {
        '5'
    } else if n == 6 {
        '6'
    } else if n == 7 {
        '7'
    } else if n == 8 {
        '8'
    } else if n == 9 {
        '9'
    } else if n == 10 {
        'A'
    } else if n == 11 {
        'B'
    } else if n == 12 {
        'C'
    } else if n == 13 {
        'D'
    } else if n == 14 {
        'E'
    } else {
        'F'
    }
}

/// The upper-case hexadecimal digit for a value below sixteen.
pub fn hex_digit(n: u8) -> (r: char)
    requires
        n < 16,
    ensures
        r == hex_char(n),
{
    match n {
        0 => '0',
        1 => '1',
        2 => '2',
        3 => '3',
        4 => '4',
        5 => '5',
        6 => '6',
        7 => '7',
        8 => '8',
        9 => '9',
        10 => 'A',
        11 => 'B',
        12 => 'C',
        13 => 'D',
        14 => 'E',
        _ => 'F',
    }
}

/// One instruction: four nibbles `w x y z`, stored as the bytes `wx` and `yz`.
#[derive(Clone, Copy, Debug, PartialEq, Eq, Structural)]
pub struct Instruction {
    pub wx: u8,
    pub yz: u8,
}

impl Instruction {
    /// Builds an instruction from its high and low byte.
    pub fn new(wx: u8, yz: u8) -> (r: Instruction)
        ensures
            r == (Instruction { wx, yz }),
    {
        Instruction { wx, yz }
    }

    /// The instruction as four hexadecimal digits, the operation nibble
    /// first.
    pub fn hex_digits(&self) -> (r: [char; 4])
        ensures
            r@ == seq![
                hex_char(self.spec_w()),
                hex_char(self.spec_x()),
                hex_char(self.spec_y()),
                hex_char(self.spec_z()),
            ],
    {
        let r: [char; 4] = [
            hex_digit(self.w()),
            hex_digit(self.x()),
            hex_digit(self.y()),
            hex_digit(self.z()),
        ];
        assert(r@ =~= seq![
            hex_char(self.spec_w()),
            hex_char(self.spec_x()),
            hex_char(self.spec_y()),
            hex_char(self.spec_z()),
        ]);
        r
    }

    /// The operation nibble.
    pub open spec fn spec_w(&self) -> u8 {
        high_nibble(self.wx)
    }

    /// The second nibble, most often a register index.
    pub open spec fn spec_x(&self) -> u8 {
        low_nibble(self.wx)
    }

    /// The third nibble, most often a register index.
    pub open spec fn spec_y(&self) -> u8 {
        high_nibble(self.yz)
    }

    /// The last nibble.
    pub open spec fn spec_z(&self) -> u8 {
        low_nibble(self.yz)
    }

    /// The nibbles `x` and `y` joined into one byte, `x` in the upper half.
    pub open spec fn spec_xy(&self) -> u8 {
        (self.spec_x() * 16 + self.spec_y()) as u8
    }

    /// The twelve-bit address made of the nibbles `x`, `y` and `z`.
    pub open spec fn spec_xyz(&self) -> u16 {
        (self.spec_x() * 256 + self.yz) as u16
    }

    #[verifier::when_used_as_spec(spec_w)]
    pub fn w(&self) -> (r: u8)
        ensures
            r == self.spec_w(),
            r < 16,
    {
        high(self.wx)
    }

    #[verifier::when_used_as_spec(spec_x)]
    pub fn x(&self) -> (r: u8)
        ensures
            r == self.spec_x(),
            r < 16,
    {
        low(self.wx)
    }

    #[verifier::when_used_as_spec(spec_y)]
    pub fn y(&self) -> (r: u8)
        ensures
            r == self.spec_y(),
            r < 16,
    {
        high(self.yz)
    }

    #[verifier::when_used_as_spec(spec_z)]
    pub fn z(&self) -> (r: u8)
        ensures
            r == self.spec_z(),
            r < 16,
    {
        low(self.yz)
    }

    /// The high byte as stored.
    pub fn wx(&self) -> (r: u8)
        ensures
            r == self.wx,
    {
        self.wx
    }

    /// The low byte as stored.
    pub fn yz(&self) -> (r: u8)
        ensures
            r == self.yz,
    {
        self.yz
    }

    #[verifier::when_used_as_spec(spec_xy)]
    pub fn xy(&self) -> (r: u8)
        ensures
            r == self.spec_xy(),
    {
        let hi: u8 = low(self.wx);
        let lo: u8 = high(self.yz);
        assert(hi < 16 && lo < 16 ==> (hi << 4) | lo == hi * 16 + lo) by (bit_vector);
        (hi << 4) | lo
    }

    #[verifier::when_used_as_spec(spec_xyz)]
    pub fn xyz(&self) -> (r: u16)
        ensures
            r == self.spec_xyz(),
            r < 4096,
    {
        let wx: u8 = self.wx;
        let yz: u8 = self.yz;
        assert(((((wx as u16) << 8) + (yz as u16)) as u16) & 0xFFF == (wx % 16) * 256 + yz)
            by (bit_vector);
        assert(((wx as u16) << 8) + (yz as u16) <= 0xFFFF) by (bit_vector);
        (((wx as u16) << 8) + (yz as u16)) & 0xFFF
    }
}

} // verus!
