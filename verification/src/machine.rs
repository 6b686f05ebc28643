//! The machine as a mathematical value, and what each instruction does to it.

use crate::font::SPRITES;
use crate::instruction::Instruction;
use crate::keyboard::KeyWait;
use crate::screen::Screen;
use vstd::prelude::*;

verus! {

/// Bytes of memory.
pub const RAM_SIZE: usize = 4096;

/// The address at which a program is loaded and starts.
pub const PROGRAM_OFFSET: usize = 512;

/// Number of general registers.
pub const NUM_REGISTERS: usize = 16;

/// Number of flag registers, which only the save and restore instructions use.
pub const NUM_FLAG_REGISTERS: usize = 8;

/// Why the machine did not carry out an instruction.
#[derive(Clone, Copy, Debug, PartialEq, Eq, Structural)]
pub enum Halt {
    /// The program asked the host to freeze (`0000`).
    Freeze,
    /// The program asked the host to exit (`00FD`).
    Exit,
    /// A call with sixteen return addresses on the stack.
    StackOverflow,
    /// A return with no address on the stack.
    StackUnderflow,
    /// The instruction is not one of the instruction set.
    BadInstruction(Instruction),
    /// A save or restore of flag registers past the eighth.
    FlagIndex,
    /// An address outside memory, or a key number above fifteen.
    OutOfRange,
}

impl Halt {
    /// Whether the program itself asked for the stop. The other stops are
    /// faults of the program.
    pub open spec fn spec_is_host_signal(&self) -> bool {
        *self == Halt::Freeze || *self == Halt::Exit
    }

    /// Whether the program itself asked for the stop. The other stops are
    /// faults of the program.
    #[verifier::when_used_as_spec(spec_is_host_signal)]
    pub fn is_host_signal(&self) -> (r: bool)
        ensures
            r == self.spec_is_host_signal(),
    {
        match self {
            Halt::Freeze => true,
            Halt::Exit => true,
            _ => false,
        }
    }
}

/// What an arithmetic instruction `8xyN` computes from the registers `vx` and
/// `vy`: the new value of `vx` and, where the operation sets the flag, the new
/// flag. Operations outside the instruction set give `None`.
pub open spec fn alu(op: u8, vx: u8, vy: u8) -> Option<(u8, Option<u8>)> {
    if op == 0x0 {
        Some((vy, None))
    } else if op == 0x1 {
        Some((vx | vy, None))
    } else if op == 0x2 {
        Some((vx & vy, None))
    } else if op == 0x3 {
        Some((vx ^ vy, None))
    } else if op == 0x4 {
        Some((((vx + vy) % 256) as u8, Some(if vx + vy > 255 { 1u8 } else { 0u8 })))
    } else if op == 0x5 {
        Some((((vx - vy) % 256) as u8, Some(if vx > vy { 1u8 } else { 0u8 })))
    } else if op == 0x6 {
        Some(((vx / 2) as u8, Some((vx % 2) as u8)))
    } else if op == 0x7 {
        Some((((vy - vx) % 256) as u8, Some(if vy > vx { 1u8 } else { 0u8 })))
    } else if op == 0xE {
        Some((((vx * 2) % 256) as u8, Some(if vx >= 128 { 128u8 } else { 0u8 })))
    } else {
        None
    }
}

/// The sum of two bytes round 256, and 1 if the sum passed 255, else 0.
fn add_with_carry(a: u8, b: u8) -> (r: (u8, u8))
    ensures
        r.0 == (a + b) % 256,
        r.1 == if a + b > 255 { 1u8 } else { 0u8 },
{
    let carry: u8 = if a > 255 - b {
        1
    } else {
        0
    };
    (a.wrapping_add(b), carry)
}

/// The difference `a - b` round 256, and 1 if `a` is above `b`, else 0.
fn subtract_with_flag(a: u8, b: u8) -> (r: (u8, u8))
    ensures
        r.0 == (a - b) % 256,
        r.1 == if a > b { 1u8 } else { 0u8 },
{
    let above: u8 = if a > b {
        1
    } else {
        0
    };
    (a.wrapping_sub(b), above)
}

/// Half of a byte, rounded down, and the bit that fell out.
fn shift_right(a: u8) -> (r: (u8, u8))
    ensures
        r.0 == a / 2,
        r.1 == a % 2,
{
    assert(a & 1 == a % 2) by (bit_vector);
    (a / 2, a & 0b1)
}

/// Twice a byte round 256, and the byte's top bit where it stands: 128 or 0.
fn shift_left(a: u8) -> (r: (u8, u8))
    ensures
        r.0 == (a * 2) % 256,
        r.1 == if a >= 128 { 128u8 } else { 0u8 },
{
    assert(a & 0x80 == if a >= 128 { 128u8 } else { 0u8 }) by (bit_vector);
    (a.wrapping_mul(2), a & 0b10000000)
}

/// Computes what an arithmetic instruction `8xyN` gives: sums, differences
/// and doubled values wrap round at 256.
pub fn compute_alu(op: u8, vx: u8, vy: u8) -> (r: Option<(u8, Option<u8>)>)
    ensures
        r == alu(op, vx, vy),
{
    match op {
        0x0 => Some((vy, None)),
        0x1 => Some((vx | vy, None)),
        0x2 => Some((vx & vy, None)),
        0x3 => Some((vx ^ vy, None)),
        0x4 => {
            let (value, flag) = add_with_carry(vx, vy);
            Some((value, Some(flag)))
        },
        0x5 => {
            let (value, flag) = subtract_with_flag(vx, vy);
            Some((value, Some(flag)))
        },
        0x6 => {
            let (value, flag) = shift_right(vx);
            Some((value, Some(flag)))
        },
        0x7 => {
            let (value, flag) = subtract_with_flag(vy, vx);
            Some((value, Some(flag)))
        },
        0xE => {
            let (value, flag) = shift_left(vx);
            Some((value, Some(flag)))
        },
        _ => None,
    }
}

/// The state of the machine that programs can observe or change.
#[verifier::ext_equal]
pub struct Machine {
    /// The address register.
    pub i: u16,
    /// The sixteen general registers. The last one doubles as the flag.
    pub v: Seq<u8>,
    /// The eight flag registers.
    pub flag: Seq<u8>,
    /// The delay timer.
    pub delay: u8,
    /// The sound timer.
    pub sound: u8,
    /// Memory.
    pub ram: Seq<u8>,
    /// The program counter.
    pub pc: u16,
    /// The return addresses, the oldest first.
    pub stack: Seq<u16>,
    /// What the display shows.
    pub screen: Screen,
    /// The sixteen keys: `true` for a key that is down.
    pub keys: Seq<bool>,
    /// Where a "wait for a key" instruction stands.
    pub wait: KeyWait,
}

/// What carrying out one instruction gives: the machine after it and the
/// address of the instruction to go on with, or the reason for a stop.
pub type Outcome = Result<(Machine, u16), Halt>;

impl Machine {
    /// The parts have their sizes, and every return address is the address
    /// of an instruction inside memory.
    pub open spec fn wf(self) -> bool {
        &&& self.v.len() == NUM_REGISTERS
        &&& self.flag.len() == NUM_FLAG_REGISTERS
        &&& self.ram.len() == RAM_SIZE
        &&& self.stack.len() <= 16
        &&& forall|k: int| 0 <= k < self.stack.len() ==> #[trigger] self.stack[k] + 1 < RAM_SIZE
        &&& self.keys.len() == 16
        &&& self.screen.wf()
    }

    /// Memory right after loading: the digit sprites from address 0, the
    /// program from address 512, zero elsewhere.
    pub open spec fn loaded_ram(rom: Seq<u8>) -> Seq<u8> {
        Seq::new(
            RAM_SIZE as nat,
            |a: int|
                if a < 240 {
                    SPRITES@[a]
                } else if PROGRAM_OFFSET <= a < PROGRAM_OFFSET + rom.len() {
                    rom[a - PROGRAM_OFFSET]
                } else {
                    0u8
                },
        )
    }

    /// The machine right after loading the program `rom`, with the given
    /// display content.
    pub open spec fn loaded(rom: Seq<u8>, screen: Screen) -> Machine {
        Machine {
            i: 0,
            v: Seq::new(16, |r: int| 0u8),
            flag: Seq::new(8, |r: int| 0u8),
            delay: 0,
            sound: 0,
            ram: Self::loaded_ram(rom),
            pc: PROGRAM_OFFSET as u16,
            stack: Seq::empty(),
            screen,
            keys: Seq::new(16, |k: int| false),
            wait: KeyWait::Idle,
        }
    }

    /// The machine after a reset: registers, timers, stack and key wait as
    /// after loading, the display blank in low resolution. Memory, the flag
    /// registers and the keys stay.
    pub open spec fn after_reset(self) -> Machine {
        Machine {
            i: 0,
            v: Seq::new(16, |r: int| 0u8),
            delay: 0,
            sound: 0,
            pc: PROGRAM_OFFSET as u16,
            stack: Seq::empty(),
            screen: Screen::blank(false),
            wait: KeyWait::Idle,
            ..self
        }
    }

    /// The machine after one tick of the 60 Hz clock: each timer that is not
    /// yet zero goes down by one.
    pub open spec fn ticked(self) -> Machine {
        Machine {
            delay: if self.delay > 0 { (self.delay - 1) as u8 } else { 0 },
            sound: if self.sound > 0 { (self.sound - 1) as u8 } else { 0 },
            ..self
        }
    }

    /// The machine after `n` ticks of the 60 Hz clock.
    pub open spec fn ticked_by(self, n: nat) -> Machine {
        Machine {
            delay: if self.delay > n { (self.delay - n) as u8 } else { 0 },
            sound: if self.sound > n { (self.sound - n) as u8 } else { 0 },
            ..self
        }
    }

    /// The machine after the key with value `code` was set to `pressed`: a
    /// press that meets a waiting instruction is recorded for it.
    pub open spec fn key_toggled(self, code: u8, pressed: bool) -> Machine {
        Machine {
            keys: self.keys.update(code as int, pressed),
            wait: if pressed && self.wait == KeyWait::Waiting {
                KeyWait::Pressed(code)
            } else {
                self.wait
            },
            ..self
        }
    }

    /// Whether the program counter is the address of an instruction inside
    /// memory.
    pub open spec fn can_fetch(self) -> bool {
        self.pc + 1 < RAM_SIZE
    }

    /// The instruction at the program counter.
    pub open spec fn fetch(self) -> Instruction {
        Instruction { wx: self.ram[self.pc as int], yz: self.ram[self.pc + 1] }
    }

    /// The address of the instruction after the current one.
    pub open spec fn next(self) -> u16 {
        (self.pc + 2) as u16
    }

    /// The address to go on with after a conditional skip.
    pub open spec fn skip_if(self, skip: bool) -> u16 {
        if skip {
            (self.pc + 4) as u16
        } else {
            (self.pc + 2) as u16
        }
    }

    /// The machine with a new display content, going on with the next
    /// instruction.
    pub open spec fn show(self, screen: Screen) -> Outcome {
        Ok((Machine { screen, ..self }, self.next()))
    }

    /// The machine with new general registers, going on with the next
    /// instruction.
    pub open spec fn with_registers(self, v: Seq<u8>) -> Outcome {
        Ok((Machine { v, ..self }, self.next()))
    }

    /// The instructions `0xyz`: clear, return, scrolling, resolution, and the
    /// two requests to the host.
    pub open spec fn execute_system(self, ins: Instruction) -> Outcome {
        let xyz = ins.spec_xyz();
        if xyz == 0x000 {
            Err(Halt::Freeze)
        } else if xyz == 0x0E0 {
            self.show(self.screen.cleared())
        } else if xyz == 0x0FB {
            self.show(self.screen.scrolled_right())
        } else if xyz == 0x0FC {
            self.show(self.screen.scrolled_left())
        } else if xyz == 0x0FD {
            Err(Halt::Exit)
        } else if xyz == 0x0FE {
            self.show(self.screen.with_hires(false))
        } else if xyz == 0x0FF {
            self.show(self.screen.with_hires(true))
        } else if xyz == 0x0EE {
            if self.stack.len() == 0 {
                Err(Halt::StackUnderflow)
            } else {
                Ok((Machine { stack: self.stack.drop_last(), ..self }, (self.stack.last() + 2) as u16))
            }
        } else if ins.spec_xy() == 0x0C {
            self.show(self.screen.scrolled_down(ins.spec_z()))
        } else {
            Err(Halt::BadInstruction(ins))
        }
    }

    /// The instructions `8xyN`: register-to-register arithmetic and logic.
    /// The flag is written before the result, so the result stays where the
    /// destination is the flag register itself.
    pub open spec fn execute_alu(self, ins: Instruction) -> Outcome {
        let x = ins.spec_x() as int;
        let y = ins.spec_y() as int;
        match alu(ins.spec_z(), self.v[x], self.v[y]) {
            Some((value, Some(flag))) => self.with_registers(self.v.update(0xF, flag).update(x, value)),
            Some((value, None)) => self.with_registers(self.v.update(x, value)),
            None => Err(Halt::BadInstruction(ins)),
        }
    }

    /// The number of sprite bytes that a draw instruction reads: 32 for the
    /// double-size sprite that a height of 0 asks for, else the height.
    pub open spec fn sprite_len(ins: Instruction) -> int {
        if ins.spec_z() == 0 {
            32
        } else {
            ins.spec_z() as int
        }
    }

    /// The instruction `Dxyz`: draw the sprite at the address register to
    /// column `Vx` of row `Vy`, and set the flag to 1 if a set pixel was
    /// turned off, else to 0.
    pub open spec fn execute_draw(self, ins: Instruction) -> Outcome {
        let sx = self.v[ins.spec_x() as int] as int;
        let sy = self.v[ins.spec_y() as int] as int;
        let len = Self::sprite_len(ins);
        if self.i + len > RAM_SIZE {
            Err(Halt::OutOfRange)
        } else {
            let sprite = self.ram.subrange(self.i as int, self.i + len);
            let screen = if ins.spec_z() == 0 {
                self.screen.schip_drawn(sx, sy, sprite)
            } else {
                self.screen.drawn(sx, sy, sprite)
            };
            let hit = if ins.spec_z() == 0 {
                self.screen.schip_draw_hits(sx, sy, sprite)
            } else {
                self.screen.draw_hits(sx, sy, sprite)
            };
            Ok(
                (
                    Machine { screen, v: self.v.update(0xF, if hit { 1u8 } else { 0u8 }), ..self },
                    self.next(),
                ),
            )
        }
    }

    /// The instructions `Ex9E` and `ExA1`: skip if the key whose number is in
    /// `Vx` is down, or is up.
    pub open spec fn execute_key_skip(self, ins: Instruction) -> Outcome {
        let key = self.v[ins.spec_x() as int];
        if ins.yz != 0x9E && ins.yz != 0xA1 {
            Err(Halt::BadInstruction(ins))
        } else if key >= 16 {
            Err(Halt::OutOfRange)
        } else {
            Ok((self, self.skip_if(self.keys[key as int] == (ins.yz == 0x9E))))
        }
    }

    /// The instruction `Fx0A`: wait for a key. A key that went down while
    /// the instruction waited is stored in `Vx` and the program goes on.
    /// Otherwise the instruction waits: it arms the wait state and is the
    /// instruction to go on with.
    pub open spec fn execute_key_wait(self, ins: Instruction) -> Outcome {
        match self.wait {
            KeyWait::Pressed(key) => Ok(
                (
                    Machine {
                        v: self.v.update(ins.spec_x() as int, key),
                        wait: KeyWait::Idle,
                        ..self
                    },
                    self.next(),
                ),
            ),
            _ => Ok((Machine { wait: KeyWait::Waiting, ..self }, self.pc)),
        }
    }

    /// The instructions `Fx55`, `Fx65`, `Fx75` and `Fx85`: copy the registers
    /// `V0` to `Vx` to or from memory at the address register, or to or from
    /// the flag registers.
    pub open spec fn execute_transfer(self, ins: Instruction) -> Outcome {
        let x = ins.spec_x() as int;
        let i = self.i as int;
        if ins.yz == 0x55 {
            if i + x + 1 > RAM_SIZE {
                Err(Halt::OutOfRange)
            } else {
                Ok(
                    (
                        Machine {
                            ram: Seq::new(
                                RAM_SIZE as nat,
                                |a: int|
                                    if i <= a <= i + x {
                                        self.v[a - i]
                                    } else {
                                        self.ram[a]
                                    },
                            ),
                            ..self
                        },
                        self.next(),
                    ),
                )
            }
        } else if ins.yz == 0x65 {
            if i + x + 1 > RAM_SIZE {
                Err(Halt::OutOfRange)
            } else {
                self.with_registers(
                    Seq::new(
                        16,
                        |r: int|
                            if r <= x {
                                self.ram[i + r]
                            } else {
                                self.v[r]
                            },
                    ),
                )
            }
        } else if x >= NUM_FLAG_REGISTERS {
            Err(Halt::FlagIndex)
        } else if ins.yz == 0x75 {
            Ok(
                (
                    Machine {
                        flag: Seq::new(
                            8,
                            |r: int|
                                if r <= x {
                                    self.v[r]
                                } else {
                                    self.flag[r]
                                },
                        ),
                        ..self
                    },
                    self.next(),
                ),
            )
        } else {
            self.with_registers(
                Seq::new(
                    16,
                    |r: int|
                        if r <= x {
                            self.flag[r]
                        } else {
                            self.v[r]
                        },
                ),
            )
        }
    }

    /// The instructions `Fxyz`: timers, the address register, decimal
    /// digits, key wait and block transfers.
    pub open spec fn execute_misc(self, ins: Instruction) -> Outcome {
        let x = ins.spec_x() as int;
        let vx = self.v[x];
        let i = self.i as int;
        if ins.yz == 0x07 {
            self.with_registers(self.v.update(x, self.delay))
        } else if ins.yz == 0x0A {
            self.execute_key_wait(ins)
        } else if ins.yz == 0x15 {
            Ok((Machine { delay: vx, ..self }, self.next()))
        } else if ins.yz == 0x18 {
            Ok((Machine { sound: vx, ..self }, self.next()))
        } else if ins.yz == 0x1E {
            if i + vx > u16::MAX {
                Err(Halt::OutOfRange)
            } else {
                Ok((Machine { i: (i + vx) as u16, ..self }, self.next()))
            }
        } else if ins.yz == 0x29 {
            Ok((Machine { i: (vx * 5) as u16, ..self }, self.next()))
        } else if ins.yz == 0x30 {
            Ok((Machine { i: (80 + vx * 10) as u16, ..self }, self.next()))
        } else if ins.yz == 0x33 {
            if i + 2 >= RAM_SIZE {
                Err(Halt::OutOfRange)
            } else {
                Ok(
                    (
                        Machine {
                            ram: self.ram.update(i, (vx / 100) as u8).update(
                                i + 1,
                                ((vx / 10) % 10) as u8,
                            ).update(i + 2, (vx % 10) as u8),
                            ..self
                        },
                        self.next(),
                    ),
                )
            }
        } else if ins.yz == 0x55 || ins.yz == 0x65 || ins.yz == 0x75 || ins.yz == 0x85 {
            self.execute_transfer(ins)
        } else {
            Err(Halt::BadInstruction(ins))
        }
    }

    /// The instructions `1xyz`, `2xyz` and `Bxyz`: jump, call, and jump with
    /// the offset in `V0`. A call puts the program counter on the stack.
    pub open spec fn execute_jump(self, ins: Instruction) -> Outcome {
        let w = ins.spec_w();
        if w == 0x1 {
            Ok((self, ins.spec_xyz()))
        } else if w == 0x2 {
            if self.stack.len() >= 16 {
                Err(Halt::StackOverflow)
            } else {
                Ok((Machine { stack: self.stack.push(self.pc), ..self }, ins.spec_xyz()))
            }
        } else {
            Ok((self, (self.v[0] + ins.spec_xyz()) as u16))
        }
    }

    /// The instructions `3xyz`, `4xyz`, `5xy0` and `9xy0`: skip the next
    /// instruction if `Vx` equals, or differs from, a byte or `Vy`.
    pub open spec fn execute_skip(self, ins: Instruction) -> Outcome {
        let w = ins.spec_w();
        let vx = self.v[ins.spec_x() as int];
        let vy = self.v[ins.spec_y() as int];
        if w == 0x3 {
            Ok((self, self.skip_if(vx == ins.yz)))
        } else if w == 0x4 {
            Ok((self, self.skip_if(vx != ins.yz)))
        } else if ins.spec_z() != 0 {
            Err(Halt::BadInstruction(ins))
        } else if w == 0x5 {
            Ok((self, self.skip_if(vx == vy)))
        } else {
            Ok((self, self.skip_if(vx != vy)))
        }
    }

    /// The instructions `6xyz`, `7xyz`, `Axyz` and `Cxyz`: load a byte into
    /// `Vx`, add a byte to `Vx` with wrap-around at 256, load the address
    /// register, and load `Vx` with the random byte masked by `yz`.
    pub open spec fn execute_load(self, ins: Instruction, random: u8) -> Outcome {
        let w = ins.spec_w();
        let x = ins.spec_x() as int;
        if w == 0x6 {
            self.with_registers(self.v.update(x, ins.yz))
        } else if w == 0x7 {
            self.with_registers(self.v.update(x, ((self.v[x] + ins.yz) % 256) as u8))
        } else if w == 0xA {
            Ok((Machine { i: ins.spec_xyz(), ..self }, self.next()))
        } else {
            self.with_registers(self.v.update(x, random & ins.yz))
        }
    }

    /// What carrying out `ins` at the program counter gives. `random` is the
    /// byte that the random instruction draws; no other instruction looks at
    /// it. Nothing is carried out where the program counter is not the
    /// address of an instruction inside memory.
    pub open spec fn execute(self, ins: Instruction, random: u8) -> Outcome {
        let w = ins.spec_w();
        if !self.can_fetch() {
            Err(Halt::OutOfRange)
        } else if w == 0x0 {
            self.execute_system(ins)
        } else if w == 0x1 || w == 0x2 || w == 0xB {
            self.execute_jump(ins)
        } else if w == 0x3 || w == 0x4 || w == 0x5 || w == 0x9 {
            self.execute_skip(ins)
        } else if w == 0x6 || w == 0x7 || w == 0xA || w == 0xC {
            self.execute_load(ins, random)
        } else if w == 0x8 {
            self.execute_alu(ins)
        } else if w == 0xD {
            self.execute_draw(ins)
        } else if w == 0xE {
            self.execute_key_skip(ins)
        } else {
            self.execute_misc(ins)
        }
    }

    /// Whether `after` and `result` are what an attempt to carry out an
    /// instruction on this machine leaves behind, where `expected` is what
    /// the instruction gives: on a stop the machine is untouched.
    pub open spec fn carried_out(
        self,
        after: Machine,
        result: Result<u16, Halt>,
        expected: Outcome,
    ) -> bool {
        match expected {
            Ok((machine, pc)) => result == Ok::<u16, Halt>(pc) && after == machine,
            Err(halt) => result == Err::<u16, Halt>(halt) && after == self,
        }
    }

    /// Whether `after` and `result` are what an attempt at one step of this
    /// machine leaves behind, where `expected` is what the step gives: on a
    /// stop the machine is untouched.
    pub open spec fn stepped(
        self,
        after: Machine,
        result: Result<(), Halt>,
        expected: Result<Machine, Halt>,
    ) -> bool {
        match expected {
            Ok(machine) => result == Ok::<(), Halt>(()) && after == machine,
            Err(halt) => result == Err::<(), Halt>(halt) && after == self,
        }
    }

    /// Whether `after` and `result` are what a run of at most `limit` steps
    /// of this machine leaves behind, where `randoms` holds the byte for each
    /// step taken: either all `limit` steps were carried out, or the run
    /// ended with the step that stopped.
    pub open spec fn ran(
        self,
        after: Machine,
        result: Result<(), Halt>,
        randoms: Seq<u8>,
        limit: nat,
    ) -> bool {
        &&& randoms.len() <= limit
        &&& after == self.run(randoms).0
        &&& match self.run(randoms).1 {
            Some(halt) => result == Err::<(), Halt>(halt),
            None => result == Ok::<(), Halt>(()) && randoms.len() == limit,
        }
    }

    /// Whether the outcome of `ins` depends on the random byte.
    pub open spec fn draws_random(ins: Instruction) -> bool {
        ins.spec_w() == 0xC
    }

    /// One step of the machine: fetch the instruction at the program counter,
    /// carry it out, and move the program counter to where it says.
    pub open spec fn step(self, random: u8) -> Result<Machine, Halt> {
        match self.execute(self.fetch(), random) {
            Ok((after, pc)) => Ok(Machine { pc, ..after }),
            Err(halt) => Err(halt),
        }
    }

    /// A run of steps, one for each byte of `randoms`, the byte being what a
    /// random instruction in that step draws. The run ends early at the first
    /// step that stops, and the machine is then as that step found it.
    pub open spec fn run(self, randoms: Seq<u8>) -> (Machine, Option<Halt>)
        decreases randoms.len(),
    {
        if randoms.len() == 0 {
            (self, None)
        } else {
            let (before, stopped) = self.run(randoms.drop_last());
            match stopped {
                Some(halt) => (before, Some(halt)),
                None => match before.step(randoms.last()) {
                    Ok(after) => (after, None),
                    Err(halt) => (before, Some(halt)),
                },
            }
        }
    }
}

} // verus!
