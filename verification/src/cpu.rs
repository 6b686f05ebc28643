//! The processor: it owns the machine's state and carries out instructions
//! at the configured rate.

use crate::clock::Instant;
use crate::display::Display;
use crate::font::SPRITES;
use crate::instruction::Instruction;
use crate::keyboard::Key;
use crate::keyboard::Keyboard;
use crate::keyboard::KeyWait;
use crate::machine::compute_alu;
use crate::machine::Halt;
use crate::machine::Machine;
use crate::machine::PROGRAM_OFFSET;
use crate::machine::RAM_SIZE;
use crate::random::Rand;
use crate::stack::Stack;
use crate::timer::NANOS_PER_SEC;
use crate::timer::Timer;
use vstd::prelude::*;

verus! {

/// Instructions per second of a processor that was not told otherwise.
pub const CLOCK_RATE_HZ: u32 = 500;

/// Rate at which the delay and sound timers count down.
pub const DELAY_DECREMENT_HZ: u32 = 60;

/// Copies `count` bytes from `src`, starting at `src_at`, to `dst`, starting
/// at `dst_at`.
fn copy_bytes(dst: &mut [u8], dst_at: usize, src: &[u8], src_at: usize, count: usize)
    requires
        dst_at + count <= old(dst)@.len(),
        src_at + count <= src@.len(),
    ensures
        final(dst)@ == Seq::new(
            old(dst)@.len(),
            |a: int|
                if dst_at <= a < dst_at + count {
                    src@[a - dst_at + src_at]
                } else {
                    old(dst)@[a]
                },
        ),
{
    let ghost before = dst@;
    let size: usize = dst.len();
    let available: usize = src.len();
    let mut n: usize = 0;
    while n < count
        invariant
            n <= count,
            size == before.len(),
            available == src@.len(),
            dst@.len() == before.len(),
            dst_at + count <= before.len(),
            src_at + count <= src@.len(),
            forall|a: int|
                0 <= a < before.len() ==> dst@[a] == (if dst_at <= a < dst_at + n {
                    src@[a - dst_at + src_at]
                } else {
                    before[a]
                }),
        decreases count - n,
    {
        dst[dst_at + n] = src[src_at + n];
        n += 1;
    }
    assert(dst@ =~= Seq::new(
        before.len(),
        |a: int|
            if dst_at <= a < dst_at + count {
                src@[a - dst_at + src_at]
            } else {
                before[a]
            },
    ));
}

/// The clock settings of a processor and where its two clocks stand.
pub struct Timing {
    /// Instructions per second.
    pub clock_rate_hz: u32,
    /// Instructions that go with one tick of the 60 Hz clock where the host
    /// keeps the time.
    pub per_decrement: u32,
    /// Nanoseconds per instruction.
    pub cpu_period: nat,
    /// When the instruction clock last reported a due cycle.
    pub cpu_last: nat,
    /// Nanoseconds per tick of the timers.
    pub delay_period: nat,
    /// When the timer clock last reported a due tick.
    pub delay_last: nat,
}

impl Timing {
    /// The rate is one that gives a period of at least a nanosecond, and the
    /// periods and the instructions per tick are the ones that go with the
    /// rate.
    pub open spec fn wf(self) -> bool {
        &&& 0 < self.clock_rate_hz <= NANOS_PER_SEC
        &&& self.per_decrement == self.clock_rate_hz / DELAY_DECREMENT_HZ
        &&& self.cpu_period == Timer::period_of(self.clock_rate_hz)
        &&& self.delay_period == Timer::period_of(DELAY_DECREMENT_HZ)
    }

    /// The settings for the rate `rate_hz`, with both clocks at time zero.
    pub open spec fn starting(rate_hz: u32) -> Timing {
        Timing {
            clock_rate_hz: rate_hz,
            per_decrement: rate_hz / DELAY_DECREMENT_HZ,
            cpu_period: Timer::period_of(rate_hz),
            cpu_last: 0,
            delay_period: Timer::period_of(DELAY_DECREMENT_HZ),
            delay_last: 0,
        }
    }

    /// Ticks of the timers that are due at `now`.
    pub open spec fn ticks_due(self, now: nat) -> nat {
        crate::timer::cycles_due(self.delay_period, self.delay_last, now)
    }

    /// Instructions that are due at `now`.
    pub open spec fn instructions_due(self, now: nat) -> nat {
        crate::timer::cycles_due(self.cpu_period, self.cpu_last, now)
    }

    /// The clocks after both were asked at `now`: a clock with a cycle due
    /// now counts from `now`.
    pub open spec fn served(self, now: nat) -> Timing {
        Timing {
            cpu_last: if self.instructions_due(now) > 0 { now } else { self.cpu_last },
            delay_last: if self.ticks_due(now) > 0 { now } else { self.delay_last },
            ..self
        }
    }

    /// The settings for a new rate, with both clocks where they stand.
    pub open spec fn with_rate(self, rate_hz: u32) -> Timing {
        Timing {
            clock_rate_hz: rate_hz,
            per_decrement: rate_hz / DELAY_DECREMENT_HZ,
            cpu_period: Timer::period_of(rate_hz),
            ..self
        }
    }
}

/// A CHIP-8 / SUPER-CHIP processor with its memory, display, key pad and
/// source of random bytes.
pub struct Cpu<T: Display, R: Rand> {
    i: u16,
    v: [u8; 16],
    flag: [u8; 8],
    delay: u8,
    /// The sound timer: the host sounds a tone while it is not zero.
    pub sound: u8,
    ram: [u8; 4096],
    pc: u16,
    stack: Stack,
    /// The display that draw instructions paint on.
    pub display: T,
    /// The key pad that the host feeds.
    pub keyboard: Keyboard,
    start_time: Instant,
    clock_rate_hz: u32,
    cpu_timer: Timer,
    delay_timer: Timer,
    num_instructions_per_decrement: u32,
    rand: R,
}

impl<T: Display, R: Rand> View for Cpu<T, R> {
    type V = Machine;

    /// The state that programs can observe or change.
    closed spec fn view(&self) -> Machine {
        Machine {
            i: self.i,
            v: self.v@,
            flag: self.flag@,
            delay: self.delay,
            sound: self.sound,
            ram: self.ram@,
            pc: self.pc,
            stack: self.stack@,
            screen: self.display.view(),
            keys: self.keyboard@.keys,
            wait: self.keyboard@.wait,
        }
    }
}

impl<T: Display, R: Rand> Cpu<T, R> {
    /// The clock settings and where the clocks stand.
    pub closed spec fn timing(&self) -> Timing {
        Timing {
            clock_rate_hz: self.clock_rate_hz,
            per_decrement: self.num_instructions_per_decrement,
            cpu_period: self.cpu_timer.period(),
            cpu_last: self.cpu_timer.last(),
            delay_period: self.delay_timer.period(),
            delay_last: self.delay_timer.last(),
        }
    }

    /// The processor is in good order: its state has the right sizes, the
    /// display is in good order and the clocks fit the rate.
    pub closed spec fn wf(&self) -> bool {
        &&& self.stack.wf()
        &&& self.cpu_timer.wf()
        &&& self.delay_timer.wf()
        &&& self@.wf()
        &&& self.display.inv()
        &&& self.timing().wf()
    }

    /// What a processor in good order promises of its state and its clocks.
    pub proof fn lemma_wf(&self)
        requires
            self.wf(),
        ensures
            self@.wf(),
            self.timing().wf(),
    {
    }

    /// A processor with `rom` loaded at address 512 and the digit sprites at
    /// address 0, about to run the first instruction of the program at 500
    /// instructions per second.
    pub fn new(rom: &[u8], display: T, rand: R) -> (r: Cpu<T, R>)
        requires
            rom@.len() <= RAM_SIZE - PROGRAM_OFFSET,
            display.inv(),
            display.view().wf(),
        ensures
            r.wf(),
            r@ == Machine::loaded(rom@, display.view()),
            r.timing() == Timing::starting(CLOCK_RATE_HZ),
    {
        let mut ram: [u8; 4096] = [0u8; 4096];
        let mut a: usize = 0;
        while a < 240
            invariant
                a <= 240,
                forall|k: int| 0 <= k < a ==> ram@[k] == SPRITES@[k],
                forall|k: int| a <= k < 4096 ==> ram@[k] == 0,
            decreases 240 - a,
        {
            ram[a] = SPRITES[a];
            a += 1;
        }
        let mut n: usize = 0;
        while n < rom.len()
            invariant
                n <= rom@.len(),
                rom@.len() <= RAM_SIZE - PROGRAM_OFFSET,
                forall|k: int| 0 <= k < 240 ==> ram@[k] == SPRITES@[k],
                forall|k: int| 240 <= k < PROGRAM_OFFSET ==> ram@[k] == 0,
                forall|k: int| PROGRAM_OFFSET <= k < PROGRAM_OFFSET + n ==> ram@[k] == rom@[k - PROGRAM_OFFSET],
                forall|k: int| PROGRAM_OFFSET + n <= k < 4096 ==> ram@[k] == 0,
            decreases rom@.len() - n,
        {
            ram[PROGRAM_OFFSET + n] = rom[n];
            n += 1;
        }
        let keyboard = Keyboard::default();
        let r = Cpu {
            i: 0,
            v: [0u8; 16],
            flag: [0u8; 8],
            delay: 0,
            sound: 0,
            ram,
            pc: PROGRAM_OFFSET as u16,
            stack: Stack::new(),
            display,
            keyboard,
            start_time: Instant::now(),
            clock_rate_hz: CLOCK_RATE_HZ,
            cpu_timer: Timer::new(CLOCK_RATE_HZ),
            delay_timer: Timer::new(DELAY_DECREMENT_HZ),
            num_instructions_per_decrement: CLOCK_RATE_HZ / DELAY_DECREMENT_HZ,
            rand,
        };
        proof {
            assert(r@ =~= Machine::loaded(rom@, display.view()));
        }
        r
    }

    /// Instructions per second.
    pub fn get_clock_rate_hz(&self) -> (r: u32)
        ensures
            r == self.timing().clock_rate_hz,
    {
        self.clock_rate_hz
    }

    /// Sets the instructions per second, and with them the period of the
    /// instruction clock and the instructions per tick of the timers.
    pub fn set_clock_rate_hz(&mut self, rate_hz: u32)
        requires
            old(self).wf(),
            0 < rate_hz <= NANOS_PER_SEC,
        ensures
            final(self).wf(),
            final(self)@ == old(self)@,
            final(self).timing() == old(self).timing().with_rate(rate_hz),
    {
        self.clock_rate_hz = rate_hz;
        self.num_instructions_per_decrement = rate_hz / DELAY_DECREMENT_HZ;
        self.cpu_timer.set_rate_hz(rate_hz);
    }

    /// Changes the instructions per second by `amount`. A change that would
    /// take the rate below 60 is not made.
    pub fn inc_clock_rate_hz(&mut self, amount: i32)
        requires
            old(self).wf(),
            old(self).timing().clock_rate_hz + amount <= NANOS_PER_SEC,
        ensures
            final(self).wf(),
            final(self)@ == old(self)@,
            final(self).timing() == if old(self).timing().clock_rate_hz + amount
                >= DELAY_DECREMENT_HZ {
                old(self).timing().with_rate((old(self).timing().clock_rate_hz + amount) as u32)
            } else {
                old(self).timing()
            },
    {
        let new_rate: i32 = (self.clock_rate_hz as i32).wrapping_add(amount);
        if new_rate >= DELAY_DECREMENT_HZ as i32 {
            self.set_clock_rate_hz(new_rate as u32);
        }
    }

    /// One tick of the 60 Hz clock: the delay timer and the sound timer go
    /// down by one each, unless they are zero.
    pub fn decrement_timers(&mut self)
        ensures
            final(self)@ == old(self)@.ticked(),
            final(self).timing() == old(self).timing(),
            old(self).wf() ==> final(self).wf(),
    {
        if self.delay > 0 {
            self.delay -= 1;
        }
        if self.sound > 0 {
            self.sound -= 1;
        }
    }

    /// Whether the program counter is the address of an instruction inside
    /// memory.
    pub fn can_fetch(&self) -> (r: bool)
        ensures
            r == self@.can_fetch(),
    {
        (self.pc as usize) + 1 < RAM_SIZE
    }

    /// The instruction at the program counter.
    pub fn next_instruction(&self) -> (r: Instruction)
        requires
            self@.can_fetch(),
        ensures
            r == self@.fetch(),
    {
        Instruction { wx: self.ram[self.pc as usize], yz: self.ram[self.pc as usize + 1] }
    }

    /// Sets a key down or up. A key that goes down while an instruction waits
    /// becomes the key that the instruction receives.
    pub fn toggle_key(&mut self, key: Key, pressed: bool)
        ensures
            final(self)@ == old(self)@.key_toggled(key.spec_code(), pressed),
            final(self).timing() == old(self).timing(),
            old(self).wf() ==> final(self).wf(),
    {
        self.keyboard.toggle_key(key, pressed);
    }

    /// Puts the processor back to the start of the program: registers,
    /// timers, program counter, stack and key wait as after loading, the
    /// display blank in low resolution, both clocks at zero. Memory, the flag
    /// registers and the keys stay as they are.
    pub fn reset(&mut self)
        requires
            old(self).wf(),
        ensures
            final(self).wf(),
            final(self)@ == old(self)@.after_reset(),
            final(self).timing() == (Timing { cpu_last: 0, delay_last: 0, ..old(self).timing() }),
    {
        self.i = 0;
        self.v = [0u8; 16];
        self.delay = 0;
        self.sound = 0;
        self.pc = PROGRAM_OFFSET as u16;
        self.stack.clear();
        self.display.set_hires(false);
        self.display.clear();
        self.keyboard.set_wait_state(KeyWait::Idle);
        self.start_time = Instant::now();
        self.cpu_timer.restart();
        self.delay_timer.restart();
        proof {
            assert(self@ =~= old(self)@.after_reset());
        }
    }

    /// The address register.
    pub fn get_address(&self) -> (r: u16)
        ensures
            r == self@.i,
    {
        self.i
    }

    /// The general register `index`.
    pub fn get_register(&self, index: u8) -> (r: u8)
        requires
            index < 16,
        ensures
            r == self@.v[index as int],
    {
        self.v[index as usize]
    }

    /// The flag register `index`.
    pub fn get_flag_register(&self, index: u8) -> (r: u8)
        requires
            index < 8,
        ensures
            r == self@.flag[index as int],
    {
        self.flag[index as usize]
    }

    /// The delay timer.
    pub fn get_delay(&self) -> (r: u8)
        ensures
            r == self@.delay,
    {
        self.delay
    }

    /// The byte of memory at `address`.
    pub fn get_memory(&self, address: u16) -> (r: u8)
        requires
            address < RAM_SIZE,
        ensures
            r == self@.ram[address as int],
    {
        self.ram[address as usize]
    }

    /// The program counter.
    pub fn get_pc(&self) -> (r: u16)
        ensures
            r == self@.pc,
    {
        self.pc
    }

    /// The number of return addresses on the stack.
    pub fn get_stack_depth(&self) -> (r: usize)
        requires
            self.wf(),
        ensures
            r == self@.stack.len(),
    {
        self.stack.depth()
    }

    /// The stop for an instruction outside the instruction set.
    fn bad(&self, i: Instruction) -> (r: Result<u16, Halt>)
        ensures
            r == Err::<u16, Halt>(Halt::BadInstruction(i)),
    {
        Err(Halt::BadInstruction(i))
    }

    /// The address of the instruction after the current one.
    fn next(&self) -> (r: u16)
        requires
            self@.can_fetch(),
        ensures
            r == self@.next(),
    {
        self.pc + 2
    }

    /// The address to go on with after a conditional skip.
    fn skip_if(&self, skip: bool) -> (r: u16)
        requires
            self@.can_fetch(),
        ensures
            r == self@.skip_if(skip),
    {
        self.pc + if skip {
            4
        } else {
            2
        }
    }

    /// Carries out an instruction `0xyz`.
    fn execute_system(&mut self, i: Instruction) -> (r: Result<u16, Halt>)
        requires
            old(self).wf(),
            old(self)@.can_fetch(),
        ensures
            final(self).wf(),
            final(self).timing() == old(self).timing(),
            old(self)@.carried_out(final(self)@, r, old(self)@.execute_system(i)),
    {
        let r = match i.xyz() {
            0x000 => Err(Halt::Freeze),
            0x0E0 => {
                self.display.clear();
                Ok(self.next())
            },
            0x0FB => {
                self.display.scroll_right();
                Ok(self.next())
            },
            0x0FC => {
                self.display.scroll_left();
                Ok(self.next())
            },
            0x0FD => Err(Halt::Exit),
            0x0FE => {
                self.display.set_hires(false);
                Ok(self.next())
            },
            0x0FF => {
                self.display.set_hires(true);
                Ok(self.next())
            },
            0x0EE => match self.stack.pop() {
                Some(address) => Ok(address + 2),
                None => Err(Halt::StackUnderflow),
            },
            _ => match i.xy() {
                0x0C => {
                    self.display.scroll_down(i.z());
                    Ok(self.next())
                },
                _ => self.bad(i),
            },
        };
        proof {
            match old(self)@.execute_system(i) {
                Ok((machine, pc)) => {
                    assert(self@ =~= machine);
                },
                Err(halt) => {
                    assert(self@ =~= old(self)@);
                },
            }
        }
        r
    }

    /// Carries out an arithmetic instruction `8xyN`.
    fn execute_alu(&mut self, i: Instruction) -> (r: Result<u16, Halt>)
        requires
            old(self).wf(),
            old(self)@.can_fetch(),
        ensures
            final(self).wf(),
            final(self).timing() == old(self).timing(),
            old(self)@.carried_out(final(self)@, r, old(self)@.execute_alu(i)),
    {
        let x: u8 = i.x();
        let vx: u8 = self.v[x as usize];
        let vy: u8 = self.v[i.y() as usize];
        let r = match compute_alu(i.z(), vx, vy) {
            Some((value, flag)) => {
                match flag {
                    Some(flag) => {
                        self.v[0xF] = flag;
                    },
                    None => {},
                }
                self.v[x as usize] = value;
                Ok(self.next())
            },
            None => self.bad(i),
        };
        proof {
            match old(self)@.execute_alu(i) {
                Ok((machine, pc)) => {
                    assert(self@ =~= machine);
                },
                Err(halt) => {},
            }
        }
        r
    }

    /// Carries out a draw instruction `Dxyz`.
    fn execute_draw(&mut self, i: Instruction) -> (r: Result<u16, Halt>)
        requires
            old(self).wf(),
            old(self)@.can_fetch(),
        ensures
            final(self).wf(),
            final(self).timing() == old(self).timing(),
            old(self)@.carried_out(final(self)@, r, old(self)@.execute_draw(i)),
    {
        let vx: usize = self.v[i.x() as usize] as usize;
        let vy: usize = self.v[i.y() as usize] as usize;
        let z: usize = i.z() as usize;
        let from: usize = self.i as usize;
        let len: usize = if z == 0 {
            32
        } else {
            z
        };
        if from + len > RAM_SIZE {
            return Err(Halt::OutOfRange);
        }
        let to: usize = from + len;
        let hit = if z == 0 {
            self.display.schip_draw(vx, vy, &self.ram[from..to])
        } else {
            self.display.draw(vx, vy, &self.ram[from..to])
        };
        self.v[0xF] = if hit {
            1
        } else {
            0
        };
        proof {
            match old(self)@.execute_draw(i) {
                Ok((machine, pc)) => {
                    assert(self@ =~= machine);
                },
                Err(halt) => {},
            }
        }
        Ok(self.next())
    }

    /// Carries out a skip on a key, `Ex9E` or `ExA1`.
    fn execute_key_skip(&self, i: Instruction) -> (r: Result<u16, Halt>)
        requires
            self.wf(),
            self@.can_fetch(),
        ensures
            self@.carried_out(self@, r, self@.execute_key_skip(i)),
    {
        let key: u8 = self.v[i.x() as usize];
        match i.yz() {
            0x9E => if key < 16 {
                Ok(self.skip_if(self.keyboard.key_pressed(key)))
            } else {
                Err(Halt::OutOfRange)
            },
            0xA1 => if key < 16 {
                Ok(self.skip_if(!self.keyboard.key_pressed(key)))
            } else {
                Err(Halt::OutOfRange)
            },
            _ => self.bad(i),
        }
    }

    /// Carries out the wait for a key, `Fx0A`.
    fn execute_key_wait(&mut self, i: Instruction) -> (r: Result<u16, Halt>)
        requires
            old(self).wf(),
            old(self)@.can_fetch(),
        ensures
            final(self).wf(),
            final(self).timing() == old(self).timing(),
            old(self)@.carried_out(final(self)@, r, old(self)@.execute_key_wait(i)),
    {
        let r = match self.keyboard.wait_state() {
            KeyWait::Pressed(key_value) => {
                self.v[i.x() as usize] = key_value;
                self.keyboard.set_wait_state(KeyWait::Idle);
                Ok(self.next())
            },
            _ => {
                self.keyboard.set_wait_state(KeyWait::Waiting);
                Ok(self.pc)
            },
        };
        proof {
            match old(self)@.execute_key_wait(i) {
                Ok((machine, pc)) => {
                    assert(self@ =~= machine);
                },
                Err(halt) => {},
            }
        }
        r
    }

    /// Carries out a block transfer, `Fx55`, `Fx65`, `Fx75` or `Fx85`.
    fn execute_transfer(&mut self, i: Instruction) -> (r: Result<u16, Halt>)
        requires
            old(self).wf(),
            old(self)@.can_fetch(),
            i.yz == 0x55 || i.yz == 0x65 || i.yz == 0x75 || i.yz == 0x85,
        ensures
            final(self).wf(),
            final(self).timing() == old(self).timing(),
            old(self)@.carried_out(final(self)@, r, old(self)@.execute_transfer(i)),
    {
        let count: usize = i.x() as usize + 1;
        let at: usize = self.i as usize;
        let yz: u8 = i.yz();
        if yz == 0x55 || yz == 0x65 {
            if at + count > RAM_SIZE {
                return Err(Halt::OutOfRange);
            }
            if yz == 0x55 {
                copy_bytes(&mut self.ram, at, &self.v, 0, count);
            } else {
                copy_bytes(&mut self.v, 0, &self.ram, at, count);
            }
        } else {
            if count > 8 {
                return Err(Halt::FlagIndex);
            }
            if yz == 0x75 {
                copy_bytes(&mut self.flag, 0, &self.v, 0, count);
            } else {
                copy_bytes(&mut self.v, 0, &self.flag, 0, count);
            }
        }
        proof {
            match old(self)@.execute_transfer(i) {
                Ok((machine, pc)) => {
                    assert(self@ =~= machine);
                },
                Err(halt) => {},
            }
        }
        Ok(self.next())
    }

    /// Carries out an instruction `Fxyz`.
    fn execute_misc(&mut self, i: Instruction) -> (r: Result<u16, Halt>)
        requires
            old(self).wf(),
            old(self)@.can_fetch(),
        ensures
            final(self).wf(),
            final(self).timing() == old(self).timing(),
            old(self)@.carried_out(final(self)@, r, old(self)@.execute_misc(i)),
    {
        let x: usize = i.x() as usize;
        let vx: u8 = self.v[x];
        match i.yz() {
            0x07 => {
                self.v[x] = self.delay;
            },
            0x0A => {
                return self.execute_key_wait(i);
            },
            0x15 => {
                self.delay = vx;
            },
            0x18 => {
                self.sound = vx;
            },
            0x1E => {
                if vx as u16 > u16::MAX - self.i {
                    return Err(Halt::OutOfRange);
                }
                self.i += vx as u16;
            },
            0x29 => {
                self.i = vx as u16 * 5;
            },
            0x30 => {
                self.i = 80 + vx as u16 * 10;
            },
            0x33 => {
                let at: usize = self.i as usize;
                if at + 2 >= RAM_SIZE {
                    return Err(Halt::OutOfRange);
                }
                self.ram[at] = (vx / 100) % 10;
                self.ram[at + 1] = (vx / 10) % 10;
                self.ram[at + 2] = vx % 10;
            },
            0x55 | 0x65 | 0x75 | 0x85 => {
                return self.execute_transfer(i);
            },
            _ => {
                return self.bad(i);
            },
        }
        proof {
            match old(self)@.execute_misc(i) {
                Ok((machine, pc)) => {
                    assert(self@ =~= machine);
                },
                Err(halt) => {},
            }
        }
        Ok(self.next())
    }

    /// Carries out a jump or a call, `1xyz`, `2xyz` or `Bxyz`.
    fn execute_jump(&mut self, i: Instruction) -> (r: Result<u16, Halt>)
        requires
            old(self).wf(),
            old(self)@.can_fetch(),
            i.spec_w() == 0x1 || i.spec_w() == 0x2 || i.spec_w() == 0xB,
        ensures
            final(self).wf(),
            final(self).timing() == old(self).timing(),
            old(self)@.carried_out(final(self)@, r, old(self)@.execute_jump(i)),
    {
        match i.w() {
            0x1 => Ok(i.xyz()),
            0x2 => match self.stack.push(self.pc) {
                Some(_) => Ok(i.xyz()),
                None => Err(Halt::StackOverflow),
            },
            _ => Ok(self.v[0] as u16 + i.xyz()),
        }
    }

    /// Carries out a skip on a register, `3xyz`, `4xyz`, `5xy0` or `9xy0`.
    fn execute_skip(&self, i: Instruction) -> (r: Result<u16, Halt>)
        requires
            self.wf(),
            self@.can_fetch(),
            i.spec_w() == 0x3 || i.spec_w() == 0x4 || i.spec_w() == 0x5 || i.spec_w() == 0x9,
        ensures
            self@.carried_out(self@, r, self@.execute_skip(i)),
    {
        let vx: u8 = self.v[i.x() as usize];
        let vy: u8 = self.v[i.y() as usize];
        match i.w() {
            0x3 => Ok(self.skip_if(vx == i.yz())),
            0x4 => Ok(self.skip_if(vx != i.yz())),
            0x5 => match i.z() {
                0 => Ok(self.skip_if(vx == vy)),
                _ => self.bad(i),
            },
            _ => match i.z() {
                0 => Ok(self.skip_if(vx != vy)),
                _ => self.bad(i),
            },
        }
    }

    /// Carries out a load, `6xyz`, `7xyz`, `Axyz` or `Cxyz`.
    fn execute_load(&mut self, i: Instruction, random: u8) -> (r: Result<u16, Halt>)
        requires
            old(self).wf(),
            old(self)@.can_fetch(),
            i.spec_w() == 0x6 || i.spec_w() == 0x7 || i.spec_w() == 0xA || i.spec_w() == 0xC,
        ensures
            final(self).wf(),
            final(self).timing() == old(self).timing(),
            old(self)@.carried_out(final(self)@, r, old(self)@.execute_load(i, random)),
    {
        let x: usize = i.x() as usize;
        match i.w() {
            0x6 => {
                self.v[x] = i.yz();
            },
            0x7 => {
                let vx: u8 = self.v[x];
                let sum: u8 = vx.wrapping_add(i.yz());
                assert(sum == (vx + i.yz) % 256) by {
                    if vx + i.yz > 255 {
                        assert((vx + i.yz) % 256 == vx + i.yz - 256);
                    }
                }
                self.v[x] = sum;
            },
            0xA => {
                self.i = i.xyz();
            },
            _ => {
                self.v[x] = random & i.yz();
            },
        }
        proof {
            match old(self)@.execute_load(i, random) {
                Ok((machine, pc)) => {
                    assert(self@ =~= machine);
                },
                Err(halt) => {},
            }
        }
        Ok(self.next())
    }

    /// Carries out the instruction `i` as the instruction at the program
    /// counter, with `random` as the byte that a random instruction draws.
    /// Returns the address of the instruction to go on with; the program
    /// counter itself stays. On a stop nothing has changed.
    pub fn execute_instruction_with(&mut self, i: Instruction, random: u8) -> (r: Result<u16, Halt>)
        requires
            old(self).wf(),
        ensures
            final(self).wf(),
            final(self).timing() == old(self).timing(),
            old(self)@.carried_out(final(self)@, r, old(self)@.execute(i, random)),
    {
        if !self.can_fetch() {
            return Err(Halt::OutOfRange);
        }
        match i.w() {
            0x0 => self.execute_system(i),
            0x1 | 0x2 | 0xB => self.execute_jump(i),
            0x3 | 0x4 | 0x5 | 0x9 => self.execute_skip(i),
            0x6 | 0x7 | 0xA | 0xC => self.execute_load(i, random),
            0x8 => self.execute_alu(i),
            0xD => self.execute_draw(i),
            0xE => self.execute_key_skip(i),
            _ => self.execute_misc(i),
        }
    }

    /// Carries out the instruction `i` as the instruction at the program
    /// counter. A random instruction draws its byte from the source of
    /// random bytes; what it gives is then what `execute` gives for some
    /// byte. Returns the address of the instruction to go on with; the
    /// program counter itself stays. On a stop nothing has changed.
    pub fn execute_instruction(&mut self, i: Instruction) -> (r: Result<u16, Halt>)
        requires
            old(self).wf(),
        ensures
            final(self).wf(),
            final(self).timing() == old(self).timing(),
            exists|random: u8|
                old(self)@.carried_out(final(self)@, r, #[trigger] old(self)@.execute(i, random)),
            !Machine::draws_random(i) ==> old(self)@.carried_out(
                final(self)@,
                r,
                old(self)@.execute(i, 0),
            ),
    {
        let random: u8 = if i.w() == 0xC {
            self.rand.next()
        } else {
            0
        };
        self.execute_instruction_with(i, random)
    }

    /// One step with `random` as the byte that a random instruction draws:
    /// fetches the instruction at the program counter, carries it out and
    /// moves the program counter. On a stop nothing has changed.
    pub fn execute_next_instruction_with(&mut self, random: u8) -> (r: Result<(), Halt>)
        requires
            old(self).wf(),
        ensures
            final(self).wf(),
            final(self).timing() == old(self).timing(),
            old(self)@.stepped(final(self)@, r, old(self)@.step(random)),
    {
        if !self.can_fetch() {
            return Err(Halt::OutOfRange);
        }
        let instruction = self.next_instruction();
        match self.execute_instruction_with(instruction, random) {
            Ok(pc) => {
                self.pc = pc;
                proof {
                    assert(self@ =~= old(self)@.step(random)->Ok_0);
                }
                Ok(())
            },
            Err(halt) => Err(halt),
        }
    }

    /// One step: fetches the instruction at the program counter, carries it
    /// out and moves the program counter. A random instruction draws its byte
    /// from the source of random bytes. On a stop nothing has changed.
    pub fn execute_next_instruction(&mut self) -> (r: Result<(), Halt>)
        requires
            old(self).wf(),
        ensures
            final(self).wf(),
            final(self).timing() == old(self).timing(),
            exists|random: u8|
                old(self)@.stepped(final(self)@, r, #[trigger] old(self)@.step(random)),
            !Machine::draws_random(old(self)@.fetch()) ==> old(self)@.stepped(
                final(self)@,
                r,
                old(self)@.step(0),
            ),
    {
        if !self.can_fetch() {
            assert(old(self)@.stepped(self@, Err::<(), Halt>(Halt::OutOfRange), old(self)@.step(0)));
            return Err(Halt::OutOfRange);
        }
        let instruction = self.next_instruction();
        let random: u8 = if instruction.w() == 0xC {
            self.rand.next()
        } else {
            0
        };
        let r = self.execute_next_instruction_with(random);
        assert(old(self)@.stepped(self@, r, old(self)@.step(random)));
        r
    }

    /// What holds after the processor was asked to catch up with the time
    /// `now`: the timers have made the ticks that were due, then the
    /// instructions that were due have run, up to the first stop, and each
    /// clock with a cycle due counts from `now`.
    pub open spec fn caught_up(
        before: Machine,
        timing_before: Timing,
        after: Machine,
        timing_after: Timing,
        result: Result<(), Halt>,
        now: nat,
    ) -> bool {
        &&& timing_after == timing_before.served(now)
        &&& exists|randoms: Seq<u8>| #[trigger]
            before.ticked_by(timing_before.ticks_due(now)).ran(
                after,
                result,
                randoms,
                timing_before.instructions_due(now),
            )
    }

    /// Makes up to `count` steps, ending early at the first stop.
    fn run_instructions(&mut self, count: u128) -> (r: Result<(), Halt>)
        requires
            old(self).wf(),
        ensures
            final(self).wf(),
            final(self).timing() == old(self).timing(),
            exists|randoms: Seq<u8>| #[trigger]
                old(self)@.ran(final(self)@, r, randoms, count as nat),
    {
        let ghost mut randoms: Seq<u8> = Seq::empty();
        let mut done: u128 = 0;
        while done < count
            invariant
                done <= count,
                self.wf(),
                self.timing() == old(self).timing(),
                randoms.len() == done,
                old(self)@.run(randoms) == (self@, None::<Halt>),
            decreases count - done,
        {
            let ghost before = self@;
            let ghost drawn = randoms;
            let step = self.execute_next_instruction();
            proof {
                let random = choose|random: u8|
                    before.stepped(self@, step, #[trigger] before.step(random));
                randoms = drawn.push(random);
                assert(randoms.drop_last() =~= drawn);
            }
            match step {
                Ok(()) => {},
                Err(halt) => {
                    proof {
                        assert(old(self)@.ran(self@, step, randoms, count as nat));
                    }
                    return Err(halt);
                },
            }
            done += 1;
        }
        proof {
            assert(old(self)@.ran(self@, Ok::<(), Halt>(()), randoms, count as nat));
        }
        Ok(())
    }

    /// Catches up with the time `total_elapsed_nanos` since the start: makes
    /// the timer ticks that are due, then runs the instructions that are due.
    /// A stop ends the run and is returned.
    pub fn cycle_at(&mut self, total_elapsed_nanos: u128) -> (r: Result<(), Halt>)
        requires
            old(self).wf(),
        ensures
            final(self).wf(),
            Self::caught_up(
                old(self)@,
                old(self).timing(),
                final(self)@,
                final(self).timing(),
                r,
                total_elapsed_nanos as nat,
            ),
    {
        let ticks: u128 = self.delay_timer.num_cycles(total_elapsed_nanos);
        let mut made: u128 = 0;
        while made < ticks
            invariant
                made <= ticks,
                self.wf(),
                self.timing() == (Timing {
                    delay_last: old(self).timing().served(total_elapsed_nanos as nat).delay_last,
                    ..old(self).timing()
                }),
                self@ == old(self)@.ticked_by(made as nat),
            decreases ticks - made,
        {
            self.decrement_timers();
            made += 1;
            proof {
                assert(self@ =~= old(self)@.ticked_by(made as nat));
            }
        }
        let due: u128 = self.cpu_timer.num_cycles(total_elapsed_nanos);
        self.run_instructions(due)
    }

    /// Catches up with the time that has passed since the start, as the
    /// clock shows it: makes the timer ticks that are due, then runs the
    /// instructions that are due. It can be called at any rate.
    pub fn cycle(&mut self) -> (r: Result<(), Halt>)
        requires
            old(self).wf(),
        ensures
            final(self).wf(),
            exists|now: u128| #[trigger]
                Self::caught_up(
                    old(self)@,
                    old(self).timing(),
                    final(self)@,
                    final(self).timing(),
                    r,
                    now as nat,
                ),
    {
        let total_elapsed_nanos: u128 = self.start_time.elapsed_nanos();
        self.cycle_at(total_elapsed_nanos)
    }

    /// One sixtieth of a second for a host that keeps the time itself: one
    /// tick of the timers, then as many instructions as go with one tick at
    /// the current rate. A stop ends the run and is returned.
    pub fn cycle_60hz(&mut self) -> (r: Result<(), Halt>)
        requires
            old(self).wf(),
        ensures
            final(self).wf(),
            final(self).timing() == old(self).timing(),
            exists|randoms: Seq<u8>| #[trigger]
                old(self)@.ticked().ran(
                    final(self)@,
                    r,
                    randoms,
                    old(self).timing().per_decrement as nat,
                ),
    {
        self.decrement_timers();
        self.run_instructions(self.num_instructions_per_decrement as u128)
    }
}

} // verus!
