//! What holds of the instruction set however a program uses it.

use crate::instruction::Instruction;
use crate::keyboard::KeyWait;
use crate::machine::Halt;
use crate::machine::Machine;
use vstd::prelude::*;

verus! {

impl Machine {
    /// Whether `ins` is the instruction that waits for a key (`Fx0A`).
    pub open spec fn is_key_wait(ins: Instruction) -> bool {
        ins.spec_w() == 0xF && ins.yz == 0x0A
    }

    /// The random byte matters to the random instruction alone.
    pub proof fn lemma_random_byte_unused(self, ins: Instruction, a: u8, b: u8)
        requires
            !Self::draws_random(ins),
        ensures
            self.execute(ins, a) == self.execute(ins, b),
    {
    }

    /// Clearing, scrolling, a change of resolution and a return keep the
    /// machine in good order.
    pub proof fn lemma_system_keeps_wf(self, ins: Instruction)
        requires
            self.wf(),
        ensures
            self.execute_system(ins) matches Ok((after, pc)) ==> after.wf() && after.pc == self.pc,
    {
        self.screen.lemma_scroll_keeps_size(ins.spec_z());
        self.screen.lemma_cleared_is_blank();
        self.screen.lemma_with_hires(false);
        self.screen.lemma_with_hires(true);
    }

    /// Drawing keeps the machine in good order.
    pub proof fn lemma_draw_keeps_wf(self, ins: Instruction)
        requires
            self.wf(),
        ensures
            self.execute_draw(ins) matches Ok((after, pc)) ==> after.wf() && after.pc == self.pc,
    {
        let sx = self.v[ins.spec_x() as int] as int;
        let sy = self.v[ins.spec_y() as int] as int;
        let sprite = self.ram.subrange(self.i as int, self.i + Self::sprite_len(ins));
        self.screen.lemma_drawn_pixel(sx, sy, sprite);
        self.screen.lemma_drawn_wide_wf(sx, sy, sprite, 16);
    }

    /// The instructions `Fxyz` keep the machine in good order.
    pub proof fn lemma_misc_keeps_wf(self, ins: Instruction)
        requires
            self.wf(),
        ensures
            self.execute_misc(ins) matches Ok((after, pc)) ==> after.wf() && after.pc == self.pc,
    {
    }

    /// Whatever instruction is carried out, the machine stays in good
    /// order, and the program counter is left for the caller to move.
    pub proof fn lemma_execute_keeps_wf(self, ins: Instruction, random: u8)
        requires
            self.wf(),
        ensures
            self.execute(ins, random) matches Ok((after, pc)) ==> after.wf() && after.pc == self.pc,
    {
        let w = ins.spec_w();
        if w == 0x0 {
            self.lemma_system_keeps_wf(ins);
        } else if w == 0xD {
            self.lemma_draw_keeps_wf(ins);
        } else if w == 0xF {
            self.lemma_misc_keeps_wf(ins);
        }
    }

    /// A step keeps the machine in good order.
    pub proof fn lemma_step_keeps_wf(self, random: u8)
        requires
            self.wf(),
        ensures
            self.step(random) matches Ok(after) ==> after.wf(),
    {
        self.lemma_execute_keeps_wf(self.fetch(), random);
    }

    /// A run keeps the machine in good order, whether it ends early or not.
    pub proof fn lemma_run_keeps_wf(self, randoms: Seq<u8>)
        requires
            self.wf(),
        ensures
            self.run(randoms).0.wf(),
        decreases randoms.len(),
    {
        if randoms.len() > 0 {
            self.lemma_run_keeps_wf(randoms.drop_last());
            self.run(randoms.drop_last()).0.lemma_step_keeps_wf(randoms.last());
        }
    }

    /// An arithmetic instruction `8xyN` goes on with the next instruction,
    /// leaves in `Vx` the value that the operation gives, wrapped round at
    /// 256, and touches no register but `Vx` and the flag. Where `Vx` is not
    /// the flag register itself, the flag holds what the operation's rule
    /// says, or stays where the operation has no rule for it. An operation
    /// outside the instruction set changes nothing.
    pub proof fn lemma_arithmetic(self, ins: Instruction, random: u8)
        requires
            self.wf(),
            self.can_fetch(),
            ins.spec_w() == 0x8,
        ensures
            match crate::machine::alu(ins.spec_z(), self.v[ins.spec_x() as int], self.v[ins.spec_y() as int]) {
                Some((value, flag)) => {
                    &&& self.execute(ins, random) matches Ok((after, pc))
                    &&& pc == self.pc + 2
                    &&& after == (Machine { v: after.v, ..self })
                    &&& after.v.len() == 16
                    &&& after.v[ins.spec_x() as int] == value
                    &&& ins.spec_x() != 0xF ==> after.v[0xF] == match flag {
                        Some(flag) => flag,
                        None => self.v[0xF],
                    }
                    &&& forall|r: int|
                        0 <= r < 0xF && r != ins.spec_x() ==> after.v[r] == self.v[r]
                },
                None => self.execute(ins, random) == Err::<(Machine, u16), Halt>(
                    Halt::BadInstruction(ins),
                ),
            },
    {
    }

    /// While an instruction waits for a key and none has gone down, a step
    /// arms the wait and changes nothing else: the program counter stays on
    /// the waiting instruction.
    pub proof fn lemma_key_wait_holds(self, random: u8)
        requires
            self.can_fetch(),
            Self::is_key_wait(self.fetch()),
            !(self.wait is Pressed),
        ensures
            self.step(random) == Ok::<Machine, Halt>(Machine { wait: KeyWait::Waiting, ..self }),
    {
    }

    /// However many steps are made while no key goes down, the program
    /// counter stays on the waiting instruction and nothing changes but the
    /// wait state, which is armed.
    pub proof fn lemma_key_wait_spins(self, randoms: Seq<u8>)
        requires
            self.can_fetch(),
            Self::is_key_wait(self.fetch()),
            !(self.wait is Pressed),
            randoms.len() > 0,
        ensures
            self.run(randoms) == (Machine { wait: KeyWait::Waiting, ..self }, None::<Halt>),
        decreases randoms.len(),
    {
        let armed = Machine { wait: KeyWait::Waiting, ..self };
        if randoms.len() == 1 {
            assert(randoms.drop_last().len() == 0);
            assert(self.run(randoms.drop_last()) == (self, None::<Halt>));
            self.lemma_key_wait_holds(randoms.last());
        } else {
            self.lemma_key_wait_spins(randoms.drop_last());
            assert(armed.fetch() == self.fetch());
            armed.lemma_key_wait_holds(randoms.last());
        }
    }

    /// A key that is released, or that goes down while no instruction waits,
    /// leaves the wait state as it is.
    pub proof fn lemma_key_wait_unmoved(self, code: u8, pressed: bool)
        requires
            !pressed || self.wait != KeyWait::Waiting,
        ensures
            self.key_toggled(code, pressed).wait == self.wait,
    {
    }

    /// When a key goes down while an instruction waits, the next step puts
    /// the key's value into the register that the instruction names, moves
    /// on by one instruction and ends the wait.
    pub proof fn lemma_key_wait_receives(self, code: u8, random: u8)
        requires
            self.wf(),
            self.can_fetch(),
            Self::is_key_wait(self.fetch()),
            self.wait == KeyWait::Waiting,
            code < 16,
        ensures
            self.key_toggled(code, true).step(random) == Ok::<Machine, Halt>(
                Machine {
                    v: self.v.update(self.fetch().spec_x() as int, code),
                    wait: KeyWait::Idle,
                    pc: (self.pc + 2) as u16,
                    keys: self.keys.update(code as int, true),
                    ..self
                },
            ),
    {
        let down = self.key_toggled(code, true);
        assert(down.fetch() == self.fetch());
    }
}

} // verus!
