use vstd::prelude::*;
use crate::bus::Bus;
use crate::START_MEM_LOC;
use crate::machine::{
    Fault, Machine, Outcome, alu_defined, alu_flag, alu_value, carried_out, loaded, lowest_pressed, skip_if,
};
use crate::laws::{run_goes_on, step_keeps_wf};
use crate::random::random_byte;

verus! {

pub const MAX_STACK_SIZE: usize = 16;

pub const REGISTER_NUM: usize = 16;

/// Memory above the start address: the most bytes a program can have.
pub const MAX_PROG_BYTES: usize = 3584;

/// Instructions that one `tick` executes.
pub const STEPS_PER_TICK: usize = 15;

/// A program image that does not fit into memory, with its length.
#[derive(Debug, Clone, Copy, PartialEq, Eq)]
pub struct LoadError {
    pub len: usize,
}

/// The fetch-decode-execute engine and the state it owns.
pub struct Interpreter {
    /// Return addresses: the address of each call that has not returned.
    pub stack: Vec<u16>,
    pub pc: u16,
    pub bus: Bus,
    /// V0 to VF.
    pub v: [u8; REGISTER_NUM],
    pub i: u16,
    pub dt: u8,
    pub st: u8,
}

impl View for Interpreter {
    type V = Machine;

    open spec fn view(&self) -> Machine {
        Machine {
            mem: self.bus.mem@,
            keys: self.bus.keyboard@,
            pixels: self.bus.display.bits@,
            v: self.v@,
            i: self.i,
            pc: self.pc,
            stack: self.stack@,
            dt: self.dt,
            st: self.st,
        }
    }
}

impl Interpreter {
    /// An interpreter at power-on around `bus`: registers zero, an empty
    /// stack, the program counter at 0x200, both timers at 60.
    pub fn new(bus: Bus) -> (it: Interpreter)
        ensures
            it@ == (Machine {
                mem: bus.mem@,
                keys: bus.keyboard@,
                pixels: bus.display.bits@,
                v: Seq::new(16, |k: int| 0u8),
                i: 0,
                pc: 0x200,
                stack: Seq::empty(),
                dt: 60,
                st: 60,
            }),
    {
        let it = Interpreter { stack: Vec::new(), pc: 0x200, bus, v: [0u8; REGISTER_NUM], i: 0, dt: 60, st: 60 };
        assert(it.v@ =~= Seq::new(16, |k: int| 0u8));
        assert(it.stack@ =~= Seq::empty());
        it
    }

    /// Copies `rom_bytes` to address 0x200. An image of more than 3584
    /// bytes is refused and nothing is copied.
    pub fn load_program(&mut self, rom_bytes: &[u8]) -> (res: Result<(), LoadError>)
        ensures
            rom_bytes@.len() <= 3584 ==> res is Ok && final(self)@ == (Machine {
                mem: loaded(old(self)@.mem, rom_bytes@),
                ..old(self)@
            }),
            rom_bytes@.len() > 3584 ==> res == Err::<(), LoadError>(LoadError { len: rom_bytes@.len() as usize })
                && final(self)@ == old(self)@,
    {
        let len: usize = rom_bytes.len();
        if len > MAX_PROG_BYTES {
            return Err(LoadError { len });
        }
        let mut k: usize = 0;
        while k < len
            invariant
                k <= len <= 3584,
                len == rom_bytes@.len(),
                self.stack == old(self).stack,
                self.pc == old(self).pc,
                self.v == old(self).v,
                self.i == old(self).i,
                self.dt == old(self).dt,
                self.st == old(self).st,
                self.bus.keyboard == old(self).bus.keyboard,
                self.bus.display == old(self).bus.display,
                forall|a: int|
                    0 <= a < 4096 ==> self.bus.mem@[a] == if 0x200 <= a < 0x200 + k {
                        rom_bytes@[a - 0x200]
                    } else {
                        old(self).bus.mem@[a]
                    },
            decreases len - k,
        {
            self.bus.mem[START_MEM_LOC + k] = rom_bytes[k];
            k += 1;
        }
        assert(self.bus.mem@ =~= loaded(old(self)@.mem, rom_bytes@));
        Ok(())
    }

    /// Both timers one step toward zero.
    pub fn tick_timers(&mut self)
        ensures
            final(self)@ == old(self)@.tick_timers(),
    {
        if self.dt > 0 {
            self.dt -= 1;
        }
        if self.st > 0 {
            self.st -= 1;
        }
    }
}

impl Interpreter {
    /// The fault for a word that encodes no instruction.
    fn invalid(&self, op: u16) -> (res: Result<Outcome, Fault>)
        requires
            op == self@.opcode(),
        ensures
            carried_out(self@, self@.invalid(), self@, res),
    {
        Err(Fault::InvalidOpcode { opcode: op, pc: self.pc })
    }

    /// 00E0 and 00EE.
    fn exec_system(&mut self, op: u16) -> (res: Result<Outcome, Fault>)
        requires
            op == old(self)@.opcode(),
        ensures
            carried_out(old(self)@, old(self)@.effect_system(), final(self)@, res),
    {
        if op == 0x00E0 {
            self.bus.display.clear_display();
            assert(self.bus.display.bits@ =~= Seq::new(2048, |p: int| false));
            Ok(Outcome::Next)
        } else if op == 0x00EE {
            let depth: usize = self.stack.len();
            if depth == 0 {
                return Err(Fault::StackUnderflow);
            }
            let ret: u16 = self.stack[depth - 1];
            if ret > 0xFFFD {
                return Err(Fault::IndexOutOfRange);
            }
            self.stack.pop();
            assert(self.stack@ =~= old(self).stack@.drop_last());
            Ok(Outcome::Jump(ret + 2))
        } else {
            self.invalid(op)
        }
    }

    /// 2nnn.
    fn exec_call(&mut self, op: u16) -> (res: Result<Outcome, Fault>)
        requires
            op == old(self)@.opcode(),
        ensures
            carried_out(old(self)@, old(self)@.effect_call(), final(self)@, res),
    {
        if self.stack.len() >= MAX_STACK_SIZE {
            return Err(Fault::StackOverflow);
        }
        self.stack.push(self.pc);
        Ok(Outcome::Jump(op % 4096))
    }

    /// Writes `val` to register `x` and then the flag `f` to VF.
    fn set_flagged(&mut self, x: usize, val: u8, f: bool)
        requires
            x < 16,
        ensures
            final(self)@ == old(self)@.set_v_flag(x as int, val, f),
    {
        self.v[x] = val;
        self.v[15] = if f {
            1
        } else {
            0
        };
    }

    /// The 8xyN group.
    fn exec_alu(&mut self, op: u16) -> (res: Result<Outcome, Fault>)
        requires
            op == old(self)@.opcode(),
        ensures
            carried_out(old(self)@, old(self)@.effect_alu(), final(self)@, res),
    {
        let x: usize = ((op / 256) % 16) as usize;
        let y: usize = ((op / 16) % 16) as usize;
        let n: u16 = op % 16;
        if n > 7 && n != 14 {
            return self.invalid(op);
        }
        let val: u8 = compute_value(n, self.v[x], self.v[y]);
        match compute_flag(n, self.v[x], self.v[y]) {
            Some(f) => {
                self.set_flagged(x, val, f);
            },
            None => {
                self.v[x] = val;
            },
        }
        Ok(Outcome::Next)
    }

    /// Dxyn.
    fn exec_draw(&mut self, op: u16) -> (res: Result<Outcome, Fault>)
        requires
            op == old(self)@.opcode(),
        ensures
            carried_out(old(self)@, old(self)@.effect_draw(), final(self)@, res),
    {
        let x: usize = ((op / 256) % 16) as usize;
        let y: usize = ((op / 16) % 16) as usize;
        let n: usize = (op % 16) as usize;
        let vx: u8 = self.v[x];
        let vy: u8 = self.v[y];
        let start: usize = self.i as usize;
        if start + n > 4096 {
            return Err(Fault::IndexOutOfRange);
        }
        let hit: bool = self.bus.display.draw_sprite(&self.bus.mem, start, n, vx, vy);
        self.v[15] = if hit {
            1
        } else {
            0
        };
        Ok(Outcome::Next)
    }

    /// Ex9E and ExA1.
    fn exec_key(&self, op: u16) -> (res: Result<Outcome, Fault>)
        requires
            op == self@.opcode(),
        ensures
            carried_out(self@, self@.effect_key(), self@, res),
    {
        let x: usize = ((op / 256) % 16) as usize;
        let kk: u8 = (op % 256) as u8;
        let vx: u8 = self.v[x];
        if kk != 0x9E && kk != 0xA1 {
            return self.invalid(op);
        }
        match self.bus.is_key_pressed(vx as usize) {
            Some(is_pressed) => {
                if is_pressed == (kk == 0x9E) {
                    Ok(Outcome::Skip)
                } else {
                    Ok(Outcome::Next)
                }
            },
            None => Err(Fault::IndexOutOfRange),
        }
    }

    /// The lowest key that is down; 16 when none is.
    fn first_key_down(&self) -> (key: usize)
        ensures
            key == lowest_pressed(self@.keys, 0),
            key <= 16,
    {
        let mut k: usize = 0;
        while k < 16
            invariant
                k <= 16,
                lowest_pressed(self@.keys, 0) == lowest_pressed(self@.keys, k as int),
            decreases 16 - k,
        {
            match self.bus.is_key_pressed(k) {
                Some(true) => {
                    return k;
                },
                _ => {},
            }
            k += 1;
        }
        k
    }

    /// Fx55: copies V0 to Vx to memory at `I`.
    fn store_registers(&mut self, x: usize)
        requires
            x < 16,
            old(self).i + x < 4096,
        ensures
            final(self)@ == (Machine { mem: old(self)@.with_stored(x as int), ..old(self)@ }),
    {
        let base: usize = self.i as usize;
        let mut k: usize = 0;
        while k <= x
            invariant
                k <= x + 1,
                x < 16,
                base == old(self).i,
                base + x < 4096,
                self.stack == old(self).stack,
                self.pc == old(self).pc,
                self.v == old(self).v,
                self.i == old(self).i,
                self.dt == old(self).dt,
                self.st == old(self).st,
                self.bus.keyboard == old(self).bus.keyboard,
                self.bus.display == old(self).bus.display,
                forall|a: int|
                    0 <= a < 4096 ==> self.bus.mem@[a] == if base <= a < base + k {
                        old(self).v@[a - base]
                    } else {
                        old(self).bus.mem@[a]
                    },
            decreases x + 1 - k,
        {
            self.bus.mem[base + k] = self.v[k];
            k += 1;
        }
        assert(self.bus.mem@ =~= old(self)@.with_stored(x as int));
    }

    /// Fx65: fills V0 to Vx from memory at `I`.
    fn fetch_registers(&mut self, x: usize)
        requires
            x < 16,
            old(self).i + x < 4096,
        ensures
            final(self)@ == (Machine { v: old(self)@.with_fetched(x as int), ..old(self)@ }),
    {
        let base: usize = self.i as usize;
        let mut k: usize = 0;
        while k <= x
            invariant
                k <= x + 1,
                x < 16,
                base == old(self).i,
                base + x < 4096,
                self.stack == old(self).stack,
                self.pc == old(self).pc,
                self.bus == old(self).bus,
                self.i == old(self).i,
                self.dt == old(self).dt,
                self.st == old(self).st,
                forall|j: int|
                    0 <= j < 16 ==> self.v@[j] == if j < k {
                        old(self).bus.mem@[base + j]
                    } else {
                        old(self).v@[j]
                    },
            decreases x + 1 - k,
        {
            self.v[k] = self.bus.mem[base + k];
            k += 1;
        }
        assert(self.v@ =~= old(self)@.with_fetched(x as int));
    }

    /// The Fx group.
    fn exec_misc(&mut self, op: u16) -> (res: Result<Outcome, Fault>)
        requires
            op == old(self)@.opcode(),
        ensures
            carried_out(old(self)@, old(self)@.effect_misc(), final(self)@, res),
    {
        let x: usize = ((op / 256) % 16) as usize;
        let kk: u8 = (op % 256) as u8;
        let vx: u8 = self.v[x];
        if kk == 0x07 {
            self.v[x] = self.dt;
        } else if kk == 0x0A {
            let key: usize = self.first_key_down();
            if key >= 16 {
                return Ok(Outcome::Wait);
            }
            self.v[x] = key as u8;
        } else if kk == 0x15 {
            self.dt = vx;
        } else if kk == 0x18 {
            self.st = vx;
        } else if kk == 0x1E {
            let sum: u32 = self.i as u32 + vx as u32;
            self.i = (sum % 0x10000) as u16;
        } else if kk == 0x29 {
            self.i = (vx % 16) as u16 * 5;
        } else if kk == 0x33 {
            let at: usize = self.i as usize;
            if at + 2 >= 4096 {
                return Err(Fault::IndexOutOfRange);
            }
            self.bus.mem[at] = vx / 100;
            self.bus.mem[at + 1] = (vx / 10) % 10;
            self.bus.mem[at + 2] = vx % 10;
        } else if kk == 0x55 {
            if self.i as usize + x >= 4096 {
                return Err(Fault::IndexOutOfRange);
            }
            self.store_registers(x);
        } else if kk == 0x65 {
            if self.i as usize + x >= 4096 {
                return Err(Fault::IndexOutOfRange);
            }
            self.fetch_registers(x);
        } else {
            return self.invalid(op);
        }
        Ok(Outcome::Next)
    }

    /// Decodes `op` and applies it to everything but the program counter.
    fn execute(&mut self, op: u16, rnd: u8) -> (res: Result<Outcome, Fault>)
        requires
            op == old(self)@.opcode(),
        ensures
            final(self).pc == old(self).pc,
            carried_out(old(self)@, old(self)@.effect(rnd), final(self)@, res),
    {
        let class: u16 = op / 4096;
        let x: usize = ((op / 256) % 16) as usize;
        let y: usize = ((op / 16) % 16) as usize;
        let n: u16 = op % 16;
        let kk: u8 = (op % 256) as u8;
        let nnn: u16 = op % 4096;
        let vx: u8 = self.v[x];
        let vy: u8 = self.v[y];
        if class == 0 {
            self.exec_system(op)
        } else if class == 1 {
            Ok(Outcome::Jump(nnn))
        } else if class == 2 {
            self.exec_call(op)
        } else if class == 3 {
            Ok(skip_when(vx == kk))
        } else if class == 4 {
            Ok(skip_when(vx != kk))
        } else if class == 5 {
            if n == 0 {
                Ok(skip_when(vx == vy))
            } else {
                self.invalid(op)
            }
        } else if class == 6 {
            self.v[x] = kk;
            Ok(Outcome::Next)
        } else if class == 7 {
            let sum: u16 = (vx as u16 + kk as u16) % 256;
            self.v[x] = sum as u8;
            Ok(Outcome::Next)
        } else if class == 8 {
            self.exec_alu(op)
        } else if class == 9 {
            if n == 0 {
                Ok(skip_when(vx != vy))
            } else {
                self.invalid(op)
            }
        } else if class == 10 {
            self.i = nnn;
            Ok(Outcome::Next)
        } else if class == 11 {
            Ok(Outcome::Jump(nnn + self.v[0] as u16))
        } else if class == 12 {
            self.v[x] = rnd & kk;
            Ok(Outcome::Next)
        } else if class == 13 {
            self.exec_draw(op)
        } else if class == 14 {
            self.exec_key(op)
        } else {
            self.exec_misc(op)
        }
    }

    /// Executes the instruction at the program counter, with `rnd` as the
    /// random byte in case the instruction asks for one. On a fault nothing
    /// has changed.
    pub fn step(&mut self, rnd: u8) -> (res: Result<Outcome, Fault>)
        ensures
            old(self)@.steps_to(rnd, final(self)@, res),
            old(self)@.wf() ==> final(self)@.wf(),
    {
        proof {
            if self@.wf() {
                step_keeps_wf(self@, rnd);
            }
        }
        if self.pc >= 4095 {
            return Err(Fault::IndexOutOfRange);
        }
        let op: u16 = self.bus.get_next_byte(self.pc as usize);
        let res = self.execute(op, rnd);
        match res {
            Ok(Outcome::Next) => {
                self.pc = self.pc + 2;
            },
            Ok(Outcome::Skip) => {
                self.pc = self.pc + 4;
            },
            Ok(Outcome::Jump(target)) => {
                self.pc = target;
            },
            _ => {},
        }
        res
    }

    /// Whether the instruction at the program counter is one that draws a
    /// random byte.
    fn wants_random(&self) -> (wants: bool)
        ensures
            wants == self@.draws_random(),
    {
        self.pc < 4095 && self.bus.mem[self.pc as usize] / 16 == 12
    }

    /// Executes the instruction at the program counter. Where that is
    /// Cxkk, a random byte is drawn, and the result and the new state are
    /// those of `step` with some byte; for every other instruction they are
    /// those of `step` with the byte 0, which the instruction does not read.
    pub fn execute_one(&mut self) -> (res: Result<Outcome, Fault>)
        ensures
            exists|rnd: u8| #[trigger] old(self)@.steps_to(rnd, final(self)@, res),
            !old(self)@.draws_random() ==> old(self)@.steps_to(0, final(self)@, res),
            old(self)@.wf() ==> final(self)@.wf(),
    {
        let rnd: u8 = if self.wants_random() {
            random_byte()
        } else {
            0
        };
        self.step(rnd)
    }

    /// One instruction of a tick, `done` instructions after the tick began
    /// in `start`.
    fn run_one(&mut self, start: Ghost<Machine>, done: Ghost<nat>) -> (res: Result<Outcome, Fault>)
        requires
            start@.runs(old(self)@, done@),
        ensures
            old(self)@.wf() ==> final(self)@.wf(),
            res is Ok ==> start@.runs(final(self)@, done@ + 1),
            res is Err ==> final(self)@ == old(self)@ && old(self)@.faults_with(res->Err_0),
    {
        let res = self.execute_one();
        proof {
            let rnd = choose|rnd: u8| #[trigger] old(self)@.steps_to(rnd, self@, res);
            run_goes_on(start@, old(self)@, rnd, self@, res, done@);
        }
        res
    }

    /// Executes fifteen instructions, and after them lets both timers
    /// count down once. The first fault ends the tick at once: the state is
    /// that before the faulting instruction, and the timers have not moved.
    pub fn tick(&mut self) -> (res: Result<(), Fault>)
        ensures
            old(self)@.wf() ==> final(self)@.wf(),
            match res {
                Ok(_) => exists|m: Machine| #[trigger]
                    old(self)@.runs(m, 15) && final(self)@ == m.tick_timers(),
                Err(f) => final(self)@.faults_with(f) && exists|k: nat|
                    k < 15 && #[trigger] old(self)@.runs(final(self)@, k),
            },
    {
        let mut done: usize = 0;
        while done < STEPS_PER_TICK
            invariant
                done <= 15,
                old(self)@.wf() ==> self@.wf(),
                old(self)@.runs(self@, done as nat),
            decreases 15 - done,
        {
            match self.run_one(Ghost(old(self)@), Ghost(done as nat)) {
                Ok(_) => {},
                Err(f) => {
                    return Err(f);
                },
            }
            done += 1;
        }
        self.tick_timers();
        Ok(())
    }
}

/// The value that operation `n` of the 8xyN group leaves in register x.
fn compute_value(n: u16, vx: u8, vy: u8) -> (val: u8)
    requires
        alu_defined(n as int),
    ensures
        val == alu_value(n as int, vx, vy),
{
    if n == 0 {
        vy
    } else if n == 1 {
        vx | vy
    } else if n == 2 {
        vx & vy
    } else if n == 3 {
        vx ^ vy
    } else if n == 4 {
        ((vx as u16 + vy as u16) % 256) as u8
    } else if n == 5 {
        ((256 + vx as u16 - vy as u16) % 256) as u8
    } else if n == 6 {
        vx / 2
    } else if n == 7 {
        ((256 + vy as u16 - vx as u16) % 256) as u8
    } else {
        ((vx as u16 * 2) % 256) as u8
    }
}

/// The flag that operation `n` of the 8xyN group writes, if it writes one.
fn compute_flag(n: u16, vx: u8, vy: u8) -> (f: Option<bool>)
    ensures
        f == alu_flag(n as int, vx, vy),
{
    if n == 4 {
        Some(vx as u16 + vy as u16 > 255)
    } else if n == 5 {
        Some(vx >= vy)
    } else if n == 6 {
        Some(vx % 2 == 1)
    } else if n == 7 {
        Some(vy >= vx)
    } else if n == 14 {
        Some(vx >= 128)
    } else {
        None
    }
}

/// The outcome of a conditional skip whose condition is `b`.
fn skip_when(b: bool) -> (o: Outcome)
    ensures
        o == skip_if(b),
{
    if b {
        Outcome::Skip
    } else {
        Outcome::Next
    }
}

} // verus!
