use vstd::prelude::*;
use crate::drivers::display::{blit, collides};

verus! {

/// Why an instruction could not be executed. A fault leaves the machine
/// as it was before the instruction.
#[derive(Debug, Clone, Copy, PartialEq, Eq)]
pub enum Fault {
    /// A call with sixteen return addresses already on the stack.
    StackOverflow,
    /// A return with no return address on the stack.
    StackUnderflow,
    /// A word that encodes no instruction, with the address it was fetched from.
    InvalidOpcode { opcode: u16, pc: u16 },
    /// A fetch, a memory access or a key number past its bound.
    IndexOutOfRange,
}

/// What an instruction does to the program counter.
#[derive(Debug, Clone, Copy, PartialEq, Eq)]
pub enum Outcome {
    /// Advance by one instruction.
    Next,
    /// Advance by two instructions.
    Skip,
    /// Continue at the given address.
    Jump(u16),
    /// Stay: the instruction waits for a key and none is down.
    Wait,
}

/// The whole state of the interpreter as mathematical values.
pub struct Machine {
    pub mem: Seq<u8>,
    pub keys: Seq<bool>,
    pub pixels: Seq<bool>,
    pub v: Seq<u8>,
    pub i: u16,
    pub pc: u16,
    pub stack: Seq<u16>,
    pub dt: u8,
    pub st: u8,
}

/// The sixteen five-byte glyphs for the hexadecimal digits.
pub open spec fn font_table() -> Seq<u8> {
    seq![
        0xF0u8, 0x90u8, 0x90u8, 0x90u8, 0xF0u8,
        0x20u8, 0x60u8, 0x20u8, 0x20u8, 0x70u8,
        0xF0u8, 0x10u8, 0xF0u8, 0x80u8, 0xF0u8,
        0xF0u8, 0x10u8, 0xF0u8, 0x10u8, 0xF0u8,
        0x90u8, 0x90u8, 0xF0u8, 0x10u8, 0x10u8,
        0xF0u8, 0x80u8, 0xF0u8, 0x10u8, 0xF0u8,
        0xF0u8, 0x80u8, 0xF0u8, 0x90u8, 0xF0u8,
        0xF0u8, 0x10u8, 0x20u8, 0x40u8, 0x40u8,
        0xF0u8, 0x90u8, 0xF0u8, 0x90u8, 0x90u8,
        0xF0u8, 0x90u8, 0xF0u8, 0x10u8, 0xF0u8,
        0xF0u8, 0x90u8, 0xF0u8, 0x90u8, 0x90u8,
        0xE0u8, 0x90u8, 0xE0u8, 0x90u8, 0xE0u8,
        0xF0u8, 0x80u8, 0x80u8, 0x80u8, 0xF0u8,
        0xE0u8, 0x90u8, 0x90u8, 0x90u8, 0xE0u8,
        0xF0u8, 0x80u8, 0xF0u8, 0x80u8, 0xF0u8,
        0xF0u8, 0x80u8, 0xF0u8, 0x80u8, 0x80u8,
    ]
}

/// Memory at power-on: the font in the first 80 bytes, zero above.
pub open spec fn initial_memory() -> Seq<u8> {
    Seq::new(
        4096,
        |a: int|
            if a < 80 {
                font_table()[a]
            } else {
                0u8
            },
    )
}

/// Memory after `rom` has been copied to address 0x200.
pub open spec fn loaded(mem: Seq<u8>, rom: Seq<u8>) -> Seq<u8> {
    Seq::new(
        4096,
        |a: int|
            if 0x200 <= a < 0x200 + rom.len() {
                rom[a - 0x200]
            } else {
                mem[a]
            },
    )
}

/// The big-endian 16-bit word in `mem[at]` and `mem[at + 1]`.
pub open spec fn word_at(mem: Seq<u8>, at: int) -> u16 {
    (mem[at] as int * 256 + mem[at + 1] as int) as u16
}

/// The first nibble of an instruction word: its class.
pub open spec fn op_class(op: u16) -> int {
    op as int / 4096
}

/// The second nibble: the register operand `x`.
pub open spec fn op_x(op: u16) -> int {
    (op as int / 256) % 16
}

/// The third nibble: the register operand `y`.
pub open spec fn op_y(op: u16) -> int {
    (op as int / 16) % 16
}

/// The fourth nibble: the operand `n`.
pub open spec fn op_n(op: u16) -> int {
    op as int % 16
}

/// The low byte: the immediate `kk`.
pub open spec fn op_kk(op: u16) -> u8 {
    (op as int % 256) as u8
}

/// The low twelve bits: the address `nnn`.
pub open spec fn op_nnn(op: u16) -> u16 {
    (op as int % 4096) as u16
}

/// A flag as the flag register holds it: 1 or 0.
pub open spec fn flag(b: bool) -> u8 {
    if b {
        1u8
    } else {
        0u8
    }
}

/// The outcome of a conditional skip whose condition is `b`.
pub open spec fn skip_if(b: bool) -> Outcome {
    if b {
        Outcome::Skip
    } else {
        Outcome::Next
    }
}

/// One step of a timer: down by one, staying at zero.
pub open spec fn count_down(t: u8) -> u8 {
    if t > 0 {
        (t - 1) as u8
    } else {
        0u8
    }
}

/// The lowest key number from `from` up that is down; 16 when there is none.
pub open spec fn lowest_pressed(keys: Seq<bool>, from: int) -> int
    decreases 16 - from,
{
    if from >= 16 {
        16
    } else if keys[from] {
        from
    } else {
        lowest_pressed(keys, from + 1)
    }
}

/// The program counter after an instruction with outcome `o` fetched at `pc`.
pub open spec fn advance(pc: u16, o: Outcome) -> u16 {
    match o {
        Outcome::Next => (pc + 2) as u16,
        Outcome::Skip => (pc + 4) as u16,
        Outcome::Jump(target) => target,
        Outcome::Wait => pc,
    }
}

/// The operations of the 8xyN group: N from 0 to 7, and 14.
pub open spec fn alu_defined(n: int) -> bool {
    0 <= n <= 7 || n == 14
}

/// What operation `n` of the 8xyN group leaves in register x: a copy of
/// Vy, OR, AND, XOR, the sum, Vx - Vy, Vx shifted right, Vy - Vx, Vx shifted
/// left; sums, differences and shifts truncated to eight bits.
pub open spec fn alu_value(n: int, vx: u8, vy: u8) -> u8 {
    if n == 0 {
        vy
    } else if n == 1 {
        vx | vy
    } else if n == 2 {
        vx & vy
    } else if n == 3 {
        vx ^ vy
    } else if n == 4 {
        ((vx + vy) % 256) as u8
    } else if n == 5 {
        ((vx - vy) % 256) as u8
    } else if n == 6 {
        (vx / 2) as u8
    } else if n == 7 {
        ((vy - vx) % 256) as u8
    } else {
        ((vx * 2) % 256) as u8
    }
}

/// What operation `n` of the 8xyN group writes to the flag register, if it
/// writes one: the carry of the sum, "no borrow" of a difference, the bit
/// shifted out.
pub open spec fn alu_flag(n: int, vx: u8, vy: u8) -> Option<bool> {
    if n == 4 {
        Some(vx + vy > 255)
    } else if n == 5 {
        Some(vx >= vy)
    } else if n == 6 {
        Some(vx % 2 == 1)
    } else if n == 7 {
        Some(vy >= vx)
    } else if n == 14 {
        Some(vx >= 128)
    } else {
        None
    }
}

/// Whether an instruction whose effect on `before` is `eff` may have
/// returned `res` and left `after`: the effect's state and outcome, or on a
/// fault the fault and the state untouched.
pub open spec fn carried_out(
    before: Machine,
    eff: Result<(Machine, Outcome), Fault>,
    after: Machine,
    res: Result<Outcome, Fault>,
) -> bool {
    match eff {
        Ok((m, o)) => res == Ok::<Outcome, Fault>(o) && after == m,
        Err(f) => res == Err::<Outcome, Fault>(f) && after == before,
    }
}

/// Whether `op` encodes an instruction.
pub open spec fn defined(op: u16) -> bool {
    let c = op_class(op);
    let n = op_n(op);
    let kk = op_kk(op);
    if c == 0 {
        op == 0x00E0 || op == 0x00EE
    } else if c == 5 || c == 9 {
        n == 0
    } else if c == 8 {
        alu_defined(n)
    } else if c == 14 {
        kk == 0x9E || kk == 0xA1
    } else if c == 15 {
        kk == 0x07 || kk == 0x0A || kk == 0x15 || kk == 0x18 || kk == 0x1E || kk == 0x29 || kk == 0x33
            || kk == 0x55 || kk == 0x65
    } else {
        true
    }
}

/// Whether `r` is a step that succeeded and left the machine in `to`.
pub open spec fn ends_in(r: Result<(Machine, Outcome), Fault>, to: Machine) -> bool {
    match r {
        Ok((m, _)) => m == to,
        Err(_) => false,
    }
}

impl Machine {
    /// The sizes of the machine's parts, and what every state that a
    /// program can reach has: at most sixteen return addresses, each the
    /// address of an instruction.
    pub open spec fn wf(self) -> bool {
        &&& self.mem.len() == 4096
        &&& self.keys.len() == 16
        &&& self.pixels.len() == 2048
        &&& self.v.len() == 16
        &&& self.stack.len() <= 16
        &&& forall|k: int| 0 <= k < self.stack.len() ==> #[trigger] self.stack[k] <= 4094
    }

    /// The big-endian word at the program counter.
    pub open spec fn opcode(self) -> u16 {
        word_at(self.mem, self.pc as int)
    }

    /// Register `x` gets `val`.
    pub open spec fn set_v(self, x: int, val: u8) -> Machine {
        Machine { v: self.v.update(x, val), ..self }
    }

    /// Register `x` gets `val`, and the flag register is written last.
    pub open spec fn set_v_flag(self, x: int, val: u8, f: bool) -> Machine {
        Machine { v: self.v.update(x, val).update(15, flag(f)), ..self }
    }

    /// The fault for a word that encodes no instruction.
    pub open spec fn invalid(self) -> Result<(Machine, Outcome), Fault> {
        Err(Fault::InvalidOpcode { opcode: self.opcode(), pc: self.pc })
    }

    /// 00E0 clears the display. 00EE takes the last call's address off the
    /// stack and continues behind that call; it faults on an empty stack,
    /// and on an address that no call can have left there.
    pub open spec fn effect_system(self) -> Result<(Machine, Outcome), Fault> {
        let op = self.opcode();
        if op == 0x00E0 {
            Ok((Machine { pixels: Seq::new(2048, |p: int| false), ..self }, Outcome::Next))
        } else if op == 0x00EE {
            if self.stack.len() == 0 {
                Err(Fault::StackUnderflow)
            } else if self.stack.last() + 2 > 0xFFFF {
                Err(Fault::IndexOutOfRange)
            } else {
                Ok(
                    (
                        Machine { stack: self.stack.drop_last(), ..self },
                        Outcome::Jump((self.stack.last() + 2) as u16),
                    ),
                )
            }
        } else {
            self.invalid()
        }
    }

    /// 2nnn puts its own address on the stack and continues at `nnn`; it
    /// faults when the stack is full.
    pub open spec fn effect_call(self) -> Result<(Machine, Outcome), Fault> {
        if self.stack.len() >= 16 {
            Err(Fault::StackOverflow)
        } else {
            Ok((Machine { stack: self.stack.push(self.pc), ..self }, Outcome::Jump(op_nnn(self.opcode()))))
        }
    }

    /// 8xy0 to 8xy7 and 8xyE: register x gets the operation's value, and
    /// then the flag register its flag, if it has one.
    pub open spec fn effect_alu(self) -> Result<(Machine, Outcome), Fault> {
        let op = self.opcode();
        let x = op_x(op);
        let n = op_n(op);
        let vx = self.v[x];
        let vy = self.v[op_y(op)];
        if !alu_defined(n) {
            self.invalid()
        } else {
            match alu_flag(n, vx, vy) {
                Some(f) => Ok((self.set_v_flag(x, alu_value(n, vx, vy), f), Outcome::Next)),
                None => Ok((self.set_v(x, alu_value(n, vx, vy)), Outcome::Next)),
            }
        }
    }

    /// Dxyn XORs the `n` sprite rows at `I` into the display at `(Vx, Vy)`
    /// and sets the flag register to 1 if a lit cell was hit, else to 0; it
    /// faults if the rows reach past the end of memory.
    pub open spec fn effect_draw(self) -> Result<(Machine, Outcome), Fault> {
        let op = self.opcode();
        let n = op_n(op);
        let vx = self.v[op_x(op)] as int;
        let vy = self.v[op_y(op)] as int;
        let start = self.i as int;
        if start + n > 4096 {
            Err(Fault::IndexOutOfRange)
        } else {
            Ok(
                (
                    Machine {
                        pixels: blit(self.pixels, self.mem, start, n, vx, vy),
                        v: self.v.update(15, flag(collides(self.pixels, self.mem, start, n, vx, vy))),
                        ..self
                    },
                    Outcome::Next,
                ),
            )
        }
    }

    /// Ex9E skips if key `Vx` is down, ExA1 if it is up; both fault if `Vx`
    /// names no key.
    pub open spec fn effect_key(self) -> Result<(Machine, Outcome), Fault> {
        let op = self.opcode();
        let kk = op_kk(op);
        let vx = self.v[op_x(op)];
        if kk != 0x9E && kk != 0xA1 {
            self.invalid()
        } else if vx > 15 {
            Err(Fault::IndexOutOfRange)
        } else if kk == 0x9E {
            Ok((self, skip_if(self.keys[vx as int])))
        } else {
            Ok((self, skip_if(!self.keys[vx as int])))
        }
    }

    /// Memory after Fx33: the decimal digits of `val` at `I`, `I + 1`, `I + 2`.
    pub open spec fn with_digits(self, val: u8) -> Seq<u8> {
        self.mem.update(self.i as int, (val / 100) as u8).update(
            self.i + 1,
            ((val / 10) % 10) as u8,
        ).update(self.i + 2, (val % 10) as u8)
    }

    /// Memory after Fx55: registers 0 to `x` at `I` and above.
    pub open spec fn with_stored(self, x: int) -> Seq<u8> {
        Seq::new(
            4096,
            |a: int|
                if self.i <= a <= self.i + x {
                    self.v[a - self.i]
                } else {
                    self.mem[a]
                },
        )
    }

    /// Registers after Fx65: registers 0 to `x` from `I` and above.
    pub open spec fn with_fetched(self, x: int) -> Seq<u8> {
        Seq::new(
            16,
            |k: int|
                if k <= x {
                    self.mem[self.i + k]
                } else {
                    self.v[k]
                },
        )
    }

    /// The Fx group: timers, waiting for a key, the address register,
    /// decimal digits, and storing and loading registers.
    pub open spec fn effect_misc(self) -> Result<(Machine, Outcome), Fault> {
        let op = self.opcode();
        let kk = op_kk(op);
        let x = op_x(op);
        let vx = self.v[x];
        if kk == 0x07 {
            Ok((self.set_v(x, self.dt), Outcome::Next))
        } else if kk == 0x0A {
            let key = lowest_pressed(self.keys, 0);
            if key >= 16 {
                Ok((self, Outcome::Wait))
            } else {
                Ok((self.set_v(x, key as u8), Outcome::Next))
            }
        } else if kk == 0x15 {
            Ok((Machine { dt: vx, ..self }, Outcome::Next))
        } else if kk == 0x18 {
            Ok((Machine { st: vx, ..self }, Outcome::Next))
        } else if kk == 0x1E {
            Ok((Machine { i: ((self.i + vx) % 0x10000) as u16, ..self }, Outcome::Next))
        } else if kk == 0x29 {
            Ok((Machine { i: ((vx % 16) * 5) as u16, ..self }, Outcome::Next))
        } else if kk == 0x33 {
            if self.i + 2 >= 4096 {
                Err(Fault::IndexOutOfRange)
            } else {
                Ok((Machine { mem: self.with_digits(vx), ..self }, Outcome::Next))
            }
        } else if kk == 0x55 {
            if self.i + x >= 4096 {
                Err(Fault::IndexOutOfRange)
            } else {
                Ok((Machine { mem: self.with_stored(x), ..self }, Outcome::Next))
            }
        } else if kk == 0x65 {
            if self.i + x >= 4096 {
                Err(Fault::IndexOutOfRange)
            } else {
                Ok((Machine { v: self.with_fetched(x), ..self }, Outcome::Next))
            }
        } else {
            self.invalid()
        }
    }

    /// What the instruction at the program counter does to everything but
    /// the program counter, and how the program counter is to move. `rnd`
    /// is the byte that Cxkk masks.
    pub open spec fn effect(self, rnd: u8) -> Result<(Machine, Outcome), Fault> {
        let op = self.opcode();
        let c = op_class(op);
        let x = op_x(op);
        let kk = op_kk(op);
        let nnn = op_nnn(op);
        let vx = self.v[x];
        let vy = self.v[op_y(op)];
        if c == 0 {
            self.effect_system()
        } else if c == 1 {
            Ok((self, Outcome::Jump(nnn)))
        } else if c == 2 {
            self.effect_call()
        } else if c == 3 {
            Ok((self, skip_if(vx == kk)))
        } else if c == 4 {
            Ok((self, skip_if(vx != kk)))
        } else if c == 5 {
            if op_n(op) == 0 {
                Ok((self, skip_if(vx == vy)))
            } else {
                self.invalid()
            }
        } else if c == 6 {
            Ok((self.set_v(x, kk), Outcome::Next))
        } else if c == 7 {
            Ok((self.set_v(x, ((vx + kk) % 256) as u8), Outcome::Next))
        } else if c == 8 {
            self.effect_alu()
        } else if c == 9 {
            if op_n(op) == 0 {
                Ok((self, skip_if(vx != vy)))
            } else {
                self.invalid()
            }
        } else if c == 10 {
            Ok((Machine { i: nnn, ..self }, Outcome::Next))
        } else if c == 11 {
            Ok((self, Outcome::Jump((nnn + self.v[0]) as u16)))
        } else if c == 12 {
            Ok((self.set_v(x, rnd & kk), Outcome::Next))
        } else if c == 13 {
            self.effect_draw()
        } else if c == 14 {
            self.effect_key()
        } else {
            self.effect_misc()
        }
    }

    /// One instruction: fetch, decode, execute, move the program counter.
    pub open spec fn step(self, rnd: u8) -> Result<(Machine, Outcome), Fault> {
        if self.pc + 1 >= 4096 {
            Err(Fault::IndexOutOfRange)
        } else {
            match self.effect(rnd) {
                Ok((m, o)) => Ok((Machine { pc: advance(self.pc, o), ..m }, o)),
                Err(f) => Err(f),
            }
        }
    }

    /// Whether the instruction at the program counter is Cxkk, the one that
    /// reads the random byte.
    pub open spec fn draws_random(self) -> bool {
        self.pc + 1 < 4096 && op_class(self.opcode()) == 12
    }

    /// The state after one instruction; a fault leaves the state as it is.
    pub open spec fn next(self, rnd: u8) -> Machine {
        match self.step(rnd) {
            Ok((m, _)) => m,
            Err(_) => self,
        }
    }

    /// Whether an execution of one instruction that started in `self`, drew
    /// `rnd` and returned `res` may have ended in `after`.
    pub open spec fn steps_to(self, rnd: u8, after: Machine, res: Result<Outcome, Fault>) -> bool {
        carried_out(self, self.step(rnd), after, res)
    }

    /// Whether the instruction at the program counter faults with `f` for
    /// some random byte.
    pub open spec fn faults_with(self, f: Fault) -> bool {
        exists|rnd: u8| #[trigger] self.step(rnd) == Err::<(Machine, Outcome), Fault>(f)
    }

    /// Both timers one step down.
    pub open spec fn tick_timers(self) -> Machine {
        Machine { dt: count_down(self.dt), st: count_down(self.st), ..self }
    }

    /// The timers after `n` ticks.
    pub open spec fn after_ticks(self, n: nat) -> Machine
        decreases n,
    {
        if n == 0 {
            self
        } else {
            self.after_ticks((n - 1) as nat).tick_timers()
        }
    }

    /// Whether `k` instructions, each with some random byte and none
    /// faulting, lead from `self` to `to`.
    pub open spec fn runs(self, to: Machine, k: nat) -> bool
        decreases k,
    {
        if k == 0 {
            self == to
        } else {
            exists|mid: Machine, rnd: u8|
                self.runs(mid, (k - 1) as nat) && ends_in(#[trigger] mid.step(rnd), to)
        }
    }
}

} // verus!
