use vstd::prelude::*;
use crate::drivers::display::{blit, collides, sprite_hits};
use crate::machine::{
    Fault, Machine, Outcome, advance, alu_flag, defined, ends_in, flag, lowest_pressed,
    op_class, op_kk, op_n, op_nnn, op_x, op_y, word_at,
};

verus! {

/// 7xkk leaves in register x the sum of its old value and kk, modulo 256.
/// No other register changes, so the flag register is untouched unless it
/// is x itself, and nothing else changes but the program counter, which
/// moves on by one instruction.
pub proof fn add_immediate_wraps(m: Machine, rnd: u8)
    requires
        m.wf(),
        m.pc + 1 < 4096,
        op_class(m.opcode()) == 7,
    ensures
        m.step(rnd) is Ok,
        m.next(rnd).v[op_x(m.opcode())] == (m.v[op_x(m.opcode())] + op_kk(m.opcode())) % 256,
        forall|k: int| 0 <= k < 16 && k != op_x(m.opcode()) ==> m.next(rnd).v[k] == m.v[k],
        m.next(rnd) == (Machine { v: m.next(rnd).v, pc: (m.pc + 2) as u16, ..m }),
{
}

/// 8xy4 sets the flag register to 1 if the sum of Vx and Vy is above 255
/// and to 0 if not. Register x, where it is not the flag register itself,
/// gets the sum modulo 256.
pub proof fn add_registers_carries(m: Machine, rnd: u8)
    requires
        m.wf(),
        m.pc + 1 < 4096,
        op_class(m.opcode()) == 8,
        op_n(m.opcode()) == 4,
    ensures
        m.step(rnd) is Ok,
        m.next(rnd).v[15] == flag(m.v[op_x(m.opcode())] + m.v[op_y(m.opcode())] > 255),
        op_x(m.opcode()) != 15 ==> m.next(rnd).v[op_x(m.opcode())] == (m.v[op_x(m.opcode())] + m.v[op_y(
            m.opcode(),
        )]) % 256,
{
}

/// 8xy5 sets the flag register to 1 if Vx is at least Vy (no borrow) and
/// to 0 if not. Register x, where it is not the flag register itself, gets
/// the difference modulo 256.
pub proof fn subtract_registers_borrows(m: Machine, rnd: u8)
    requires
        m.wf(),
        m.pc + 1 < 4096,
        op_class(m.opcode()) == 8,
        op_n(m.opcode()) == 5,
    ensures
        m.step(rnd) is Ok,
        m.next(rnd).v[15] == flag(m.v[op_x(m.opcode())] >= m.v[op_y(m.opcode())]),
        op_x(m.opcode()) != 15 ==> m.next(rnd).v[op_x(m.opcode())] == (m.v[op_x(m.opcode())] - m.v[op_y(
            m.opcode(),
        )]) % 256,
{
}

/// XORing a sprite into the surface twice at the same place gives back the
/// surface as it was, and the second drawing collides exactly where the
/// sprite has a set bit on a cell that was dark at first.
pub proof fn draw_twice_restores(pixels: Seq<bool>, mem: Seq<u8>, start: int, rows: int, vx: int, vy: int)
    requires
        pixels.len() == 2048,
    ensures
        blit(blit(pixels, mem, start, rows, vx, vy), mem, start, rows, vx, vy) == pixels,
        collides(blit(pixels, mem, start, rows, vx, vy), mem, start, rows, vx, vy) == (exists|p: int|
            0 <= p < 2048 && !pixels[p] && #[trigger] sprite_hits(mem, start, rows, vx, vy, p)),
{
    let once = blit(pixels, mem, start, rows, vx, vy);
    assert(blit(once, mem, start, rows, vx, vy) =~= pixels);
    if collides(once, mem, start, rows, vx, vy) {
        let p = choose|p: int| 0 <= p < 2048 && once[p] && #[trigger] sprite_hits(mem, start, rows, vx, vy, p);
        assert(!pixels[p]);
    }
    if exists|p: int| 0 <= p < 2048 && !pixels[p] && #[trigger] sprite_hits(mem, start, rows, vx, vy, p) {
        let p = choose|p: int| 0 <= p < 2048 && !pixels[p] && #[trigger] sprite_hits(mem, start, rows, vx, vy, p);
        assert(once[p]);
    }
}

/// Two Dxyn instructions in a row with the same operands, neither of which
/// is the flag register, leave the display as it was before the first, and
/// the flag register then tells whether the sprite has a set bit on a cell
/// that was dark before the first.
pub proof fn draw_instruction_twice_restores(m: Machine, r1: u8, r2: u8)
    requires
        m.wf(),
        m.pc + 3 < 4096,
        op_class(m.opcode()) == 13,
        word_at(m.mem, m.pc + 2) == m.opcode(),
        op_x(m.opcode()) != 15,
        op_y(m.opcode()) != 15,
        m.i + op_n(m.opcode()) <= 4096,
    ensures
        m.step(r1) is Ok,
        m.next(r1).step(r2) is Ok,
        m.next(r1).next(r2).pixels == m.pixels,
        m.next(r1).next(r2).v[15] == flag(
            exists|p: int|
                0 <= p < 2048 && !m.pixels[p] && #[trigger] sprite_hits(
                    m.mem,
                    m.i as int,
                    op_n(m.opcode()),
                    m.v[op_x(m.opcode())] as int,
                    m.v[op_y(m.opcode())] as int,
                    p,
                ),
        ),
{
    let op = m.opcode();
    draw_twice_restores(
        m.pixels,
        m.mem,
        m.i as int,
        op_n(op),
        m.v[op_x(op)] as int,
        m.v[op_y(op)] as int,
    );
    let m1 = m.next(r1);
    assert(m1.opcode() == op);
    assert(m1.v[op_x(op)] == m.v[op_x(op)]);
    assert(m1.v[op_y(op)] == m.v[op_y(op)]);
}

/// A call (2nnn) with fewer than sixteen addresses on the stack succeeds
/// and adds one. If the instruction it jumps to is a return (00EE), that
/// return continues at the instruction after the call, with the stack as it
/// was before the call.
pub proof fn call_then_return(m: Machine, r1: u8, r2: u8)
    requires
        m.wf(),
        m.pc + 1 < 4096,
        op_class(m.opcode()) == 2,
        m.stack.len() < 16,
    ensures
        m.step(r1) is Ok,
        m.next(r1).wf(),
        m.next(r1).pc == op_nnn(m.opcode()),
        m.next(r1).stack.len() == m.stack.len() + 1,
        (m.next(r1).pc + 1 < 4096 && m.next(r1).opcode() == 0x00EE) ==> {
            &&& m.next(r1).step(r2) is Ok
            &&& m.next(r1).next(r2).pc == m.pc + 2
            &&& m.next(r1).next(r2).stack == m.stack
        },
{
    let m1 = m.next(r1);
    assert(m1.stack == m.stack.push(m.pc));
    assert(m1.stack.drop_last() =~= m.stack);
}

/// A call with sixteen addresses on the stack faults with a stack overflow.
pub proof fn call_at_full_stack_overflows(m: Machine, rnd: u8)
    requires
        m.wf(),
        m.pc + 1 < 4096,
        op_class(m.opcode()) == 2,
        m.stack.len() == 16,
    ensures
        m.step(rnd) == Err::<(Machine, Outcome), Fault>(Fault::StackOverflow),
{
}

/// A return with an empty stack faults with a stack underflow.
pub proof fn return_at_empty_stack_underflows(m: Machine, rnd: u8)
    requires
        m.wf(),
        m.pc + 1 < 4096,
        m.opcode() == 0x00EE,
        m.stack.len() == 0,
    ensures
        m.step(rnd) == Err::<(Machine, Outcome), Fault>(Fault::StackUnderflow),
{
}

/// Storing registers 0 to x (Fx55) and, as the next instruction, loading
/// registers 0 to x (Fx65) with the same x leaves every register as it was.
pub proof fn store_then_load(m: Machine, r1: u8, r2: u8)
    requires
        m.wf(),
        m.pc + 3 < 4096,
        op_class(m.opcode()) == 15,
        op_kk(m.opcode()) == 0x55,
        m.i + op_x(m.opcode()) < 4096,
        op_class(m.next(r1).opcode()) == 15,
        op_kk(m.next(r1).opcode()) == 0x65,
        op_x(m.next(r1).opcode()) == op_x(m.opcode()),
    ensures
        m.step(r1) is Ok,
        m.next(r1).step(r2) is Ok,
        m.next(r1).next(r2).v == m.v,
        m.next(r1).next(r2).i == m.i,
{
    let m1 = m.next(r1);
    assert(m1.next(r2).v =~= m.v);
}

/// An instruction faults as undefined, with its word and its address,
/// exactly when its word encodes no instruction.
pub proof fn undefined_words_fault(m: Machine, rnd: u8)
    requires
        m.wf(),
        m.pc + 1 < 4096,
    ensures
        !defined(m.opcode()) <==> m.step(rnd) == Err::<(Machine, Outcome), Fault>(
            Fault::InvalidOpcode { opcode: m.opcode(), pc: m.pc },
        ),
{
}

/// Whatever register an operation of the 8xyN group writes its result to,
/// the flag register holds the operation's flag afterwards: the flag is
/// the last write.
pub proof fn flag_is_written_last(m: Machine, rnd: u8)
    requires
        m.wf(),
        m.pc + 1 < 4096,
        op_class(m.opcode()) == 8,
        alu_flag(op_n(m.opcode()), m.v[op_x(m.opcode())], m.v[op_y(m.opcode())]) is Some,
    ensures
        m.step(rnd) is Ok,
        m.next(rnd).v[15] == flag(
            alu_flag(op_n(m.opcode()), m.v[op_x(m.opcode())], m.v[op_y(m.opcode())])->Some_0,
        ),
{
}

/// An instruction that succeeds moves the program counter by its outcome:
/// by 2, by 4 for a skip, to the target of a jump, not at all while it
/// waits for a key.
pub proof fn program_counter_follows_outcome(m: Machine, rnd: u8)
    requires
        m.step(rnd) is Ok,
    ensures
        m.next(rnd).pc == advance(m.pc, m.step(rnd)->Ok_0.1),
        m.step(rnd)->Ok_0.1 == Outcome::Next ==> m.next(rnd).pc == m.pc + 2,
        m.step(rnd)->Ok_0.1 == Outcome::Skip ==> m.next(rnd).pc == m.pc + 4,
        m.step(rnd)->Ok_0.1 == Outcome::Wait ==> m.next(rnd) == m,
{
}

/// The key that a wait for a key (Fx0A) stores is the lowest one that is
/// down: it is down, and no key below it is. The result is 16 exactly when
/// no key is down.
pub proof fn lowest_pressed_is_least(keys: Seq<bool>, from: int)
    requires
        0 <= from <= 16,
    ensures
        from <= lowest_pressed(keys, from) <= 16,
        lowest_pressed(keys, from) < 16 ==> keys[lowest_pressed(keys, from)],
        forall|j: int| from <= j < lowest_pressed(keys, from) ==> !keys[j],
    decreases 16 - from,
{
    if from < 16 && !keys[from] {
        lowest_pressed_is_least(keys, from + 1);
    }
}

/// The random byte matters to Cxkk alone: every other instruction does the
/// same whatever the byte.
pub proof fn only_random_instruction_reads_the_byte(m: Machine, r1: u8, r2: u8)
    requires
        !m.draws_random(),
    ensures
        m.step(r1) == m.step(r2),
{
}

/// A timer tick lowers each timer by one, leaves a timer that is at zero
/// at zero, and changes nothing else.
pub proof fn timers_stop_at_zero(m: Machine)
    ensures
        m.tick_timers().dt == if m.dt == 0 { 0 } else { m.dt - 1 },
        m.tick_timers().st == if m.st == 0 { 0 } else { m.st - 1 },
        m.tick_timers() == (Machine { dt: m.tick_timers().dt, st: m.tick_timers().st, ..m }),
{
}

/// After `n` ticks a timer has gone down by `n`, or to zero if it held
/// less, and nothing else has changed.
pub proof fn timers_count_down(m: Machine, n: nat)
    ensures
        m.after_ticks(n).dt == if m.dt >= n { m.dt - n } else { 0 },
        m.after_ticks(n).st == if m.st >= n { m.st - n } else { 0 },
        m.after_ticks(n) == (Machine { dt: m.after_ticks(n).dt, st: m.after_ticks(n).st, ..m }),
    decreases n,
{
    if n > 0 {
        timers_count_down(m, (n - 1) as nat);
    }
}

/// A run of `k` instructions followed by one more instruction is a run of
/// `k + 1` instructions if that one succeeds; if it faults, the state is
/// still the one that the run reached.
pub proof fn run_goes_on(
    start: Machine,
    mid: Machine,
    rnd: u8,
    after: Machine,
    res: Result<Outcome, Fault>,
    k: nat,
)
    requires
        start.runs(mid, k),
        mid.steps_to(rnd, after, res),
    ensures
        res is Ok ==> start.runs(after, k + 1),
        res is Err ==> after == mid && mid.faults_with(res->Err_0),
{
    if res is Ok {
        assert(ends_in(mid.step(rnd), after));
    }
}

/// A step from a well-formed state ends in a well-formed state.
pub proof fn step_keeps_wf(m: Machine, rnd: u8)
    requires
        m.wf(),
    ensures
        m.next(rnd).wf(),
{
    if m.pc + 1 < 4096 {
        let op = m.opcode();
        if op == 0x00EE && m.stack.len() > 0 {
            assert(m.stack.last() == m.stack[m.stack.len() - 1]);
        }
    }
}

} // verus!
