use vstd::prelude::*;
use crate::model::{ExecutionContext, Locator};
use crate::arith::{op_mul, op_imm_word, op_reg_word, exec_op_mul, exec_op_imm_word, exec_op_reg_word};
use crate::load::{window, partial_load};
use crate::dispatch::{Answer, Fetched, Reply, resolve, resolve_load, is_load, SYS_EXIT, SYS_DEBUG, SYS_RETURN};
use crate::decode::{pow2, opcode, rd, funct3, funct7, rs1, rs2, sext, imm_i, imm_s, imm_b, imm_u, imm_j, sign_extend, decode_imm_i, decode_imm_s, decode_imm_b, decode_imm_u, decode_imm_j};
use crate::memory::{MEMORY_SIZE, le_value, store_le, write_bytes, read_le, write_le, copy_in, copy_out};

verus! {

/// The state of one emulated RV64I machine.
pub struct Machine {
    pub regs: Vec<u64>,
    pub pc: u64,
    pub memory: Vec<u8>,
    /// The return value the program declared, if any.
    pub output: Option<Vec<u8>>,
}

/// The mathematical state of a machine.
pub struct MachineView {
    pub regs: Seq<u64>,
    pub pc: u64,
    pub mem: Seq<u8>,
    pub output: Option<Seq<u8>>,
}

impl View for Machine {
    type V = MachineView;

    open spec fn view(&self) -> MachineView {
        MachineView {
            regs: self.regs@,
            pc: self.pc,
            mem: self.memory@,
            output: match self.output {
                Some(o) => Some(o@),
                None => None,
            },
        }
    }
}

/// Thirty-two registers, the first always zero, and a memory of
/// `MEMORY_SIZE` bytes.
pub open spec fn wf_state(s: MachineView) -> bool {
    s.regs.len() == 32 && s.regs[0] == 0 && s.mem.len() == MEMORY_SIZE
}

impl Machine {
    pub open spec fn wf(&self) -> bool {
        wf_state(self@)
    }
}

pub open spec fn wadd(a: u64, b: u64) -> u64 {
    if a + b > u64::MAX {
        (a + b - 0x1_0000_0000_0000_0000) as u64
    } else {
        (a + b) as u64
    }
}

pub open spec fn wsub(a: u64, b: u64) -> u64 {
    if a - b < 0 {
        (a - b + 0x1_0000_0000_0000_0000) as u64
    } else {
        (a - b) as u64
    }
}

pub open spec fn slt(a: u64, b: u64) -> u64 {
    if (a as i64) < (b as i64) { 1 } else { 0 }
}

pub open spec fn sltu(a: u64, b: u64) -> u64 {
    if a < b { 1 } else { 0 }
}

pub open spec fn sra(a: u64, sh: u64) -> u64 {
    ((a as i64) >> sh) as u64
}

/// The result of an immediate arithmetic instruction, `None` if the
/// encoding is not one.
pub open spec fn op_imm(f3: u32, raw: u32, a: u64) -> Option<u64> {
    let imm = sext(raw as nat, 12);
    let sh = (raw % 64) as u64;
    if f3 == 0 {
        Some(wadd(a, imm))
    } else if f3 == 2 {
        Some(slt(a, imm))
    } else if f3 == 3 {
        Some(sltu(a, imm))
    } else if f3 == 4 {
        Some(a ^ imm)
    } else if f3 == 6 {
        Some(a | imm)
    } else if f3 == 7 {
        Some(a & imm)
    } else if f3 == 1 && raw / 64 == 0 {
        Some(a << sh)
    } else if f3 == 5 && raw / 64 == 0 {
        Some(a >> sh)
    } else if f3 == 5 && raw / 64 == 16 {
        Some(sra(a, sh))
    } else {
        None
    }
}

/// The result of a register-register instruction, `None` if the encoding
/// is not one.
pub open spec fn op_reg(f3: u32, f7: u32, a: u64, b: u64) -> Option<u64> {
    let sh = b % 64;
    if f7 == 0 {
        if f3 == 0 {
            Some(wadd(a, b))
        } else if f3 == 1 {
            Some(a << sh)
        } else if f3 == 2 {
            Some(slt(a, b))
        } else if f3 == 3 {
            Some(sltu(a, b))
        } else if f3 == 4 {
            Some(a ^ b)
        } else if f3 == 5 {
            Some(a >> sh)
        } else if f3 == 6 {
            Some(a | b)
        } else {
            Some(a & b)
        }
    } else if f7 == 32 && f3 == 0 {
        Some(wsub(a, b))
    } else if f7 == 32 && f3 == 5 {
        Some(sra(a, sh))
    } else {
        None
    }
}

/// Whether a conditional branch is taken, `None` if the encoding is not
/// a branch.
pub open spec fn branch_taken(f3: u32, a: u64, b: u64) -> Option<bool> {
    if f3 == 0 {
        Some(a == b)
    } else if f3 == 1 {
        Some(a != b)
    } else if f3 == 4 {
        Some((a as i64) < (b as i64))
    } else if f3 == 5 {
        Some((a as i64) >= (b as i64))
    } else if f3 == 6 {
        Some(a < b)
    } else if f3 == 7 {
        Some(a >= b)
    } else {
        None
    }
}

/// Width in bytes of a load, 0 if the encoding is not a load.
pub open spec fn load_width(f3: u32) -> nat {
    if f3 == 0 || f3 == 4 { 1 } else if f3 == 1 || f3 == 5 { 2 } else if f3 == 2 || f3 == 6 { 4 } else if f3 == 3 { 8 } else { 0 }
}

/// The loaded value: sign-extended for the signed loads under a
/// doubleword.
pub open spec fn load_value(f3: u32, v: nat) -> u64 {
    if f3 == 0 {
        sext(v, 8)
    } else if f3 == 1 {
        sext(v, 16)
    } else if f3 == 2 {
        sext(v, 32)
    } else {
        v as u64
    }
}

pub open spec fn with_reg(s: MachineView, r: u32, v: u64) -> MachineView {
    if r == 0 {
        s
    } else {
        MachineView { regs: s.regs.update(r as int, v), ..s }
    }
}

pub open spec fn with_pc(s: MachineView, pc: u64) -> MachineView {
    MachineView { pc, ..s }
}

pub open spec fn next_pc(s: MachineView) -> u64 {
    (s.pc + 4) as u64
}

/// What one step does, ignoring system calls.
pub enum Effect {
    /// Continue in this state.
    Next(MachineView),
    /// The instruction is a system call.
    Syscall,
    /// Illegal instruction or memory violation.
    Trap,
}

/// The instruction word at the program counter, if the counter is aligned
/// and in memory.
pub open spec fn fetch_ok(s: MachineView) -> bool {
    s.pc % 4 == 0 && s.pc + 4 <= MEMORY_SIZE
}

pub open spec fn word_at(s: MachineView) -> u32 {
    le_value(s.mem.subrange(s.pc as int, s.pc + 4)) as u32
}

/// The value a register-register or word instruction computes.
pub open spec fn register_result(w: u32, a: u64, b: u64) -> Option<u64> {
    let op = opcode(w);
    if op == 0x33 && funct7(w) == 1 {
        Some(op_mul(funct3(w), a, b))
    } else if op == 0x33 {
        op_reg(funct3(w), funct7(w), a, b)
    } else if op == 0x1b {
        op_imm_word(funct3(w), w / 1048576, a)
    } else {
        op_reg_word(funct3(w), funct7(w), a, b)
    }
}

/// The effect of a load instruction.
pub open spec fn load_effect(s: MachineView, w: u32) -> Effect {
    let n = load_width(funct3(w));
    let addr = wadd(s.regs[rs1(w) as int], imm_i(w));
    if n == 0 || addr + n > MEMORY_SIZE {
        Effect::Trap
    } else {
        let v = le_value(s.mem.subrange(addr as int, addr + n));
        Effect::Next(with_pc(with_reg(s, rd(w), load_value(funct3(w), v)), next_pc(s)))
    }
}

/// The effect of a store instruction.
pub open spec fn store_effect(s: MachineView, w: u32) -> Effect {
    let f3 = funct3(w);
    let n: nat = if f3 == 0 { 1 } else if f3 == 1 { 2 } else if f3 == 2 { 4 } else if f3 == 3 { 8 } else { 0 };
    let addr = wadd(s.regs[rs1(w) as int], imm_s(w));
    if n == 0 || addr + n > MEMORY_SIZE {
        Effect::Trap
    } else {
        let mem = store_le(s.mem, addr as int, s.regs[rs2(w) as int] as nat, n as int);
        Effect::Next(with_pc(MachineView { mem, ..s }, next_pc(s)))
    }
}

/// The effect of executing instruction word `w` in state `s`.
pub open spec fn execute(s: MachineView, w: u32) -> Effect {
    let op = opcode(w);
    let a = s.regs[rs1(w) as int];
    let b = s.regs[rs2(w) as int];
    let after = next_pc(s);
    if op == 0x37 {
        Effect::Next(with_pc(with_reg(s, rd(w), imm_u(w)), after))
    } else if op == 0x17 {
        Effect::Next(with_pc(with_reg(s, rd(w), wadd(s.pc, imm_u(w))), after))
    } else if op == 0x6f {
        Effect::Next(with_pc(with_reg(s, rd(w), after), wadd(s.pc, imm_j(w))))
    } else if op == 0x67 && funct3(w) == 0 {
        let t = wadd(a, imm_i(w));
        Effect::Next(with_pc(with_reg(s, rd(w), after), (t - t % 2) as u64))
    } else if op == 0x63 {
        match branch_taken(funct3(w), a, b) {
            Some(true) => Effect::Next(with_pc(s, wadd(s.pc, imm_b(w)))),
            Some(false) => Effect::Next(with_pc(s, after)),
            None => Effect::Trap,
        }
    } else if op == 0x03 {
        load_effect(s, w)
    } else if op == 0x23 {
        store_effect(s, w)
    } else if op == 0x13 {
        match op_imm(funct3(w), w / 1048576, a) {
            Some(v) => Effect::Next(with_pc(with_reg(s, rd(w), v), after)),
            None => Effect::Trap,
        }
    } else if op == 0x33 || op == 0x1b || op == 0x3b {
        match register_result(w, a, b) {
            Some(v) => Effect::Next(with_pc(with_reg(s, rd(w), v), after)),
            None => Effect::Trap,
        }
    } else if w == 0x73 {
        Effect::Syscall
    } else {
        Effect::Trap
    }
}

fn exec_op_imm(f3: u32, raw: u32, a: u64) -> (r: Option<u64>)
    requires
        raw < 4096,
    ensures
        r == op_imm(f3, raw, a),
{
    let imm = sign_extend(raw as u64, 2048);
    proof {
        reveal_with_fuel(pow2, 13);
    }
    let sh: u64 = (raw % 64) as u64;
    if f3 == 0 {
        Some(a.wrapping_add(imm))
    } else if f3 == 2 {
        Some(if (a as i64) < (imm as i64) { 1 } else { 0 })
    } else if f3 == 3 {
        Some(if a < imm { 1 } else { 0 })
    } else if f3 == 4 {
        Some(a ^ imm)
    } else if f3 == 6 {
        Some(a | imm)
    } else if f3 == 7 {
        Some(a & imm)
    } else if f3 == 1 && raw / 64 == 0 {
        Some(a << sh)
    } else if f3 == 5 && raw / 64 == 0 {
        Some(a >> sh)
    } else if f3 == 5 && raw / 64 == 16 {
        Some(((a as i64) >> sh) as u64)
    } else {
        None
    }
}

fn exec_op_reg(f3: u32, f7: u32, a: u64, b: u64) -> (r: Option<u64>)
    requires
        f3 < 8,
    ensures
        r == op_reg(f3, f7, a, b),
{
    let sh: u64 = b % 64;
    if f7 == 0 {
        if f3 == 0 {
            Some(a.wrapping_add(b))
        } else if f3 == 1 {
            Some(a << sh)
        } else if f3 == 2 {
            Some(if (a as i64) < (b as i64) { 1 } else { 0 })
        } else if f3 == 3 {
            Some(if a < b { 1 } else { 0 })
        } else if f3 == 4 {
            Some(a ^ b)
        } else if f3 == 5 {
            Some(a >> sh)
        } else if f3 == 6 {
            Some(a | b)
        } else {
            Some(a & b)
        }
    } else if f7 == 32 && f3 == 0 {
        Some(a.wrapping_sub(b))
    } else if f7 == 32 && f3 == 5 {
        Some(((a as i64) >> sh) as u64)
    } else {
        None
    }
}

fn exec_branch(f3: u32, a: u64, b: u64) -> (r: Option<bool>)
    ensures
        r == branch_taken(f3, a, b),
{
    if f3 == 0 {
        Some(a == b)
    } else if f3 == 1 {
        Some(a != b)
    } else if f3 == 4 {
        Some((a as i64) < (b as i64))
    } else if f3 == 5 {
        Some((a as i64) >= (b as i64))
    } else if f3 == 6 {
        Some(a < b)
    } else if f3 == 7 {
        Some(a >= b)
    } else {
        None
    }
}

fn exec_register(w: u32, a: u64, b: u64) -> (r: Option<u64>)
    requires
        opcode(w) == 0x33 || opcode(w) == 0x1b || opcode(w) == 0x3b,
    ensures
        r == register_result(w, a, b),
{
    let op = w % 128;
    let f3 = (w / 4096) % 8;
    let f7 = w / 33554432;
    if op == 0x33 && f7 == 1 {
        Some(exec_op_mul(f3, a, b))
    } else if op == 0x33 {
        exec_op_reg(f3, f7, a, b)
    } else if op == 0x1b {
        exec_op_imm_word(f3, w / 1048576, a)
    } else {
        exec_op_reg_word(f3, f7, a, b)
    }
}

/// What executing one instruction did.
pub enum Executed {
    Next,
    Syscall,
    Trap,
}

pub open spec fn executed_as(r: Executed, e: Effect, before: MachineView, after: MachineView) -> bool {
    match e {
        Effect::Next(s) => r is Next && after == s,
        Effect::Syscall => r is Syscall && after == before,
        Effect::Trap => r is Trap && after == before,
    }
}

impl Machine {
    /// Writes register `r`; writes to the zero register are dropped.
    pub fn set_reg(&mut self, r: u32, v: u64)
        requires
            old(self).wf(),
            r < 32,
        ensures
            final(self)@ == with_reg(old(self)@, r, v),
            final(self).wf(),
    {
        if r != 0 {
            self.regs.set(r as usize, v);
        }
        proof {
            if r != 0 {
                assert(self@.regs =~= old(self)@.regs.update(r as int, v));
            }
        }
    }

    fn exec_load(&mut self, w: u32) -> (r: Executed)
        requires
            old(self).wf(),
            old(self).pc + 4 <= MEMORY_SIZE,
        ensures
            executed_as(r, load_effect(old(self)@, w), old(self)@, final(self)@),
            final(self).wf(),
    {
        let f3 = (w / 4096) % 8;
        let a = self.regs[((w / 32768) % 32) as usize];
        let n: u64 = if f3 == 0 || f3 == 4 { 1 } else if f3 == 1 || f3 == 5 { 2 } else if f3 == 2 || f3 == 6 { 4 } else if f3 == 3 { 8 } else { 0 };
        let addr = a.wrapping_add(decode_imm_i(w));
        if n == 0 || addr > MEMORY_SIZE as u64 - n {
            return Executed::Trap;
        }
        let v = read_le(&self.memory, addr as usize, n as usize);
        proof {
            crate::memory::lemma_le_value_bound(self.memory@.subrange(addr as int, addr + n));
            reveal_with_fuel(crate::model::pow256, 9);
            reveal_with_fuel(pow2, 33);
        }
        let x = if f3 == 0 {
            sign_extend(v, 128)
        } else if f3 == 1 {
            sign_extend(v, 32768)
        } else if f3 == 2 {
            sign_extend(v, 2147483648)
        } else {
            v
        };
        self.set_reg((w / 128) % 32, x);
        self.pc = self.pc + 4;
        Executed::Next
    }

    fn exec_store(&mut self, w: u32) -> (r: Executed)
        requires
            old(self).wf(),
            old(self).pc + 4 <= MEMORY_SIZE,
        ensures
            executed_as(r, store_effect(old(self)@, w), old(self)@, final(self)@),
            final(self).wf(),
    {
        let f3 = (w / 4096) % 8;
        let a = self.regs[((w / 32768) % 32) as usize];
        let b = self.regs[((w / 1048576) % 32) as usize];
        let n: u64 = if f3 == 0 { 1 } else if f3 == 1 { 2 } else if f3 == 2 { 4 } else if f3 == 3 { 8 } else { 0 };
        let addr = a.wrapping_add(decode_imm_s(w));
        if n == 0 || addr > MEMORY_SIZE as u64 - n {
            return Executed::Trap;
        }
        write_le(&mut self.memory, addr as usize, b, n as usize);
        self.pc = self.pc + 4;
        Executed::Next
    }

    /// Executes instruction word `w` (its system calls excepted).
    pub fn execute_word(&mut self, w: u32) -> (r: Executed)
        requires
            old(self).wf(),
            old(self).pc + 4 <= MEMORY_SIZE,
        ensures
            executed_as(r, execute(old(self)@, w), old(self)@, final(self)@),
            final(self).wf(),
    {
        let op = w % 128;
        let rdi = (w / 128) % 32;
        let f3 = (w / 4096) % 8;
        let a = self.regs[((w / 32768) % 32) as usize];
        let b = self.regs[((w / 1048576) % 32) as usize];
        let after = self.pc + 4;
        if op == 0x37 {
            let v = decode_imm_u(w);
            self.set_reg(rdi, v);
            self.pc = after;
            Executed::Next
        } else if op == 0x17 {
            let v = self.pc.wrapping_add(decode_imm_u(w));
            self.set_reg(rdi, v);
            self.pc = after;
            Executed::Next
        } else if op == 0x6f {
            let target = self.pc.wrapping_add(decode_imm_j(w));
            self.set_reg(rdi, after);
            self.pc = target;
            Executed::Next
        } else if op == 0x67 && f3 == 0 {
            let t = a.wrapping_add(decode_imm_i(w));
            self.set_reg(rdi, after);
            self.pc = t - t % 2;
            Executed::Next
        } else if op == 0x63 {
            match exec_branch(f3, a, b) {
                Some(true) => {
                    self.pc = self.pc.wrapping_add(decode_imm_b(w));
                    Executed::Next
                },
                Some(false) => {
                    self.pc = after;
                    Executed::Next
                },
                None => Executed::Trap,
            }
        } else if op == 0x03 {
            self.exec_load(w)
        } else if op == 0x23 {
            self.exec_store(w)
        } else if op == 0x13 {
            match exec_op_imm(f3, w / 1048576, a) {
                Some(v) => {
                    self.set_reg(rdi, v);
                    self.pc = after;
                    Executed::Next
                },
                None => Executed::Trap,
            }
        } else if op == 0x33 || op == 0x1b || op == 0x3b {
            match exec_register(w, a, b) {
                Some(v) => {
                    self.set_reg(rdi, v);
                    self.pc = after;
                    Executed::Next
                },
                None => Executed::Trap,
            }
        } else if w == 0x73 {
            Executed::Syscall
        } else {
            Executed::Trap
        }
    }
}

/// How a step ended, for contracts.
pub enum StepEnd {
    Continue,
    Exit(u64),
    Fault,
    /// The step needs the cell at this locator (hash, index) from the remote
    /// node; the state is unchanged and the step is retried once it is known.
    Fetch(Seq<u8>, u32),
}

/// How a step ended.
#[derive(Debug)]
pub enum Stop {
    Continue,
    Exit(u64),
    Fault,
    Fetch(Locator),
}

impl Stop {
    pub open spec fn end(&self) -> StepEnd {
        match self {
            Stop::Continue => StepEnd::Continue,
            Stop::Exit(c) => StepEnd::Exit(*c),
            Stop::Fault => StepEnd::Fault,
            Stop::Fetch(l) => StepEnd::Fetch(l.tx_hash@, l.index),
        }
    }
}

/// Reply to a load: the requested window of `data` goes to the buffer at
/// `a0`, the field's full length to the eight bytes at `a1`, and `a0`
/// becomes zero.
pub open spec fn answer_load(s: MachineView, data: Seq<u8>) -> (StepEnd, MachineView) {
    let buf = s.regs[10];
    let lenp = s.regs[11];
    let offset = s.regs[12];
    if lenp + 8 > MEMORY_SIZE {
        (StepEnd::Fault, s)
    } else {
        let requested = le_value(s.mem.subrange(lenp as int, lenp + 8));
        let part = window(data, offset as int, requested as int);
        if buf + part.len() > MEMORY_SIZE {
            (StepEnd::Fault, s)
        } else {
            let mem = store_le(write_bytes(s.mem, buf as int, part), lenp as int, data.len(), 8);
            (StepEnd::Continue, with_pc(with_reg(MachineView { mem, ..s }, 10, 0), next_pc(s)))
        }
    }
}

/// The effect of the system call whose number is in `a7`.
pub open spec fn syscall(s: MachineView, ctx: ExecutionContext, known: Seq<Fetched>) -> (StepEnd, MachineView) {
    let num = s.regs[17];
    if num == SYS_EXIT {
        (StepEnd::Exit(s.regs[10]), s)
    } else if num == SYS_DEBUG {
        (StepEnd::Continue, with_pc(with_reg(s, 10, 0), next_pc(s)))
    } else if num == SYS_RETURN {
        let addr = s.regs[10];
        let len = s.regs[11];
        if addr + len > MEMORY_SIZE {
            (StepEnd::Fault, s)
        } else {
            let out = s.mem.subrange(addr as int, addr + len);
            (StepEnd::Continue, with_pc(with_reg(MachineView { output: Some(out), ..s }, 10, 0), next_pc(s)))
        }
    } else if is_load(num) {
        match resolve(ctx, known, num, s.regs[13], s.regs[14], s.regs[15]) {
            Reply::Data(d) => answer_load(s, d),
            Reply::Missing(code) => (StepEnd::Continue, with_pc(with_reg(s, 10, code), next_pc(s))),
            Reply::Fetch(h, i) => (StepEnd::Fetch(h, i), s),
            Reply::Invalid => (StepEnd::Fault, s),
        }
    } else {
        (StepEnd::Fault, s)
    }
}

/// One step of the machine.
pub open spec fn step(s: MachineView, ctx: ExecutionContext, known: Seq<Fetched>) -> (StepEnd, MachineView) {
    if !fetch_ok(s) {
        (StepEnd::Fault, s)
    } else {
        match execute(s, word_at(s)) {
            Effect::Next(t) => (StepEnd::Continue, t),
            Effect::Trap => (StepEnd::Fault, s),
            Effect::Syscall => syscall(s, ctx, known),
        }
    }
}

impl Machine {
    fn answer_load_exec(&mut self, data: &Vec<u8>) -> (r: Stop)
        requires
            old(self).wf(),
            old(self).pc + 4 <= MEMORY_SIZE,
        ensures
            (r.end(), final(self)@) == answer_load(old(self)@, data@),
            final(self).wf(),
    {
        let buf = self.regs[10];
        let lenp = self.regs[11];
        let offset = self.regs[12];
        if lenp > (MEMORY_SIZE - 8) as u64 {
            return Stop::Fault;
        }
        let requested = read_le(&self.memory, lenp as usize, 8);
        let size: usize = data.len();
        let (part, total) = partial_load(data, offset, requested);
        if buf > MEMORY_SIZE as u64 || part.len() as u64 > MEMORY_SIZE as u64 - buf {
            return Stop::Fault;
        }
        copy_in(&mut self.memory, buf as usize, &part);
        write_le(&mut self.memory, lenp as usize, total, 8);
        self.set_reg(10, 0);
        self.pc = self.pc + 4;
        Stop::Continue
    }

    fn syscall_exec(&mut self, ctx: &ExecutionContext, known: &Vec<Fetched>) -> (r: Stop)
        requires
            old(self).wf(),
            old(self).pc + 4 <= MEMORY_SIZE,
        ensures
            (r.end(), final(self)@) == syscall(old(self)@, *ctx, known@),
            final(self).wf(),
    {
        let num = self.regs[17];
        if num == SYS_EXIT {
            Stop::Exit(self.regs[10])
        } else if num == SYS_DEBUG {
            self.set_reg(10, 0);
            self.pc = self.pc + 4;
            Stop::Continue
        } else if num == SYS_RETURN {
            let addr = self.regs[10];
            let len = self.regs[11];
            if addr > MEMORY_SIZE as u64 || len > MEMORY_SIZE as u64 - addr {
                Stop::Fault
            } else {
                let out = copy_out(&self.memory, addr as usize, len as usize);
                self.output = Some(out);
                self.set_reg(10, 0);
                self.pc = self.pc + 4;
                Stop::Continue
            }
        } else if is_load_exec(num) {
            match resolve_load(ctx, known, num, self.regs[13], self.regs[14], self.regs[15]) {
                Answer::Data(d) => self.answer_load_exec(&d),
                Answer::Missing(code) => {
                    self.set_reg(10, code);
                    self.pc = self.pc + 4;
                    Stop::Continue
                },
                Answer::Fetch(l) => Stop::Fetch(l),
                Answer::Invalid => Stop::Fault,
            }
        } else {
            Stop::Fault
        }
    }

    /// Runs one instruction.
    pub fn step(&mut self, ctx: &ExecutionContext, known: &Vec<Fetched>) -> (r: Stop)
        requires
            old(self).wf(),
        ensures
            (r.end(), final(self)@) == step(old(self)@, *ctx, known@),
            final(self).wf(),
    {
        if self.pc % 4 != 0 || self.pc > (MEMORY_SIZE - 4) as u64 {
            return Stop::Fault;
        }
        let w = read_le(&self.memory, self.pc as usize, 4);
        proof {
            crate::memory::lemma_le_value_bound(self.memory@.subrange(self.pc as int, self.pc + 4));
            reveal_with_fuel(crate::model::pow256, 5);
        }
        match self.execute_word(w as u32) {
            Executed::Next => Stop::Continue,
            Executed::Trap => Stop::Fault,
            Executed::Syscall => self.syscall_exec(ctx, known),
        }
    }
}

fn is_load_exec(num: u64) -> (r: bool)
    ensures
        r == is_load(num),
{
    num == crate::dispatch::SYS_LOAD_ARGUMENT || num == crate::dispatch::SYS_LOAD_SCRIPT
        || num == crate::dispatch::SYS_LOAD_CELL || num == crate::dispatch::SYS_LOAD_CELL_BY_FIELD
        || num == crate::dispatch::SYS_LOAD_TRANSACTION || num == crate::dispatch::SYS_LOAD_WITNESS
}

} // verus!
