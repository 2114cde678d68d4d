//! Executable CB-prefixed instructions: rotates and shifts on bytes, and the
//! BIT/RES/SET single-bit operations, verified against the CB semantics.

use vstd::prelude::*;
use crate::arith::pow2_8;
use crate::cpu::alu::{bit_flags, bit_res, bit_set, rot_rl, rot_rlc, rot_rr, rot_rrc, rot_sla, rot_sra, rot_srl, rot_swap};
use crate::cpu::registers::{spec_hl, Registers};
use crate::cpu::semantics::{get_r8, set_r8, spec_cb_operand};
use crate::cpu::Cpu;
use crate::memory::{spec_bus_read, spec_bus_write, Memory};

verus! {

/// 2^i as a byte mask value, for a bit index below 8.
pub(crate) fn bit_mask_value(i: u8) -> (p: u8)
    requires
        i < 8,
    ensures
        p == pow2_8(i as int),
{
    if i == 0 {
        1
    } else if i == 1 {
        2
    } else if i == 2 {
        4
    } else if i == 3 {
        8
    } else if i == 4 {
        16
    } else if i == 5 {
        32
    } else if i == 6 {
        64
    } else {
        128
    }
}

impl Cpu {
    /// Rotate left with carry: computes the byte and sets the flags; the caller stores it.
    pub(crate) fn rlc(&mut self, value: u8) -> (result: u8)
        ensures
            result == rot_rlc(value).r,
            *final(self) == (Cpu {
                registers: Registers { f: rot_rlc(value).f, ..old(self).registers },
                ..*old(self)
            }),
    {
        let carry = value >= 128;
        let result: u8 = value % 128 * 2 + value / 128;
        self.registers.f.z = result == 0;
        self.registers.f.n = false;
        self.registers.f.h = false;
        self.registers.f.c = carry;
        result
    }

    /// Rotate right with carry: computes the byte and sets the flags; the caller stores it.
    pub(crate) fn rrc(&mut self, value: u8) -> (result: u8)
        ensures
            result == rot_rrc(value).r,
            *final(self) == (Cpu {
                registers: Registers { f: rot_rrc(value).f, ..old(self).registers },
                ..*old(self)
            }),
    {
        let carry = value % 2 == 1;
        let result: u8 = value % 2 * 128 + value / 2;
        self.registers.f.z = result == 0;
        self.registers.f.n = false;
        self.registers.f.h = false;
        self.registers.f.c = carry;
        result
    }

    /// Rotate left through the carry: computes the byte and sets the flags; the caller stores it.
    pub(crate) fn rl(&mut self, value: u8) -> (result: u8)
        ensures
            result == rot_rl(value, old(self).registers.f.c).r,
            *final(self) == (Cpu {
                registers: Registers { f: rot_rl(value, old(self).registers.f.c).f, ..old(self).registers },
                ..*old(self)
            }),
    {
        let old_carry: u8 = if self.registers.f.c {
            1
        } else {
            0
        };
        let carry = value >= 128;
        let result: u8 = value % 128 * 2 + old_carry;
        self.registers.f.z = result == 0;
        self.registers.f.n = false;
        self.registers.f.h = false;
        self.registers.f.c = carry;
        result
    }

    /// Rotate right through the carry: computes the byte and sets the flags; the caller stores it.
    pub(crate) fn rr(&mut self, value: u8) -> (result: u8)
        ensures
            result == rot_rr(value, old(self).registers.f.c).r,
            *final(self) == (Cpu {
                registers: Registers { f: rot_rr(value, old(self).registers.f.c).f, ..old(self).registers },
                ..*old(self)
            }),
    {
        let old_carry: u8 = if self.registers.f.c {
            128
        } else {
            0
        };
        let carry = value % 2 == 1;
        let result: u8 = old_carry + value / 2;
        self.registers.f.z = result == 0;
        self.registers.f.n = false;
        self.registers.f.h = false;
        self.registers.f.c = carry;
        result
    }

    /// Shift left arithmetic: computes the byte and sets the flags; the caller stores it.
    pub(crate) fn sla(&mut self, value: u8) -> (result: u8)
        ensures
            result == rot_sla(value).r,
            *final(self) == (Cpu {
                registers: Registers { f: rot_sla(value).f, ..old(self).registers },
                ..*old(self)
            }),
    {
        let carry = value >= 128;
        let result: u8 = value % 128 * 2;
        self.registers.f.z = result == 0;
        self.registers.f.n = false;
        self.registers.f.h = false;
        self.registers.f.c = carry;
        result
    }

    /// Shift right arithmetic: computes the byte and sets the flags; the caller stores it.
    pub(crate) fn sra(&mut self, value: u8) -> (result: u8)
        ensures
            result == rot_sra(value).r,
            *final(self) == (Cpu {
                registers: Registers { f: rot_sra(value).f, ..old(self).registers },
                ..*old(self)
            }),
    {
        let carry = value % 2 == 1;
        let result: u8 = value / 2 + value / 128 * 128;
        self.registers.f.z = result == 0;
        self.registers.f.n = false;
        self.registers.f.h = false;
        self.registers.f.c = carry;
        result
    }

    /// Swap the nibbles: computes the byte and sets the flags; the caller stores it.
    pub(crate) fn swap(&mut self, value: u8) -> (result: u8)
        ensures
            result == rot_swap(value).r,
            *final(self) == (Cpu {
                registers: Registers { f: rot_swap(value).f, ..old(self).registers },
                ..*old(self)
            }),
    {
        let carry = false;
        let result: u8 = value % 16 * 16 + value / 16;
        self.registers.f.z = result == 0;
        self.registers.f.n = false;
        self.registers.f.h = false;
        self.registers.f.c = carry;
        result
    }

    /// Shift right logical: computes the byte and sets the flags; the caller stores it.
    pub(crate) fn srl(&mut self, value: u8) -> (result: u8)
        ensures
            result == rot_srl(value).r,
            *final(self) == (Cpu {
                registers: Registers { f: rot_srl(value).f, ..old(self).registers },
                ..*old(self)
            }),
    {
        let carry = value % 2 == 1;
        let result: u8 = value / 2;
        self.registers.f.z = result == 0;
        self.registers.f.n = false;
        self.registers.f.h = false;
        self.registers.f.c = carry;
        result
    }

    /// RLC B.
    pub(crate) fn rlc_b(&mut self) -> (cycles: u8)
        ensures
            *final(self) == (Cpu {
                registers: Registers {
                    f: rot_rlc(old(self).registers.b).f,
                    ..set_r8(old(self).registers, 0, rot_rlc(old(self).registers.b).r)
                },
                ..*old(self)
            }),
            cycles == 8,
    {
        let value = self.registers.b;
        let result = self.rlc(value);
        self.registers.b = result;
        8
    }

    /// RLC C.
    pub(crate) fn rlc_c(&mut self) -> (cycles: u8)
        ensures
            *final(self) == (Cpu {
                registers: Registers {
                    f: rot_rlc(old(self).registers.c).f,
                    ..set_r8(old(self).registers, 1, rot_rlc(old(self).registers.c).r)
                },
                ..*old(self)
            }),
            cycles == 8,
    {
        let value = self.registers.c;
        let result = self.rlc(value);
        self.registers.c = result;
        8
    }

    /// RLC D.
    pub(crate) fn rlc_d(&mut self) -> (cycles: u8)
        ensures
            *final(self) == (Cpu {
                registers: Registers {
                    f: rot_rlc(old(self).registers.d).f,
                    ..set_r8(old(self).registers, 2, rot_rlc(old(self).registers.d).r)
                },
                ..*old(self)
            }),
            cycles == 8,
    {
        let value = self.registers.d;
        let result = self.rlc(value);
        self.registers.d = result;
        8
    }

    /// RLC E.
    pub(crate) fn rlc_e(&mut self) -> (cycles: u8)
        ensures
            *final(self) == (Cpu {
                registers: Registers {
                    f: rot_rlc(old(self).registers.e).f,
                    ..set_r8(old(self).registers, 3, rot_rlc(old(self).registers.e).r)
                },
                ..*old(self)
            }),
            cycles == 8,
    {
        let value = self.registers.e;
        let result = self.rlc(value);
        self.registers.e = result;
        8
    }

    /// RLC H.
    pub(crate) fn rlc_h(&mut self) -> (cycles: u8)
        ensures
            *final(self) == (Cpu {
                registers: Registers {
                    f: rot_rlc(old(self).registers.h).f,
                    ..set_r8(old(self).registers, 4, rot_rlc(old(self).registers.h).r)
                },
                ..*old(self)
            }),
            cycles == 8,
    {
        let value = self.registers.h;
        let result = self.rlc(value);
        self.registers.h = result;
        8
    }

    /// RLC L.
    pub(crate) fn rlc_l(&mut self) -> (cycles: u8)
        ensures
            *final(self) == (Cpu {
                registers: Registers {
                    f: rot_rlc(old(self).registers.l).f,
                    ..set_r8(old(self).registers, 5, rot_rlc(old(self).registers.l).r)
                },
                ..*old(self)
            }),
            cycles == 8,
    {
        let value = self.registers.l;
        let result = self.rlc(value);
        self.registers.l = result;
        8
    }

    /// RLC A.
    pub(crate) fn rlc_a(&mut self) -> (cycles: u8)
        ensures
            *final(self) == (Cpu {
                registers: Registers {
                    f: rot_rlc(old(self).registers.a).f,
                    ..set_r8(old(self).registers, 7, rot_rlc(old(self).registers.a).r)
                },
                ..*old(self)
            }),
            cycles == 8,
    {
        let value = self.registers.a;
        let result = self.rlc(value);
        self.registers.a = result;
        8
    }

    /// RLC (HL).
    pub(crate) fn rlc_hl(&mut self, memory: &mut Memory) -> (cycles: u8)
        requires
            old(memory).wf(),
        ensures
            final(memory).wf(),
            final(memory)@ == spec_bus_write(
                old(memory)@,
                spec_hl(old(self).registers),
                rot_rlc(spec_bus_read(old(memory)@, spec_hl(old(self).registers))).r,
            ),
            *final(self) == (Cpu {
                registers: Registers { f: rot_rlc(spec_bus_read(old(memory)@, spec_hl(old(self).registers))).f, ..old(self).registers },
                ..*old(self)
            }),
            cycles == 16,
    {
        let addr = self.registers.hl();
        let value = memory.read_byte(addr);
        let result = self.rlc(value);
        memory.write_byte(addr, result);
        16
    }

    /// RRC B.
    pub(crate) fn rrc_b(&mut self) -> (cycles: u8)
        ensures
            *final(self) == (Cpu {
                registers: Registers {
                    f: rot_rrc(old(self).registers.b).f,
                    ..set_r8(old(self).registers, 0, rot_rrc(old(self).registers.b).r)
                },
                ..*old(self)
            }),
            cycles == 8,
    {
        let value = self.registers.b;
        let result = self.rrc(value);
        self.registers.b = result;
        8
    }

    /// RRC C.
    pub(crate) fn rrc_c(&mut self) -> (cycles: u8)
        ensures
            *final(self) == (Cpu {
                registers: Registers {
                    f: rot_rrc(old(self).registers.c).f,
                    ..set_r8(old(self).registers, 1, rot_rrc(old(self).registers.c).r)
                },
                ..*old(self)
            }),
            cycles == 8,
    {
        let value = self.registers.c;
        let result = self.rrc(value);
        self.registers.c = result;
        8
    }

    /// RRC D.
    pub(crate) fn rrc_d(&mut self) -> (cycles: u8)
        ensures
            *final(self) == (Cpu {
                registers: Registers {
                    f: rot_rrc(old(self).registers.d).f,
                    ..set_r8(old(self).registers, 2, rot_rrc(old(self).registers.d).r)
                },
                ..*old(self)
            }),
            cycles == 8,
    {
        let value = self.registers.d;
        let result = self.rrc(value);
        self.registers.d = result;
        8
    }

    /// RRC E.
    pub(crate) fn rrc_e(&mut self) -> (cycles: u8)
        ensures
            *final(self) == (Cpu {
                registers: Registers {
                    f: rot_rrc(old(self).registers.e).f,
                    ..set_r8(old(self).registers, 3, rot_rrc(old(self).registers.e).r)
                },
                ..*old(self)
            }),
            cycles == 8,
    {
        let value = self.registers.e;
        let result = self.rrc(value);
        self.registers.e = result;
        8
    }

    /// RRC H.
    pub(crate) fn rrc_h(&mut self) -> (cycles: u8)
        ensures
            *final(self) == (Cpu {
                registers: Registers {
                    f: rot_rrc(old(self).registers.h).f,
                    ..set_r8(old(self).registers, 4, rot_rrc(old(self).registers.h).r)
                },
                ..*old(self)
            }),
            cycles == 8,
    {
        let value = self.registers.h;
        let result = self.rrc(value);
        self.registers.h = result;
        8
    }

    /// RRC L.
    pub(crate) fn rrc_l(&mut self) -> (cycles: u8)
        ensures
            *final(self) == (Cpu {
                registers: Registers {
                    f: rot_rrc(old(self).registers.l).f,
                    ..set_r8(old(self).registers, 5, rot_rrc(old(self).registers.l).r)
                },
                ..*old(self)
            }),
            cycles == 8,
    {
        let value = self.registers.l;
        let result = self.rrc(value);
        self.registers.l = result;
        8
    }

    /// RRC A.
    pub(crate) fn rrc_a(&mut self) -> (cycles: u8)
        ensures
            *final(self) == (Cpu {
                registers: Registers {
                    f: rot_rrc(old(self).registers.a).f,
                    ..set_r8(old(self).registers, 7, rot_rrc(old(self).registers.a).r)
                },
                ..*old(self)
            }),
            cycles == 8,
    {
        let value = self.registers.a;
        let result = self.rrc(value);
        self.registers.a = result;
        8
    }

    /// RRC (HL).
    pub(crate) fn rrc_hl(&mut self, memory: &mut Memory) -> (cycles: u8)
        requires
            old(memory).wf(),
        ensures
            final(memory).wf(),
            final(memory)@ == spec_bus_write(
                old(memory)@,
                spec_hl(old(self).registers),
                rot_rrc(spec_bus_read(old(memory)@, spec_hl(old(self).registers))).r,
            ),
            *final(self) == (Cpu {
                registers: Registers { f: rot_rrc(spec_bus_read(old(memory)@, spec_hl(old(self).registers))).f, ..old(self).registers },
                ..*old(self)
            }),
            cycles == 16,
    {
        let addr = self.registers.hl();
        let value = memory.read_byte(addr);
        let result = self.rrc(value);
        memory.write_byte(addr, result);
        16
    }

    /// RL B.
    pub(crate) fn rl_b(&mut self) -> (cycles: u8)
        ensures
            *final(self) == (Cpu {
                registers: Registers {
                    f: rot_rl(old(self).registers.b, old(self).registers.f.c).f,
                    ..set_r8(old(self).registers, 0, rot_rl(old(self).registers.b, old(self).registers.f.c).r)
                },
                ..*old(self)
            }),
            cycles == 8,
    {
        let value = self.registers.b;
        let result = self.rl(value);
        self.registers.b = result;
        8
    }

    /// RL C.
    pub(crate) fn rl_c(&mut self) -> (cycles: u8)
        ensures
            *final(self) == (Cpu {
                registers: Registers {
                    f: rot_rl(old(self).registers.c, old(self).registers.f.c).f,
                    ..set_r8(old(self).registers, 1, rot_rl(old(self).registers.c, old(self).registers.f.c).r)
                },
                ..*old(self)
            }),
            cycles == 8,
    {
        let value = self.registers.c;
        let result = self.rl(value);
        self.registers.c = result;
        8
    }

    /// RL D.
    pub(crate) fn rl_d(&mut self) -> (cycles: u8)
        ensures
            *final(self) == (Cpu {
                registers: Registers {
                    f: rot_rl(old(self).registers.d, old(self).registers.f.c).f,
                    ..set_r8(old(self).registers, 2, rot_rl(old(self).registers.d, old(self).registers.f.c).r)
                },
                ..*old(self)
            }),
            cycles == 8,
    {
        let value = self.registers.d;
        let result = self.rl(value);
        self.registers.d = result;
        8
    }

    /// RL E.
    pub(crate) fn rl_e(&mut self) -> (cycles: u8)
        ensures
            *final(self) == (Cpu {
                registers: Registers {
                    f: rot_rl(old(self).registers.e, old(self).registers.f.c).f,
                    ..set_r8(old(self).registers, 3, rot_rl(old(self).registers.e, old(self).registers.f.c).r)
                },
                ..*old(self)
            }),
            cycles == 8,
    {
        let value = self.registers.e;
        let result = self.rl(value);
        self.registers.e = result;
        8
    }

    /// RL H.
    pub(crate) fn rl_h(&mut self) -> (cycles: u8)
        ensures
            *final(self) == (Cpu {
                registers: Registers {
                    f: rot_rl(old(self).registers.h, old(self).registers.f.c).f,
                    ..set_r8(old(self).registers, 4, rot_rl(old(self).registers.h, old(self).registers.f.c).r)
                },
                ..*old(self)
            }),
            cycles == 8,
    {
        let value = self.registers.h;
        let result = self.rl(value);
        self.registers.h = result;
        8
    }

    /// RL L.
    pub(crate) fn rl_l(&mut self) -> (cycles: u8)
        ensures
            *final(self) == (Cpu {
                registers: Registers {
                    f: rot_rl(old(self).registers.l, old(self).registers.f.c).f,
                    ..set_r8(old(self).registers, 5, rot_rl(old(self).registers.l, old(self).registers.f.c).r)
                },
                ..*old(self)
            }),
            cycles == 8,
    {
        let value = self.registers.l;
        let result = self.rl(value);
        self.registers.l = result;
        8
    }

    /// RL A.
    pub(crate) fn rl_a(&mut self) -> (cycles: u8)
        ensures
            *final(self) == (Cpu {
                registers: Registers {
                    f: rot_rl(old(self).registers.a, old(self).registers.f.c).f,
                    ..set_r8(old(self).registers, 7, rot_rl(old(self).registers.a, old(self).registers.f.c).r)
                },
                ..*old(self)
            }),
            cycles == 8,
    {
        let value = self.registers.a;
        let result = self.rl(value);
        self.registers.a = result;
        8
    }

    /// RL (HL).
    pub(crate) fn rl_hl(&mut self, memory: &mut Memory) -> (cycles: u8)
        requires
            old(memory).wf(),
        ensures
            final(memory).wf(),
            final(memory)@ == spec_bus_write(
                old(memory)@,
                spec_hl(old(self).registers),
                rot_rl(spec_bus_read(old(memory)@, spec_hl(old(self).registers)), old(self).registers.f.c).r,
            ),
            *final(self) == (Cpu {
                registers: Registers { f: rot_rl(spec_bus_read(old(memory)@, spec_hl(old(self).registers)), old(self).registers.f.c).f, ..old(self).registers },
                ..*old(self)
            }),
            cycles == 16,
    {
        let addr = self.registers.hl();
        let value = memory.read_byte(addr);
        let result = self.rl(value);
        memory.write_byte(addr, result);
        16
    }

    /// RR B.
    pub(crate) fn rr_b(&mut self) -> (cycles: u8)
        ensures
            *final(self) == (Cpu {
                registers: Registers {
                    f: rot_rr(old(self).registers.b, old(self).registers.f.c).f,
                    ..set_r8(old(self).registers, 0, rot_rr(old(self).registers.b, old(self).registers.f.c).r)
                },
                ..*old(self)
            }),
            cycles == 8,
    {
        let value = self.registers.b;
        let result = self.rr(value);
        self.registers.b = result;
        8
    }

    /// RR C.
    pub(crate) fn rr_c(&mut self) -> (cycles: u8)
        ensures
            *final(self) == (Cpu {
                registers: Registers {
                    f: rot_rr(old(self).registers.c, old(self).registers.f.c).f,
                    ..set_r8(old(self).registers, 1, rot_rr(old(self).registers.c, old(self).registers.f.c).r)
                },
                ..*old(self)
            }),
            cycles == 8,
    {
        let value = self.registers.c;
        let result = self.rr(value);
        self.registers.c = result;
        8
    }

    /// RR D.
    pub(crate) fn rr_d(&mut self) -> (cycles: u8)
        ensures
            *final(self) == (Cpu {
                registers: Registers {
                    f: rot_rr(old(self).registers.d, old(self).registers.f.c).f,
                    ..set_r8(old(self).registers, 2, rot_rr(old(self).registers.d, old(self).registers.f.c).r)
                },
                ..*old(self)
            }),
            cycles == 8,
    {
        let value = self.registers.d;
        let result = self.rr(value);
        self.registers.d = result;
        8
    }

    /// RR E.
    pub(crate) fn rr_e(&mut self) -> (cycles: u8)
        ensures
            *final(self) == (Cpu {
                registers: Registers {
                    f: rot_rr(old(self).registers.e, old(self).registers.f.c).f,
                    ..set_r8(old(self).registers, 3, rot_rr(old(self).registers.e, old(self).registers.f.c).r)
                },
                ..*old(self)
            }),
            cycles == 8,
    {
        let value = self.registers.e;
        let result = self.rr(value);
        self.registers.e = result;
        8
    }

    /// RR H.
    pub(crate) fn rr_h(&mut self) -> (cycles: u8)
        ensures
            *final(self) == (Cpu {
                registers: Registers {
                    f: rot_rr(old(self).registers.h, old(self).registers.f.c).f,
                    ..set_r8(old(self).registers, 4, rot_rr(old(self).registers.h, old(self).registers.f.c).r)
                },
                ..*old(self)
            }),
            cycles == 8,
    {
        let value = self.registers.h;
        let result = self.rr(value);
        self.registers.h = result;
        8
    }

    /// RR L.
    pub(crate) fn rr_l(&mut self) -> (cycles: u8)
        ensures
            *final(self) == (Cpu {
                registers: Registers {
                    f: rot_rr(old(self).registers.l, old(self).registers.f.c).f,
                    ..set_r8(old(self).registers, 5, rot_rr(old(self).registers.l, old(self).registers.f.c).r)
                },
                ..*old(self)
            }),
            cycles == 8,
    {
        let value = self.registers.l;
        let result = self.rr(value);
        self.registers.l = result;
        8
    }

    /// RR A.
    pub(crate) fn rr_a(&mut self) -> (cycles: u8)
        ensures
            *final(self) == (Cpu {
                registers: Registers {
                    f: rot_rr(old(self).registers.a, old(self).registers.f.c).f,
                    ..set_r8(old(self).registers, 7, rot_rr(old(self).registers.a, old(self).registers.f.c).r)
                },
                ..*old(self)
            }),
            cycles == 8,
    {
        let value = self.registers.a;
        let result = self.rr(value);
        self.registers.a = result;
        8
    }

    /// RR (HL).
    pub(crate) fn rr_hl(&mut self, memory: &mut Memory) -> (cycles: u8)
        requires
            old(memory).wf(),
        ensures
            final(memory).wf(),
            final(memory)@ == spec_bus_write(
                old(memory)@,
                spec_hl(old(self).registers),
                rot_rr(spec_bus_read(old(memory)@, spec_hl(old(self).registers)), old(self).registers.f.c).r,
            ),
            *final(self) == (Cpu {
                registers: Registers { f: rot_rr(spec_bus_read(old(memory)@, spec_hl(old(self).registers)), old(self).registers.f.c).f, ..old(self).registers },
                ..*old(self)
            }),
            cycles == 16,
    {
        let addr = self.registers.hl();
        let value = memory.read_byte(addr);
        let result = self.rr(value);
        memory.write_byte(addr, result);
        16
    }

    /// SLA B.
    pub(crate) fn sla_b(&mut self) -> (cycles: u8)
        ensures
            *final(self) == (Cpu {
                registers: Registers {
                    f: rot_sla(old(self).registers.b).f,
                    ..set_r8(old(self).registers, 0, rot_sla(old(self).registers.b).r)
                },
                ..*old(self)
            }),
            cycles == 8,
    {
        let value = self.registers.b;
        let result = self.sla(value);
        self.registers.b = result;
        8
    }

    /// SLA C.
    pub(crate) fn sla_c(&mut self) -> (cycles: u8)
        ensures
            *final(self) == (Cpu {
                registers: Registers {
                    f: rot_sla(old(self).registers.c).f,
                    ..set_r8(old(self).registers, 1, rot_sla(old(self).registers.c).r)
                },
                ..*old(self)
            }),
            cycles == 8,
    {
        let value = self.registers.c;
        let result = self.sla(value);
        self.registers.c = result;
        8
    }

    /// SLA D.
    pub(crate) fn sla_d(&mut self) -> (cycles: u8)
        ensures
            *final(self) == (Cpu {
                registers: Registers {
                    f: rot_sla(old(self).registers.d).f,
                    ..set_r8(old(self).registers, 2, rot_sla(old(self).registers.d).r)
                },
                ..*old(self)
            }),
            cycles == 8,
    {
        let value = self.registers.d;
        let result = self.sla(value);
        self.registers.d = result;
        8
    }

    /// SLA E.
    pub(crate) fn sla_e(&mut self) -> (cycles: u8)
        ensures
            *final(self) == (Cpu {
                registers: Registers {
                    f: rot_sla(old(self).registers.e).f,
                    ..set_r8(old(self).registers, 3, rot_sla(old(self).registers.e).r)
                },
                ..*old(self)
            }),
            cycles == 8,
    {
        let value = self.registers.e;
        let result = self.sla(value);
        self.registers.e = result;
        8
    }

    /// SLA H.
    pub(crate) fn sla_h(&mut self) -> (cycles: u8)
        ensures
            *final(self) == (Cpu {
                registers: Registers {
                    f: rot_sla(old(self).registers.h).f,
                    ..set_r8(old(self).registers, 4, rot_sla(old(self).registers.h).r)
                },
                ..*old(self)
            }),
            cycles == 8,
    {
        let value = self.registers.h;
        let result = self.sla(value);
        self.registers.h = result;
        8
    }

    /// SLA L.
    pub(crate) fn sla_l(&mut self) -> (cycles: u8)
        ensures
            *final(self) == (Cpu {
                registers: Registers {
                    f: rot_sla(old(self).registers.l).f,
                    ..set_r8(old(self).registers, 5, rot_sla(old(self).registers.l).r)
                },
                ..*old(self)
            }),
            cycles == 8,
    {
        let value = self.registers.l;
        let result = self.sla(value);
        self.registers.l = result;
        8
    }

    /// SLA A.
    pub(crate) fn sla_a(&mut self) -> (cycles: u8)
        ensures
            *final(self) == (Cpu {
                registers: Registers {
                    f: rot_sla(old(self).registers.a).f,
                    ..set_r8(old(self).registers, 7, rot_sla(old(self).registers.a).r)
                },
                ..*old(self)
            }),
            cycles == 8,
    {
        let value = self.registers.a;
        let result = self.sla(value);
        self.registers.a = result;
        8
    }

    /// SLA (HL).
    pub(crate) fn sla_hl(&mut self, memory: &mut Memory) -> (cycles: u8)
        requires
            old(memory).wf(),
        ensures
            final(memory).wf(),
            final(memory)@ == spec_bus_write(
                old(memory)@,
                spec_hl(old(self).registers),
                rot_sla(spec_bus_read(old(memory)@, spec_hl(old(self).registers))).r,
            ),
            *final(self) == (Cpu {
                registers: Registers { f: rot_sla(spec_bus_read(old(memory)@, spec_hl(old(self).registers))).f, ..old(self).registers },
                ..*old(self)
            }),
            cycles == 16,
    {
        let addr = self.registers.hl();
        let value = memory.read_byte(addr);
        let result = self.sla(value);
        memory.write_byte(addr, result);
        16
    }

    /// SRA B.
    pub(crate) fn sra_b(&mut self) -> (cycles: u8)
        ensures
            *final(self) == (Cpu {
                registers: Registers {
                    f: rot_sra(old(self).registers.b).f,
                    ..set_r8(old(self).registers, 0, rot_sra(old(self).registers.b).r)
                },
                ..*old(self)
            }),
            cycles == 8,
    {
        let value = self.registers.b;
        let result = self.sra(value);
        self.registers.b = result;
        8
    }

    /// SRA C.
    pub(crate) fn sra_c(&mut self) -> (cycles: u8)
        ensures
            *final(self) == (Cpu {
                registers: Registers {
                    f: rot_sra(old(self).registers.c).f,
                    ..set_r8(old(self).registers, 1, rot_sra(old(self).registers.c).r)
                },
                ..*old(self)
            }),
            cycles == 8,
    {
        let value = self.registers.c;
        let result = self.sra(value);
        self.registers.c = result;
        8
    }

    /// SRA D.
    pub(crate) fn sra_d(&mut self) -> (cycles: u8)
        ensures
            *final(self) == (Cpu {
                registers: Registers {
                    f: rot_sra(old(self).registers.d).f,
                    ..set_r8(old(self).registers, 2, rot_sra(old(self).registers.d).r)
                },
                ..*old(self)
            }),
            cycles == 8,
    {
        let value = self.registers.d;
        let result = self.sra(value);
        self.registers.d = result;
        8
    }

    /// SRA E.
    pub(crate) fn sra_e(&mut self) -> (cycles: u8)
        ensures
            *final(self) == (Cpu {
                registers: Registers {
                    f: rot_sra(old(self).registers.e).f,
                    ..set_r8(old(self).registers, 3, rot_sra(old(self).registers.e).r)
                },
                ..*old(self)
            }),
            cycles == 8,
    {
        let value = self.registers.e;
        let result = self.sra(value);
        self.registers.e = result;
        8
    }

    /// SRA H.
    pub(crate) fn sra_h(&mut self) -> (cycles: u8)
        ensures
            *final(self) == (Cpu {
                registers: Registers {
                    f: rot_sra(old(self).registers.h).f,
                    ..set_r8(old(self).registers, 4, rot_sra(old(self).registers.h).r)
                },
                ..*old(self)
            }),
            cycles == 8,
    {
        let value = self.registers.h;
        let result = self.sra(value);
        self.registers.h = result;
        8
    }

    /// SRA L.
    pub(crate) fn sra_l(&mut self) -> (cycles: u8)
        ensures
            *final(self) == (Cpu {
                registers: Registers {
                    f: rot_sra(old(self).registers.l).f,
                    ..set_r8(old(self).registers, 5, rot_sra(old(self).registers.l).r)
                },
                ..*old(self)
            }),
            cycles == 8,
    {
        let value = self.registers.l;
        let result = self.sra(value);
        self.registers.l = result;
        8
    }

    /// SRA A.
    pub(crate) fn sra_a(&mut self) -> (cycles: u8)
        ensures
            *final(self) == (Cpu {
                registers: Registers {
                    f: rot_sra(old(self).registers.a).f,
                    ..set_r8(old(self).registers, 7, rot_sra(old(self).registers.a).r)
                },
                ..*old(self)
            }),
            cycles == 8,
    {
        let value = self.registers.a;
        let result = self.sra(value);
        self.registers.a = result;
        8
    }

    /// SRA (HL).
    pub(crate) fn sra_hl(&mut self, memory: &mut Memory) -> (cycles: u8)
        requires
            old(memory).wf(),
        ensures
            final(memory).wf(),
            final(memory)@ == spec_bus_write(
                old(memory)@,
                spec_hl(old(self).registers),
                rot_sra(spec_bus_read(old(memory)@, spec_hl(old(self).registers))).r,
            ),
            *final(self) == (Cpu {
                registers: Registers { f: rot_sra(spec_bus_read(old(memory)@, spec_hl(old(self).registers))).f, ..old(self).registers },
                ..*old(self)
            }),
            cycles == 16,
    {
        let addr = self.registers.hl();
        let value = memory.read_byte(addr);
        let result = self.sra(value);
        memory.write_byte(addr, result);
        16
    }

    /// SWAP B.
    pub(crate) fn swap_b(&mut self) -> (cycles: u8)
        ensures
            *final(self) == (Cpu {
                registers: Registers {
                    f: rot_swap(old(self).registers.b).f,
                    ..set_r8(old(self).registers, 0, rot_swap(old(self).registers.b).r)
                },
                ..*old(self)
            }),
            cycles == 8,
    {
        let value = self.registers.b;
        let result = self.swap(value);
        self.registers.b = result;
        8
    }

    /// SWAP C.
    pub(crate) fn swap_c(&mut self) -> (cycles: u8)
        ensures
            *final(self) == (Cpu {
                registers: Registers {
                    f: rot_swap(old(self).registers.c).f,
                    ..set_r8(old(self).registers, 1, rot_swap(old(self).registers.c).r)
                },
                ..*old(self)
            }),
            cycles == 8,
    {
        let value = self.registers.c;
        let result = self.swap(value);
        self.registers.c = result;
        8
    }

    /// SWAP D.
    pub(crate) fn swap_d(&mut self) -> (cycles: u8)
        ensures
            *final(self) == (Cpu {
                registers: Registers {
                    f: rot_swap(old(self).registers.d).f,
                    ..set_r8(old(self).registers, 2, rot_swap(old(self).registers.d).r)
                },
                ..*old(self)
            }),
            cycles == 8,
    {
        let value = self.registers.d;
        let result = self.swap(value);
        self.registers.d = result;
        8
    }

    /// SWAP E.
    pub(crate) fn swap_e(&mut self) -> (cycles: u8)
        ensures
            *final(self) == (Cpu {
                registers: Registers {
                    f: rot_swap(old(self).registers.e).f,
                    ..set_r8(old(self).registers, 3, rot_swap(old(self).registers.e).r)
                },
                ..*old(self)
            }),
            cycles == 8,
    {
        let value = self.registers.e;
        let result = self.swap(value);
        self.registers.e = result;
        8
    }

    /// SWAP H.
    pub(crate) fn swap_h(&mut self) -> (cycles: u8)
        ensures
            *final(self) == (Cpu {
                registers: Registers {
                    f: rot_swap(old(self).registers.h).f,
                    ..set_r8(old(self).registers, 4, rot_swap(old(self).registers.h).r)
                },
                ..*old(self)
            }),
            cycles == 8,
    {
        let value = self.registers.h;
        let result = self.swap(value);
        self.registers.h = result;
        8
    }

    /// SWAP L.
    pub(crate) fn swap_l(&mut self) -> (cycles: u8)
        ensures
            *final(self) == (Cpu {
                registers: Registers {
                    f: rot_swap(old(self).registers.l).f,
                    ..set_r8(old(self).registers, 5, rot_swap(old(self).registers.l).r)
                },
                ..*old(self)
            }),
            cycles == 8,
    {
        let value = self.registers.l;
        let result = self.swap(value);
        self.registers.l = result;
        8
    }

    /// SWAP A.
    pub(crate) fn swap_a(&mut self) -> (cycles: u8)
        ensures
            *final(self) == (Cpu {
                registers: Registers {
                    f: rot_swap(old(self).registers.a).f,
                    ..set_r8(old(self).registers, 7, rot_swap(old(self).registers.a).r)
                },
                ..*old(self)
            }),
            cycles == 8,
    {
        let value = self.registers.a;
        let result = self.swap(value);
        self.registers.a = result;
        8
    }

    /// SWAP (HL).
    pub(crate) fn swap_hl(&mut self, memory: &mut Memory) -> (cycles: u8)
        requires
            old(memory).wf(),
        ensures
            final(memory).wf(),
            final(memory)@ == spec_bus_write(
                old(memory)@,
                spec_hl(old(self).registers),
                rot_swap(spec_bus_read(old(memory)@, spec_hl(old(self).registers))).r,
            ),
            *final(self) == (Cpu {
                registers: Registers { f: rot_swap(spec_bus_read(old(memory)@, spec_hl(old(self).registers))).f, ..old(self).registers },
                ..*old(self)
            }),
            cycles == 16,
    {
        let addr = self.registers.hl();
        let value = memory.read_byte(addr);
        let result = self.swap(value);
        memory.write_byte(addr, result);
        16
    }

    /// SRL B.
    pub(crate) fn srl_b(&mut self) -> (cycles: u8)
        ensures
            *final(self) == (Cpu {
                registers: Registers {
                    f: rot_srl(old(self).registers.b).f,
                    ..set_r8(old(self).registers, 0, rot_srl(old(self).registers.b).r)
                },
                ..*old(self)
            }),
            cycles == 8,
    {
        let value = self.registers.b;
        let result = self.srl(value);
        self.registers.b = result;
        8
    }

    /// SRL C.
    pub(crate) fn srl_c(&mut self) -> (cycles: u8)
        ensures
            *final(self) == (Cpu {
                registers: Registers {
                    f: rot_srl(old(self).registers.c).f,
                    ..set_r8(old(self).registers, 1, rot_srl(old(self).registers.c).r)
                },
                ..*old(self)
            }),
            cycles == 8,
    {
        let value = self.registers.c;
        let result = self.srl(value);
        self.registers.c = result;
        8
    }

    /// SRL D.
    pub(crate) fn srl_d(&mut self) -> (cycles: u8)
        ensures
            *final(self) == (Cpu {
                registers: Registers {
                    f: rot_srl(old(self).registers.d).f,
                    ..set_r8(old(self).registers, 2, rot_srl(old(self).registers.d).r)
                },
                ..*old(self)
            }),
            cycles == 8,
    {
        let value = self.registers.d;
        let result = self.srl(value);
        self.registers.d = result;
        8
    }

    /// SRL E.
    pub(crate) fn srl_e(&mut self) -> (cycles: u8)
        ensures
            *final(self) == (Cpu {
                registers: Registers {
                    f: rot_srl(old(self).registers.e).f,
                    ..set_r8(old(self).registers, 3, rot_srl(old(self).registers.e).r)
                },
                ..*old(self)
            }),
            cycles == 8,
    {
        let value = self.registers.e;
        let result = self.srl(value);
        self.registers.e = result;
        8
    }

    /// SRL H.
    pub(crate) fn srl_h(&mut self) -> (cycles: u8)
        ensures
            *final(self) == (Cpu {
                registers: Registers {
                    f: rot_srl(old(self).registers.h).f,
                    ..set_r8(old(self).registers, 4, rot_srl(old(self).registers.h).r)
                },
                ..*old(self)
            }),
            cycles == 8,
    {
        let value = self.registers.h;
        let result = self.srl(value);
        self.registers.h = result;
        8
    }

    /// SRL L.
    pub(crate) fn srl_l(&mut self) -> (cycles: u8)
        ensures
            *final(self) == (Cpu {
                registers: Registers {
                    f: rot_srl(old(self).registers.l).f,
                    ..set_r8(old(self).registers, 5, rot_srl(old(self).registers.l).r)
                },
                ..*old(self)
            }),
            cycles == 8,
    {
        let value = self.registers.l;
        let result = self.srl(value);
        self.registers.l = result;
        8
    }

    /// SRL A.
    pub(crate) fn srl_a(&mut self) -> (cycles: u8)
        ensures
            *final(self) == (Cpu {
                registers: Registers {
                    f: rot_srl(old(self).registers.a).f,
                    ..set_r8(old(self).registers, 7, rot_srl(old(self).registers.a).r)
                },
                ..*old(self)
            }),
            cycles == 8,
    {
        let value = self.registers.a;
        let result = self.srl(value);
        self.registers.a = result;
        8
    }

    /// SRL (HL).
    pub(crate) fn srl_hl(&mut self, memory: &mut Memory) -> (cycles: u8)
        requires
            old(memory).wf(),
        ensures
            final(memory).wf(),
            final(memory)@ == spec_bus_write(
                old(memory)@,
                spec_hl(old(self).registers),
                rot_srl(spec_bus_read(old(memory)@, spec_hl(old(self).registers))).r,
            ),
            *final(self) == (Cpu {
                registers: Registers { f: rot_srl(spec_bus_read(old(memory)@, spec_hl(old(self).registers))).f, ..old(self).registers },
                ..*old(self)
            }),
            cycles == 16,
    {
        let addr = self.registers.hl();
        let value = memory.read_byte(addr);
        let result = self.srl(value);
        memory.write_byte(addr, result);
        16
    }

    /// BIT b,r: Z is the complement of the tested bit; C is preserved.
    pub(crate) fn bit(&mut self, opcode: u8, memory: &Memory) -> (cycles: u8)
        requires
            memory.wf(),
            0x40 <= opcode < 0x80,
        ensures
            *final(self) == (Cpu {
                registers: Registers {
                    f: bit_flags(
                        spec_cb_operand(*old(self), memory@, (opcode % 8) as int),
                        (opcode / 8 % 8) as int,
                        old(self).registers.f,
                    ),
                    ..old(self).registers
                },
                ..*old(self)
            }),
            cycles == (if opcode % 8 == 6 {
                12u8
            } else {
                8u8
            }),
    {
        let bit_index: u8 = opcode / 8 % 8;
        let reg: u8 = opcode % 8;
        let value: u8 = match reg {
            0 => self.registers.b,
            1 => self.registers.c,
            2 => self.registers.d,
            3 => self.registers.e,
            4 => self.registers.h,
            5 => self.registers.l,
            6 => {
                let addr = self.registers.hl();
                memory.read_byte(addr)
            },
            _ => self.registers.a,
        };
        let mask = bit_mask_value(bit_index);
        let bit_is_set = value / mask % 2 == 1;
        self.registers.f.z = !bit_is_set;
        self.registers.f.n = false;
        self.registers.f.h = true;
        if reg == 6 {
            12
        } else {
            8
        }
    }

    /// RES b,r: clear bit b of the operand; no flags change.
    #[verifier::rlimit(50)]
    pub(crate) fn res(&mut self, opcode: u8, memory: &mut Memory) -> (cycles: u8)
        requires
            old(memory).wf(),
            0x80 <= opcode < 0xC0,
        ensures
            final(memory).wf(),
            opcode % 8 == 6 ==> *final(self) == *old(self) && final(memory)@ == spec_bus_write(
                old(memory)@,
                spec_hl(old(self).registers),
                bit_res(
                    spec_bus_read(old(memory)@, spec_hl(old(self).registers)),
                    (opcode / 8 % 8) as int,
                ),
            ),
            opcode % 8 != 6 ==> final(memory)@ == old(memory)@ && *final(self) == (Cpu {
                registers: set_r8(
                    old(self).registers,
                    (opcode % 8) as int,
                    bit_res(
                        get_r8(old(self).registers, (opcode % 8) as int),
                        (opcode / 8 % 8) as int,
                    ),
                ),
                ..*old(self)
            }),
            cycles == (if opcode % 8 == 6 {
                16u8
            } else {
                8u8
            }),
    {
        let bit_index: u8 = opcode / 8 % 8;
        let reg: u8 = opcode % 8;
        let mask = bit_mask_value(bit_index);
        match reg {
            0 => {
                proof {
                    crate::cpu::alu::lemma_bit_bounds(self.registers.b, bit_index as int);
                }
                let value = self.registers.b;
                self.registers.b = if value / mask % 2 == 1 {
                    value - mask
                } else {
                    value
                };
            },
            1 => {
                proof {
                    crate::cpu::alu::lemma_bit_bounds(self.registers.c, bit_index as int);
                }
                let value = self.registers.c;
                self.registers.c = if value / mask % 2 == 1 {
                    value - mask
                } else {
                    value
                };
            },
            2 => {
                proof {
                    crate::cpu::alu::lemma_bit_bounds(self.registers.d, bit_index as int);
                }
                let value = self.registers.d;
                self.registers.d = if value / mask % 2 == 1 {
                    value - mask
                } else {
                    value
                };
            },
            3 => {
                proof {
                    crate::cpu::alu::lemma_bit_bounds(self.registers.e, bit_index as int);
                }
                let value = self.registers.e;
                self.registers.e = if value / mask % 2 == 1 {
                    value - mask
                } else {
                    value
                };
            },
            4 => {
                proof {
                    crate::cpu::alu::lemma_bit_bounds(self.registers.h, bit_index as int);
                }
                let value = self.registers.h;
                self.registers.h = if value / mask % 2 == 1 {
                    value - mask
                } else {
                    value
                };
            },
            5 => {
                proof {
                    crate::cpu::alu::lemma_bit_bounds(self.registers.l, bit_index as int);
                }
                let value = self.registers.l;
                self.registers.l = if value / mask % 2 == 1 {
                    value - mask
                } else {
                    value
                };
            },
            6 => {
                let addr = self.registers.hl();
                let value = memory.read_byte(addr);
                proof {
                    crate::cpu::alu::lemma_bit_bounds(value, bit_index as int);
                }
                let updated: u8 = if value / mask % 2 == 1 {
                    value - mask
                } else {
                    value
                };
                memory.write_byte(addr, updated);
            },
            _ => {
                proof {
                    crate::cpu::alu::lemma_bit_bounds(self.registers.a, bit_index as int);
                }
                let value = self.registers.a;
                self.registers.a = if value / mask % 2 == 1 {
                    value - mask
                } else {
                    value
                };
            },
        }
        if reg == 6 {
            16
        } else {
            8
        }
    }

    /// SET b,r: set bit b of the operand; no flags change.
    #[verifier::rlimit(50)]
    pub(crate) fn set(&mut self, opcode: u8, memory: &mut Memory) -> (cycles: u8)
        requires
            old(memory).wf(),
            0xC0 <= opcode,
        ensures
            final(memory).wf(),
            opcode % 8 == 6 ==> *final(self) == *old(self) && final(memory)@ == spec_bus_write(
                old(memory)@,
                spec_hl(old(self).registers),
                bit_set(
                    spec_bus_read(old(memory)@, spec_hl(old(self).registers)),
                    (opcode / 8 % 8) as int,
                ),
            ),
            opcode % 8 != 6 ==> final(memory)@ == old(memory)@ && *final(self) == (Cpu {
                registers: set_r8(
                    old(self).registers,
                    (opcode % 8) as int,
                    bit_set(
                        get_r8(old(self).registers, (opcode % 8) as int),
                        (opcode / 8 % 8) as int,
                    ),
                ),
                ..*old(self)
            }),
            cycles == (if opcode % 8 == 6 {
                16u8
            } else {
                8u8
            }),
    {
        let bit_index: u8 = opcode / 8 % 8;
        let reg: u8 = opcode % 8;
        let mask = bit_mask_value(bit_index);
        match reg {
            0 => {
                proof {
                    crate::cpu::alu::lemma_bit_bounds(self.registers.b, bit_index as int);
                }
                let value = self.registers.b;
                self.registers.b = if value / mask % 2 == 1 {
                    value
                } else {
                    value + mask
                };
            },
            1 => {
                proof {
                    crate::cpu::alu::lemma_bit_bounds(self.registers.c, bit_index as int);
                }
                let value = self.registers.c;
                self.registers.c = if value / mask % 2 == 1 {
                    value
                } else {
                    value + mask
                };
            },
            2 => {
                proof {
                    crate::cpu::alu::lemma_bit_bounds(self.registers.d, bit_index as int);
                }
                let value = self.registers.d;
                self.registers.d = if value / mask % 2 == 1 {
                    value
                } else {
                    value + mask
                };
            },
            3 => {
                proof {
                    crate::cpu::alu::lemma_bit_bounds(self.registers.e, bit_index as int);
                }
                let value = self.registers.e;
                self.registers.e = if value / mask % 2 == 1 {
                    value
                } else {
                    value + mask
                };
            },
            4 => {
                proof {
                    crate::cpu::alu::lemma_bit_bounds(self.registers.h, bit_index as int);
                }
                let value = self.registers.h;
                self.registers.h = if value / mask % 2 == 1 {
                    value
                } else {
                    value + mask
                };
            },
            5 => {
                proof {
                    crate::cpu::alu::lemma_bit_bounds(self.registers.l, bit_index as int);
                }
                let value = self.registers.l;
                self.registers.l = if value / mask % 2 == 1 {
                    value
                } else {
                    value + mask
                };
            },
            6 => {
                let addr = self.registers.hl();
                let value = memory.read_byte(addr);
                proof {
                    crate::cpu::alu::lemma_bit_bounds(value, bit_index as int);
                }
                let updated: u8 = if value / mask % 2 == 1 {
                    value
                } else {
                    value + mask
                };
                memory.write_byte(addr, updated);
            },
            _ => {
                proof {
                    crate::cpu::alu::lemma_bit_bounds(self.registers.a, bit_index as int);
                }
                let value = self.registers.a;
                self.registers.a = if value / mask % 2 == 1 {
                    value
                } else {
                    value + mask
                };
            },
        }
        if reg == 6 {
            16
        } else {
            8
        }
    }

}

} // verus!
