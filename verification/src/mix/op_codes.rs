//! The operation codes of the machine, by the name of the operation. Where
//! several operations share a code, the modification tells them apart.

use vstd::prelude::*;

verus! {

pub const NOP: u8 = 0;
pub const ADD: u8 = 1;
pub const SUB: u8 = 2;
pub const MUL: u8 = 3;
pub const DIV: u8 = 4;
pub const CHAR: u8 = 5;
pub const HLT: u8 = 5;
pub const NUM: u8 = 5;
pub const SLA: u8 = 6;
pub const SLAX: u8 = 6;
pub const SLC: u8 = 6;
pub const SRA: u8 = 6;
pub const SRAX: u8 = 6;
pub const SRC: u8 = 6;
pub const MOVE: u8 = 7;
pub const LDA: u8 = 8;
pub const LD1: u8 = 9;
pub const LD2: u8 = 10;
pub const LD3: u8 = 11;
pub const LD4: u8 = 12;
pub const LD5: u8 = 13;
pub const LD6: u8 = 14;
pub const LDX: u8 = 15;
pub const LDAN: u8 = 16;
pub const LD1N: u8 = 17;
pub const LD2N: u8 = 18;
pub const LD3N: u8 = 19;
pub const LD4N: u8 = 20;
pub const LD5N: u8 = 21;
pub const LD6N: u8 = 22;
pub const LDXN: u8 = 23;
pub const STA: u8 = 24;
pub const ST1: u8 = 25;
pub const ST2: u8 = 26;
pub const ST3: u8 = 27;
pub const ST4: u8 = 28;
pub const ST5: u8 = 29;
pub const ST6: u8 = 30;
pub const STX: u8 = 31;
pub const STJ: u8 = 32;
pub const STZ: u8 = 33;
pub const JBUS: u8 = 34;
pub const IOC: u8 = 35;
pub const IN: u8 = 36;
pub const OUT: u8 = 37;
pub const JRED: u8 = 38;
pub const JE: u8 = 39;
pub const JG: u8 = 39;
pub const JGE: u8 = 39;
pub const JL: u8 = 39;
pub const JLE: u8 = 39;
pub const JMP: u8 = 39;
pub const JNE: u8 = 39;
pub const JNOV: u8 = 39;
pub const JOV: u8 = 39;
pub const JSJ: u8 = 39;
pub const JAN: u8 = 40;
pub const JANN: u8 = 40;
pub const JANP: u8 = 40;
pub const JANZ: u8 = 40;
pub const JAP: u8 = 40;
pub const JAZ: u8 = 40;
pub const J1N: u8 = 41;
pub const J1NN: u8 = 41;
pub const J1NP: u8 = 41;
pub const J1NZ: u8 = 41;
pub const J1P: u8 = 41;
pub const J1Z: u8 = 41;
pub const J2N: u8 = 42;
pub const J2NN: u8 = 42;
pub const J2NP: u8 = 42;
pub const J2NZ: u8 = 42;
pub const J2P: u8 = 42;
pub const J2Z: u8 = 42;
pub const J3N: u8 = 43;
pub const J3NN: u8 = 43;
pub const J3NP: u8 = 43;
pub const J3NZ: u8 = 43;
pub const J3P: u8 = 43;
pub const J3Z: u8 = 43;
pub const J4N: u8 = 44;
pub const J4NN: u8 = 44;
pub const J4NP: u8 = 44;
pub const J4NZ: u8 = 44;
pub const J4P: u8 = 44;
pub const J4Z: u8 = 44;
pub const J5N: u8 = 45;
pub const J5NN: u8 = 45;
pub const J5NP: u8 = 45;
pub const J5NZ: u8 = 45;
pub const J5P: u8 = 45;
pub const J5Z: u8 = 45;
pub const J6N: u8 = 46;
pub const J6NN: u8 = 46;
pub const J6NP: u8 = 46;
pub const J6NZ: u8 = 46;
pub const J6P: u8 = 46;
pub const J6Z: u8 = 46;
pub const JXN: u8 = 47;
pub const JXNN: u8 = 47;
pub const JXNP: u8 = 47;
pub const JXNZ: u8 = 47;
pub const JXP: u8 = 47;
pub const JXZ: u8 = 47;
pub const DECA: u8 = 48;
pub const ENNA: u8 = 48;
pub const ENTA: u8 = 48;
pub const INCA: u8 = 48;
pub const DEC1: u8 = 49;
pub const ENN1: u8 = 49;
pub const ENT1: u8 = 49;
pub const INC1: u8 = 49;
pub const DEC2: u8 = 50;
pub const ENN2: u8 = 50;
pub const ENT2: u8 = 50;
pub const INC2: u8 = 50;
pub const DEC3: u8 = 51;
pub const ENN3: u8 = 51;
pub const ENT3: u8 = 51;
pub const INC3: u8 = 51;
pub const DEC4: u8 = 52;
pub const ENN4: u8 = 52;
pub const ENT4: u8 = 52;
pub const INC4: u8 = 52;
pub const DEC5: u8 = 53;
pub const ENN5: u8 = 53;
pub const ENT5: u8 = 53;
pub const INC5: u8 = 53;
pub const DEC6: u8 = 54;
pub const ENN6: u8 = 54;
pub const ENT6: u8 = 54;
pub const INC6: u8 = 54;
pub const DECX: u8 = 55;
pub const ENNX: u8 = 55;
pub const ENTX: u8 = 55;
pub const INCX: u8 = 55;
pub const CMPA: u8 = 56;
pub const CMP1: u8 = 57;
pub const CMP2: u8 = 58;
pub const CMP3: u8 = 59;
pub const CMP4: u8 = 60;
pub const CMP5: u8 = 61;
pub const CMP6: u8 = 62;
pub const CMPX: u8 = 63;

} // verus!
