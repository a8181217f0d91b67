//! The table of operations: for each mnemonic its operation code and the
//! modification that it has where the statement gives none.

use vstd::prelude::*;

use crate::mix::text::same_text;

verus! {

/// Number of entries in the table.
pub const OP_COUNT: usize = 144;

/// What the table says of an operation.
#[derive(Debug, Clone, Copy)]
pub struct OpInfo {
    pub name: &'static str,
    pub value: u8,
    pub default_fs: u8,
}

/// An entry of the table as plain values.
pub struct OpInfoView {
    pub name: Seq<char>,
    pub value: u8,
    pub default_fs: u8,
}

impl View for OpInfo {
    type V = OpInfoView;

    open spec fn view(&self) -> OpInfoView {
        OpInfoView { name: self.name@, value: self.value, default_fs: self.default_fs }
    }
}

/// Entry number `i` of the table.
pub open spec fn spec_op_entry(i: usize) -> OpInfoView {
    match i {
        0 => OpInfoView { name: "NOP"@, value: 0, default_fs: 0 },
        1 => OpInfoView { name: "ADD"@, value: 1, default_fs: 5 },
        2 => OpInfoView { name: "SUB"@, value: 2, default_fs: 5 },
        3 => OpInfoView { name: "MUL"@, value: 3, default_fs: 5 },
        4 => OpInfoView { name: "DIV"@, value: 4, default_fs: 5 },
        5 => OpInfoView { name: "NUM"@, value: 5, default_fs: 0 },
        6 => OpInfoView { name: "CHAR"@, value: 5, default_fs: 1 },
        7 => OpInfoView { name: "HLT"@, value: 5, default_fs: 2 },
        8 => OpInfoView { name: "SLA"@, value: 6, default_fs: 0 },
        9 => OpInfoView { name: "SRA"@, value: 6, default_fs: 1 },
        10 => OpInfoView { name: "SLAX"@, value: 6, default_fs: 2 },
        11 => OpInfoView { name: "SRAX"@, value: 6, default_fs: 3 },
        12 => OpInfoView { name: "SLC"@, value: 6, default_fs: 4 },
        13 => OpInfoView { name: "SRC"@, value: 6, default_fs: 5 },
        14 => OpInfoView { name: "MOVE"@, value: 7, default_fs: 1 },
        15 => OpInfoView { name: "LDA"@, value: 8, default_fs: 5 },
        16 => OpInfoView { name: "LD1"@, value: 9, default_fs: 5 },
        17 => OpInfoView { name: "LD2"@, value: 10, default_fs: 5 },
        18 => OpInfoView { name: "LD3"@, value: 11, default_fs: 5 },
        19 => OpInfoView { name: "LD4"@, value: 12, default_fs: 5 },
        20 => OpInfoView { name: "LD5"@, value: 13, default_fs: 5 },
        21 => OpInfoView { name: "LD6"@, value: 14, default_fs: 5 },
        22 => OpInfoView { name: "LDX"@, value: 15, default_fs: 5 },
        23 => OpInfoView { name: "LDAN"@, value: 16, default_fs: 5 },
        24 => OpInfoView { name: "LD1N"@, value: 17, default_fs: 5 },
        25 => OpInfoView { name: "LD2N"@, value: 18, default_fs: 5 },
        26 => OpInfoView { name: "LD3N"@, value: 19, default_fs: 5 },
        27 => OpInfoView { name: "LD4N"@, value: 20, default_fs: 5 },
        28 => OpInfoView { name: "LD5N"@, value: 21, default_fs: 5 },
        29 => OpInfoView { name: "LD6N"@, value: 22, default_fs: 5 },
        30 => OpInfoView { name: "LDXN"@, value: 23, default_fs: 5 },
        31 => OpInfoView { name: "STA"@, value: 24, default_fs: 5 },
        32 => OpInfoView { name: "ST1"@, value: 25, default_fs: 5 },
        33 => OpInfoView { name: "ST2"@, value: 26, default_fs: 5 },
        34 => OpInfoView { name: "ST3"@, value: 27, default_fs: 5 },
        35 => OpInfoView { name: "ST4"@, value: 28, default_fs: 5 },
        36 => OpInfoView { name: "ST5"@, value: 29, default_fs: 5 },
        37 => OpInfoView { name: "ST6"@, value: 30, default_fs: 5 },
        38 => OpInfoView { name: "STX"@, value: 31, default_fs: 5 },
        39 => OpInfoView { name: "STJ"@, value: 32, default_fs: 2 },
        40 => OpInfoView { name: "STZ"@, value: 33, default_fs: 5 },
        41 => OpInfoView { name: "JBUS"@, value: 34, default_fs: 0 },
        42 => OpInfoView { name: "IOC"@, value: 35, default_fs: 0 },
        43 => OpInfoView { name: "IN"@, value: 36, default_fs: 0 },
        44 => OpInfoView { name: "OUT"@, value: 37, default_fs: 0 },
        45 => OpInfoView { name: "JRED"@, value: 38, default_fs: 0 },
        46 => OpInfoView { name: "JMP"@, value: 39, default_fs: 0 },
        47 => OpInfoView { name: "JSJ"@, value: 39, default_fs: 1 },
        48 => OpInfoView { name: "JOV"@, value: 39, default_fs: 2 },
        49 => OpInfoView { name: "JNOV"@, value: 39, default_fs: 3 },
        50 => OpInfoView { name: "JL"@, value: 39, default_fs: 4 },
        51 => OpInfoView { name: "JE"@, value: 39, default_fs: 5 },
        52 => OpInfoView { name: "JG"@, value: 39, default_fs: 6 },
        53 => OpInfoView { name: "JGE"@, value: 39, default_fs: 7 },
        54 => OpInfoView { name: "JNE"@, value: 39, default_fs: 8 },
        55 => OpInfoView { name: "JLE"@, value: 39, default_fs: 9 },
        56 => OpInfoView { name: "JAN"@, value: 40, default_fs: 0 },
        57 => OpInfoView { name: "JAZ"@, value: 40, default_fs: 1 },
        58 => OpInfoView { name: "JAP"@, value: 40, default_fs: 2 },
        59 => OpInfoView { name: "JANN"@, value: 40, default_fs: 3 },
        60 => OpInfoView { name: "JANZ"@, value: 40, default_fs: 4 },
        61 => OpInfoView { name: "JANP"@, value: 40, default_fs: 5 },
        62 => OpInfoView { name: "J1N"@, value: 41, default_fs: 0 },
        63 => OpInfoView { name: "J1Z"@, value: 41, default_fs: 1 },
        64 => OpInfoView { name: "J1P"@, value: 41, default_fs: 2 },
        65 => OpInfoView { name: "J1NN"@, value: 41, default_fs: 3 },
        66 => OpInfoView { name: "J1NZ"@, value: 41, default_fs: 4 },
        67 => OpInfoView { name: "J1NP"@, value: 41, default_fs: 5 },
        68 => OpInfoView { name: "J2N"@, value: 42, default_fs: 0 },
        69 => OpInfoView { name: "J2Z"@, value: 42, default_fs: 1 },
        70 => OpInfoView { name: "J2P"@, value: 42, default_fs: 2 },
        71 => OpInfoView { name: "J2NN"@, value: 42, default_fs: 3 },
        72 => OpInfoView { name: "J2NZ"@, value: 42, default_fs: 4 },
        73 => OpInfoView { name: "J2NP"@, value: 42, default_fs: 5 },
        74 => OpInfoView { name: "J3N"@, value: 43, default_fs: 0 },
        75 => OpInfoView { name: "J3Z"@, value: 43, default_fs: 1 },
        76 => OpInfoView { name: "J3P"@, value: 43, default_fs: 2 },
        77 => OpInfoView { name: "J3NN"@, value: 43, default_fs: 3 },
        78 => OpInfoView { name: "J3NZ"@, value: 43, default_fs: 4 },
        79 => OpInfoView { name: "J3NP"@, value: 43, default_fs: 5 },
        80 => OpInfoView { name: "J4N"@, value: 44, default_fs: 0 },
        81 => OpInfoView { name: "J4Z"@, value: 44, default_fs: 1 },
        82 => OpInfoView { name: "J4P"@, value: 44, default_fs: 2 },
        83 => OpInfoView { name: "J4NN"@, value: 44, default_fs: 3 },
        84 => OpInfoView { name: "J4NZ"@, value: 44, default_fs: 4 },
        85 => OpInfoView { name: "J4NP"@, value: 44, default_fs: 5 },
        86 => OpInfoView { name: "J5N"@, value: 45, default_fs: 0 },
        87 => OpInfoView { name: "J5Z"@, value: 45, default_fs: 1 },
        88 => OpInfoView { name: "J5P"@, value: 45, default_fs: 2 },
        89 => OpInfoView { name: "J5NN"@, value: 45, default_fs: 3 },
        90 => OpInfoView { name: "J5NZ"@, value: 45, default_fs: 4 },
        91 => OpInfoView { name: "J5NP"@, value: 45, default_fs: 5 },
        92 => OpInfoView { name: "J6N"@, value: 46, default_fs: 0 },
        93 => OpInfoView { name: "J6Z"@, value: 46, default_fs: 1 },
        94 => OpInfoView { name: "J6P"@, value: 46, default_fs: 2 },
        95 => OpInfoView { name: "J6NN"@, value: 46, default_fs: 3 },
        96 => OpInfoView { name: "J6NZ"@, value: 46, default_fs: 4 },
        97 => OpInfoView { name: "J6NP"@, value: 46, default_fs: 5 },
        98 => OpInfoView { name: "JXN"@, value: 47, default_fs: 0 },
        99 => OpInfoView { name: "JXZ"@, value: 47, default_fs: 1 },
        100 => OpInfoView { name: "JXP"@, value: 47, default_fs: 2 },
        101 => OpInfoView { name: "JXNN"@, value: 47, default_fs: 3 },
        102 => OpInfoView { name: "JXNZ"@, value: 47, default_fs: 4 },
        103 => OpInfoView { name: "JXNP"@, value: 47, default_fs: 5 },
        104 => OpInfoView { name: "INCA"@, value: 48, default_fs: 0 },
        105 => OpInfoView { name: "DECA"@, value: 48, default_fs: 1 },
        106 => OpInfoView { name: "ENTA"@, value: 48, default_fs: 2 },
        107 => OpInfoView { name: "ENNA"@, value: 48, default_fs: 3 },
        108 => OpInfoView { name: "INC1"@, value: 49, default_fs: 0 },
        109 => OpInfoView { name: "DEC1"@, value: 49, default_fs: 1 },
        110 => OpInfoView { name: "ENT1"@, value: 49, default_fs: 2 },
        111 => OpInfoView { name: "ENN1"@, value: 49, default_fs: 3 },
        112 => OpInfoView { name: "INC2"@, value: 50, default_fs: 0 },
        113 => OpInfoView { name: "DEC2"@, value: 50, default_fs: 1 },
        114 => OpInfoView { name: "ENT2"@, value: 50, default_fs: 2 },
        115 => OpInfoView { name: "ENN2"@, value: 50, default_fs: 3 },
        116 => OpInfoView { name: "INC3"@, value: 51, default_fs: 0 },
        117 => OpInfoView { name: "DEC3"@, value: 51, default_fs: 1 },
        118 => OpInfoView { name: "ENT3"@, value: 51, default_fs: 2 },
        119 => OpInfoView { name: "ENN3"@, value: 51, default_fs: 3 },
        120 => OpInfoView { name: "INC4"@, value: 52, default_fs: 0 },
        121 => OpInfoView { name: "DEC4"@, value: 52, default_fs: 1 },
        122 => OpInfoView { name: "ENT4"@, value: 52, default_fs: 2 },
        123 => OpInfoView { name: "ENN4"@, value: 52, default_fs: 3 },
        124 => OpInfoView { name: "INC5"@, value: 53, default_fs: 0 },
        125 => OpInfoView { name: "DEC5"@, value: 53, default_fs: 1 },
        126 => OpInfoView { name: "ENT5"@, value: 53, default_fs: 2 },
        127 => OpInfoView { name: "ENN5"@, value: 53, default_fs: 3 },
        128 => OpInfoView { name: "INC6"@, value: 54, default_fs: 0 },
        129 => OpInfoView { name: "DEC6"@, value: 54, default_fs: 1 },
        130 => OpInfoView { name: "ENT6"@, value: 54, default_fs: 2 },
        131 => OpInfoView { name: "ENN6"@, value: 54, default_fs: 3 },
        132 => OpInfoView { name: "INCX"@, value: 55, default_fs: 0 },
        133 => OpInfoView { name: "DECX"@, value: 55, default_fs: 1 },
        134 => OpInfoView { name: "ENTX"@, value: 55, default_fs: 2 },
        135 => OpInfoView { name: "ENNX"@, value: 55, default_fs: 3 },
        136 => OpInfoView { name: "CMPA"@, value: 56, default_fs: 5 },
        137 => OpInfoView { name: "CMP1"@, value: 57, default_fs: 5 },
        138 => OpInfoView { name: "CMP2"@, value: 58, default_fs: 5 },
        139 => OpInfoView { name: "CMP3"@, value: 59, default_fs: 5 },
        140 => OpInfoView { name: "CMP4"@, value: 60, default_fs: 5 },
        141 => OpInfoView { name: "CMP5"@, value: 61, default_fs: 5 },
        142 => OpInfoView { name: "CMP6"@, value: 62, default_fs: 5 },
        143 => OpInfoView { name: "CMPX"@, value: 63, default_fs: 5 },
        _ => OpInfoView { name: ""@, value: 0, default_fs: 0 },
    }
}

/// The first entry of the table from number `from` on that has the name
/// `name`.
#[verifier::opaque]
pub open spec fn spec_find_op(name: Seq<char>, from: int) -> Option<OpInfoView>
    decreases OP_COUNT - from,
{
    if from < 0 || from >= OP_COUNT {
        None
    } else if spec_op_entry(from as usize).name == name {
        Some(spec_op_entry(from as usize))
    } else {
        spec_find_op(name, from + 1)
    }
}

/// What the table says of the mnemonic `name`, if it holds it.
pub open spec fn spec_op_info(name: Seq<char>) -> Option<OpInfoView> {
    spec_find_op(name, 0)
}

/// Whether `name` is one of EQU, ORIG, CON, ALF and END.
pub open spec fn spec_is_pseudo_op(name: Seq<char>) -> bool {
    name == "EQU"@ || name == "ORIG"@ || name == "CON"@ || name == "ALF"@ || name == "END"@
}

/// Entry number `i` of the table.
pub fn op_entry(i: usize) -> (entry: OpInfo)
    ensures
        entry@ == spec_op_entry(i),
{
    match i {
        0 => OpInfo { name: "NOP", value: 0, default_fs: 0 },
        1 => OpInfo { name: "ADD", value: 1, default_fs: 5 },
        2 => OpInfo { name: "SUB", value: 2, default_fs: 5 },
        3 => OpInfo { name: "MUL", value: 3, default_fs: 5 },
        4 => OpInfo { name: "DIV", value: 4, default_fs: 5 },
        5 => OpInfo { name: "NUM", value: 5, default_fs: 0 },
        6 => OpInfo { name: "CHAR", value: 5, default_fs: 1 },
        7 => OpInfo { name: "HLT", value: 5, default_fs: 2 },
        8 => OpInfo { name: "SLA", value: 6, default_fs: 0 },
        9 => OpInfo { name: "SRA", value: 6, default_fs: 1 },
        10 => OpInfo { name: "SLAX", value: 6, default_fs: 2 },
        11 => OpInfo { name: "SRAX", value: 6, default_fs: 3 },
        12 => OpInfo { name: "SLC", value: 6, default_fs: 4 },
        13 => OpInfo { name: "SRC", value: 6, default_fs: 5 },
        14 => OpInfo { name: "MOVE", value: 7, default_fs: 1 },
        15 => OpInfo { name: "LDA", value: 8, default_fs: 5 },
        16 => OpInfo { name: "LD1", value: 9, default_fs: 5 },
        17 => OpInfo { name: "LD2", value: 10, default_fs: 5 },
        18 => OpInfo { name: "LD3", value: 11, default_fs: 5 },
        19 => OpInfo { name: "LD4", value: 12, default_fs: 5 },
        20 => OpInfo { name: "LD5", value: 13, default_fs: 5 },
        21 => OpInfo { name: "LD6", value: 14, default_fs: 5 },
        22 => OpInfo { name: "LDX", value: 15, default_fs: 5 },
        23 => OpInfo { name: "LDAN", value: 16, default_fs: 5 },
        24 => OpInfo { name: "LD1N", value: 17, default_fs: 5 },
        25 => OpInfo { name: "LD2N", value: 18, default_fs: 5 },
        26 => OpInfo { name: "LD3N", value: 19, default_fs: 5 },
        27 => OpInfo { name: "LD4N", value: 20, default_fs: 5 },
        28 => OpInfo { name: "LD5N", value: 21, default_fs: 5 },
        29 => OpInfo { name: "LD6N", value: 22, default_fs: 5 },
        30 => OpInfo { name: "LDXN", value: 23, default_fs: 5 },
        31 => OpInfo { name: "STA", value: 24, default_fs: 5 },
        32 => OpInfo { name: "ST1", value: 25, default_fs: 5 },
        33 => OpInfo { name: "ST2", value: 26, default_fs: 5 },
        34 => OpInfo { name: "ST3", value: 27, default_fs: 5 },
        35 => OpInfo { name: "ST4", value: 28, default_fs: 5 },
        36 => OpInfo { name: "ST5", value: 29, default_fs: 5 },
        37 => OpInfo { name: "ST6", value: 30, default_fs: 5 },
        38 => OpInfo { name: "STX", value: 31, default_fs: 5 },
        39 => OpInfo { name: "STJ", value: 32, default_fs: 2 },
        40 => OpInfo { name: "STZ", value: 33, default_fs: 5 },
        41 => OpInfo { name: "JBUS", value: 34, default_fs: 0 },
        42 => OpInfo { name: "IOC", value: 35, default_fs: 0 },
        43 => OpInfo { name: "IN", value: 36, default_fs: 0 },
        44 => OpInfo { name: "OUT", value: 37, default_fs: 0 },
        45 => OpInfo { name: "JRED", value: 38, default_fs: 0 },
        46 => OpInfo { name: "JMP", value: 39, default_fs: 0 },
        47 => OpInfo { name: "JSJ", value: 39, default_fs: 1 },
        48 => OpInfo { name: "JOV", value: 39, default_fs: 2 },
        49 => OpInfo { name: "JNOV", value: 39, default_fs: 3 },
        50 => OpInfo { name: "JL", value: 39, default_fs: 4 },
        51 => OpInfo { name: "JE", value: 39, default_fs: 5 },
        52 => OpInfo { name: "JG", value: 39, default_fs: 6 },
        53 => OpInfo { name: "JGE", value: 39, default_fs: 7 },
        54 => OpInfo { name: "JNE", value: 39, default_fs: 8 },
        55 => OpInfo { name: "JLE", value: 39, default_fs: 9 },
        56 => OpInfo { name: "JAN", value: 40, default_fs: 0 },
        57 => OpInfo { name: "JAZ", value: 40, default_fs: 1 },
        58 => OpInfo { name: "JAP", value: 40, default_fs: 2 },
        59 => OpInfo { name: "JANN", value: 40, default_fs: 3 },
        60 => OpInfo { name: "JANZ", value: 40, default_fs: 4 },
        61 => OpInfo { name: "JANP", value: 40, default_fs: 5 },
        62 => OpInfo { name: "J1N", value: 41, default_fs: 0 },
        63 => OpInfo { name: "J1Z", value: 41, default_fs: 1 },
        64 => OpInfo { name: "J1P", value: 41, default_fs: 2 },
        65 => OpInfo { name: "J1NN", value: 41, default_fs: 3 },
        66 => OpInfo { name: "J1NZ", value: 41, default_fs: 4 },
        67 => OpInfo { name: "J1NP", value: 41, default_fs: 5 },
        68 => OpInfo { name: "J2N", value: 42, default_fs: 0 },
        69 => OpInfo { name: "J2Z", value: 42, default_fs: 1 },
        70 => OpInfo { name: "J2P", value: 42, default_fs: 2 },
        71 => OpInfo { name: "J2NN", value: 42, default_fs: 3 },
        72 => OpInfo { name: "J2NZ", value: 42, default_fs: 4 },
        73 => OpInfo { name: "J2NP", value: 42, default_fs: 5 },
        74 => OpInfo { name: "J3N", value: 43, default_fs: 0 },
        75 => OpInfo { name: "J3Z", value: 43, default_fs: 1 },
        76 => OpInfo { name: "J3P", value: 43, default_fs: 2 },
        77 => OpInfo { name: "J3NN", value: 43, default_fs: 3 },
        78 => OpInfo { name: "J3NZ", value: 43, default_fs: 4 },
        79 => OpInfo { name: "J3NP", value: 43, default_fs: 5 },
        80 => OpInfo { name: "J4N", value: 44, default_fs: 0 },
        81 => OpInfo { name: "J4Z", value: 44, default_fs: 1 },
        82 => OpInfo { name: "J4P", value: 44, default_fs: 2 },
        83 => OpInfo { name: "J4NN", value: 44, default_fs: 3 },
        84 => OpInfo { name: "J4NZ", value: 44, default_fs: 4 },
        85 => OpInfo { name: "J4NP", value: 44, default_fs: 5 },
        86 => OpInfo { name: "J5N", value: 45, default_fs: 0 },
        87 => OpInfo { name: "J5Z", value: 45, default_fs: 1 },
        88 => OpInfo { name: "J5P", value: 45, default_fs: 2 },
        89 => OpInfo { name: "J5NN", value: 45, default_fs: 3 },
        90 => OpInfo { name: "J5NZ", value: 45, default_fs: 4 },
        91 => OpInfo { name: "J5NP", value: 45, default_fs: 5 },
        92 => OpInfo { name: "J6N", value: 46, default_fs: 0 },
        93 => OpInfo { name: "J6Z", value: 46, default_fs: 1 },
        94 => OpInfo { name: "J6P", value: 46, default_fs: 2 },
        95 => OpInfo { name: "J6NN", value: 46, default_fs: 3 },
        96 => OpInfo { name: "J6NZ", value: 46, default_fs: 4 },
        97 => OpInfo { name: "J6NP", value: 46, default_fs: 5 },
        98 => OpInfo { name: "JXN", value: 47, default_fs: 0 },
        99 => OpInfo { name: "JXZ", value: 47, default_fs: 1 },
        100 => OpInfo { name: "JXP", value: 47, default_fs: 2 },
        101 => OpInfo { name: "JXNN", value: 47, default_fs: 3 },
        102 => OpInfo { name: "JXNZ", value: 47, default_fs: 4 },
        103 => OpInfo { name: "JXNP", value: 47, default_fs: 5 },
        104 => OpInfo { name: "INCA", value: 48, default_fs: 0 },
        105 => OpInfo { name: "DECA", value: 48, default_fs: 1 },
        106 => OpInfo { name: "ENTA", value: 48, default_fs: 2 },
        107 => OpInfo { name: "ENNA", value: 48, default_fs: 3 },
        108 => OpInfo { name: "INC1", value: 49, default_fs: 0 },
        109 => OpInfo { name: "DEC1", value: 49, default_fs: 1 },
        110 => OpInfo { name: "ENT1", value: 49, default_fs: 2 },
        111 => OpInfo { name: "ENN1", value: 49, default_fs: 3 },
        112 => OpInfo { name: "INC2", value: 50, default_fs: 0 },
        113 => OpInfo { name: "DEC2", value: 50, default_fs: 1 },
        114 => OpInfo { name: "ENT2", value: 50, default_fs: 2 },
        115 => OpInfo { name: "ENN2", value: 50, default_fs: 3 },
        116 => OpInfo { name: "INC3", value: 51, default_fs: 0 },
        117 => OpInfo { name: "DEC3", value: 51, default_fs: 1 },
        118 => OpInfo { name: "ENT3", value: 51, default_fs: 2 },
        119 => OpInfo { name: "ENN3", value: 51, default_fs: 3 },
        120 => OpInfo { name: "INC4", value: 52, default_fs: 0 },
        121 => OpInfo { name: "DEC4", value: 52, default_fs: 1 },
        122 => OpInfo { name: "ENT4", value: 52, default_fs: 2 },
        123 => OpInfo { name: "ENN4", value: 52, default_fs: 3 },
        124 => OpInfo { name: "INC5", value: 53, default_fs: 0 },
        125 => OpInfo { name: "DEC5", value: 53, default_fs: 1 },
        126 => OpInfo { name: "ENT5", value: 53, default_fs: 2 },
        127 => OpInfo { name: "ENN5", value: 53, default_fs: 3 },
        128 => OpInfo { name: "INC6", value: 54, default_fs: 0 },
        129 => OpInfo { name: "DEC6", value: 54, default_fs: 1 },
        130 => OpInfo { name: "ENT6", value: 54, default_fs: 2 },
        131 => OpInfo { name: "ENN6", value: 54, default_fs: 3 },
        132 => OpInfo { name: "INCX", value: 55, default_fs: 0 },
        133 => OpInfo { name: "DECX", value: 55, default_fs: 1 },
        134 => OpInfo { name: "ENTX", value: 55, default_fs: 2 },
        135 => OpInfo { name: "ENNX", value: 55, default_fs: 3 },
        136 => OpInfo { name: "CMPA", value: 56, default_fs: 5 },
        137 => OpInfo { name: "CMP1", value: 57, default_fs: 5 },
        138 => OpInfo { name: "CMP2", value: 58, default_fs: 5 },
        139 => OpInfo { name: "CMP3", value: 59, default_fs: 5 },
        140 => OpInfo { name: "CMP4", value: 60, default_fs: 5 },
        141 => OpInfo { name: "CMP5", value: 61, default_fs: 5 },
        142 => OpInfo { name: "CMP6", value: 62, default_fs: 5 },
        143 => OpInfo { name: "CMPX", value: 63, default_fs: 5 },
        _ => OpInfo { name: "", value: 0, default_fs: 0 },
    }
}

/// What the table says of the mnemonic `op`, if it holds it.
pub fn lookup(op: &str) -> (r: Option<OpInfo>)
    ensures
        r is Some <==> spec_op_info(op@) is Some,
        r matches Some(info) ==> Some(info@) == spec_op_info(op@),
{
    let mut i: usize = 0;
    while i < OP_COUNT
        invariant
            i <= OP_COUNT,
            spec_find_op(op@, i as int) == spec_op_info(op@),
        decreases OP_COUNT - i,
    {
        reveal(spec_find_op);
        let info = op_entry(i);
        if same_text(info.name, op) {
            return Some(info);
        }
        i += 1;
    }
    reveal(spec_find_op);
    None
}

/// Whether `op` is one of EQU, ORIG, CON, ALF and END.
pub fn is_pseudo_op(op: &str) -> (r: bool)
    ensures
        r == spec_is_pseudo_op(op@),
{
    same_text(op, "EQU") || same_text(op, "ORIG") || same_text(op, "CON") || same_text(op, "ALF")
        || same_text(op, "END")
}

} // verus!
