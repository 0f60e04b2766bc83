//! Token kinds of the intermediate language.

use vstd::prelude::*;

verus! {

/// The number of token kinds that a pattern recognises; `Tok::EOF` has none.
pub const TOKEN_KINDS: usize = 77;

/// A token kind. `EOF` marks the end of the input; every other kind has an
/// index, its position in the table of token patterns.
#[derive(Copy, Clone, Debug, PartialEq, Eq, PartialOrd, Ord)]
pub enum Tok {
    EOF,
    AccountAddressValue,
    U64Value,
    NameValue,
    NameBeginTyValue,
    DotNameValue,
    ByteArrayValue,
    Exclaim,
    ExclaimEqual,
    Percent,
    Amp,
    AmpAmp,
    AmpMut,
    LParen,
    RParen,
    Star,
    Plus,
    Comma,
    Minus,
    Period,
    Slash,
    Colon,
    Semicolon,
    Less,
    LessEqual,
    Equal,
    EqualEqual,
    Greater,
    GreaterEqual,
    Caret,
    Underscore,
    Abort,
    Acquires,
    Address,
    As,
    Assert,
    Bool,
    BorrowGlobal,
    BorrowGlobalMut,
    Break,
    Bytearray,
    Continue,
    Copy,
    CreateAccount,
    Else,
    Exists,
    False,
    Freeze,
    GetGasRemaining,
    GetTxnGasUnitPrice,
    GetTxnMaxGasUnits,
    GetTxnPublicKey,
    GetTxnSender,
    GetTxnSequenceNumber,
    If,
    Import,
    Let,
    Loop,
    Main,
    Module,
    Modules,
    Move,
    MoveFrom,
    MoveToSender,
    Native,
    Public,
    Resource,
    Return,
    Script,
    Struct,
    True,
    U64,
    Unrestricted,
    While,
    LBrace,
    Pipe,
    PipePipe,
    RBrace,
}

impl Tok {
    /// The index of this kind in the table of token patterns, and -1 for `EOF`.
    pub open spec fn index(self) -> int {
        match self {
            Tok::EOF => -1,
            Tok::AccountAddressValue => 0,
            Tok::U64Value => 1,
            Tok::NameValue => 2,
            Tok::NameBeginTyValue => 3,
            Tok::DotNameValue => 4,
            Tok::ByteArrayValue => 5,
            Tok::Exclaim => 6,
            Tok::ExclaimEqual => 7,
            Tok::Percent => 8,
            Tok::Amp => 9,
            Tok::AmpAmp => 10,
            Tok::AmpMut => 11,
            Tok::LParen => 12,
            Tok::RParen => 13,
            Tok::Star => 14,
            Tok::Plus => 15,
            Tok::Comma => 16,
            Tok::Minus => 17,
            Tok::Period => 18,
            Tok::Slash => 19,
            Tok::Colon => 20,
            Tok::Semicolon => 21,
            Tok::Less => 22,
            Tok::LessEqual => 23,
            Tok::Equal => 24,
            Tok::EqualEqual => 25,
            Tok::Greater => 26,
            Tok::GreaterEqual => 27,
            Tok::Caret => 28,
            Tok::Underscore => 29,
            Tok::Abort => 30,
            Tok::Acquires => 31,
            Tok::Address => 32,
            Tok::As => 33,
            Tok::Assert => 34,
            Tok::Bool => 35,
            Tok::BorrowGlobal => 36,
            Tok::BorrowGlobalMut => 37,
            Tok::Break => 38,
            Tok::Bytearray => 39,
            Tok::Continue => 40,
            Tok::Copy => 41,
            Tok::CreateAccount => 42,
            Tok::Else => 43,
            Tok::Exists => 44,
            Tok::False => 45,
            Tok::Freeze => 46,
            Tok::GetGasRemaining => 47,
            Tok::GetTxnGasUnitPrice => 48,
            Tok::GetTxnMaxGasUnits => 49,
            Tok::GetTxnPublicKey => 50,
            Tok::GetTxnSender => 51,
            Tok::GetTxnSequenceNumber => 52,
            Tok::If => 53,
            Tok::Import => 54,
            Tok::Let => 55,
            Tok::Loop => 56,
            Tok::Main => 57,
            Tok::Module => 58,
            Tok::Modules => 59,
            Tok::Move => 60,
            Tok::MoveFrom => 61,
            Tok::MoveToSender => 62,
            Tok::Native => 63,
            Tok::Public => 64,
            Tok::Resource => 65,
            Tok::Return => 66,
            Tok::Script => 67,
            Tok::Struct => 68,
            Tok::True => 69,
            Tok::U64 => 70,
            Tok::Unrestricted => 71,
            Tok::While => 72,
            Tok::LBrace => 73,
            Tok::Pipe => 74,
            Tok::PipePipe => 75,
            Tok::RBrace => 76,
        }
    }

    /// The token kind with the given index.
    pub fn from_usize(value: usize) -> (tok: Tok)
        requires
            value < TOKEN_KINDS,
        ensures
            tok.index() == value,
    {
        match value {
            0 => Tok::AccountAddressValue,
            1 => Tok::U64Value,
            2 => Tok::NameValue,
            3 => Tok::NameBeginTyValue,
            4 => Tok::DotNameValue,
            5 => Tok::ByteArrayValue,
            6 => Tok::Exclaim,
            7 => Tok::ExclaimEqual,
            8 => Tok::Percent,
            9 => Tok::Amp,
            10 => Tok::AmpAmp,
            11 => Tok::AmpMut,
            12 => Tok::LParen,
            13 => Tok::RParen,
            14 => Tok::Star,
            15 => Tok::Plus,
            16 => Tok::Comma,
            17 => Tok::Minus,
            18 => Tok::Period,
            19 => Tok::Slash,
            20 => Tok::Colon,
            21 => Tok::Semicolon,
            22 => Tok::Less,
            23 => Tok::LessEqual,
            24 => Tok::Equal,
            25 => Tok::EqualEqual,
            26 => Tok::Greater,
            27 => Tok::GreaterEqual,
            28 => Tok::Caret,
            29 => Tok::Underscore,
            30 => Tok::Abort,
            31 => Tok::Acquires,
            32 => Tok::Address,
            33 => Tok::As,
            34 => Tok::Assert,
            35 => Tok::Bool,
            36 => Tok::BorrowGlobal,
            37 => Tok::BorrowGlobalMut,
            38 => Tok::Break,
            39 => Tok::Bytearray,
            40 => Tok::Continue,
            41 => Tok::Copy,
            42 => Tok::CreateAccount,
            43 => Tok::Else,
            44 => Tok::Exists,
            45 => Tok::False,
            46 => Tok::Freeze,
            47 => Tok::GetGasRemaining,
            48 => Tok::GetTxnGasUnitPrice,
            49 => Tok::GetTxnMaxGasUnits,
            50 => Tok::GetTxnPublicKey,
            51 => Tok::GetTxnSender,
            52 => Tok::GetTxnSequenceNumber,
            53 => Tok::If,
            54 => Tok::Import,
            55 => Tok::Let,
            56 => Tok::Loop,
            57 => Tok::Main,
            58 => Tok::Module,
            59 => Tok::Modules,
            60 => Tok::Move,
            61 => Tok::MoveFrom,
            62 => Tok::MoveToSender,
            63 => Tok::Native,
            64 => Tok::Public,
            65 => Tok::Resource,
            66 => Tok::Return,
            67 => Tok::Script,
            68 => Tok::Struct,
            69 => Tok::True,
            70 => Tok::U64,
            71 => Tok::Unrestricted,
            72 => Tok::While,
            73 => Tok::LBrace,
            74 => Tok::Pipe,
            75 => Tok::PipePipe,
            _ => Tok::RBrace,
        }
    }
}

} // verus!
