//! Tokens of the assembly language, and their pattern-matching shapes.
use vstd::prelude::*;
use crate::opcode::Opcode;
use crate::register::Register;

verus! {

/// What a token holds.
#[derive(Debug, Clone, PartialEq, Eq)]
pub enum TokenVariant {
    Opcode(Opcode),
    /// A label name, leading `.` included.
    Label(String),
    Unsigned(u16),
    Signed(i16),
    Register(Register),
    Bool(bool),
}

/// A token and the 0-based source line it stands on.
#[derive(Debug, Clone, PartialEq, Eq)]
pub struct Token {
    pub line: usize,
    pub variant: TokenVariant,
}

/// The value of a token, with a label name as its characters.
pub enum TokenValue {
    Opcode(Opcode),
    Label(Seq<char>),
    Unsigned(u16),
    Signed(i16),
    Register(Register),
    Bool(bool),
}

/// A token as a value.
pub struct TokenModel {
    pub line: nat,
    pub value: TokenValue,
}

impl View for TokenVariant {
    type V = TokenValue;

    open spec fn view(&self) -> TokenValue {
        match self {
            TokenVariant::Opcode(o) => TokenValue::Opcode(*o),
            TokenVariant::Label(s) => TokenValue::Label(s@),
            TokenVariant::Unsigned(u) => TokenValue::Unsigned(*u),
            TokenVariant::Signed(i) => TokenValue::Signed(*i),
            TokenVariant::Register(r) => TokenValue::Register(*r),
            TokenVariant::Bool(b) => TokenValue::Bool(*b),
        }
    }
}

impl View for Token {
    type V = TokenModel;

    open spec fn view(&self) -> TokenModel {
        TokenModel { line: self.line as nat, value: self.variant@ }
    }
}

/// The shape of a token: its class, and for an opcode which one.
#[derive(Debug, Clone, Copy, PartialEq, Eq, Structural)]
pub enum AmbiguousToken {
    Opcode(Opcode),
    Register,
    /// An unsigned 16-bit immediate.
    Unsigned,
    /// A signed 16-bit immediate.
    Signed,
    /// A branch target.
    Label,
    Bool,
}

/// The shape of a token value.
pub open spec fn shape_of(v: TokenValue) -> AmbiguousToken {
    match v {
        TokenValue::Opcode(o) => AmbiguousToken::Opcode(o),
        TokenValue::Label(_) => AmbiguousToken::Label,
        TokenValue::Unsigned(_) => AmbiguousToken::Unsigned,
        TokenValue::Signed(_) => AmbiguousToken::Signed,
        TokenValue::Register(_) => AmbiguousToken::Register,
        TokenValue::Bool(_) => AmbiguousToken::Bool,
    }
}

impl AmbiguousToken {
    /// The shape of a token variant.
    pub fn of(value: &TokenVariant) -> (r: AmbiguousToken)
        ensures
            r == shape_of(value@),
    {
        match value {
            TokenVariant::Opcode(opc) => AmbiguousToken::Opcode(*opc),
            TokenVariant::Label(_) => AmbiguousToken::Label,
            TokenVariant::Unsigned(_) => AmbiguousToken::Unsigned,
            TokenVariant::Signed(_) => AmbiguousToken::Signed,
            TokenVariant::Register(_) => AmbiguousToken::Register,
            TokenVariant::Bool(_) => AmbiguousToken::Bool,
        }
    }
}

impl<'a> From<&'a TokenVariant> for AmbiguousToken {
    fn from(value: &'a TokenVariant) -> (r: AmbiguousToken) {
        AmbiguousToken::of(value)
    }
}

impl<'a> vstd::std_specs::convert::FromSpecImpl<&'a TokenVariant> for AmbiguousToken {
    open spec fn obeys_from_spec() -> bool {
        true
    }

    open spec fn from_spec(v: &'a TokenVariant) -> AmbiguousToken {
        shape_of(v@)
    }
}

impl From<TokenVariant> for AmbiguousToken {
    fn from(value: TokenVariant) -> (r: AmbiguousToken) {
        AmbiguousToken::of(&value)
    }
}

impl vstd::std_specs::convert::FromSpecImpl<TokenVariant> for AmbiguousToken {
    open spec fn obeys_from_spec() -> bool {
        true
    }

    open spec fn from_spec(v: TokenVariant) -> AmbiguousToken {
        shape_of(v@)
    }
}

} // verus!
