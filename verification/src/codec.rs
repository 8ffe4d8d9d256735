//! A closed enumeration and its stable integer codec.
//!
//! Each recorded value type maps its variants to stable integer codes.
//! Encoding is total; decoding validates the code and reports an unknown
//! one together with the enumeration's name.

use vstd::prelude::*;

verus! {

/// Failure to decode an enumeration-coded integer.
#[derive(Clone, Copy, Debug, PartialEq, Eq)]
pub enum DecodeError {
    /// The integer is outside the enumeration's defined set of codes.
    UnknownValue { enum_name: &'static str, value: u64 },
}

impl DecodeError {
    /// The offending integer.
    pub open spec fn spec_value(self) -> u64 {
        match self {
            DecodeError::UnknownValue { value, .. } => value,
        }
    }

    /// The name of the enumeration whose decoding failed.
    pub open spec fn spec_enum_name(self) -> Seq<char> {
        match self {
            DecodeError::UnknownValue { enum_name, .. } => enum_name@,
        }
    }
}

/// A closed enumeration with a stable integer code per variant.
///
/// Encoding is total and deterministic; decoding returns the unique variant
/// of a defined code and rejects every other integer with a [`DecodeError`]
/// naming the enumeration. Any closed enumeration can implement this trait
/// to reuse the same serialization contract.
pub trait IntCodec: Sized {
    /// The code of each variant.
    spec fn spec_code(self) -> u64;

    /// The variant of each defined code; `None` outside the defined set.
    spec fn spec_of_code(code: u64) -> Option<Self>;

    /// The enumeration's name, carried by decode errors.
    spec fn spec_name() -> Seq<char>;

    /// Decoding inverts encoding: every variant is the decoding of its code.
    proof fn lemma_code_roundtrip(self)
        ensures
            Self::spec_of_code(self.spec_code()) == Some(self),
    ;

    /// Encode this variant as its integer code.
    fn encode(&self) -> (code: u64)
        ensures
            code == self.spec_code(),
    ;

    /// Decode an integer code, rejecting integers outside the defined set.
    fn decode(code: u64) -> (r: Result<Self, DecodeError>)
        ensures
            r is Ok <==> Self::spec_of_code(code) is Some,
            r matches Ok(v) ==> Self::spec_of_code(code) == Some(v),
            r matches Err(e) ==> e.spec_value() == code && e.spec_enum_name()
                == Self::spec_name(),
    ;
}

/// A digital pin's signal level: the closed two-valued enumeration.
#[derive(Clone, Copy, Debug, PartialEq, Eq, Structural)]
pub enum Level {
    Low,
    High,
}

impl IntCodec for Level {
    open spec fn spec_code(self) -> u64 {
        match self {
            Level::Low => 0,
            Level::High => 1,
        }
    }

    open spec fn spec_of_code(code: u64) -> Option<Level> {
        if code == 0 {
            Some(Level::Low)
        } else if code == 1 {
            Some(Level::High)
        } else {
            None
        }
    }

    open spec fn spec_name() -> Seq<char> {
        "Level"@
    }

    proof fn lemma_code_roundtrip(self) {
    }

    fn encode(&self) -> (code: u64)
        ensures
            code == self.spec_code(),
    {
        match self {
            Level::Low => 0,
            Level::High => 1,
        }
    }

    fn decode(code: u64) -> (r: Result<Level, DecodeError>)
        ensures
            r is Ok <==> Level::spec_of_code(code) is Some,
            r matches Ok(v) ==> Level::spec_of_code(code) == Some(v),
            r matches Err(e) ==> e.spec_value() == code && e.spec_enum_name()
                == Level::spec_name(),
    {
        if code == 0 {
            Ok(Level::Low)
        } else if code == 1 {
            Ok(Level::High)
        } else {
            Err(DecodeError::UnknownValue { enum_name: "Level", value: code })
        }
    }
}

/// Round trip: for every variant, decoding its encoding yields the variant.
pub proof fn lemma_encode_decode_roundtrip<T: IntCodec>(v: T)
    ensures
        T::spec_of_code(v.spec_code()) == Some(v),
{
    v.lemma_code_roundtrip();
}

/// Rejection: every integer outside `{0, 1}` has no decoding as a level.
pub proof fn lemma_decode_rejects_unknown(code: u64)
    requires
        code != 0,
        code != 1,
    ensures
        Level::spec_of_code(code) is None,
{
}

} // verus!
