//! A capability set value: a compact description of which privileged
//! operations a contract is permitted to perform.
//!
//! The type offers `none`/`all` constructors, a non-strict subset
//! (permission-implication) check, and a canonical fixed-layout binary
//! codec: one byte per flag, in declared field order, `0x01` for a
//! granted flag and `0x00` for a denied one. Decoding is strict: any
//! other byte value is an `InvalidEncoding` error, and input that runs
//! out before every flag byte is read is an `UnexpectedEof` error.

use vstd::prelude::*;

verus! {

/// The canonical wire marker for a granted flag.
pub const FLAG_SET: u8 = 0x01;

/// The canonical wire marker for a denied flag.
pub const FLAG_CLEAR: u8 = 0x00;

/// The number of bytes in an encoded capability set: one per flag.
pub const ENCODED_LEN: usize = 2;

/// A set of capabilities granted to a contract: a total assignment of a
/// boolean to every flag in the fixed flag list.
#[derive(Copy, Clone, Debug, PartialEq, Eq, Structural)]
pub struct Capabilities {
    /// Does the contract have the capability to write to storage?
    pub write: bool,
    /// Does the contract have the capability to log events?
    pub log: bool,
}

/// An error raised while decoding a capability set from bytes. No other
/// operation on capability sets can fail.
#[derive(Copy, Clone, Debug, PartialEq, Eq, Structural)]
pub enum DecodeError {
    /// A byte at a flag position was neither `FLAG_SET` nor `FLAG_CLEAR`.
    InvalidEncoding,
    /// The input was exhausted before every flag byte was read.
    UnexpectedEof,
}

/// The byte that encodes one flag.
pub open spec fn spec_flag_byte(flag: bool) -> u8 {
    if flag {
        FLAG_SET
    } else {
        FLAG_CLEAR
    }
}

/// What decoding one flag byte yields: strictly `FLAG_SET` or
/// `FLAG_CLEAR`, anything else is rejected.
pub open spec fn spec_decode_flag_byte(byte: u8) -> Result<bool, DecodeError> {
    if byte == FLAG_SET {
        Ok(true)
    } else if byte == FLAG_CLEAR {
        Ok(false)
    } else {
        Err(DecodeError::InvalidEncoding)
    }
}

impl Capabilities {
    /// The capability set with every flag cleared.
    pub open spec fn spec_none() -> Capabilities {
        Capabilities { write: false, log: false }
    }

    /// The capability set with every flag set.
    pub open spec fn spec_all() -> Capabilities {
        Capabilities { write: true, log: true }
    }

    /// `self` is a (non-strict) subset of `other` iff every flag granted
    /// by `self` is also granted by `other`.
    pub open spec fn spec_is_subset(self, other: Capabilities) -> bool {
        (self.write ==> other.write) && (self.log ==> other.log)
    }

    /// The canonical encoding: one byte per flag, `write` first, then
    /// `log`.
    pub open spec fn spec_encode(self) -> Seq<u8> {
        seq![spec_flag_byte(self.write), spec_flag_byte(self.log)]
    }

    /// What decoding yields on any input: the flag bytes are read in
    /// order, each checked strictly, and the first failure aborts the
    /// decode, so no partial value is ever produced.
    pub open spec fn spec_decode(bytes: Seq<u8>) -> Result<Capabilities, DecodeError> {
        if bytes.len() < 1 {
            Err(DecodeError::UnexpectedEof)
        } else {
            match spec_decode_flag_byte(bytes[0]) {
                Err(e) => Err(e),
                Ok(write) => if bytes.len() < 2 {
                    Err(DecodeError::UnexpectedEof)
                } else {
                    match spec_decode_flag_byte(bytes[1]) {
                        Err(e) => Err(e),
                        Ok(log) => Ok(Capabilities { write, log }),
                    }
                },
            }
        }
    }

    /// Create a capability set that has no capabilities.
    pub fn none() -> (r: Self)
        ensures
            r == Capabilities::spec_none(),
    {
        Capabilities { write: false, log: false }
    }

    /// Create a capability set that has all capabilities.
    pub fn all() -> (r: Self)
        ensures
            r == Capabilities::spec_all(),
    {
        Capabilities { write: true, log: true }
    }

    /// Check if this set of capabilities is a (non-strict) subset of
    /// another set of capabilities.
    pub fn is_subset(&self, other_caps: &Capabilities) -> (r: bool)
        ensures
            r == self.spec_is_subset(*other_caps),
    {
        // If other_caps has write cleared while self has write set,
        // then self is not a subset. In all other cases the write flag
        // is compatible.
        if !other_caps.write && self.write {
            return false;
        }
        // Likewise for the log flag.
        if !other_caps.log && self.log {
            return false;
        }
        true
    }

    /// Append the canonical encoding of this capability set to `dest`:
    /// exactly one byte per flag, in the fixed field order.
    pub fn encode_to(&self, dest: &mut Vec<u8>)
        ensures
            final(dest)@ == old(dest)@ + self.spec_encode(),
    {
        dest.push(flag_byte(self.write));
        dest.push(flag_byte(self.log));
    }

    /// The canonical encoding of this capability set as an owned vector.
    pub fn encode(&self) -> (r: Vec<u8>)
        ensures
            r@ == self.spec_encode(),
    {
        let mut r: Vec<u8> = Vec::new();
        self.encode_to(&mut r);
        r
    }

    /// Decode a capability set from the front of `bytes`, consuming
    /// exactly one byte per flag in the fixed field order. Either every
    /// flag byte is read and valid and a total capability set is
    /// returned, or the decode fails with the error of the first flag
    /// position that could not be read.
    pub fn decode(bytes: &[u8]) -> (r: Result<Self, DecodeError>)
        ensures
            r == Capabilities::spec_decode(bytes@),
    {
        if bytes.len() < 1 {
            return Err(DecodeError::UnexpectedEof);
        }
        let write = match decode_flag_byte(bytes[0]) {
            Ok(flag) => flag,
            Err(e) => {
                return Err(e);
            },
        };
        if bytes.len() < 2 {
            return Err(DecodeError::UnexpectedEof);
        }
        let log = match decode_flag_byte(bytes[1]) {
            Ok(flag) => flag,
            Err(e) => {
                return Err(e);
            },
        };
        Ok(Capabilities { write, log })
    }
}

impl Default for Capabilities {
    /// The default capability set grants nothing: it equals `none()`.
    fn default() -> (r: Self)
        ensures
            r == Capabilities::spec_none(),
    {
        Self::none()
    }
}

/// Encode one flag as its canonical wire byte.
pub fn flag_byte(flag: bool) -> (r: u8)
    ensures
        r == spec_flag_byte(flag),
{
    if flag {
        FLAG_SET
    } else {
        FLAG_CLEAR
    }
}

/// Decode one flag byte strictly: `FLAG_SET` means granted, `FLAG_CLEAR`
/// means denied, and any other value is an invalid encoding.
pub fn decode_flag_byte(byte: u8) -> (r: Result<bool, DecodeError>)
    ensures
        r == spec_decode_flag_byte(byte),
{
    if byte == FLAG_SET {
        Ok(true)
    } else if byte == FLAG_CLEAR {
        Ok(false)
    } else {
        Err(DecodeError::InvalidEncoding)
    }
}

/// Round-trip law: decoding a canonical encoding succeeds and yields the
/// value that was encoded, for every capability set. In particular,
/// `encode` never produces bytes that `decode` rejects.
pub proof fn lemma_encode_decode_round_trip(x: Capabilities)
    ensures
        Capabilities::spec_decode(x.spec_encode()) == Ok::<Capabilities, DecodeError>(x),
{
}

/// The subset relation is reflexive: every capability set is a subset of
/// itself.
pub proof fn lemma_is_subset_reflexive(x: Capabilities)
    ensures
        x.spec_is_subset(x),
{
}

/// The subset relation is antisymmetric: two capability sets that are
/// subsets of each other are equal.
pub proof fn lemma_is_subset_antisymmetric(x: Capabilities, y: Capabilities)
    requires
        x.spec_is_subset(y),
        y.spec_is_subset(x),
    ensures
        x == y,
{
}

/// The subset relation is transitive.
pub proof fn lemma_is_subset_transitive(x: Capabilities, y: Capabilities, z: Capabilities)
    requires
        x.spec_is_subset(y),
        y.spec_is_subset(z),
    ensures
        x.spec_is_subset(z),
{
}

/// The empty capability set is a subset of every capability set, and
/// every capability set is a subset of the full one.
pub proof fn lemma_subset_bounds(x: Capabilities)
    ensures
        Capabilities::spec_none().spec_is_subset(x),
        x.spec_is_subset(Capabilities::spec_all()),
{
}

/// The empty and the full capability set differ, since at least one flag
/// exists.
pub proof fn lemma_none_neq_all()
    ensures
        Capabilities::spec_none() != Capabilities::spec_all(),
{
}

} // verus!
