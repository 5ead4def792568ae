//! The optional parts of the protocol that a peer may support.
use vstd::prelude::*;

verus! {

/// The bit of [`ProtocolFeatures`] that stands for text messages.
pub const MESSAGE_SUPPORT_BIT: u32 = 0b0001;

/// Every feature bit this library knows of.
pub const ALL_FEATURE_BITS: u32 = 0b0001;

/// A set of protocol features, held as bits.
#[derive(Clone, Copy, Debug, PartialEq, Eq, Structural)]
pub struct ProtocolFeatures {
    bits: u32,
}

impl View for ProtocolFeatures {
    type V = u32;

    closed spec fn view(&self) -> u32 {
        self.bits
    }
}

impl ProtocolFeatures {
    /// No feature.
    pub closed spec fn spec_empty() -> ProtocolFeatures {
        ProtocolFeatures { bits: 0 }
    }

    /// The features whose bits are `bits`.
    pub closed spec fn spec_from_bits(bits: u32) -> ProtocolFeatures {
        ProtocolFeatures { bits }
    }

    pub proof fn lemma_spec_from_bits(bits: u32)
        ensures
            ProtocolFeatures::spec_from_bits(bits)@ == bits,
    {
    }

    pub proof fn lemma_spec_empty()
        ensures
            ProtocolFeatures::spec_empty()@ == 0,
    {
    }

    /// No feature (`NONE`).
    pub fn empty() -> (r: ProtocolFeatures)
        ensures
            r@ == 0,
            r == ProtocolFeatures::spec_empty(),
    {
        ProtocolFeatures { bits: 0 }
    }

    /// Text messages (`MESSAGE_SUPPORT`).
    pub fn message_support() -> (r: ProtocolFeatures)
        ensures
            r@ == MESSAGE_SUPPORT_BIT,
            r == ProtocolFeatures::spec_from_bits(MESSAGE_SUPPORT_BIT),
    {
        ProtocolFeatures { bits: MESSAGE_SUPPORT_BIT }
    }

    /// The features whose bits are set in `bits`, dropping unknown bits.
    pub fn from_bits_truncate(bits: u32) -> (r: ProtocolFeatures)
        ensures
            r@ == bits & ALL_FEATURE_BITS,
            r == ProtocolFeatures::spec_from_bits(bits & ALL_FEATURE_BITS),
    {
        ProtocolFeatures { bits: bits & ALL_FEATURE_BITS }
    }

    pub fn bits(&self) -> (r: u32)
        ensures
            r == self@,
    {
        self.bits
    }

    /// Whether every feature of `other` is in `self`.
    pub fn contains(&self, other: &ProtocolFeatures) -> (r: bool)
        ensures
            r == (self@ & other@ == other@),
    {
        (self.bits & other.bits) == other.bits
    }

    /// The features of both.
    pub fn union(&self, other: &ProtocolFeatures) -> (r: ProtocolFeatures)
        ensures
            r@ == self@ | other@,
    {
        ProtocolFeatures { bits: self.bits | other.bits }
    }
}

impl Default for ProtocolFeatures {
    /// Every feature this library implements: text messages.
    fn default() -> (r: ProtocolFeatures)
        ensures
            r@ == MESSAGE_SUPPORT_BIT,
            r == ProtocolFeatures::spec_from_bits(MESSAGE_SUPPORT_BIT),
    {
        ProtocolFeatures::message_support()
    }
}

} // verus!
