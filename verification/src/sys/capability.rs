//! The capability sets of a thread.
//!
//! Each of the three sets has 64 flags. The kernel takes and gives them as
//! two records of 32-bit words: the first holds flags 0 to 31 of every set,
//! the second flags 32 to 63.

use vstd::prelude::*;

verus! {

/// One record of the kernel's layout: 32 flags of each set.
#[allow(non_camel_case_types)]
#[derive(Clone, Copy, Debug)]
pub struct cap_user_data_t {
    pub effective: u32,
    pub permitted: u32,
    pub inheritable: u32,
}

/// A set of capability flags: bit `i` is flag `i`.
#[derive(Clone, Copy, Debug, PartialEq, Eq, Structural)]
pub struct CapabilityFlags {
    pub bits: u64,
}

/// The three sets.
#[derive(Clone, Copy, Debug, PartialEq, Eq, Structural)]
pub enum CapabilityKind {
    Effective,
    Permitted,
    Inheritable,
}

/// The word of `record` that belongs to the set `kind`.
pub open spec fn word(record: cap_user_data_t, kind: CapabilityKind) -> u32 {
    match kind {
        CapabilityKind::Effective => record.effective,
        CapabilityKind::Permitted => record.permitted,
        CapabilityKind::Inheritable => record.inheritable,
    }
}

/// The 64 flags whose upper half is `high` and whose lower half is `low`.
pub open spec fn join(high: u32, low: u32) -> u64 {
    (high * 0x1_0000_0000 + low) as u64
}

/// Flags 32 to 63 of `bits`.
pub open spec fn upper(bits: u64) -> u32 {
    (bits / 0x1_0000_0000) as u32
}

/// Flags 0 to 31 of `bits`.
pub open spec fn lower(bits: u64) -> u32 {
    (bits % 0x1_0000_0000) as u32
}

/// Splitting 64 flags into two words and joining the words gives the flags
/// back.
pub proof fn lemma_join_split(bits: u64)
    ensures
        join(upper(bits), lower(bits)) == bits,
{
}

/// Joining two words and splitting the result gives the words back, so two
/// sets of flags are the same only if their words are.
pub proof fn lemma_split_join(high: u32, low: u32)
    ensures
        upper(join(high, low)) == high,
        lower(join(high, low)) == low,
{
}

/// All three sets of a thread, in the kernel's layout.
#[derive(Clone, Copy, Debug)]
pub struct Capabilities {
    pub inner: [cap_user_data_t; 2],
}

impl Capabilities {
    /// The flags of the set `kind`.
    pub open spec fn flags(self, kind: CapabilityKind) -> u64 {
        join(word(self.inner[1], kind), word(self.inner[0], kind))
    }

    /// No flag in any set.
    #[inline]
    pub fn empty() -> (caps: Self)
        ensures
            forall|kind: CapabilityKind| caps.flags(kind) == 0,
            forall|kind: CapabilityKind| #[trigger] word(caps.inner[1], kind) == 0,
            forall|kind: CapabilityKind| #[trigger] word(caps.inner[0], kind) == 0,
    {
        let none = cap_user_data_t { effective: 0, permitted: 0, inheritable: 0 };
        Capabilities { inner: [none, none] }
    }

    /// The flags of the set `kind`.
    #[inline]
    pub fn get(&self, kind: CapabilityKind) -> (flags: CapabilityFlags)
        ensures
            flags.bits == self.flags(kind),
    {
        let (ms, ls) = match kind {
            CapabilityKind::Effective => (self.inner[1].effective, self.inner[0].effective),
            CapabilityKind::Permitted => (self.inner[1].permitted, self.inner[0].permitted),
            CapabilityKind::Inheritable => (self.inner[1].inheritable, self.inner[0].inheritable),
        };
        assert(((ms as u64) << 32) | (ls as u64) == ms * 0x1_0000_0000 + ls) by (bit_vector);
        CapabilityFlags { bits: ((ms as u64) << 32) | ls as u64 }
    }

    /// Makes `caps` the flags of the set `kind`; the other sets stay.
    #[inline]
    pub fn set(&mut self, kind: CapabilityKind, caps: CapabilityFlags)
        ensures
            final(self).flags(kind) == caps.bits,
            forall|other: CapabilityKind|
                other != kind ==> final(self).flags(other) == old(self).flags(other),
            word(final(self).inner[1], kind) == upper(caps.bits),
            word(final(self).inner[0], kind) == lower(caps.bits),
            forall|other: CapabilityKind|
                other != kind ==> #[trigger] word(final(self).inner[1], other) == word(
                    old(self).inner[1],
                    other,
                ),
            forall|other: CapabilityKind|
                other != kind ==> #[trigger] word(final(self).inner[0], other) == word(
                    old(self).inner[0],
                    other,
                ),
    {
        let bits = caps.bits;
        let ms = #[verifier::truncate] ((bits >> 32) as u32);
        let ls = #[verifier::truncate] (bits as u32);
        assert(ms == bits / 0x1_0000_0000 && ls == bits % 0x1_0000_0000) by (bit_vector)
            requires
                ms == (bits >> 32) as u32,
                ls == bits as u32,
        ;
        match kind {
            CapabilityKind::Effective => {
                self.inner[1].effective = ms;
                self.inner[0].effective = ls;
            },
            CapabilityKind::Permitted => {
                self.inner[1].permitted = ms;
                self.inner[0].permitted = ls;
            },
            CapabilityKind::Inheritable => {
                self.inner[1].inheritable = ms;
                self.inner[0].inheritable = ls;
            },
        }
    }

    /// Makes `caps` the flags of every set.
    #[inline]
    pub fn set_all(&mut self, caps: CapabilityFlags)
        ensures
            forall|kind: CapabilityKind| final(self).flags(kind) == caps.bits,
            forall|kind: CapabilityKind|
                #[trigger] word(final(self).inner[1], kind) == upper(caps.bits),
            forall|kind: CapabilityKind|
                #[trigger] word(final(self).inner[0], kind) == lower(caps.bits),
    {
        self.set(CapabilityKind::Effective, caps);
        self.set(CapabilityKind::Permitted, caps);
        self.set(CapabilityKind::Inheritable, caps);
    }
}

} // verus!
