use vstd::prelude::*;

verus! {

/// An enum for handling byte order.
///
/// Exactly one of the two variants holds at any time; there is no
/// "unknown" state. Values are plain, copyable and comparable.
#[derive(Debug, Copy, Clone, PartialEq, Eq, Hash, Structural)]
pub enum Endian {
    Big,
    Little,
}

/// Relies on `u16::to_ne_bytes`: std documents that it returns the memory
/// representation of the integer as a byte array in native byte order, so
/// for `1u16` the first byte is `1` exactly on a little-endian target and
/// `0` on a big-endian one. `vstd::endian::endianness()` abstracts that
/// same hardware property.
#[verifier::external_body]
fn native_order_probe() -> (r: u8)
    ensures
        r == 1 <==> vstd::endian::endianness() == vstd::endian::Endian::Little,
{
    1u16.to_ne_bytes()[0]
}

impl Endian {
    /// The byte order of the current target, at the specification level:
    /// the image of vstd's abstraction of the hardware's endianness.
    pub open spec fn native_spec() -> Endian {
        match vstd::endian::endianness() {
            vstd::endian::Endian::Big => Endian::Big,
            vstd::endian::Endian::Little => Endian::Little,
        }
    }

    /// The byte order of the current target.
    pub fn native() -> (r: Endian)
        ensures
            r == Endian::native_spec(),
    {
        if native_order_probe() == 1 {
            Endian::Little
        } else {
            Endian::Big
        }
    }

    /// Tests for `self` and `other` values to be equal: true iff the two
    /// are the same variant, agreeing with `==` on all inputs.
    pub fn is(self, other: Self) -> (r: bool)
        ensures
            r == (self == other),
    {
        match (self, other) {
            (Endian::Big, Endian::Big) => true,
            (Endian::Little, Endian::Little) => true,
            _ => false,
        }
    }

    /// The opposite variant of `self`.
    pub open spec fn reverse_spec(self) -> Endian {
        match self {
            Endian::Big => Endian::Little,
            Endian::Little => Endian::Big,
        }
    }

    /// Returns a new `Endian` value which is different from `self`:
    /// `Big` becomes `Little` and `Little` becomes `Big`.
    pub fn reverse(self) -> (r: Self)
        ensures
            r == self.reverse_spec(),
            r != self,
    {
        match self {
            Endian::Big => Endian::Little,
            Endian::Little => Endian::Big,
        }
    }

    /// Returns the native byte order reversed if `reverse` is true,
    /// otherwise the native byte order unchanged.
    pub fn native_or_reversed(reverse: bool) -> (r: Self)
        ensures
            reverse ==> r == Endian::native_spec().reverse_spec(),
            !reverse ==> r == Endian::native_spec(),
    {
        if reverse {
            Endian::native().reverse()
        } else {
            Endian::native()
        }
    }
}

/// Reversing a byte order twice yields the original order, for every value.
pub proof fn lemma_reverse_involutive(x: Endian)
    ensures
        x.reverse_spec().reverse_spec() == x,
{
}

/// Reversing a byte order always yields the other variant: no byte order
/// is its own reverse.
pub proof fn lemma_reverse_distinct(x: Endian)
    ensures
        x.reverse_spec() != x,
{
}

/// Reversing the native byte order always yields the non-native order.
pub proof fn lemma_native_reverse_distinct()
    ensures
        Endian::native_spec().reverse_spec() != Endian::native_spec(),
{
    lemma_reverse_distinct(Endian::native_spec());
}

} // verus!
