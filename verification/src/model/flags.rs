//! Sets of layers.

use vstd::prelude::*;

verus! {

/// A set of layers, one bit for each.
#[derive(Debug, Clone, Copy, PartialEq, Eq, Hash, Structural)]
pub struct LayerFlags {
    bits: u64,
}

/// Whether bit `layer` of `bits` is set.
pub open spec fn bit(bits: u64, layer: u64) -> bool {
    layer < 64 && (bits >> layer) & 1 == 1
}

impl View for LayerFlags {
    type V = Set<u64>;

    open spec fn view(&self) -> Set<u64> {
        Set::new(|layer: u64| bit(self.spec_bits(), layer))
    }
}

impl Default for LayerFlags {
    fn default() -> (r: Self)
        ensures
            r@ == Set::<u64>::empty(),
            r.spec_bits() == 0,
    {
        LayerFlags::empty()
    }
}

impl LayerFlags {
    /// The bits of this set.
    pub closed spec fn spec_bits(self) -> u64 {
        self.bits
    }

    /// The set of no layers.
    pub fn empty() -> (r: Self)
        ensures
            r@ == Set::<u64>::empty(),
            r.spec_bits() == 0,
    {
        let r = LayerFlags { bits: 0 };
        proof {
            assert forall|layer: u64| !r@.contains(layer) by {
                assert((0u64 >> layer) & 1 == 0) by (bit_vector);
            }
        }
        r
    }

    /// The set of the layers whose bits are set in `bits`.
    pub fn from_bits_retain(bits: u64) -> (r: Self)
        ensures
            r.spec_bits() == bits,
    {
        LayerFlags { bits }
    }

    /// The bits of this set.
    pub fn bits(&self) -> (r: u64)
        ensures
            r == self.spec_bits(),
    {
        self.bits
    }

    /// Whether all layers of `other` are in this set.
    pub fn contains(&self, other: LayerFlags) -> (r: bool)
        ensures
            r == other@.subset_of(self@),
            r == (self.spec_bits() & other.spec_bits() == other.spec_bits()),
    {
        proof {
            lemma_subset(self.bits, other.bits);
            let (a, b) = (self.bits, other.bits);
            if a & b == b {
                assert forall|layer: u64| other@.contains(layer) implies self@.contains(layer) by {
                    assert(bit(b, layer) ==> bit(a, layer));
                }
            } else {
                let layer = choose|layer: u64| bit(b, layer) && !bit(a, layer);
                assert(other@.contains(layer) && !self@.contains(layer));
            }
        }
        self.bits & other.bits == other.bits
    }

    /// The layers that are in this set or in `other`.
    pub fn union(self, other: LayerFlags) -> (r: LayerFlags)
        ensures
            r@ == self@.union(other@),
            r.spec_bits() == self.spec_bits() | other.spec_bits(),
    {
        let r = LayerFlags { bits: self.bits | other.bits };
        proof {
            let (a, b) = (self.bits, other.bits);
            assert forall|layer: u64|
                r@.contains(layer) == self@.union(other@).contains(layer) by {
                assert((((a | b) >> layer) & 1 == 1) == ((a >> layer) & 1 == 1 || (b >> layer) & 1
                    == 1)) by (bit_vector);
            }
            assert(r@ =~= self@.union(other@));
        }
        r
    }

    /// The set of one layer.
    pub fn from_layer(layer: u64) -> (r: LayerFlags)
        requires
            layer < 64,
        ensures
            r@ == set![layer],
            r.spec_bits() == 1u64 << layer,
    {
        let r = LayerFlags::from_bits_retain(1u64 << layer);
        proof {
            assert forall|other: u64| r@.contains(other) == (other == layer) by {
                assert(layer < 64 && other < 64 ==> ((((1u64 << layer) >> other) & 1 == 1) == (other
                    == layer))) by (bit_vector);
            }
            assert(r@ =~= set![layer]);
        }
        r
    }

    /// Whether `layer` is in this set.
    pub fn contains_layer(&self, layer: u64) -> (r: bool)
        requires
            layer < 64,
        ensures
            r == self@.contains(layer),
            r == ((self.spec_bits() >> layer) & 1 == 1),
    {
        let single = LayerFlags::from_layer(layer);
        proof {
            assert(single@.contains(layer));
        }
        self.contains(single)
    }
}

/// The bits of `b` are among those of `a` exactly where every layer of `b` is one of `a`.
proof fn lemma_subset(a: u64, b: u64)
    ensures
        (a & b == b) == (forall|layer: u64| bit(b, layer) ==> bit(a, layer)),
{
    if a & b == b {
        assert forall|layer: u64| bit(b, layer) implies bit(a, layer) by {
            assert(a & b == b && (b >> layer) & 1 == 1 ==> (a >> layer) & 1 == 1) by (bit_vector);
        }
    } else if forall|layer: u64| bit(b, layer) ==> bit(a, layer) {
        lemma_subset_below(a, b, 64);
        assert((a & b) << 0 == b << 0 ==> a & b == b) by (bit_vector);
    }
}

/// Where every layer of `b` is one of `a`, the lowest `n` bits of `b` are among those of `a`.
proof fn lemma_subset_below(a: u64, b: u64, n: u64)
    requires
        n <= 64,
        forall|layer: u64| bit(b, layer) ==> bit(a, layer),
    ensures
        (a & b) << ((64 - n) as u64) == b << ((64 - n) as u64),
    decreases n,
{
    if n == 0 {
        assert((a & b) << 64 == b << 64) by (bit_vector);
    } else {
        let k = (n - 1) as u64;
        let m = (64 - n) as u64;
        lemma_subset_below(a, b, k);
        assert(bit(b, k) ==> bit(a, k));
        assert((a & b) << m == b << m) by (bit_vector)
            requires
                k < 64,
                m == 63 - k,
                (a & b) << ((64 - k) as u64) == b << ((64 - k) as u64),
                (b >> k) & 1 == 1 ==> (a >> k) & 1 == 1,
        ;
    }
}

/// A layer is in a set exactly where its bit is set.
pub proof fn law_membership(flags: LayerFlags, layer: u64)
    ensures
        flags@.contains(layer) <==> layer < 64 && (flags.spec_bits() >> layer) & 1 == 1,
{
}

/// The bits that a set is made from are its bits.
pub proof fn law_bits(bits: u64, flags: LayerFlags, back: u64)
    requires
        call_ensures(LayerFlags::from_bits_retain, (bits,), flags),
        call_ensures(LayerFlags::bits, (&flags,), back),
    ensures
        back == bits,
{
}

/// Whether a set has a layer is what its bits say of that layer, and no set of one layer has
/// another.
pub proof fn law_layers(
    bits: u64,
    flags: LayerFlags,
    layer: u64,
    single: LayerFlags,
    other: u64,
    found: bool,
    met: bool,
)
    requires
        layer < 64,
        other < 64,
        call_ensures(LayerFlags::from_bits_retain, (bits,), flags),
        call_ensures(LayerFlags::contains_layer, (&flags, layer), found),
        call_ensures(LayerFlags::from_layer, (layer,), single),
        call_ensures(LayerFlags::contains_layer, (&single, other), met),
    ensures
        found <==> (bits >> layer) & 1 == 1,
        met <==> other == layer,
{
    assert(layer < 64 && other < 64 ==> ((((1u64 << layer) >> other) & 1 == 1) == (other
        == layer))) by (bit_vector);
}

/// A set contains another exactly where it has every layer of it.
pub proof fn law_contains(flags: LayerFlags, other: LayerFlags, r: bool)
    requires
        call_ensures(LayerFlags::contains, (&flags, other), r),
    ensures
        r <==> forall|layer: u64| other@.contains(layer) ==> flags@.contains(layer),
        r <==> flags.spec_bits() & other.spec_bits() == other.spec_bits(),
{
}

/// A union has a layer exactly where one of the two sets has it.
pub proof fn law_union(a: LayerFlags, b: LayerFlags, r: LayerFlags, layer: u64, found: bool)
    requires
        layer < 64,
        call_ensures(LayerFlags::union, (a, b), r),
        call_ensures(LayerFlags::contains_layer, (&r, layer), found),
    ensures
        found <==> (a.spec_bits() >> layer) & 1 == 1 || (b.spec_bits() >> layer) & 1 == 1,
{
    let (x, y) = (a.spec_bits(), b.spec_bits());
    assert((((x | y) >> layer) & 1 == 1) == ((x >> layer) & 1 == 1 || (y >> layer) & 1 == 1))
        by (bit_vector);
}

/// Sets with the same layers are the same.
pub proof fn law_extensional(a: LayerFlags, b: LayerFlags)
    requires
        a@ == b@,
    ensures
        a == b,
{
    let (x, y) = (a.spec_bits(), b.spec_bits());
    assert forall|layer: u64| bit(x, layer) == bit(y, layer) by {
        assert(a@.contains(layer) == bit(x, layer));
        assert(b@.contains(layer) == bit(y, layer));
    }
    lemma_subset(x, y);
    lemma_subset(y, x);
    assert(x & y == y && y & x == x ==> x == y) by (bit_vector);
}

/// A set made of one layer has that layer and no other.
pub proof fn law_single_layer(flags: LayerFlags, layer: u64, other: u64)
    requires
        layer < 64,
        other < 64,
        flags@ == set![layer],
    ensures
        flags@.contains(other) == (other == layer),
{
}

/// A set has a layer exactly where it contains the set of that layer alone.
pub proof fn law_contains_layer(flags: LayerFlags, single: LayerFlags, layer: u64)
    requires
        layer < 64,
        single@ == set![layer],
    ensures
        single@.subset_of(flags@) == flags@.contains(layer),
{
    assert(single@.contains(layer));
}

/// Every set of layers below the number of bits is the set of some flags.
pub proof fn law_every_set(layers: Set<u64>) -> (flags: LayerFlags)
    requires
        forall|layer: u64| layers.contains(layer) ==> layer < 64,
    ensures
        flags@ == layers,
{
    let bits = lemma_bits_below(layers, 64);
    let flags = LayerFlags { bits };
    assert(flags.spec_bits() == bits);
    assert forall|layer: u64| flags@.contains(layer) == layers.contains(layer) by {
        assert(flags@.contains(layer) == bit(bits, layer));
    }
    assert(flags@ =~= layers);
    flags
}

/// The bits of the layers below `n`.
proof fn lemma_bits_below(layers: Set<u64>, n: u64) -> (bits: u64)
    requires
        n <= 64,
    ensures
        forall|layer: u64| #[trigger] bit(bits, layer) == (layer < n && layers.contains(layer)),
    decreases n,
{
    if n == 0 {
        assert forall|layer: u64| #[trigger] bit(0, layer) == false by {
            assert((0u64 >> layer) & 1 == 0) by (bit_vector);
        }
        0
    } else {
        let k = (n - 1) as u64;
        let below = lemma_bits_below(layers, k);
        if layers.contains(k) {
            let bits = below | (1u64 << k);
            assert forall|layer: u64| #[trigger]
                bit(bits, layer) == (layer < n && layers.contains(layer)) by {
                assert(bit(below, layer) == (layer < k && layers.contains(layer)));
                assert(layer < 64 && k < 64 ==> ((((below | (1u64 << k)) >> layer) & 1 == 1) == ((
                below >> layer) & 1 == 1 || layer == k))) by (bit_vector);
            }
            bits
        } else {
            below
        }
    }
}

} // verus!
