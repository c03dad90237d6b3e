use vstd::prelude::*;

verus! {

/// The three attributes a property can carry, as a mathematical value.
pub struct AttributeModel {
    pub readonly: bool,
    pub dontenum: bool,
    pub dontconf: bool,
}

/// The C value of a set of property attributes: each attribute adds its own bit.
pub open spec fn attribute_bits(m: AttributeModel) -> int {
    (if m.readonly { 1int } else { 0int }) + (if m.dontenum { 2int } else { 0int }) + (if m.dontconf {
        4int
    } else {
        0int
    })
}

/// The attributes that the bits of `b` switch on; bits beyond the three known ones are ignored.
pub open spec fn attributes_of_bits(b: i32) -> AttributeModel {
    AttributeModel { readonly: b & 1 == 1, dontenum: b & 2 == 2, dontconf: b & 4 == 4 }
}

/// Attributes of a property that is defined on an object or in the global
/// environment.
#[derive(Clone, Copy, Debug, PartialEq, Eq, Structural, Hash)]
pub struct PropertyAttributes {
    bits: i32,
}

impl View for PropertyAttributes {
    type V = AttributeModel;

    closed spec fn view(&self) -> AttributeModel {
        attributes_of_bits(self.bits)
    }
}

proof fn lemma_attribute_bits(b: i32)
    requires
        0 <= b < 8,
    ensures
        attribute_bits(attributes_of_bits(b)) == b,
{
    assert(b == (b & 1) + (b & 2) + (b & 4)) by (bit_vector)
        requires
            0 <= b < 8,
    ;
    assert((b & 1 == 1 || b & 1 == 0) && (b & 2 == 2 || b & 2 == 0) && (b & 4 == 4 || b & 4 == 0))
        by (bit_vector);
}

impl PropertyAttributes {
    #[verifier::type_invariant]
    spec fn known_bits_only(self) -> bool {
        0 <= self.bits < 8
    }

    /// No attribute.
    pub fn empty() -> (r: Self)
        ensures
            r@ == (AttributeModel { readonly: false, dontenum: false, dontconf: false }),
    {
        proof {
            assert((0i32 & 1 == 0) && (0i32 & 2 == 0) && (0i32 & 4 == 0)) by (bit_vector);
        }
        PropertyAttributes { bits: 0 }
    }

    /// Every attribute.
    pub fn all() -> (r: Self)
        ensures
            r@ == (AttributeModel { readonly: true, dontenum: true, dontconf: true }),
    {
        proof {
            assert((7i32 & 1 == 1) && (7i32 & 2 == 2) && (7i32 & 4 == 4)) by (bit_vector);
        }
        PropertyAttributes { bits: 7 }
    }

    /// Read only property attribute: the property cannot be assigned another value.
    pub fn readonly() -> (r: Self)
        ensures
            r@ == (AttributeModel { readonly: true, dontenum: false, dontconf: false }),
    {
        proof {
            assert((1i32 & 1 == 1) && (1i32 & 2 == 0) && (1i32 & 4 == 0)) by (bit_vector);
        }
        PropertyAttributes { bits: 1 }
    }

    /// The property is left out of enumerations.
    pub fn dontenum() -> (r: Self)
        ensures
            r@ == (AttributeModel { readonly: false, dontenum: true, dontconf: false }),
    {
        proof {
            assert((2i32 & 1 == 0) && (2i32 & 2 == 2) && (2i32 & 4 == 0)) by (bit_vector);
        }
        PropertyAttributes { bits: 2 }
    }

    /// The property cannot be deleted or reconfigured.
    pub fn dontconf() -> (r: Self)
        ensures
            r@ == (AttributeModel { readonly: false, dontenum: false, dontconf: true }),
    {
        proof {
            assert((4i32 & 1 == 0) && (4i32 & 2 == 0) && (4i32 & 4 == 4)) by (bit_vector);
        }
        PropertyAttributes { bits: 4 }
    }

    /// The C value that is handed to the interpreter.
    pub fn bits(&self) -> (r: i32)
        ensures
            r == attribute_bits(self@),
    {
        proof {
            use_type_invariant(self);
            lemma_attribute_bits(self.bits);
        }
        self.bits
    }

    /// The attributes whose bits are exactly `bits`, or `None` where `bits`
    /// holds a bit that stands for no attribute.
    pub fn from_bits(bits: i32) -> (r: Option<Self>)
        ensures
            r is Some <==> 0 <= bits < 8,
            r matches Some(a) ==> attribute_bits(a@) == bits && a@ == attributes_of_bits(bits),
    {
        if 0 <= bits && bits < 8 {
            proof {
                lemma_attribute_bits(bits);
            }
            Some(PropertyAttributes { bits })
        } else {
            None
        }
    }

    /// The attributes whose bits are set in `bits`; other bits are dropped.
    pub fn from_bits_truncate(bits: i32) -> (r: Self)
        ensures
            r@ == attributes_of_bits(bits),
    {
        let b = bits & 7;
        proof {
            assert(0 <= b < 8 && (b & 1 == bits & 1) && (b & 2 == bits & 2) && (b & 4 == bits & 4))
                by (bit_vector)
                requires
                    b == bits & 7,
            ;
        }
        PropertyAttributes { bits: b }
    }

    /// Whether every attribute of `other` is also in `self`.
    pub fn contains(&self, other: &Self) -> (r: bool)
        ensures
            r == ((other@.readonly ==> self@.readonly) && (other@.dontenum ==> self@.dontenum) && (
            other@.dontconf ==> self@.dontconf)),
    {
        proof {
            use_type_invariant(self);
            use_type_invariant(other);
        }
        let a = self.bits;
        let b = other.bits;
        proof {
            assert(((a & b) == b) == (((b & 1 == 1) ==> (a & 1 == 1)) && ((b & 2 == 2) ==> (a & 2
                == 2)) && ((b & 4 == 4) ==> (a & 4 == 4)))) by (bit_vector)
                requires
                    0 <= a < 8,
                    0 <= b < 8,
            ;
        }
        (a & b) == b
    }

    /// The attributes that are in `self`, in `other` or in both.
    pub fn union(&self, other: &Self) -> (r: Self)
        ensures
            r@ == (AttributeModel {
                readonly: self@.readonly || other@.readonly,
                dontenum: self@.dontenum || other@.dontenum,
                dontconf: self@.dontconf || other@.dontconf,
            }),
    {
        proof {
            use_type_invariant(self);
            use_type_invariant(other);
        }
        let a = self.bits;
        let b = other.bits;
        let c = a | b;
        proof {
            assert(0 <= c < 8 && ((c & 1 == 1) == ((a & 1 == 1) || (b & 1 == 1))) && ((c & 2 == 2)
                == ((a & 2 == 2) || (b & 2 == 2))) && ((c & 4 == 4) == ((a & 4 == 4) || (b & 4
                == 4)))) by (bit_vector)
                requires
                    0 <= a < 8,
                    0 <= b < 8,
                    c == a | b,
            ;
        }
        PropertyAttributes { bits: c }
    }
}

/// Flags that govern a newly created interpreter state.
#[derive(Clone, Copy, Debug, PartialEq, Eq, Structural, Hash)]
pub struct StateFlags {
    bits: i32,
}

impl View for StateFlags {
    /// Whether the state compiles and runs code in strict mode.
    type V = bool;

    closed spec fn view(&self) -> bool {
        self.bits == 1
    }
}

impl StateFlags {
    #[verifier::type_invariant]
    spec fn known_bits_only(self) -> bool {
        0 <= self.bits < 2
    }

    /// No flag: code runs in the default, non-strict mode.
    pub fn empty() -> (r: Self)
        ensures
            r@ == false,
    {
        StateFlags { bits: 0 }
    }

    /// Compile and run code using ES5 strict mode.
    pub fn strict() -> (r: Self)
        ensures
            r@ == true,
    {
        StateFlags { bits: 1 }
    }

    /// The C value that is handed to the interpreter.
    pub fn bits(&self) -> (r: i32)
        ensures
            r == (if self@ { 1i32 } else { 0i32 }),
    {
        proof {
            use_type_invariant(self);
        }
        self.bits
    }

    /// The flags whose bits are exactly `bits`, or `None` where `bits` holds
    /// a bit that stands for no flag.
    pub fn from_bits(bits: i32) -> (r: Option<Self>)
        ensures
            r is Some <==> (bits == 0 || bits == 1),
            r matches Some(f) ==> f@ == (bits == 1),
    {
        if bits == 0 || bits == 1 {
            Some(StateFlags { bits })
        } else {
            None
        }
    }

    /// The flags whose bits are set in `bits`; other bits are dropped.
    pub fn from_bits_truncate(bits: i32) -> (r: Self)
        ensures
            r@ == (bits & 1 == 1),
    {
        let b = bits & 1;
        proof {
            assert(b == 0 || b == 1) by (bit_vector)
                requires
                    b == bits & 1,
            ;
        }
        StateFlags { bits: b }
    }

    /// Whether every flag of `other` is also in `self`.
    pub fn contains(&self, other: &Self) -> (r: bool)
        ensures
            r == (other@ ==> self@),
    {
        proof {
            use_type_invariant(self);
            use_type_invariant(other);
        }
        other.bits == 0 || self.bits == 1
    }
}

} // verus!
