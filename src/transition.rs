use vstd::prelude::*;

verus! {

/// How a navigation was initiated: the low byte of a transition value.
#[derive(Debug, Clone, Copy, PartialEq, Eq, Structural)]
pub enum CoreTransition {
    Link,
    Typed,
    AutoBookmark,
    AutoSubframe,
    ManualSubframe,
    Generated,
    AutoToplevel,
    FormSubmit,
    Reload,
    Keyword,
    KeywordGenerated,
    Unknown,
}

/// The low byte that names a core transition, when it names one.
pub open spec fn core_code(value: u32) -> Option<u8> {
    if value % 256 < 11 {
        Some((value % 256) as u8)
    } else {
        None
    }
}

impl CoreTransition {
    /// The low byte of the transition values of this kind.
    pub open spec fn code(self) -> Option<u8> {
        match self {
            CoreTransition::Link => Some(0),
            CoreTransition::Typed => Some(1),
            CoreTransition::AutoBookmark => Some(2),
            CoreTransition::AutoSubframe => Some(3),
            CoreTransition::ManualSubframe => Some(4),
            CoreTransition::Generated => Some(5),
            CoreTransition::AutoToplevel => Some(6),
            CoreTransition::FormSubmit => Some(7),
            CoreTransition::Reload => Some(8),
            CoreTransition::Keyword => Some(9),
            CoreTransition::KeywordGenerated => Some(10),
            CoreTransition::Unknown => None,
        }
    }

    /// Classifies the low byte of `value`; a byte outside the table is `Unknown`.
    pub fn from_u32(value: u32) -> (r: CoreTransition)
        ensures
            r.code() == core_code(value),
    {
        let low = value & 0xff;
        assert(low == value % 256) by (bit_vector)
            requires low == value & 0xff;
        match low {
            0 => CoreTransition::Link,
            1 => CoreTransition::Typed,
            2 => CoreTransition::AutoBookmark,
            3 => CoreTransition::AutoSubframe,
            4 => CoreTransition::ManualSubframe,
            5 => CoreTransition::Generated,
            6 => CoreTransition::AutoToplevel,
            7 => CoreTransition::FormSubmit,
            8 => CoreTransition::Reload,
            9 => CoreTransition::Keyword,
            10 => CoreTransition::KeywordGenerated,
            _ => CoreTransition::Unknown,
        }
    }

    /// The kind's name, as it is printed.
    pub fn name(&self) -> (r: &'static str)
        ensures
            r@ == match *self {
                CoreTransition::Link => "Link"@,
                CoreTransition::Typed => "Typed"@,
                CoreTransition::AutoBookmark => "AutoBookmark"@,
                CoreTransition::AutoSubframe => "AutoSubframe"@,
                CoreTransition::ManualSubframe => "ManualSubframe"@,
                CoreTransition::Generated => "Generated"@,
                CoreTransition::AutoToplevel => "AutoToplevel"@,
                CoreTransition::FormSubmit => "FormSubmit"@,
                CoreTransition::Reload => "Reload"@,
                CoreTransition::Keyword => "Keyword"@,
                CoreTransition::KeywordGenerated => "KeywordGenerated"@,
                CoreTransition::Unknown => "Unknown"@,
            },
    {
        match *self {
            CoreTransition::Link => "Link",
            CoreTransition::Typed => "Typed",
            CoreTransition::AutoBookmark => "AutoBookmark",
            CoreTransition::AutoSubframe => "AutoSubframe",
            CoreTransition::ManualSubframe => "ManualSubframe",
            CoreTransition::Generated => "Generated",
            CoreTransition::AutoToplevel => "AutoToplevel",
            CoreTransition::FormSubmit => "FormSubmit",
            CoreTransition::Reload => "Reload",
            CoreTransition::Keyword => "Keyword",
            CoreTransition::KeywordGenerated => "KeywordGenerated",
            CoreTransition::Unknown => "Unknown",
        }
    }
}

/// One of the named qualifier bits of a transition value.
#[derive(Debug, Clone, Copy, PartialEq, Eq, Structural)]
pub enum QualifierFlag {
    Blocked,
    ForwardBack,
    FromAddressBar,
    HomePage,
    FromApi,
    ChainStart,
    ChainEnd,
    ClientRedirect,
    ServerRedirect,
}

/// The union of the named qualifier bits.
pub const QUALIFIER_MASK: u32 = 0xFF80_0000;

/// The bits that may carry qualifiers: all but the low byte.
pub const QUALIFIER_BITS: u32 = 0xFFFF_FF00;

impl QualifierFlag {
    pub open spec fn spec_bit(self) -> u32 {
        match self {
            QualifierFlag::Blocked => 0x0080_0000,
            QualifierFlag::ForwardBack => 0x0100_0000,
            QualifierFlag::FromAddressBar => 0x0200_0000,
            QualifierFlag::HomePage => 0x0400_0000,
            QualifierFlag::FromApi => 0x0800_0000,
            QualifierFlag::ChainStart => 0x1000_0000,
            QualifierFlag::ChainEnd => 0x2000_0000,
            QualifierFlag::ClientRedirect => 0x4000_0000,
            QualifierFlag::ServerRedirect => 0x8000_0000,
        }
    }

    /// The flag's bit in a transition value.
    #[verifier::when_used_as_spec(spec_bit)]
    pub fn bit(self) -> (r: u32)
        ensures
            r == self.spec_bit(),
    {
        match self {
            QualifierFlag::Blocked => 0x0080_0000,
            QualifierFlag::ForwardBack => 0x0100_0000,
            QualifierFlag::FromAddressBar => 0x0200_0000,
            QualifierFlag::HomePage => 0x0400_0000,
            QualifierFlag::FromApi => 0x0800_0000,
            QualifierFlag::ChainStart => 0x1000_0000,
            QualifierFlag::ChainEnd => 0x2000_0000,
            QualifierFlag::ClientRedirect => 0x4000_0000,
            QualifierFlag::ServerRedirect => 0x8000_0000,
        }
    }
}

/// The flags whose bits are set in `value`.
pub open spec fn qualifier_set(value: u32) -> Set<QualifierFlag> {
    Set::new(|f: QualifierFlag| value & f.spec_bit() != 0)
}

/// Keeping the named bits of `v` keeps each named bit as it was.
proof fn lemma_keep_named_bit(v: u32, m: u32)
    requires
        m == 0x0080_0000 || m == 0x0100_0000 || m == 0x0200_0000 || m == 0x0400_0000
            || m == 0x0800_0000 || m == 0x1000_0000 || m == 0x2000_0000 || m == 0x4000_0000
            || m == 0x8000_0000,
    ensures
        (v & 0xFFFF_FF00 & 0xFF80_0000) & m == v & m,
{
    assert((v & 0xFFFF_FF00 & 0xFF80_0000) & m == v & m) by (bit_vector)
        requires
            m == 0x0080_0000 || m == 0x0100_0000 || m == 0x0200_0000 || m == 0x0400_0000
                || m == 0x0800_0000 || m == 0x1000_0000 || m == 0x2000_0000 || m == 0x4000_0000
                || m == 0x8000_0000;
}

/// A set of qualifier flags, held as the bits of a transition value.
#[derive(Debug, Clone, Copy, PartialEq, Eq, Structural)]
pub struct Qualifier {
    bits: u32,
}

impl View for Qualifier {
    type V = Set<QualifierFlag>;

    open spec fn view(&self) -> Set<QualifierFlag> {
        qualifier_set(self.spec_bits())
    }
}

impl Qualifier {
    pub closed spec fn spec_bits(&self) -> u32 {
        self.bits
    }

    pub open spec fn wf(&self) -> bool {
        self.spec_bits() & QUALIFIER_MASK == self.spec_bits()
    }

    /// The named flags among the bits above the low byte of `value`; other
    /// bits are dropped.
    pub fn from_u32(value: u32) -> (r: Qualifier)
        ensures
            r.wf(),
            r.spec_bits() == value & QUALIFIER_MASK,
            r@ == qualifier_set(value),
    {
        let bits = value & QUALIFIER_BITS & QUALIFIER_MASK;
        assert(bits == value & 0xFF80_0000 && bits & 0xFF80_0000 == bits) by (bit_vector)
            requires bits == value & 0xFFFF_FF00 & 0xFF80_0000;
        let r = Qualifier { bits };
        assert forall|f: QualifierFlag| #[trigger] (bits & f.spec_bit()) == value & f.spec_bit() by {
            lemma_keep_named_bit(value, f.spec_bit());
        }
        assert(r@ =~= qualifier_set(value));
        r
    }

    /// The bits of the flags held.
    #[verifier::when_used_as_spec(spec_bits)]
    pub fn bits(&self) -> (r: u32)
        ensures
            r == self.spec_bits(),
    {
        self.bits
    }

    pub fn contains(&self, flag: QualifierFlag) -> (r: bool)
        ensures
            r == self@.contains(flag),
    {
        self.bits & flag.bit() != 0
    }

    pub fn is_empty(&self) -> (r: bool)
        requires
            self.wf(),
        ensures
            r == (self@ == Set::<QualifierFlag>::empty()),
    {
        let b = self.bits;
        if b == 0 {
            assert forall|f: QualifierFlag| !self@.contains(f) by {
                let m = f.spec_bit();
                assert(b & m == 0) by (bit_vector)
                    requires b == 0;
            }
            assert(self@ =~= Set::<QualifierFlag>::empty());
            true
        } else {
            assert(b & 0x0080_0000 != 0 || b & 0x0100_0000 != 0 || b & 0x0200_0000 != 0
                || b & 0x0400_0000 != 0 || b & 0x0800_0000 != 0 || b & 0x1000_0000 != 0
                || b & 0x2000_0000 != 0 || b & 0x4000_0000 != 0 || b & 0x8000_0000 != 0)
                by (bit_vector)
                requires b != 0, b & 0xFF80_0000 == b;
            let ghost w = if b & 0x0080_0000 != 0 {
                QualifierFlag::Blocked
            } else if b & 0x0100_0000 != 0 {
                QualifierFlag::ForwardBack
            } else if b & 0x0200_0000 != 0 {
                QualifierFlag::FromAddressBar
            } else if b & 0x0400_0000 != 0 {
                QualifierFlag::HomePage
            } else if b & 0x0800_0000 != 0 {
                QualifierFlag::FromApi
            } else if b & 0x1000_0000 != 0 {
                QualifierFlag::ChainStart
            } else if b & 0x2000_0000 != 0 {
                QualifierFlag::ChainEnd
            } else if b & 0x4000_0000 != 0 {
                QualifierFlag::ClientRedirect
            } else {
                QualifierFlag::ServerRedirect
            };
            assert(self@.contains(w));
            false
        }
    }
}

/// A packed transition value with its two readings.
#[derive(Debug, Clone, Copy)]
pub struct PageTransition {
    pub core_transition: CoreTransition,
    pub qualifiers: Qualifier,
    pub value: u32,
}

impl PageTransition {
    /// The fields are the two readings of `value`.
    pub open spec fn wf(&self) -> bool {
        &&& self.core_transition.code() == core_code(self.value)
        &&& self.qualifiers.wf()
        &&& self.qualifiers.spec_bits() == self.value & QUALIFIER_MASK
        &&& self.qualifiers@ == qualifier_set(self.value)
    }

    pub fn new(value: u32) -> (r: PageTransition)
        ensures
            r.value == value,
            r.wf(),
    {
        let core_transition = CoreTransition::from_u32(value);
        let qualifiers = Qualifier::from_u32(value);
        PageTransition { core_transition, qualifiers, value }
    }
}

} // verus!
