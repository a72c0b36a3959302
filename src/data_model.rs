use vstd::prelude::*;

verus! {

/// The size of a type.
#[derive(Copy, Clone, Debug, PartialEq, Eq, Structural, Hash)]
#[allow(missing_docs)]
pub enum Size {
    U8,
    U16,
    U32,
    U64,
}

impl Size {
    /// The number of bits of this width.
    pub open spec fn spec_bits(self) -> nat {
        match self {
            Size::U8 => 8,
            Size::U16 => 16,
            Size::U32 => 32,
            Size::U64 => 64,
        }
    }

    /// The number of bytes of this width, a byte being 8 bits.
    pub open spec fn spec_bytes(self) -> nat {
        match self {
            Size::U8 => 1,
            Size::U16 => 2,
            Size::U32 => 4,
            Size::U64 => 8,
        }
    }

    /// Return the number of bits this `Size` represents.
    pub fn bits(self) -> (r: u8)
        ensures
            r as nat == self.spec_bits(),
    {
        match self {
            Size::U8 => 8,
            Size::U16 => 16,
            Size::U32 => 32,
            Size::U64 => 64,
        }
    }

    /// Return the number of bytes in a size.
    ///
    /// A byte is assumed to be 8 bits.
    pub fn bytes(self) -> (r: u8)
        ensures
            r as nat == self.spec_bytes(),
            r as nat * 8 == self.spec_bits(),
    {
        match self {
            Size::U8 => 1,
            Size::U16 => 2,
            Size::U32 => 4,
            Size::U64 => 8,
        }
    }
}

/// Every width is a whole number of bytes, and its byte count is its bit count over eight.
pub proof fn lemma_bytes_are_bits_over_eight(s: Size)
    ensures
        s.spec_bytes() == s.spec_bits() / 8,
        s.spec_bits() % 8 == 0,
{
}

/// The C data model used on a target.
///
/// See also https://en.cppreference.com/w/c/language/arithmetic_types
#[derive(Copy, Clone, Debug, PartialEq, Eq, Structural, Hash)]
#[non_exhaustive]
pub enum CDataModel {
    /// The data model used most commonly on Win16. `long` and `pointer` are 32 bits.
    LP32,
    /// The data model used most commonly on Win32 and 32-bit Unix systems.
    ///
    /// `int`, `long`, and `pointer` are all 32 bits.
    ILP32,
    /// The data model used most commonly on Win64
    ///
    /// `long long`, and `pointer` are 64 bits.
    LLP64,
    /// The data model used most commonly on 64-bit Unix systems
    ///
    /// `long`, and `pointer` are 64 bits.
    LP64,
    /// A rare data model used on early 64-bit Unix systems
    ///
    /// `int`, `long`, and `pointer` are all 64 bits.
    ILP64,
}

/// The widths, in bits, that a data model gives to the primitive C types.
pub struct CTypeBits {
    pub pointer: nat,
    pub short: nat,
    pub int: nat,
    pub long: nat,
    pub long_long: nat,
    pub float: nat,
    pub double: nat,
}

impl CDataModel {
    /// The row of the data-model table for this model: the width in bits of
    /// a pointer, `short`, `int`, `long`, `long long`, `float` and `double`.
    pub open spec fn table(self) -> CTypeBits {
        match self {
            CDataModel::LP32 => CTypeBits {
                pointer: 32, short: 16, int: 16, long: 32, long_long: 64, float: 32, double: 64,
            },
            CDataModel::ILP32 => CTypeBits {
                pointer: 32, short: 16, int: 32, long: 32, long_long: 64, float: 32, double: 64,
            },
            CDataModel::LLP64 => CTypeBits {
                pointer: 64, short: 16, int: 32, long: 32, long_long: 64, float: 32, double: 64,
            },
            CDataModel::LP64 => CTypeBits {
                pointer: 64, short: 16, int: 32, long: 64, long_long: 64, float: 32, double: 64,
            },
            CDataModel::ILP64 => CTypeBits {
                pointer: 64, short: 16, int: 64, long: 64, long_long: 64, float: 32, double: 64,
            },
        }
    }

    /// The width of a pointer (in the default address space).
    pub fn pointer_width(&self) -> (r: Size)
        ensures
            r.spec_bits() == self.table().pointer,
    {
        match self {
            CDataModel::LP32 | CDataModel::ILP32 => Size::U32,
            CDataModel::LLP64 | CDataModel::LP64 | CDataModel::ILP64 => Size::U64,
        }
    }

    /// The size of a C `short`. This is required to be at least 16 bits.
    pub fn short_size(&self) -> (r: Size)
        ensures
            r.spec_bits() == self.table().short,
    {
        match self {
            CDataModel::LP32
            | CDataModel::ILP32
            | CDataModel::LLP64
            | CDataModel::LP64
            | CDataModel::ILP64 => Size::U16,
        }
    }

    /// The size of a C `int`. This is required to be at least 16 bits.
    pub fn int_size(&self) -> (r: Size)
        ensures
            r.spec_bits() == self.table().int,
    {
        match self {
            CDataModel::LP32 => Size::U16,
            CDataModel::ILP32 | CDataModel::LLP64 | CDataModel::LP64 => Size::U32,
            CDataModel::ILP64 => Size::U64,
        }
    }

    /// The size of a C `long`. This is required to be at least 32 bits.
    pub fn long_size(&self) -> (r: Size)
        ensures
            r.spec_bits() == self.table().long,
    {
        match self {
            CDataModel::LP32 | CDataModel::ILP32 | CDataModel::LLP64 => Size::U32,
            CDataModel::LP64 | CDataModel::ILP64 => Size::U64,
        }
    }

    /// The size of a C `long long`. This is required (in C99+) to be at least 64 bits.
    pub fn long_long_size(&self) -> (r: Size)
        ensures
            r.spec_bits() == self.table().long_long,
    {
        match self {
            CDataModel::LP32
            | CDataModel::ILP32
            | CDataModel::LLP64
            | CDataModel::ILP64
            | CDataModel::LP64 => Size::U64,
        }
    }

    /// The size of a C `float`.
    ///
    /// Fixed at 32 bits for every data model; this is not right on every
    /// architecture, so a caller that needs the real width must not rely on
    /// the data model alone.
    pub fn float_size(&self) -> (r: Size)
        ensures
            r.spec_bits() == self.table().float,
    {
        Size::U32
    }

    /// The size of a C `double`.
    ///
    /// Fixed at 64 bits for every data model, with the same caveat as
    /// `float_size`.
    pub fn double_size(&self) -> (r: Size)
        ensures
            r.spec_bits() == self.table().double,
    {
        Size::U64
    }
}

/// In every data model the integer types do not shrink from `short` to
/// `int` to `long` to `long long`.
pub proof fn lemma_integer_widths_ordered(m: CDataModel)
    ensures
        m.table().short <= m.table().int,
        m.table().int <= m.table().long,
        m.table().long <= m.table().long_long,
{
}

/// In every data model `short` has at least 16 bits, `long` at least 32 and
/// `long long` at least 64.
pub proof fn lemma_integer_minimum_widths(m: CDataModel)
    ensures
        m.table().short >= 16,
        m.table().long >= 32,
        m.table().long_long >= 64,
{
}

/// A pointer has 32 bits under LP32 and ILP32, and 64 bits under the
/// other data models.
pub proof fn lemma_pointer_width_grouping(m: CDataModel)
    ensures
        m.table().pointer == 32 || m.table().pointer == 64,
        m.table().pointer == 32 <==> (m is LP32 || m is ILP32),
        m.table().pointer == 64 <==> (m is LLP64 || m is LP64 || m is ILP64),
{
}

/// `float` has 32 bits and `double` 64 bits whatever the data model.
pub proof fn lemma_float_double_fixed(m: CDataModel)
    ensures
        m.table().float == 32,
        m.table().double == 64,
{
}

} // verus!
