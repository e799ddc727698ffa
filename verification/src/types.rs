//! How the element types of buffers and textures are named to the graphics library.
use vstd::prelude::*;
use crate::glenum;

verus! {

/// The scalar types that can be handed over.
#[derive(Clone, Copy, Debug, PartialEq, Eq, Structural)]
pub enum Scalar {
    /// Signed, one byte.
    Byte,
    /// Unsigned, one byte.
    UnsignedByte,
    /// Signed, two bytes.
    Short,
    /// Unsigned, two bytes.
    UnsignedShort,
    /// Signed, four bytes.
    Int,
    /// Unsigned, four bytes.
    UnsignedInt,
    /// Single precision, four bytes.
    Float,
    /// Double precision, eight bytes.
    Double,
}

impl Scalar {
    /// The enumerant that names the scalar type.
    pub open spec fn spec_gl_type(self) -> u32 {
        match self {
            Scalar::Byte => glenum::BYTE,
            Scalar::UnsignedByte => glenum::UNSIGNED_BYTE,
            Scalar::Short => glenum::SHORT,
            Scalar::UnsignedShort => glenum::UNSIGNED_SHORT,
            Scalar::Int => glenum::INT,
            Scalar::UnsignedInt => glenum::UNSIGNED_INT,
            Scalar::Float => glenum::FLOAT,
            Scalar::Double => glenum::DOUBLE,
        }
    }

    /// Bytes that one value takes.
    pub open spec fn spec_size(self) -> usize {
        match self {
            Scalar::Byte | Scalar::UnsignedByte => 1,
            Scalar::Short | Scalar::UnsignedShort => 2,
            Scalar::Int | Scalar::UnsignedInt | Scalar::Float => 4,
            Scalar::Double => 8,
        }
    }

    pub fn get_gl_type(self) -> (ty: u32)
        ensures
            ty == self.spec_gl_type(),
    {
        match self {
            Scalar::Byte => glenum::BYTE,
            Scalar::UnsignedByte => glenum::UNSIGNED_BYTE,
            Scalar::Short => glenum::SHORT,
            Scalar::UnsignedShort => glenum::UNSIGNED_SHORT,
            Scalar::Int => glenum::INT,
            Scalar::UnsignedInt => glenum::UNSIGNED_INT,
            Scalar::Float => glenum::FLOAT,
            Scalar::Double => glenum::DOUBLE,
        }
    }

    pub fn size(self) -> (n: usize)
        ensures
            n == self.spec_size(),
    {
        match self {
            Scalar::Byte | Scalar::UnsignedByte => 1,
            Scalar::Short | Scalar::UnsignedShort => 2,
            Scalar::Int | Scalar::UnsignedInt | Scalar::Float => 4,
            Scalar::Double => 8,
        }
    }
}

/// An element type: a scalar, or an array of `components` scalars of one type.
#[derive(Clone, Copy, Debug, PartialEq, Eq, Structural)]
pub struct GlType {
    pub scalar: Scalar,
    pub components: usize,
}

impl GlType {
    /// Bytes that one element takes, as a number without bound.
    pub open spec fn spec_size(self) -> int {
        self.scalar.spec_size() * self.components
    }

    /// A scalar stands for itself: one component.
    pub fn scalar(scalar: Scalar) -> (ty: GlType)
        ensures
            ty == (GlType { scalar, components: 1 }),
    {
        GlType { scalar, components: 1 }
    }

    /// An array of `components` scalars is named by its scalar type.
    pub fn array(scalar: Scalar, components: usize) -> (ty: GlType)
        ensures
            ty == (GlType { scalar, components }),
    {
        GlType { scalar, components }
    }

    /// The enumerant that names the scalar type of the element.
    pub fn get_gl_type(self) -> (ty: u32)
        ensures
            ty == self.scalar.spec_gl_type(),
    {
        self.scalar.get_gl_type()
    }

    /// Scalars per element.
    pub fn num_components(self) -> (n: usize)
        ensures
            n == self.components,
    {
        self.components
    }

    /// Bytes that one element takes; `None` where that is more than the machine counts.
    pub fn size(self) -> (r: Option<usize>)
        ensures
            r is None <==> self.spec_size() > usize::MAX,
            r matches Some(n) ==> n == self.spec_size(),
    {
        self.scalar.size().checked_mul(self.components)
    }
}

} // verus!
