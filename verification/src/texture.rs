//! Sizes of the data that goes into and comes out of a two-dimensional texture, and the
//! status of a framebuffer.
use vstd::prelude::*;
use crate::glenum;
use crate::types::GlType;
use crate::{checked_pixel_format_components, is_pixel_format, spec_pixel_format_components};

verus! {

/// A texture object by name, with its size in texels.
#[derive(Clone, Copy, Debug, PartialEq, Eq, Structural)]
pub struct Texture2d {
    id: u32,
    width: u32,
    height: u32,
}

/// What reading a whole texture back takes: the number of elements to make room for,
/// and their size in bytes as the graphics library takes it.
#[derive(Clone, Copy, Debug, PartialEq, Eq, Structural)]
pub struct ReadPlan {
    pub n_elems: usize,
    pub size: i32,
}

/// Why a texture's data cannot be read into elements of a type.
#[derive(Clone, Copy, Debug, PartialEq, Eq, Structural)]
pub enum ReadError {
    /// The value is no pixel format known here.
    UnknownFormat,
    /// A pixel's components do not make whole elements.
    ComponentMismatch,
    /// The data is larger than its size types hold.
    TooLarge,
}

/// Elements of a type with `components` scalars that one pixel of `format` makes.
pub open spec fn elems_per_pixel(format: u32, components: usize) -> int {
    spec_pixel_format_components(format)->0 as int / components as int
}

/// Whether a pixel of `format` makes whole elements of a type with `components` scalars.
pub open spec fn whole_elems(format: u32, components: usize) -> bool {
    &&& is_pixel_format(format)
    &&& components > 0
    &&& spec_pixel_format_components(format)->0 as int % components as int == 0
}

impl Texture2d {
    pub closed spec fn spec_id(&self) -> u32 {
        self.id
    }

    pub closed spec fn spec_width(&self) -> u32 {
        self.width
    }

    pub closed spec fn spec_height(&self) -> u32 {
        self.height
    }

    /// Bytes in a `width` by `height` block of pixels of `format`, each component
    /// `comp_size` bytes.
    pub open spec fn block_bytes(width: u32, height: u32, format: u32, comp_size: usize) -> int {
        (width * height) * spec_pixel_format_components(format)->0 * comp_size
    }

    /// The texture object `id`, for which `width` by `height` texels were allocated.
    pub fn new(id: u32, width: u32, height: u32) -> (tex: Self)
        ensures
            tex.spec_id() == id,
            tex.spec_width() == width,
            tex.spec_height() == height,
    {
        Texture2d { id, width, height }
    }

    pub fn id(&self) -> (id: u32)
        ensures
            id == self.spec_id(),
    {
        self.id
    }

    pub fn get_width(&self) -> (w: u32)
        ensures
            w == self.spec_width(),
    {
        self.width
    }

    pub fn get_height(&self) -> (h: u32)
        ensures
            h == self.spec_height(),
    {
        self.height
    }

    /// Whether an image of the size `dims` has to be resized before it is loaded: it
    /// has where `dims` is not the texture's own size.
    pub fn load_image(&self, dims: (u32, u32)) -> (resize: bool)
        ensures
            resize <==> dims != (self.spec_width(), self.spec_height()),
    {
        dims.0 != self.width || dims.1 != self.height
    }

    /// Whether `data_bytes` bytes are exactly the data of a `width` by `height` block of
    /// pixels of `pix_format`, one component taking `comp_size` bytes.
    pub fn load_data(
        width: u32,
        height: u32,
        pix_format: u32,
        comp_size: usize,
        data_bytes: usize,
    ) -> (ok: bool)
        requires
            is_pixel_format(pix_format),
        ensures
            ok <==> Self::block_bytes(width, height, pix_format, comp_size) == data_bytes,
    {
        let comps: u128 = crate::pixel_format_components(pix_format) as u128;
        assert(width * height <= 0xffff_ffff * 0xffff_ffff) by (nonlinear_arith)
            requires
                0 <= width <= 0xffff_ffff,
                0 <= height <= 0xffff_ffff,
        ;
        let texels: u128 = (width as u128) * (height as u128);
        assert(texels * comps <= 0xffff_ffff * 0xffff_ffff * 4) by (nonlinear_arith)
            requires
                0 <= texels <= 0xffff_ffff * 0xffff_ffff,
                0 <= comps <= 4,
        ;
        let scalars: u128 = texels * comps;
        match scalars.checked_mul(comp_size as u128) {
            Some(bytes) => bytes == data_bytes as u128,
            None => false,
        }
    }

    /// What it takes to read the whole texture as pixels of `format` into elements of
    /// the type `elem`.
    pub fn read_data(&self, format: u32, elem: GlType) -> (r: Result<ReadPlan, ReadError>)
        ensures
            match r {
                Ok(plan) => {
                    &&& whole_elems(format, elem.components)
                    &&& plan.n_elems == self.spec_width() * self.spec_height() * elems_per_pixel(
                        format,
                        elem.components,
                    )
                    &&& plan.size == read_bytes(
                        self.spec_width(),
                        self.spec_height(),
                        format,
                        elem,
                    )
                },
                Err(ReadError::UnknownFormat) => !is_pixel_format(format),
                Err(ReadError::ComponentMismatch) => is_pixel_format(format) && !whole_elems(
                    format,
                    elem.components,
                ),
                Err(ReadError::TooLarge) => whole_elems(format, elem.components) && read_bytes(
                    self.spec_width(),
                    self.spec_height(),
                    format,
                    elem,
                ) > i32::MAX,
            },
    {
        let fmt_components: usize = match checked_pixel_format_components(format) {
            Some(n) => n,
            None => {
                return Err(ReadError::UnknownFormat);
            },
        };
        let comps: usize = elem.num_components();
        if comps == 0 || comps > fmt_components {
            proof {
                if comps > fmt_components {
                    vstd::arithmetic::div_mod::lemma_small_mod(
                        fmt_components as nat,
                        comps as nat,
                    );
                }
            }
            return Err(ReadError::ComponentMismatch);
        }
        assert(comps == 1 || comps == 2 || comps == 3 || comps == 4);
        if fmt_components % comps != 0 {
            return Err(ReadError::ComponentMismatch);
        }
        assert(1 <= fmt_components / comps <= 4) by (nonlinear_arith)
            requires
                1 <= comps <= fmt_components <= 4,
        ;
        let elem_per_pix: u64 = (fmt_components / comps) as u64;
        let scalar_size: usize = elem.scalar.size();
        assert(1 <= scalar_size * comps <= 32) by (nonlinear_arith)
            requires
                1 <= comps <= 4,
                1 <= scalar_size <= 8,
        ;
        let elem_size: u64 = (scalar_size * comps) as u64;
        assert(self.width * self.height <= 0xffff_ffff * 0xffff_ffff) by (nonlinear_arith)
            requires
                0 <= self.width <= 0xffff_ffff,
                0 <= self.height <= 0xffff_ffff,
        ;
        let texels: u64 = (self.width as u64) * (self.height as u64);
        let ghost exact = read_bytes(self.spec_width(), self.spec_height(), format, elem);
        assert(exact == texels * elem_per_pix * elem_size);
        if texels > i32::MAX as u64 {
            assert(texels * elem_per_pix * elem_size > i32::MAX) by (nonlinear_arith)
                requires
                    texels > i32::MAX,
                    elem_per_pix >= 1,
                    elem_size >= 1,
            ;
            return Err(ReadError::TooLarge);
        }
        assert(texels * elem_per_pix <= 0x7fff_ffff * 4) by (nonlinear_arith)
            requires
                0 <= texels <= 0x7fff_ffff,
                0 <= elem_per_pix <= 4,
        ;
        let n_elems: u64 = texels * elem_per_pix;
        assert(n_elems * elem_size <= 0x7fff_ffff * 4 * 32) by (nonlinear_arith)
            requires
                0 <= n_elems <= 0x7fff_ffff * 4,
                0 <= elem_size <= 32,
        ;
        let size: u64 = n_elems * elem_size;
        if size > i32::MAX as u64 {
            return Err(ReadError::TooLarge);
        }
        assert(n_elems <= size) by (nonlinear_arith)
            requires
                size == n_elems * elem_size,
                elem_size >= 1,
                n_elems >= 0,
        ;
        Ok(ReadPlan { n_elems: n_elems as usize, size: size as i32 })
    }
}

/// Bytes that a `width` by `height` texture makes when it is read as pixels of `format`
/// into elements of the type `elem`.
pub open spec fn read_bytes(width: u32, height: u32, format: u32, elem: GlType) -> int {
    width * height * elems_per_pixel(format, elem.components) * elem.spec_size()
}

/// What a framebuffer's status says: complete, or the status itself as the error.
pub fn validate(status: u32) -> (r: Result<(), u32>)
    ensures
        status == glenum::FRAMEBUFFER_COMPLETE <==> r is Ok,
        r matches Err(code) ==> code == status,
{
    if status == glenum::FRAMEBUFFER_COMPLETE {
        Ok(())
    } else {
        Err(status)
    }
}

} // verus!
