//! The host side of an image approximation by triangles: the candidate and the search
//! that improves it, the plan and the arithmetic of the reduction that scores it, and
//! the bookkeeping for the graphics objects that carry it out.
use vstd::prelude::*;

pub mod buffer;
pub mod candidate;
pub mod dsq;
pub mod fold;
pub mod glenum;
pub mod mse;
pub mod optimizer;
pub mod pool;
pub mod raster;
mod rng;
pub mod scalar;
pub mod shader;
pub mod sums;
pub mod texture;
pub mod types;
pub mod vec4;

verus! {

/// Whether `format` is a pixel format whose number of components is known here.
pub open spec fn is_pixel_format(format: u32) -> bool {
    spec_pixel_format_components(format) is Some
}

/// The number of components of a pixel format, for the formats known here.
pub open spec fn spec_pixel_format_components(format: u32) -> Option<usize> {
    if format == glenum::STENCIL_INDEX || format == glenum::DEPTH_COMPONENT || format
        == glenum::RED || format == glenum::GREEN || format == glenum::BLUE || format
        == glenum::RED_INTEGER || format == glenum::GREEN_INTEGER || format
        == glenum::BLUE_INTEGER {
        Some(1usize)
    } else if format == glenum::DEPTH_STENCIL || format == glenum::RG || format
        == glenum::RG_INTEGER {
        Some(2usize)
    } else if format == glenum::RGB || format == glenum::BGR || format == glenum::RGB_INTEGER
        || format == glenum::BGR_INTEGER {
        Some(3usize)
    } else if format == glenum::RGBA || format == glenum::BGRA || format == glenum::RGBA_INTEGER
        || format == glenum::BGRA_INTEGER {
        Some(4usize)
    } else {
        None
    }
}

/// The number of components of a pixel format, or `None` for a value that is no pixel
/// format known here.
pub fn checked_pixel_format_components(format: u32) -> (r: Option<usize>)
    ensures
        r == spec_pixel_format_components(format),
{
    match format {
        glenum::STENCIL_INDEX
        | glenum::DEPTH_COMPONENT
        | glenum::RED
        | glenum::GREEN
        | glenum::BLUE
        | glenum::RED_INTEGER
        | glenum::GREEN_INTEGER
        | glenum::BLUE_INTEGER => Some(1),
        glenum::DEPTH_STENCIL | glenum::RG | glenum::RG_INTEGER => Some(2),
        glenum::RGB | glenum::BGR | glenum::RGB_INTEGER | glenum::BGR_INTEGER => Some(3),
        glenum::RGBA | glenum::BGRA | glenum::RGBA_INTEGER | glenum::BGRA_INTEGER => Some(4),
        _ => None,
    }
}

/// The number of components of a pixel format.
pub fn pixel_format_components(format: u32) -> (n: usize)
    requires
        is_pixel_format(format),
    ensures
        Some(n) == spec_pixel_format_components(format),
        1 <= n <= 4,
{
    match checked_pixel_format_components(format) {
        Some(n) => n,
        None => 0,
    }
}

/// The name of an error code; `None` for the code that reports no error.
pub fn get_error_str(err: u32) -> (r: Option<&'static str>)
    ensures
        r is None <==> err == glenum::NO_ERROR,
        r matches Some(name) ==> name@ == spec_error_name(err),
{
    Some(
        match err {
            glenum::NO_ERROR => {
                return None;
            },
            glenum::INVALID_ENUM => "GL_INVALID_ENUM",
            glenum::INVALID_VALUE => "GL_INVALID_VALUE",
            glenum::INVALID_OPERATION => "GL_INVALID_OPERATION",
            glenum::INVALID_FRAMEBUFFER_OPERATION => "GL_INVALID_FRAMEBUFFER_OPERATION",
            glenum::OUT_OF_MEMORY => "GL_OUT_OF_MEMORY",
            glenum::STACK_UNDERFLOW => "GL_STACK_UNDERFLOW",
            glenum::STACK_OVERFLOW => "GL_STACK_OVERFLOW",
            _ => "(unknown)",
        },
    )
}

/// The name under which an error code is reported.
pub open spec fn spec_error_name(err: u32) -> Seq<char> {
    if err == glenum::INVALID_ENUM {
        "GL_INVALID_ENUM"@
    } else if err == glenum::INVALID_VALUE {
        "GL_INVALID_VALUE"@
    } else if err == glenum::INVALID_OPERATION {
        "GL_INVALID_OPERATION"@
    } else if err == glenum::INVALID_FRAMEBUFFER_OPERATION {
        "GL_INVALID_FRAMEBUFFER_OPERATION"@
    } else if err == glenum::OUT_OF_MEMORY {
        "GL_OUT_OF_MEMORY"@
    } else if err == glenum::STACK_UNDERFLOW {
        "GL_STACK_UNDERFLOW"@
    } else if err == glenum::STACK_OVERFLOW {
        "GL_STACK_OVERFLOW"@
    } else {
        "(unknown)"@
    }
}

} // verus!
