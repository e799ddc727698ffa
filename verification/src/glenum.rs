//! The values of the OpenGL enumerants that this library reads or hands out.
use vstd::prelude::*;

verus! {

pub const NO_ERROR: u32 = 0;

pub const INVALID_ENUM: u32 = 0x0500;

pub const INVALID_VALUE: u32 = 0x0501;

pub const INVALID_OPERATION: u32 = 0x0502;

pub const STACK_OVERFLOW: u32 = 0x0503;

pub const STACK_UNDERFLOW: u32 = 0x0504;

pub const OUT_OF_MEMORY: u32 = 0x0505;

pub const INVALID_FRAMEBUFFER_OPERATION: u32 = 0x0506;

pub const BYTE: u32 = 0x1400;

pub const UNSIGNED_BYTE: u32 = 0x1401;

pub const SHORT: u32 = 0x1402;

pub const UNSIGNED_SHORT: u32 = 0x1403;

pub const INT: u32 = 0x1404;

pub const UNSIGNED_INT: u32 = 0x1405;

pub const FLOAT: u32 = 0x1406;

pub const DOUBLE: u32 = 0x140A;

pub const STENCIL_INDEX: u32 = 0x1901;

pub const DEPTH_COMPONENT: u32 = 0x1902;

pub const RED: u32 = 0x1903;

pub const GREEN: u32 = 0x1904;

pub const BLUE: u32 = 0x1905;

pub const RGB: u32 = 0x1907;

pub const RGBA: u32 = 0x1908;

pub const BGR: u32 = 0x80E0;

pub const BGRA: u32 = 0x80E1;

pub const RG: u32 = 0x8227;

pub const RG_INTEGER: u32 = 0x8228;

pub const DEPTH_STENCIL: u32 = 0x84F9;

pub const RED_INTEGER: u32 = 0x8D94;

pub const GREEN_INTEGER: u32 = 0x8D95;

pub const BLUE_INTEGER: u32 = 0x8D96;

pub const RGB_INTEGER: u32 = 0x8D98;

pub const RGBA_INTEGER: u32 = 0x8D99;

pub const BGR_INTEGER: u32 = 0x8D9A;

pub const BGRA_INTEGER: u32 = 0x8D9B;

pub const FRAMEBUFFER_COMPLETE: u32 = 0x8CD5;

} // verus!
