use vstd::prelude::*;

verus! {

/// Plain data types that may occupy a spare window: copyable values without
/// drop logic, so unwritten or uncommitted window slots can be overwritten
/// or abandoned freely.
pub trait Primitive: Copy {
    /// An arbitrary value used to occupy freshly allocated window slots.
    /// Nothing is promised about it: window contents are unspecified until
    /// the caller writes them.
    fn filler() -> Self;
}

impl Primitive for bool {
    fn filler() -> Self {
        false
    }
}

impl Primitive for char {
    fn filler() -> Self {
        '\u{0}'
    }
}

impl Primitive for i8 {
    fn filler() -> Self {
        0
    }
}

impl Primitive for i16 {
    fn filler() -> Self {
        0
    }
}

impl Primitive for i32 {
    fn filler() -> Self {
        0
    }
}

impl Primitive for i64 {
    fn filler() -> Self {
        0
    }
}

impl Primitive for i128 {
    fn filler() -> Self {
        0
    }
}

impl Primitive for isize {
    fn filler() -> Self {
        0
    }
}

impl Primitive for u8 {
    fn filler() -> Self {
        0
    }
}

impl Primitive for u16 {
    fn filler() -> Self {
        0
    }
}

impl Primitive for u32 {
    fn filler() -> Self {
        0
    }
}

impl Primitive for u64 {
    fn filler() -> Self {
        0
    }
}

impl Primitive for u128 {
    fn filler() -> Self {
        0
    }
}

impl Primitive for usize {
    fn filler() -> Self {
        0
    }
}

} // verus!
