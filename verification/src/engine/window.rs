//! The size of the window.

use vstd::prelude::*;

verus! {

/// A width and a height in pixels.
#[derive(Clone, Copy, Debug, PartialEq, Eq, Structural)]
pub struct Extent {
    pub width: u32,
    pub height: u32,
}

impl Extent {
    /// A surface can be configured for this size: neither side is zero.
    pub open spec fn is_drawable(self) -> bool {
        self.width > 0 && self.height > 0
    }

    /// Takes over `new_size` if a surface can be configured for it, and then
    /// returns it; otherwise the size stays as it is and nothing is returned.
    pub fn resize(&mut self, new_size: Extent) -> (accepted: Option<Extent>)
        ensures
            new_size.is_drawable() ==> *final(self) == new_size && accepted == Some(new_size),
            !new_size.is_drawable() ==> *final(self) == *old(self) && accepted.is_none(),
    {
        if new_size.width > 0 && new_size.height > 0 {
            *self = new_size;
            Some(new_size)
        } else {
            None
        }
    }
}

/// The title of a window: the name it was given, or else "New Window".
pub fn title(window_name: Option<&'static str>) -> (title: &'static str)
    ensures
        title@ == (match window_name {
            Some(name) => name@,
            None => "New Window"@,
        }),
{
    match window_name {
        Some(name) => name,
        None => "New Window",
    }
}

/// The index of the surface format that the renderer uses: the first of
/// the formats on offer that is an sRGB format, or else the first format.
/// `srgb[i]` says whether format `i` is an sRGB format; a surface offers at
/// least one format.
pub fn preferred_format(srgb: &[bool]) -> (index: usize)
    requires
        srgb@.len() > 0,
    ensures
        index < srgb@.len(),
        srgb@[index as int] ==> forall|i: int| 0 <= i < index ==> !srgb@[i],
        !srgb@[index as int] ==> index == 0 && forall|i: int| 0 <= i < srgb@.len() ==> !srgb@[i],
{
    let mut i: usize = 0;
    while i < srgb.len()
        invariant
            i <= srgb@.len(),
            forall|k: int| 0 <= k < i ==> !srgb@[k],
        decreases srgb@.len() - i,
    {
        if srgb[i] {
            return i;
        }
        i += 1;
    }
    0
}

} // verus!
