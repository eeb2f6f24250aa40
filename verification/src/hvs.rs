//! The Hardware Video Scaler: planes and the display list that composes
//! them.
//!
//! The HVS reads a display list: a run of plane descriptors, each seven
//! words, terminated by an end word.  The list here is staged as plain
//! words; the thin layer around the library copies them into the display
//! list memory and pokes the scaler's list register.

pub mod displaylist;
pub mod plane;

use vstd::prelude::*;

use displaylist::DisplayList;
use plane::Plane;

verus! {

/// A framebuffer's geometry as the scaler needs it.
#[derive(Debug, Clone, Copy, PartialEq, Eq, Structural)]
pub struct FrameBufferData {
    pub width: u16,
    pub height: u16,
    pub pitch: u16,
}

/// The scaler: an ordered set of planes and the display list built from
/// them.  Planes added later are drawn on top of planes added before.
pub struct Hvs {
    pub planes: Vec<Plane>,
    pub display_list: DisplayList,
}

impl Hvs {
    /// An empty scaler with no planes.
    pub fn new() -> (r: Hvs)
        ensures
            r.planes@.len() == 0,
            r.display_list@.len() == 0,
    {
        Hvs { planes: Vec::new(), display_list: DisplayList::new() }
    }

    /// Drop all planes.
    pub fn reset(&mut self)
        ensures
            final(self).planes@.len() == 0,
            final(self).display_list == old(self).display_list,
    {
        self.planes.clear();
    }

    /// Add a plane on top of the ones already present.
    pub fn add_plane(&mut self, plane: Plane)
        ensures
            final(self).planes@ == old(self).planes@.push(plane),
            final(self).display_list == old(self).display_list,
    {
        self.planes.push(plane);
    }

    /// Stage the display list for the current planes.  `fb_addrs` gives,
    /// plane by plane, the bus address of each plane's framebuffer.
    pub fn draw(&mut self, fb_addrs: &[u32])
        requires
            fb_addrs@.len() == old(self).planes@.len(),
        ensures
            final(self).planes == old(self).planes,
            final(self).display_list@ == old(self).display_list@
                + displaylist::spec_planes_words(old(self).planes@, fb_addrs@) + seq![
                displaylist::CONTROL_END,
            ],
    {
        self.display_list.write_planes(self.planes.as_slice(), fb_addrs);
    }
}

} // verus!
