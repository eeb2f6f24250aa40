//! The display list: the staged words the scaler reads.

use vstd::prelude::*;

use crate::hvs::plane::Plane;

verus! {

/// Control-word bit: the descriptor is valid.
pub const CONTROL_VALID: u32 = 0x4000_0000;

/// Control-word bit: unity scaling.
pub const CONTROL_UNITY: u32 = 0x10;

/// The word terminating a display list.
pub const CONTROL_END: u32 = 0x8000_0000;

/// The seven descriptor words of one plane whose framebuffer sits at the
/// bus address `fb_addr`: a control word (valid, unity scaling, the pixel
/// order at bit 13, seven words, the pixel format), the display position,
/// the size, a filler word, the framebuffer address clipped to the
/// 30-bit bus window, another filler word, and the pitch.
pub open spec fn spec_plane_words(p: Plane, fb_addr: u32) -> Seq<u32> {
    seq![
        CONTROL_VALID | CONTROL_UNITY | (p.order.spec_code() << 13u32) | (7u32 << 24u32)
            | p.format.spec_code(),
        (p.start_x as u32) | (p.start_y as u32) << 16u32,
        (p.width as u32) | (p.height as u32) << 16u32,
        0xDEADBEEFu32,
        fb_addr & 0x3FFF_FFFFu32,
        0xDEADBEEFu32,
        p.pitch as u32,
    ]
}

/// The descriptor words of a run of planes, each with its framebuffer
/// address, in order.
pub open spec fn spec_planes_words(planes: Seq<Plane>, addrs: Seq<u32>) -> Seq<u32>
    recommends
        planes.len() == addrs.len(),
    decreases planes.len(),
{
    if planes.len() == 0 {
        Seq::empty()
    } else {
        spec_planes_words(planes.drop_last(), addrs.drop_last()) + spec_plane_words(
            planes.last(),
            addrs.last(),
        )
    }
}

/// The staged display list: the words written since the last `finish`.
pub struct DisplayList {
    words: Vec<u32>,
}

impl View for DisplayList {
    type V = Seq<u32>;

    /// The staged words, in order.
    closed spec fn view(&self) -> Seq<u32> {
        self.words@
    }
}

impl DisplayList {
    /// An empty display list.
    pub fn new() -> (r: DisplayList)
        ensures
            r@.len() == 0,
    {
        DisplayList { words: Vec::new() }
    }

    /// The staged words, for copying into the display list memory.
    pub fn words(&self) -> (w: &Vec<u32>)
        ensures
            w@ == self@,
    {
        &self.words
    }

    /// Stage the descriptors of all `planes` followed by the end word.
    /// `fb_addrs` gives each plane's framebuffer bus address.
    pub fn write_planes(&mut self, planes: &[Plane], fb_addrs: &[u32])
        requires
            fb_addrs@.len() == planes@.len(),
        ensures
            final(self)@ == old(self)@ + spec_planes_words(planes@, fb_addrs@) + seq![
                CONTROL_END,
            ],
    {
        let mut i: usize = 0;
        while i < planes.len()
            invariant
                i <= planes@.len(),
                fb_addrs@.len() == planes@.len(),
                self@ == old(self)@ + spec_planes_words(
                    planes@.subrange(0, i as int),
                    fb_addrs@.subrange(0, i as int),
                ),
            decreases planes@.len() - i,
        {
            self.write_plane(&planes[i], fb_addrs[i]);
            i = i + 1;
            proof {
                let pp = planes@.subrange(0, i as int);
                let aa = fb_addrs@.subrange(0, i as int);
                assert(pp.drop_last() =~= planes@.subrange(0, i - 1));
                assert(aa.drop_last() =~= fb_addrs@.subrange(0, i - 1));
            }
        }
        proof {
            assert(planes@.subrange(0, planes@.len() as int) =~= planes@);
            assert(fb_addrs@.subrange(0, fb_addrs@.len() as int) =~= fb_addrs@);
        }
        self.write_word(CONTROL_END);
    }

    /// Stage one plane's seven descriptor words.
    pub fn write_plane(&mut self, plane: &Plane, fb_addr: u32)
        ensures
            final(self)@ == old(self)@ + spec_plane_words(*plane, fb_addr),
    {
        // Descriptors are seven words long until scaling or more exotic
        // formats need more.
        let num_words: u32 = 7;
        let ctl: u32 = CONTROL_VALID | CONTROL_UNITY | (plane.order.code() << 13) | (num_words
            << 24) | plane.format.code();
        self.write_word(ctl);

        let pos0: u32 = (plane.start_x as u32) | (plane.start_y as u32) << 16;
        self.write_word(pos0);

        let pos2: u32 = (plane.width as u32) | (plane.height as u32) << 16;
        self.write_word(pos2);

        self.write_word(0xDEADBEEF);
        self.write_word(fb_addr & 0x3FFF_FFFF);
        self.write_word(0xDEADBEEF);
        self.write_word(plane.pitch as u32);
        proof {
            assert(self@ =~= old(self)@ + spec_plane_words(*plane, fb_addr));
        }
    }

    /// Stage one raw word.
    fn write_word(&mut self, word: u32)
        ensures
            final(self)@ == old(self)@.push(word),
    {
        self.words.push(word);
    }

    /// Forget the staged words, ready for the next frame; the thin layer
    /// around the library copies them out and kicks the scaler before
    /// calling this.
    pub fn finish(&mut self)
        ensures
            final(self)@.len() == 0,
    {
        self.words.clear();
    }
}

} // verus!
