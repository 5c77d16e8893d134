use vstd::prelude::*;

verus! {

/// The size and title of the engine's window, as the engine tracks them.
///
/// The OS handles of the window (the native window, its GL surface and
/// context) are held beside this state by the application layer; this type
/// decides when the surface is resized and what size the engine records.
pub struct Window {
    width: u32,
    height: u32,
    title: String,
}

impl Window {
    /// The recorded width in pixels.
    pub closed spec fn spec_width(&self) -> u32 {
        self.width
    }

    /// The recorded height in pixels.
    pub closed spec fn spec_height(&self) -> u32 {
        self.height
    }

    /// The window's title.
    pub closed spec fn spec_title(&self) -> Seq<char> {
        self.title@
    }

    /// A window configuration with the requested size and title; no OS window exists yet.
    pub fn new(width: u32, height: u32, title: &str) -> (w: Self)
        ensures
            w.spec_width() == width,
            w.spec_height() == height,
            w.spec_title() == title@,
    {
        Window { width, height, title: String::from_str(title) }
    }

    #[verifier::when_used_as_spec(spec_width)]
    pub fn width(&self) -> (r: u32)
        ensures
            r == self.spec_width(),
    {
        self.width
    }

    #[verifier::when_used_as_spec(spec_height)]
    pub fn height(&self) -> (r: u32)
        ensures
            r == self.spec_height(),
    {
        self.height
    }

    pub fn title(&self) -> (r: &str)
        ensures
            r@ == self.spec_title(),
    {
        self.title.as_str()
    }

    /// Records the size that the OS gave the window when it was created.
    pub fn record_created_size(&mut self, width: u32, height: u32)
        ensures
            final(self).spec_width() == width,
            final(self).spec_height() == height,
            final(self).spec_title() == old(self).spec_title(),
    {
        self.width = width;
        self.height = height;
    }

    /// Handles a resize request. The GL surface is resized, and the new size
    /// recorded, only when the window, its surface and its context exist
    /// (`surface_ready`) and both dimensions are non-zero. Returns whether the
    /// surface must be resized.
    pub fn resize(&mut self, surface_ready: bool, width: u32, height: u32) -> (applied: bool)
        ensures
            applied == (surface_ready && width != 0 && height != 0),
            applied ==> final(self).spec_width() == width && final(self).spec_height() == height,
            !applied ==> final(self).spec_width() == old(self).spec_width()
                && final(self).spec_height() == old(self).spec_height(),
            final(self).spec_title() == old(self).spec_title(),
    {
        if surface_ready && width != 0 && height != 0 {
            self.width = width;
            self.height = height;
            true
        } else {
            false
        }
    }
}

/// Picks the GL configuration to create the window with, given each
/// candidate's number of multisample samples, in the order offered: the one
/// with the most samples, and of those the first offered.
pub fn best_config(samples: &Vec<u8>) -> (i: usize)
    requires
        samples@.len() > 0,
    ensures
        i < samples@.len(),
        forall|j: int| 0 <= j < samples@.len() ==> samples@[j] <= samples@[i as int],
        forall|j: int| 0 <= j < i ==> samples@[j] < samples@[i as int],
{
    let mut best: usize = 0;
    let mut k: usize = 1;
    while k < samples.len()
        invariant
            0 < k <= samples@.len(),
            best < k,
            forall|j: int| 0 <= j < k ==> samples@[j] <= samples@[best as int],
            forall|j: int| 0 <= j < best ==> samples@[j] < samples@[best as int],
        decreases samples@.len() - k,
    {
        if samples[k] > samples[best] {
            best = k;
        }
        k = k + 1;
    }
    best
}

} // verus!
