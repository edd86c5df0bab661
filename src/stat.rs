use vstd::prelude::*;

verus! {

/// The pixel dimensions and the file size of an image on disk.
#[derive(Clone, Copy, Debug)]
pub struct ImageStat {
    width: u32,
    height: u32,
    size: u64,
}

impl ImageStat {
    pub closed spec fn spec_width(self) -> u32 {
        self.width
    }

    pub closed spec fn spec_height(self) -> u32 {
        self.height
    }

    pub closed spec fn spec_size(self) -> u64 {
        self.size
    }

    pub fn new(width: u32, height: u32, size: u64) -> (r: ImageStat)
        ensures
            r.spec_width() == width,
            r.spec_height() == height,
            r.spec_size() == size,
    {
        ImageStat { width, height, size }
    }

    pub fn width(&self) -> (r: u32)
        ensures
            r == self.spec_width(),
    {
        self.width
    }

    pub fn height(&self) -> (r: u32)
        ensures
            r == self.spec_height(),
    {
        self.height
    }

    pub fn size(&self) -> (r: u64)
        ensures
            r == self.spec_size(),
    {
        self.size
    }
}

} // verus!
