use vstd::prelude::*;

verus! {

/// The five size buckets that requested display sizes are quantised into.
#[derive(Clone, Copy, Debug, PartialEq, Eq, Structural)]
pub enum ImageResizeThreshold {
    VerySmall,
    Small,
    Medium,
    Large,
    VeryLarge,
}

/// The pixel ceiling of a bucket and the prefix its cache files carry.
pub struct ThresholdPreset {
    pub desired_value: u32,
    pub prefix: &'static str,
}

impl ImageResizeThreshold {
    pub open spec fn ceiling(self) -> int {
        match self {
            ImageResizeThreshold::VerySmall => 240,
            ImageResizeThreshold::Small => 480,
            ImageResizeThreshold::Medium => 640,
            ImageResizeThreshold::Large => 1080,
            ImageResizeThreshold::VeryLarge => 1440,
        }
    }

    pub open spec fn prefix_text(self) -> Seq<char> {
        match self {
            ImageResizeThreshold::VerySmall => "very_small"@,
            ImageResizeThreshold::Small => "small"@,
            ImageResizeThreshold::Medium => "medium"@,
            ImageResizeThreshold::Large => "large"@,
            ImageResizeThreshold::VeryLarge => "very_large"@,
        }
    }

    pub fn value(&self) -> (r: ThresholdPreset)
        ensures
            r.desired_value == self.ceiling(),
            r.prefix@ == self.prefix_text(),
    {
        proof {
            reveal_strlit("very_small");
            reveal_strlit("small");
            reveal_strlit("medium");
            reveal_strlit("large");
            reveal_strlit("very_large");
        }
        match *self {
            ImageResizeThreshold::VerySmall => ThresholdPreset { desired_value: 240, prefix: "very_small" },
            ImageResizeThreshold::Small => ThresholdPreset { desired_value: 480, prefix: "small" },
            ImageResizeThreshold::Medium => ThresholdPreset { desired_value: 640, prefix: "medium" },
            ImageResizeThreshold::Large => ThresholdPreset { desired_value: 1080, prefix: "large" },
            ImageResizeThreshold::VeryLarge => ThresholdPreset { desired_value: 1440, prefix: "very_large" },
        }
    }

    /// The bucket for a requested size: the smallest whose ceiling covers the
    /// larger of the two sides, or the largest bucket when none does.
    pub open spec fn spec_for_size(width: int, height: int) -> ImageResizeThreshold {
        let high = if width >= height { width } else { height };
        if high <= 240 {
            ImageResizeThreshold::VerySmall
        } else if high <= 480 {
            ImageResizeThreshold::Small
        } else if high <= 640 {
            ImageResizeThreshold::Medium
        } else if high <= 1080 {
            ImageResizeThreshold::Large
        } else {
            ImageResizeThreshold::VeryLarge
        }
    }

    pub fn for_size(width: u32, height: u32) -> (r: ImageResizeThreshold)
        ensures
            r == Self::spec_for_size(width as int, height as int),
            ({
                let high = if width >= height { width as int } else { height as int };
                &&& high <= 1440 ==> r.ceiling() >= high
                &&& high <= 1440 ==> forall|t: ImageResizeThreshold|
                    t.ceiling() >= high ==> t.ceiling() >= r.ceiling()
                &&& high > 1440 ==> r == ImageResizeThreshold::VeryLarge
            }),
    {
        let high: u32 = if width >= height { width } else { height };
        let order = [
            ImageResizeThreshold::VerySmall,
            ImageResizeThreshold::Small,
            ImageResizeThreshold::Medium,
            ImageResizeThreshold::Large,
        ];
        let mut i: usize = 0;
        while i < 4
            invariant
                0 <= i <= 4,
                high == if width >= height { width } else { height },
                order@ == seq![
                    ImageResizeThreshold::VerySmall,
                    ImageResizeThreshold::Small,
                    ImageResizeThreshold::Medium,
                    ImageResizeThreshold::Large,
                ],
                i > 0 ==> order@[i - 1].ceiling() < high,
            decreases 4 - i,
        {
            let t = order[i];
            if high <= t.value().desired_value {
                assert(t == order@[i as int]);
                return t;
            }
            i = i + 1;
        }
        ImageResizeThreshold::VeryLarge
    }
}

/// As the larger requested side grows the bucket ceiling never shrinks, and it
/// is always one of the five defined ceilings.
pub proof fn lemma_bucket_monotone(w1: u32, h1: u32, w2: u32, h2: u32)
    requires
        (if w1 >= h1 { w1 } else { h1 }) <= (if w2 >= h2 { w2 } else { h2 }),
    ensures
        ImageResizeThreshold::spec_for_size(w1 as int, h1 as int).ceiling()
            <= ImageResizeThreshold::spec_for_size(w2 as int, h2 as int).ceiling(),
        ({
            let c = ImageResizeThreshold::spec_for_size(w2 as int, h2 as int).ceiling();
            c == 240 || c == 480 || c == 640 || c == 1080 || c == 1440
        }),
{
}

} // verus!
