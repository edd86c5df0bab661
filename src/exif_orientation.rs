use vstd::prelude::*;

verus! {

/// Why no orientation correction is applied to an image.
#[derive(Debug)]
pub enum NoFixNeededReason {
    /// The orientation tag says the image is already upright.
    AlreadyCorrect,
    /// The metadata container is malformed; the text describes the fault.
    ParsingError(String),
    /// The image carries no Exif metadata.
    NoExif,
    /// The metadata has no orientation tag.
    NoOrientationTag,
    /// The orientation tag holds no usable code.
    InvalidOrientationTagValue(Option<u32>),
}

/// What the metadata of an image says about its orientation.
#[derive(Debug)]
pub enum OrientationLookup {
    /// No Exif metadata was found.
    Missing,
    /// The metadata could not be parsed; the text describes the fault.
    Malformed(String),
    /// The metadata has no orientation tag.
    NoTag,
    /// The first integer of the orientation tag, if it holds one.
    Tagged(Option<u32>),
}

/// The orientation code to apply for a lookup, or why none applies.
pub open spec fn spec_orientation(l: OrientationLookup) -> Result<u32, NoFixNeededReason> {
    match l {
        OrientationLookup::Missing => Err(NoFixNeededReason::NoExif),
        OrientationLookup::Malformed(s) => Err(NoFixNeededReason::ParsingError(s)),
        OrientationLookup::NoTag => Err(NoFixNeededReason::NoOrientationTag),
        OrientationLookup::Tagged(Some(v)) => if v == 1 {
            Err(NoFixNeededReason::AlreadyCorrect)
        } else if 2 <= v <= 8 {
            Ok(v)
        } else {
            Err(NoFixNeededReason::InvalidOrientationTagValue(Some(v)))
        },
        OrientationLookup::Tagged(None) => Err(NoFixNeededReason::InvalidOrientationTagValue(None)),
    }
}

/// Classifies what the metadata says into a code to apply (2 to 8) or a
/// reason that none is applied.
pub fn orientation_from_lookup(l: OrientationLookup) -> (r: Result<u32, NoFixNeededReason>)
    ensures
        r == spec_orientation(l),
{
    match l {
        OrientationLookup::Missing => Err(NoFixNeededReason::NoExif),
        OrientationLookup::Malformed(s) => Err(NoFixNeededReason::ParsingError(s)),
        OrientationLookup::NoTag => Err(NoFixNeededReason::NoOrientationTag),
        OrientationLookup::Tagged(Some(v)) => {
            if v == 1 {
                Err(NoFixNeededReason::AlreadyCorrect)
            } else if 2 <= v && v <= 8 {
                Ok(v)
            } else {
                Err(NoFixNeededReason::InvalidOrientationTagValue(Some(v)))
            }
        },
        OrientationLookup::Tagged(None) => Err(NoFixNeededReason::InvalidOrientationTagValue(None)),
    }
}

/// What the Exif metadata of an encoded image says about its orientation,
/// without the text of a fault.
#[derive(Clone, Copy, Debug, PartialEq, Eq, Structural)]
pub enum ExifOrientation {
    Missing,
    Malformed,
    NoTag,
    Tagged(Option<u32>),
}

/// What the Exif reader finds about the orientation of an encoded image.
pub uninterp spec fn exif_orientation_of(raw: Seq<u8>) -> ExifOrientation;

/// The description of the fault the Exif reader reports for malformed metadata.
pub uninterp spec fn exif_fault_of(raw: Seq<u8>) -> Seq<char>;

pub open spec fn lookup_kind(l: OrientationLookup) -> ExifOrientation {
    match l {
        OrientationLookup::Missing => ExifOrientation::Missing,
        OrientationLookup::Malformed(_) => ExifOrientation::Malformed,
        OrientationLookup::NoTag => ExifOrientation::NoTag,
        OrientationLookup::Tagged(v) => ExifOrientation::Tagged(v),
    }
}

/// Relies on exif::Reader::read_from_container (absent metadata is
/// `Error::NotFound`, other faults are described by their Debug text),
/// exif::Exif::get_field for the orientation of the primary image, and
/// exif::Value::get_uint for its first integer.
#[verifier::external_body]
fn lookup_orientation(raw: &[u8]) -> (r: OrientationLookup)
    ensures
        lookup_kind(r) == exif_orientation_of(raw@),
        r matches OrientationLookup::Malformed(s) ==> s@ == exif_fault_of(raw@),
{
    match exif::Reader::new().read_from_container(&mut std::io::Cursor::new(raw)) {
        Err(exif::Error::NotFound(_)) => OrientationLookup::Missing,
        Err(e) => OrientationLookup::Malformed(format!("{:?}", e)),
        Ok(data) => match data.get_field(exif::Tag::Orientation, exif::In::PRIMARY) {
            None => OrientationLookup::NoTag,
            Some(field) => OrientationLookup::Tagged(field.value.get_uint(0)),
        },
    }
}

/// The result of resolving metadata of kind `k`: the same reason or code that
/// `orientation_from_lookup` gives, a malformed container giving a parsing error.
pub open spec fn resolves_to(k: ExifOrientation, r: Result<u32, NoFixNeededReason>) -> bool {
    match k {
        ExifOrientation::Missing => r == Err::<u32, NoFixNeededReason>(NoFixNeededReason::NoExif),
        ExifOrientation::Malformed => r matches Err(NoFixNeededReason::ParsingError(_)),
        ExifOrientation::NoTag => r == Err::<u32, NoFixNeededReason>(NoFixNeededReason::NoOrientationTag),
        ExifOrientation::Tagged(v) => r == spec_orientation(OrientationLookup::Tagged(v)),
    }
}

/// Reads the orientation code (2 to 8) that the Exif metadata of an encoded
/// image asks to correct, or the reason that no correction applies.
pub fn get_orientation(raw_image: &[u8]) -> (r: Result<u32, NoFixNeededReason>)
    ensures
        resolves_to(exif_orientation_of(raw_image@), r),
        r matches Err(NoFixNeededReason::ParsingError(s)) ==> s@ == exif_fault_of(raw_image@),
{
    orientation_from_lookup(lookup_orientation(raw_image))
}

} // verus!
