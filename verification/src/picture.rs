use vstd::prelude::*;

verus! {

/// What an embedded picture shows, in the numbering of the ID3v2 APIC frame.
#[derive(Clone, Copy, Debug, PartialEq, Eq, Structural)]
pub enum PictureType {
    Other,
    Icon,
    OtherIcon,
    CoverFront,
    CoverBack,
    Leaflet,
    Media,
    LeadArtist,
    Artist,
    Conductor,
    Band,
    Composer,
    Lyricist,
    RecordingLocation,
    DuringRecording,
    DuringPerformance,
    ScreenCapture,
    BrightFish,
    Illustration,
    BandLogo,
    PublisherLogo,
    Undefined(u8),
}

/// The picture a player shows for a list of embedded pictures: the first
/// front cover, else the first picture (MP4 files often lose the picture
/// type), and none for an empty list.
pub open spec fn preferred_picture(types: Seq<PictureType>) -> Option<int> {
    if types.len() == 0 {
        None
    } else if exists|i: int| 0 <= i < types.len() && types[i] is CoverFront {
        Some(choose|i: int| 0 <= i < types.len() && types[i] is CoverFront
            && forall|j: int| 0 <= j < i ==> !(types[j] is CoverFront))
    } else {
        Some(0)
    }
}

/// Picks the index of the picture to display: the first `CoverFront`,
/// otherwise index 0, and `None` when there are no pictures.
pub fn pick_picture_index(types: &[PictureType]) -> (r: Option<usize>)
    ensures
        r is None <==> types@.len() == 0,
        r matches Some(i) ==> i < types@.len(),
        r matches Some(i) ==> (types@[i as int] is CoverFront
            && forall|j: int| 0 <= j < i ==> !(types@[j] is CoverFront))
            || (i == 0 && forall|j: int| 0 <= j < types@.len() ==> !(types@[j] is CoverFront)),
        r matches Some(i) ==> preferred_picture(types@) == Some(i as int),
{
    if types.len() == 0 {
        return None;
    }
    let mut k: usize = 0;
    while k < types.len()
        invariant
            k <= types@.len(),
            forall|j: int| 0 <= j < k ==> !(types@[j] is CoverFront),
        decreases types@.len() - k,
    {
        if let PictureType::CoverFront = types[k] {
            proof {
                let i = k as int;
                assert(0 <= i < types@.len() && types@[i] is CoverFront);
                let c = choose|i: int| 0 <= i < types@.len() && types@[i] is CoverFront
                    && forall|j: int| 0 <= j < i ==> !(types@[j] is CoverFront);
                assert(0 <= c < types@.len() && types@[c] is CoverFront
                    && forall|j: int| 0 <= j < c ==> !(types@[j] is CoverFront));
                assert(c == i) by {
                    if c < i {
                        assert(!(types@[c] is CoverFront));
                    } else if c > i {
                        assert(!(types@[i] is CoverFront));
                    }
                }
            }
            return Some(k);
        }
        k = k + 1;
    }
    Some(0)
}

/// The picture type an APIC number stands for (`PictureType::from_u8` of
/// lofty): 0 to 20 name the listed types, other numbers are `Undefined`.
#[verifier::opaque]
pub open spec fn picture_type_of_code(code: u8) -> PictureType {
    match code {
        0 => PictureType::Other,
        1 => PictureType::Icon,
        2 => PictureType::OtherIcon,
        3 => PictureType::CoverFront,
        4 => PictureType::CoverBack,
        5 => PictureType::Leaflet,
        6 => PictureType::Media,
        7 => PictureType::LeadArtist,
        8 => PictureType::Artist,
        9 => PictureType::Conductor,
        10 => PictureType::Band,
        11 => PictureType::Composer,
        12 => PictureType::Lyricist,
        13 => PictureType::RecordingLocation,
        14 => PictureType::DuringRecording,
        15 => PictureType::DuringPerformance,
        16 => PictureType::ScreenCapture,
        17 => PictureType::BrightFish,
        18 => PictureType::Illustration,
        19 => PictureType::BandLogo,
        20 => PictureType::PublisherLogo,
        n => PictureType::Undefined(n),
    }
}

impl PictureType {
    /// The type an APIC number stands for.
    pub fn from_apic_code(code: u8) -> (r: PictureType)
        ensures
            r == picture_type_of_code(code),
    {
        reveal(picture_type_of_code);
        match code {
            0 => PictureType::Other,
            1 => PictureType::Icon,
            2 => PictureType::OtherIcon,
            3 => PictureType::CoverFront,
            4 => PictureType::CoverBack,
            5 => PictureType::Leaflet,
            6 => PictureType::Media,
            7 => PictureType::LeadArtist,
            8 => PictureType::Artist,
            9 => PictureType::Conductor,
            10 => PictureType::Band,
            11 => PictureType::Composer,
            12 => PictureType::Lyricist,
            13 => PictureType::RecordingLocation,
            14 => PictureType::DuringRecording,
            15 => PictureType::DuringPerformance,
            16 => PictureType::ScreenCapture,
            17 => PictureType::BrightFish,
            18 => PictureType::Illustration,
            19 => PictureType::BandLogo,
            20 => PictureType::PublisherLogo,
            n => PictureType::Undefined(n),
        }
    }

    /// The APIC number of the type; `from_apic_code` gives the type back for
    /// every type but `Undefined` of a listed number.
    pub fn apic_code(&self) -> (r: u8)
        ensures
            !(*self is Undefined) ==> picture_type_of_code(r) == *self,
            *self matches PictureType::Undefined(n) ==> r == n,
    {
        reveal(picture_type_of_code);
        match self {
            PictureType::Other => 0,
            PictureType::Icon => 1,
            PictureType::OtherIcon => 2,
            PictureType::CoverFront => 3,
            PictureType::CoverBack => 4,
            PictureType::Leaflet => 5,
            PictureType::Media => 6,
            PictureType::LeadArtist => 7,
            PictureType::Artist => 8,
            PictureType::Conductor => 9,
            PictureType::Band => 10,
            PictureType::Composer => 11,
            PictureType::Lyricist => 12,
            PictureType::RecordingLocation => 13,
            PictureType::DuringRecording => 14,
            PictureType::DuringPerformance => 15,
            PictureType::ScreenCapture => 16,
            PictureType::BrightFish => 17,
            PictureType::Illustration => 18,
            PictureType::BandLogo => 19,
            PictureType::PublisherLogo => 20,
            PictureType::Undefined(n) => *n,
        }
    }
}

} // verus!
