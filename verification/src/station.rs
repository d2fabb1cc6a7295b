//! The per-station planning step: classifies every image's recognized
//! text, assigns the human-readable description that the upload loop
//! writes, and extracts the station's inspection date.

use vstd::prelude::*;

use crate::classify::classify;
use crate::classify::classify_label;
use crate::classify::OcrResult;
use crate::dates::find_date;
use crate::dates::station_date;
use crate::dates::texts_date_from;
use crate::session::ImageUpload;
use crate::session::StationJob;

verus! {

/// The description written for each classification label.
pub open spec fn description_label(r: OcrResult) -> Seq<char> {
    match r {
        OcrResult::Deviation => "Deviation"@,
        OcrResult::OccBandwidth => "Occupied Bandwidth"@,
        OcrResult::Unwanted => "Unwanted Emission"@,
        OcrResult::Date => "Date Image"@,
    }
}

/// The human-readable description attached to an image with the given
/// label.
pub fn description_of(r: OcrResult) -> (s: String)
    ensures
        s@ == description_label(r),
{
    match r {
        OcrResult::Deviation => String::from_str("Deviation"),
        OcrResult::OccBandwidth => String::from_str("Occupied Bandwidth"),
        OcrResult::Unwanted => String::from_str("Unwanted Emission"),
        OcrResult::Date => String::from_str("Date Image"),
    }
}

/// The recognized texts of a station's images, in image order.
pub open spec fn texts_of(images: Seq<(String, String)>) -> Seq<Seq<char>> {
    images.map_values(|pr: (String, String)| pr.1@)
}

/// Builds one station's job from its images, given as pairs of the
/// image path and the recognized text, in upload order. Every image
/// is classified and given its description; the station's inspection
/// date is the first `dd/mm/yy` token across the texts, in order.
pub fn plan_station(station_id: String, images: Vec<(String, String)>) -> (job: StationJob)
    ensures
        job.station_id == station_id,
        job.images@.len() == images@.len(),
        forall|i: int|
            0 <= i < images@.len() ==> job.images@[i].path@ == images@[i].0@,
        forall|i: int|
            0 <= i < images@.len() ==> job.images@[i].description@ == description_label(
                classify_label(images@[i].1@),
            ),
        match job.inspection_date {
            Some(d) => station_date(texts_of(images@)) == Some(d@),
            None => station_date(texts_of(images@)) is None,
        },
{
    let ghost texts = texts_of(images@);
    let mut ims: Vec<ImageUpload> = Vec::new();
    let mut date: Option<String> = None;
    let mut i: usize = 0;
    while i < images.len()
        invariant
            i <= images@.len(),
            texts == texts_of(images@),
            texts.len() == images@.len(),
            forall|k: int| 0 <= k < texts.len() ==> texts[k] == images@[k].1@,
            ims@.len() == i,
            forall|k: int| 0 <= k < i ==> ims@[k].path@ == images@[k].0@,
            forall|k: int|
                0 <= k < i ==> ims@[k].description@ == description_label(
                    classify_label(images@[k].1@),
                ),
            match date {
                Some(d) => station_date(texts) == Some(d@),
                None => station_date(texts) == texts_date_from(texts, i as int),
            },
        decreases images@.len() - i,
    {
        let pr = &images[i];
        let label = classify(pr.1.as_str());
        let desc = description_of(label);
        ims.push(ImageUpload { path: pr.0.clone(), description: desc });
        if date.is_none() {
            date = find_date(pr.1.as_str());
        }
        i = i + 1;
    }
    StationJob { station_id, images: ims, inspection_date: date }
}

} // verus!
