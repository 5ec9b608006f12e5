//! The EXIF facts shown beside an image.

use vstd::prelude::*;

verus! {

/// EXIF details of an image; each is absent when the file does not say.
pub struct ImageMetadata {
    pub width: Option<u32>,
    pub height: Option<u32>,
    pub camera_make: Option<String>,
    pub camera_model: Option<String>,
    pub lens: Option<String>,
    pub iso: Option<u32>,
    pub shutter_speed: Option<String>,
    pub aperture: Option<String>,
    pub focal_length: Option<String>,
    pub date_taken: Option<String>,
}

impl ImageMetadata {
    /// Metadata that says nothing.
    pub fn empty() -> (r: ImageMetadata)
        ensures
            r.width is None && r.height is None && r.iso is None,
    {
        ImageMetadata {
            width: None,
            height: None,
            camera_make: None,
            camera_model: None,
            lens: None,
            iso: None,
            shutter_speed: None,
            aperture: None,
            focal_length: None,
            date_taken: None,
        }
    }

    /// The longer side of the image, when both sides are known.
    pub fn long_edge(&self) -> (r: Option<u32>)
        ensures
            r == (match (self.width, self.height) {
                (Some(w), Some(h)) => Some(if w >= h { w } else { h }),
                _ => None,
            }),
    {
        match (self.width, self.height) {
            (Some(w), Some(h)) => Some(if w >= h { w } else { h }),
            _ => None,
        }
    }
}

} // verus!
