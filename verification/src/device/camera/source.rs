use vstd::prelude::*;
use crate::common::config::{CameraConfig, VideoSource};
use crate::device::camera::fs::Image;

verus! {

/// The video source that the configuration names. Every kind of source is
/// read as a still image from `path` for now.
pub fn new_source_from_config<M>(source: VideoSource, path: String, camera_config: CameraConfig) -> (res: Image<M>)
    ensures
        res.cached is None,
        res.path == path,
{
    match source {
        VideoSource::Image => Image::new(path),
        _ => Image::new(path),
    }
}

} // verus!
