use vstd::prelude::*;

verus! {

/// A still image on disk used as a video source. `M` is the type of a
/// decoded frame; the frame is kept once it has been read.
pub struct Image<M> {
    pub cached: Option<M>,
    pub path: String,
}

/// A video file used as a video source.
pub struct Video {
    current: u32,
    pub path: String,
}

impl<M> Image<M> {
    /// An image source for the file at `path`, with nothing read yet.
    pub fn new(path: String) -> (res: Self)
        ensures
            res.cached is None,
            res.path == path,
    {
        Image { cached: None, path }
    }
}

impl Video {
    /// Index of the next frame to read.
    pub closed spec fn current_frame(&self) -> u32 {
        self.current
    }

    /// Path of the video file.
    pub closed spec fn file_path(&self) -> String {
        self.path
    }

    /// A video source for the file at `path`, positioned at its first frame.
    pub fn new(path: String) -> (res: Video)
        ensures
            res.current_frame() == 0,
            res.file_path() == path,
    {
        Video { current: 0, path }
    }
}

} // verus!
