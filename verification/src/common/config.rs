use vstd::prelude::*;

verus! {

broadcast use vstd::string::group_string_axioms;

/// Settings of the RTMP stream.
#[derive(Debug, Clone)]
pub struct RtmpConfig {
    pub enabled: bool,
    pub addr: String,
}

/// Settings of the web socket and HTTP server.
#[derive(Debug, Clone)]
pub struct WSConfig {
    pub enabled: bool,
    pub addr: String,
    pub port: usize,
}

/// Maker of the camera the station reads from.
#[derive(Debug, PartialEq, Eq, Structural, Copy, Clone)]
pub enum CameraManufacturer {
    Hikvision,
    Dahua,
    Other,
}

/// Settings of the camera.
#[derive(Debug, Clone)]
pub struct CameraConfig {
    pub manufacturer: CameraManufacturer,
    pub model: String,
}

/// Settings of the log.
#[derive(Debug, Clone)]
pub struct LogConfig {
    pub level: String,
    pub path: String,
    pub show: bool,
}

/// Where frames are read from.
#[derive(Debug, PartialEq, Eq, Structural, Copy, Clone)]
pub enum VideoSource {
    Image,
    Video,
    Camera,
}

/// A calibration point. Each coordinate is a 32-bit float, held here as its
/// IEEE-754 bit pattern (so `0` is `0.0`).
#[derive(Debug, PartialEq, Eq, Structural, Copy, Clone)]
pub struct CalibPoint {
    pub x_bits: u32,
    pub y_bits: u32,
    pub z_bits: u32,
}

/// Settings of the calibration.
#[derive(Debug, Clone)]
pub struct CalibConfig {
    pub calib_source_type: VideoSource,
    pub calib_source_path: String,
    pub calib_points: Vec<CalibPoint>,
}

/// Settings of the detector.
#[derive(Debug, Clone)]
pub struct DetectConfig {
    pub detect_source_type: VideoSource,
    pub model: String,
    pub adapter: String,
}

/// The whole configuration of the station.
#[derive(Debug, Clone)]
pub struct AppConfig {
    pub rtmp: RtmpConfig,
    pub ws: WSConfig,
    pub camera: CameraConfig,
    pub log: LogConfig,
    pub calib: CalibConfig,
    pub detect: DetectConfig,
}

impl Default for CameraManufacturer {
    fn default() -> (res: Self)
        ensures
            res == CameraManufacturer::Other,
    {
        CameraManufacturer::Other
    }
}

impl Default for VideoSource {
    fn default() -> (res: Self)
        ensures
            res == VideoSource::Image,
    {
        VideoSource::Image
    }
}

impl Default for RtmpConfig {
    fn default() -> (res: Self)
        ensures
            !res.enabled,
            res.addr@ == Seq::<char>::empty(),
    {
        RtmpConfig { enabled: false, addr: String::new() }
    }
}

impl Default for WSConfig {
    fn default() -> (res: Self)
        ensures
            !res.enabled,
            res.addr@ == Seq::<char>::empty(),
            res.port == 0,
    {
        WSConfig { enabled: false, addr: String::new(), port: 0 }
    }
}

impl Default for CameraConfig {
    fn default() -> (res: Self)
        ensures
            res.manufacturer == CameraManufacturer::Other,
            res.model@ == Seq::<char>::empty(),
    {
        CameraConfig { manufacturer: CameraManufacturer::Other, model: String::new() }
    }
}

impl Default for LogConfig {
    fn default() -> (res: Self)
        ensures
            res.level@ == Seq::<char>::empty(),
            res.path@ == Seq::<char>::empty(),
            !res.show,
    {
        LogConfig { level: String::new(), path: String::new(), show: false }
    }
}

impl Default for CalibPoint {
    fn default() -> (res: Self)
        ensures
            res == zero_calib_point(),
    {
        CalibPoint { x_bits: 0, y_bits: 0, z_bits: 0 }
    }
}

impl Default for CalibConfig {
    fn default() -> (res: Self)
        ensures
            res.calib_source_type == VideoSource::Image,
            res.calib_source_path@ == Seq::<char>::empty(),
            res.calib_points@ == Seq::<CalibPoint>::empty(),
    {
        CalibConfig {
            calib_source_type: VideoSource::Image,
            calib_source_path: String::new(),
            calib_points: Vec::new(),
        }
    }
}

impl Default for DetectConfig {
    fn default() -> (res: Self)
        ensures
            res.detect_source_type == VideoSource::Image,
            res.model@ == Seq::<char>::empty(),
            res.adapter@ == Seq::<char>::empty(),
    {
        DetectConfig { detect_source_type: VideoSource::Image, model: String::new(), adapter: String::new() }
    }
}

/// The empty configuration: every switch off, every text empty, port 0,
/// the default manufacturer and sources, no calibration points.
pub open spec fn is_empty_config(c: AppConfig) -> bool {
    &&& !c.rtmp.enabled
    &&& c.rtmp.addr@ == Seq::<char>::empty()
    &&& !c.ws.enabled
    &&& c.ws.addr@ == Seq::<char>::empty()
    &&& c.ws.port == 0
    &&& c.camera.manufacturer == CameraManufacturer::Other
    &&& c.camera.model@ == Seq::<char>::empty()
    &&& c.log.level@ == Seq::<char>::empty()
    &&& c.log.path@ == Seq::<char>::empty()
    &&& !c.log.show
    &&& c.calib.calib_source_type == VideoSource::Image
    &&& c.calib.calib_source_path@ == Seq::<char>::empty()
    &&& c.calib.calib_points@ == Seq::<CalibPoint>::empty()
    &&& c.detect.detect_source_type == VideoSource::Image
    &&& c.detect.model@ == Seq::<char>::empty()
    &&& c.detect.adapter@ == Seq::<char>::empty()
}

impl Default for AppConfig {
    fn default() -> (res: Self)
        ensures
            is_empty_config(res),
    {
        AppConfig {
            rtmp: RtmpConfig::default(),
            ws: WSConfig::default(),
            camera: CameraConfig::default(),
            log: LogConfig::default(),
            calib: CalibConfig::default(),
            detect: DetectConfig::default(),
        }
    }
}

/// A calibration point at the origin.
pub open spec fn zero_calib_point() -> CalibPoint {
    CalibPoint { x_bits: 0, y_bits: 0, z_bits: 0 }
}

/// The configuration that is written out when none can be read: everything
/// enabled and listening on all addresses, the web server on port 8080,
/// frames read from `calib.jpg`, the `yolov8m` model run by `openvino`,
/// `info` logging to `log.txt`, and six calibration points at the origin.
pub open spec fn is_initial_config(c: AppConfig) -> bool {
    &&& c.rtmp.enabled
    &&& c.rtmp.addr@ == "0.0.0.0"@
    &&& c.ws.enabled
    &&& c.ws.addr@ == "0.0.0.0"@
    &&& c.ws.port == 8080
    &&& c.camera.manufacturer == CameraManufacturer::Other
    &&& c.camera.model@ == Seq::<char>::empty()
    &&& c.detect.detect_source_type == VideoSource::Image
    &&& c.detect.model@ == "yolov8m"@
    &&& c.detect.adapter@ == "openvino"@
    &&& c.log.level@ == "info"@
    &&& c.log.path@ == "log.txt"@
    &&& c.log.show
    &&& c.calib.calib_source_type == VideoSource::Image
    &&& c.calib.calib_source_path@ == "calib.jpg"@
    &&& c.calib.calib_points@ == Seq::new(6, |i: int| zero_calib_point())
}

impl AppConfig {
    /// The configuration to start from when none can be read.
    pub fn new() -> (res: Self)
        ensures
            is_initial_config(res),
    {
        let mut calib_points: Vec<CalibPoint> = Vec::new();
        let mut i: usize = 0;
        while i < 6
            invariant
                i <= 6,
                calib_points@ == Seq::new(i as nat, |j: int| zero_calib_point()),
            decreases 6 - i,
        {
            calib_points.push(CalibPoint { x_bits: 0, y_bits: 0, z_bits: 0 });
            i = i + 1;
            assert(calib_points@ =~= Seq::new(i as nat, |j: int| zero_calib_point()));
        }
        AppConfig {
            rtmp: RtmpConfig { enabled: true, addr: "0.0.0.0".to_string() },
            ws: WSConfig { enabled: true, addr: "0.0.0.0".to_string(), port: 8080 },
            camera: CameraConfig { manufacturer: CameraManufacturer::Other, model: String::new() },
            log: LogConfig { level: "info".to_string(), path: "log.txt".to_string(), show: true },
            calib: CalibConfig {
                calib_source_type: VideoSource::Image,
                calib_source_path: "calib.jpg".to_string(),
                calib_points,
            },
            detect: DetectConfig {
                detect_source_type: VideoSource::Image,
                model: "yolov8m".to_string(),
                adapter: "openvino".to_string(),
            },
        }
    }
}

} // verus!
