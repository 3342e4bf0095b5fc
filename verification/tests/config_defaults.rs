use radar_core::common::config::{AppConfig, CalibPoint, CameraManufacturer, VideoSource};

#[test]
fn initial_config() {
    let c = AppConfig::new();
    assert!(c.rtmp.enabled);
    assert_eq!(c.rtmp.addr, "0.0.0.0");
    assert!(c.ws.enabled);
    assert_eq!(c.ws.addr, "0.0.0.0");
    assert_eq!(c.ws.port, 8080);
    assert_eq!(c.camera.manufacturer, CameraManufacturer::Other);
    assert_eq!(c.camera.model, "");
    assert_eq!(c.detect.detect_source_type, VideoSource::Image);
    assert_eq!(c.detect.model, "yolov8m");
    assert_eq!(c.detect.adapter, "openvino");
    assert_eq!(c.log.level, "info");
    assert_eq!(c.log.path, "log.txt");
    assert!(c.log.show);
    assert_eq!(c.calib.calib_source_type, VideoSource::Image);
    assert_eq!(c.calib.calib_source_path, "calib.jpg");
    assert_eq!(c.calib.calib_points.len(), 6);
    for p in c.calib.calib_points.iter() {
        assert_eq!(*p, CalibPoint { x_bits: 0, y_bits: 0, z_bits: 0 });
        assert_eq!(f32::from_bits(p.x_bits), 0.0);
    }
}

#[test]
fn empty_config() {
    let c = AppConfig::default();
    assert!(!c.rtmp.enabled);
    assert_eq!(c.rtmp.addr, "");
    assert!(!c.ws.enabled);
    assert_eq!(c.ws.port, 0);
    assert_eq!(c.camera.manufacturer, CameraManufacturer::Other);
    assert_eq!(c.log.level, "");
    assert!(!c.log.show);
    assert_eq!(c.calib.calib_source_type, VideoSource::Image);
    assert!(c.calib.calib_points.is_empty());
    assert_eq!(c.detect.detect_source_type, VideoSource::Image);
    assert_eq!(c.detect.model, "");
}

#[test]
fn enum_defaults() {
    assert_eq!(CameraManufacturer::default(), CameraManufacturer::Other);
    assert_eq!(VideoSource::default(), VideoSource::Image);
    assert_eq!(CalibPoint::default(), CalibPoint { x_bits: 0, y_bits: 0, z_bits: 0 });
}
