use acapture::environment::Environment;
use acapture::error::{unwrap_warn, CaptureError};
use acapture::frame::{FrameFormat, RawFrame};
use acapture::options::CaptureOptions;
use acapture::target::Target;

fn snapshot() -> Vec<Target> {
    vec![
        Target::Display { id: 1, title: String::from("Main Display") },
        Target::Window { id: 7, title: String::from("Editor") },
    ]
}

#[test]
fn construction_with_known_target_starts_capturing() {
    let targets = snapshot();
    let env = Environment::new(&targets, Some(7), None, None, Some(10)).unwrap();
    assert!(env.capturing());
    assert!(env.warnings().is_empty());
    let options = env.options();
    assert_eq!(options.frame_rate, 10);
    assert!(!options.show_cursor);
    assert!(options.show_highlight);
    assert!(options.excluded_targets.is_none());
    match &options.target {
        Some(t) => assert_eq!(t.id(), 7),
        None => panic!("expected a resolved target"),
    }
}

#[test]
fn construction_without_target_uses_defaults() {
    let targets = snapshot();
    let env = Environment::new(&targets, None, Some(true), Some(false), None).unwrap();
    assert!(env.capturing());
    let options = env.options();
    assert!(options.target.is_none());
    assert_eq!(options.frame_rate, 32);
    assert!(options.show_cursor);
    assert!(!options.show_highlight);
}

#[test]
fn construction_with_unknown_target_hard_fails() {
    let targets = snapshot();
    let r = Environment::new(&targets, Some(42), None, None, None);
    assert!(matches!(r, Err(CaptureError::TargetNotFound { id: 42 })));
}

#[test]
fn end_to_end_reset_returns_image_of_output_size() {
    // The backend would report its output size and deliver a frame of that
    // size; the first reset hands back an image shaped [H, W, 3].
    let targets = snapshot();
    let mut env = Environment::new(&targets, Some(1), None, None, Some(10)).unwrap();
    let output_size: [u32; 2] = [4, 3];

    let plan = env.prepare_reset();
    assert!(plan.stop_backend);
    assert!(plan.start_backend);

    let (width, height) = (output_size[0], output_size[1]);
    let data = vec![0u8; (width * height * 4) as usize];
    let frame = RawFrame { format: FrameFormat::Bgra, width, height, display_time: 0, data };
    let (image, metadata) = env.finish_reset(frame).unwrap();
    assert_eq!(image.height(), height as usize);
    assert_eq!(image.width(), width as usize);
    assert_eq!(image.channels(), 3);
    assert_eq!(metadata.len(), 0);
    assert!(env.warnings().is_empty());
}

#[test]
fn reset_from_idle_only_starts() {
    let targets = snapshot();
    let mut env = Environment::new(&targets, None, None, None, None).unwrap();
    env.close();
    assert!(!env.capturing());
    let plan = env.prepare_reset();
    assert!(!plan.stop_backend);
    assert!(plan.start_backend);
    assert!(env.capturing());
}

#[test]
fn reset_with_bad_frame_raises() {
    let targets = snapshot();
    let env = Environment::new(&targets, None, None, None, None).unwrap();
    let frame = RawFrame {
        format: FrameFormat::Bgrx,
        width: 2,
        height: 2,
        display_time: 0,
        data: vec![0u8; 16],
    };
    let r = env.finish_reset(frame);
    assert!(matches!(r, Err(CaptureError::UnsupportedFrameFormat { format: FrameFormat::Bgrx })));
}

#[test]
fn close_twice_warns_instead_of_raising() {
    let targets = snapshot();
    let mut env = Environment::new(&targets, None, None, None, None).unwrap();
    let first = env.close();
    assert!(first);
    assert!(env.warnings().is_empty());
    let second = env.close();
    assert!(!second);
    assert_eq!(env.warnings().len(), 1);
    assert!(matches!(env.warnings()[0], CaptureError::NotRunning));
}

#[test]
fn unwrap_warn_hands_value_through() {
    let mut warnings: Vec<CaptureError> = Vec::new();
    let r: Result<u32, CaptureError> = Ok(5);
    assert_eq!(unwrap_warn(r, &mut warnings), Some(5));
    assert!(warnings.is_empty());
}

#[test]
fn unwrap_warn_records_error_and_continues() {
    let mut warnings: Vec<CaptureError> = Vec::new();
    let r: Result<u32, CaptureError> = Err(CaptureError::Backend {
        message: String::from("device lost"),
    });
    assert_eq!(unwrap_warn(r, &mut warnings), None);
    assert_eq!(warnings.len(), 1);
    assert!(matches!(&warnings[0], CaptureError::Backend { message } if message == "device lost"));
}

#[test]
fn default_options() {
    let options = CaptureOptions::default();
    assert!(options.target.is_none());
    assert_eq!(options.frame_rate, 32);
    assert!(!options.show_cursor);
    assert!(options.show_highlight);
    assert!(options.excluded_targets.is_none());
}
