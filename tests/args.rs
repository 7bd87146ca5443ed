use system76_power::args::{Args, GraphicsArgs};

#[test]
fn graphics_args_select_vendor() {
    assert_eq!(GraphicsArgs::Compute.vendor(), Some("compute"));
    assert_eq!(GraphicsArgs::Hybrid.vendor(), Some("hybrid"));
    assert_eq!(GraphicsArgs::Integrated.vendor(), Some("integrated"));
    assert_eq!(GraphicsArgs::Nvidia.vendor(), Some("nvidia"));
    assert_eq!(GraphicsArgs::Switchable.vendor(), None);
    assert_eq!(GraphicsArgs::Power { state: Some("off".to_string()) }.vendor(), None);
    let args = Args::Graphics { cmd: Some(GraphicsArgs::Hybrid) };
    assert!(matches!(args, Args::Graphics { cmd: Some(GraphicsArgs::Hybrid) }));
}
