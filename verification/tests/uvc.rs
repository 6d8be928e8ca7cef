use uvc_gadget::plan::FsOp;
use uvc_gadget::uvc::driver;
use uvc_gadget::uvc::Frame;
use uvc_gadget::uvc::Status;
use uvc_gadget::uvc::Uvc;
use uvc_gadget::uvc::UvcBuilder;

fn mjpeg_frame() -> Frame {
    Frame {
        format: "mjpeg".to_string(),
        name: "mjpeg".to_string(),
        width: 1920,
        height: 1080,
        frame_intervals: vec![UvcBuilder::fps(15)],
    }
}

#[test]
fn fps_15_truncates() {
    assert_eq!(UvcBuilder::fps(15), 666666);
}

#[test]
fn fps_30_truncates() {
    assert_eq!(UvcBuilder::fps(30), 333333);
}

#[test]
fn driver_name_is_uvc() {
    assert_eq!(driver(), "uvc");
}

#[test]
fn builder_starts_empty() {
    assert_eq!(Uvc::builder().frames.len(), 0);
}

#[test]
fn add_frame_copies_descriptor() {
    let mut builder = Uvc::builder();
    builder.add_frame(&mjpeg_frame());
    assert_eq!(builder.frames.len(), 1);
    assert_eq!(builder.frames[0].format, "mjpeg");
    assert_eq!(builder.frames[0].name, "mjpeg");
    assert_eq!(builder.frames[0].width, 1920);
    assert_eq!(builder.frames[0].height, 1080);
    assert_eq!(builder.frames[0].frame_intervals, vec![666666]);
}

fn write_contents<'a>(ops: &'a [FsOp], wanted: &str) -> Option<&'a str> {
    for op in ops {
        if let FsOp::WriteFile { path, contents } = op {
            if path == wanted {
                return Some(contents.as_str());
            }
        }
    }
    None
}

#[test]
fn one_frame_plan_end_to_end() {
    let mut builder = Uvc::builder();
    builder.add_frame(&mjpeg_frame());
    let (_uvc, handle) = builder.build();
    let ops = handle.function.register_ops();

    assert_eq!(ops.len(), 15);
    assert_eq!(
        ops[0],
        FsOp::CreateDir { path: "streaming/header/h".to_string() }
    );
    assert_eq!(
        write_contents(&ops, "streaming_interval"),
        Some("1\n")
    );
    assert_eq!(
        write_contents(&ops, "streaming_maxpacket"),
        Some("3072\n")
    );
    assert_eq!(
        write_contents(&ops, "streaming_maxburst"),
        Some("1\n")
    );
    assert_eq!(
        write_contents(&ops, "streaming/mjpeg/mjpeg/1080p/wWidth"),
        Some("1920\n")
    );
    assert_eq!(
        write_contents(&ops, "streaming/mjpeg/mjpeg/1080p/wHeight"),
        Some("1080\n")
    );
    assert_eq!(
        write_contents(&ops, "streaming/mjpeg/mjpeg/1080p/dwMaxVideoFrameBufferSize"),
        Some("4147200\n")
    );
    assert_eq!(
        write_contents(&ops, "streaming/mjpeg/mjpeg/1080p/dwFrameInterval"),
        Some("666666\n")
    );
    assert_eq!(
        ops[8],
        FsOp::CreateDir { path: "control/header/h".to_string() }
    );
    assert_eq!(
        ops[9],
        FsOp::Symlink {
            target: "streaming/mjpeg/mjpeg".to_string(),
            link: "streaming/header/h/mjpeg".to_string(),
        }
    );
}

#[test]
fn one_link_per_frame_plus_five() {
    let mut builder = Uvc::builder();
    let mut second = mjpeg_frame();
    second.name = "mjpeg2".to_string();
    second.height = 720;
    second.frame_intervals = vec![UvcBuilder::fps(30), UvcBuilder::fps(15)];
    builder.add_frame(&mjpeg_frame());
    builder.add_frame(&second);
    let (_uvc, handle) = builder.build();
    let ops = handle.function.register_ops();

    assert_eq!(ops.len(), 20);
    let links: Vec<&FsOp> = ops
        .iter()
        .filter(|op| matches!(op, FsOp::Symlink { .. }))
        .collect();
    assert_eq!(links.len(), 7);
    // every symlink comes after every other operation
    for (i, op) in ops.iter().enumerate() {
        assert_eq!(matches!(op, FsOp::Symlink { .. }), i >= 13);
    }
    assert_eq!(
        ops[13],
        FsOp::Symlink {
            target: "streaming/mjpeg/mjpeg".to_string(),
            link: "streaming/header/h/mjpeg".to_string(),
        }
    );
    assert_eq!(
        ops[14],
        FsOp::Symlink {
            target: "streaming/mjpeg/mjpeg2".to_string(),
            link: "streaming/header/h/mjpeg2".to_string(),
        }
    );
    assert_eq!(
        write_contents(&ops, "streaming/mjpeg/mjpeg2/720p/dwFrameInterval"),
        Some("333333\n666666\n")
    );
    let class_links = [
        ("streaming/header/h", "streaming/class/fs/h"),
        ("streaming/header/h", "streaming/class/hs/h"),
        ("streaming/header/h", "streaming/class/ss/h"),
        ("control/header/h", "control/class/fs/h"),
        ("control/header/h", "control/class/ss/h"),
    ];
    for (k, (target, link)) in class_links.iter().enumerate() {
        assert_eq!(
            ops[15 + k],
            FsOp::Symlink { target: target.to_string(), link: link.to_string() }
        );
    }
}

#[test]
fn empty_frame_list_still_creates_headers() {
    let (_uvc, handle) = Uvc::builder().build();
    let ops = handle.function.register_ops();
    assert_eq!(ops.len(), 10);
    assert_eq!(
        ops[0],
        FsOp::CreateDir { path: "streaming/header/h".to_string() }
    );
    assert_eq!(
        ops[4],
        FsOp::CreateDir { path: "control/header/h".to_string() }
    );
    for op in &ops {
        if let FsOp::WriteFile { path, .. } = op {
            assert!(
                path == "streaming_interval"
                    || path == "streaming_maxpacket"
                    || path == "streaming_maxburst"
            );
        }
    }
    for op in &ops[5..] {
        assert!(matches!(op, FsOp::Symlink { .. }));
    }
}

#[test]
fn status_follows_probe() {
    let (mut uvc, _handle) = Uvc::builder().build();
    assert_eq!(uvc.status(Some(true)), Status::Unbound);
    uvc.dir.set_dir(vec![
        "sys".to_string(),
        "kernel".to_string(),
        "config".to_string(),
        "usb_gadget".to_string(),
        "g1".to_string(),
        "functions".to_string(),
        "uvc.0".to_string(),
    ]);
    assert_eq!(uvc.status(Some(true)), Status::Bound);
    assert_eq!(uvc.status(Some(false)), Status::Unbound);
    assert_eq!(uvc.status(None), Status::Unknown);
}
