use trcc::config::{Config, Device, Picture, Resolution};
use trcc::decoder::{append_decimal, crop_filter, image_args, image_filter, video_args, video_filter};
use trcc::info::{device_info, pick_language, text_or_placeholder};
use trcc::probe::ProbeRequest;
use trcc::protocol::compose_probe_request;

#[test]
fn decimal_numbers() {
    for (n, text) in [(0u64, "0"), (7, "7"), (10, "10"), (320, "320"), (65535, "65535"), (u64::MAX, "18446744073709551615")] {
        let mut s = String::from("x=");
        append_decimal(&mut s, n);
        assert_eq!(s, format!("x={}", text));
    }
}

#[test]
fn crop_keeps_the_display_aspect_ratio() {
    assert_eq!(
        crop_filter(320, 240),
        "crop='if(gt(iw/ih,320/240),ih*320/240,iw)':'if(gt(iw/ih,320/240),ih,iw*240/320)'"
    );
}

#[test]
fn image_filter_crops_then_scales() {
    assert_eq!(
        image_filter(320, 320),
        "crop='if(gt(iw/ih,320/320),ih*320/320,iw)':'if(gt(iw/ih,320/320),ih,iw*320/320)',scale=320:320:flags=lanczos"
    );
}

#[test]
fn video_filter_adds_the_frame_rate() {
    assert_eq!(
        video_filter(480, 128, 30),
        "crop='if(gt(iw/ih,480/128),ih*480/128,iw)':'if(gt(iw/ih,480/128),ih,iw*128/480)',scale=480:128:flags=lanczos,fps=30"
    );
}

#[test]
fn arguments_for_an_image() {
    let args = image_args("cat.png", 320, 240, "/tmp/out.raw");
    let filter = image_filter(320, 240);
    assert_eq!(
        args,
        vec![
            "-i", "cat.png", "-vf", filter.as_str(), "-frames:v", "1", "-pix_fmt", "rgb565be",
            "-f", "rawvideo", "-y", "/tmp/out.raw",
        ]
    );
}

#[test]
fn arguments_for_a_video() {
    let args = video_args("clip.mp4", 320, 240, 24);
    let filter = video_filter(320, 240, 24);
    assert_eq!(
        args,
        vec![
            "-stream_loop", "-1", "-i", "clip.mp4", "-vf", filter.as_str(), "-pix_fmt",
            "rgb565be", "-f", "rawvideo", "-",
        ]
    );
}

#[test]
fn missing_strings_get_the_placeholder() {
    assert_eq!(text_or_placeholder(None), "N/A");
    assert_eq!(text_or_placeholder(Some("Acme".to_string())), "Acme");
    let info = device_info(Some("Acme".to_string()), None, Some("0001".to_string()));
    assert_eq!(info.manufacturer, "Acme");
    assert_eq!(info.product, "N/A");
    assert_eq!(info.serial, "0001");
}

#[test]
fn first_language_is_used() {
    assert_eq!(pick_language(&vec![0x0409, 0x0407]), Some(0x0409));
    assert_eq!(pick_language(&Vec::new()), None);
}

#[test]
fn probe_request_value_encodes_as_the_probe_packet() {
    let request = ProbeRequest::new();
    assert_eq!(request.magic, 0x7856_3412);
    assert_eq!(request.probe_flag, 1);
    let bytes = request.to_bytes();
    assert_eq!(bytes.len(), 64);
    assert_eq!(bytes, compose_probe_request());
    let other = ProbeRequest { magic: 0x0102_0304, probe_flag: 0x0A0B_0C0D }.to_bytes();
    assert_eq!(&other[0..4], &[4, 3, 2, 1]);
    assert_eq!(&other[0x38..0x3C], &[0x0D, 0x0C, 0x0B, 0x0A]);
    assert!(other[4..0x38].iter().all(|b| *b == 0));
    assert!(other[0x3C..].iter().all(|b| *b == 0));
}

#[test]
fn configuration_record_holds_its_parts() {
    let config = Config {
        device: Device { vid: 0x0416, pid: 0x5302 },
        resolution: Resolution { width: 320, height: 240 },
        picture: Picture::Video { file: "clip.mp4".to_string(), fps: 30 },
    };
    assert_eq!(config.device, Device { vid: 0x0416, pid: 0x5302 });
    assert_eq!(config.resolution, Resolution { width: 320, height: 240 });
    assert!(matches!(config.clone().picture, Picture::Video { fps: 30, .. }));
}
