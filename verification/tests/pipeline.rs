use mediasnare::capture::audio::recording_sources;
use mediasnare::capture::pipeline::{
    audio_branch, chrono_stamp, compositor_offsets, crop_fits, cursor_mode, dirs_next, fall_back_to_x11,
    join_path, output_path, parse_element_desc, parse_muxer_desc, pulse_device, round_to_even,
    save_dir, session_type, source_type, stream_layout, video_source, x11_area_grab_desc,
    x11_video_source_desc, xdg_dir_var, AudioBranch, ElementDescError, StreamLayout, VideoSource,
};
use mediasnare::portal::types::{CursorMode, SourceType, Stream};
use mediasnare::window::main_window::Scope;

#[test]
fn round_to_even_values() {
    assert_eq!(round_to_even(0), 0);
    assert_eq!(round_to_even(1919), 1920);
    assert_eq!(round_to_even(1920), 1920);
    assert_eq!(round_to_even(-3), -2);
    assert_eq!(round_to_even(-4), -4);
}

#[test]
fn element_desc_parsing() {
    let d = parse_element_desc("mp4mux  fragment-duration=1000\tstreamable=true").ok().unwrap();
    assert_eq!(d.factory, "mp4mux");
    assert_eq!(
        d.properties,
        vec![
            ("fragment-duration".to_string(), "1000".to_string()),
            ("streamable".to_string(), "true".to_string()),
        ]
    );
    let d = parse_element_desc("x a=b=c").ok().unwrap();
    assert_eq!(d.properties, vec![("a".to_string(), "b=c".to_string())]);
    let d = parse_element_desc("  webmmux  ").ok().unwrap();
    assert_eq!(d.factory, "webmmux");
    assert!(d.properties.is_empty());
}

#[test]
fn element_desc_errors() {
    match parse_element_desc("   ") {
        Err(e) => {
            assert!(matches!(e, ElementDescError::Empty));
            assert_eq!(e.message("   "), "empty element description");
        }
        Ok(_) => panic!("blank description accepted"),
    }
    let desc = "mp4mux faststart a=1";
    match parse_element_desc(desc) {
        Err(e) => {
            match &e {
                ElementDescError::MalformedProperty(p) => assert_eq!(p, "faststart"),
                _ => panic!("wrong error"),
            }
            assert_eq!(e.message(desc), "malformed property 'faststart' in 'mp4mux faststart a=1'");
        }
        Ok(_) => panic!("malformed description accepted"),
    }
}

#[test]
fn muxer_desc_parsing() {
    assert!(parse_muxer_desc("").ok().unwrap().is_none());
    let m = parse_muxer_desc("oggmux junk max-delay=5").ok().unwrap().unwrap();
    assert_eq!(m.factory, "oggmux");
    assert_eq!(m.properties, vec![("max-delay".to_string(), "5".to_string())]);
    assert!(matches!(parse_muxer_desc(" "), Err(ElementDescError::Empty)));
}

#[test]
fn x11_video_source_descriptions() {
    assert_eq!(
        x11_video_source_desc(30, None),
        "ximagesrc use-damage=false ! videoconvert ! videorate ! capsfilter caps=video/x-raw,framerate=30/1"
    );
    assert_eq!(
        x11_video_source_desc(60, Some((100, 50, 640, 480))),
        "ximagesrc use-damage=false startx=100 starty=50 endx=739 endy=529 ! videoconvert ! videorate ! capsfilter caps=video/x-raw,framerate=60/1"
    );
    assert_eq!(
        x11_video_source_desc(25, Some((-10, 0, 20, 1))),
        "ximagesrc use-damage=false startx=-10 starty=0 endx=9 endy=0 ! videoconvert ! videorate ! capsfilter caps=video/x-raw,framerate=25/1"
    );
}

#[test]
fn x11_area_grab_description() {
    assert_eq!(
        x11_area_grab_desc(0, 0, 10, 20),
        "ximagesrc num-buffers=1 use-damage=false startx=0 starty=0 endx=9 endy=19 ! videoconvert ! video/x-raw,format=RGBA ! appsink name=sink emit-signals=false max-buffers=1 drop=false sync=false"
    );
}

#[test]
fn audio_branches() {
    assert_eq!(audio_branch("none"), AudioBranch::NoAudio);
    assert_eq!(audio_branch("both"), AudioBranch::Mixed);
    assert_eq!(audio_branch("desktop"), AudioBranch::Single { monitor: true });
    assert_eq!(audio_branch("mic"), AudioBranch::Single { monitor: false });
    assert_eq!(pulse_device(true), Some("@DEFAULT_MONITOR@"));
    assert_eq!(pulse_device(false), None);
}

#[test]
fn audio_recording_sources() {
    let err = recording_sources("none").err().unwrap();
    assert_eq!(err.message(), "Audio mode requires an audio source — select Desktop, Mic, or Both");
    assert_eq!(recording_sources("both"), Ok(AudioBranch::Mixed));
    assert_eq!(recording_sources("desktop"), Ok(AudioBranch::Single { monitor: true }));
    assert_eq!(recording_sources("mic"), Ok(AudioBranch::Single { monitor: false }));
}

#[test]
fn video_source_choice() {
    assert_eq!(video_source(true, "wayland"), VideoSource::Portal);
    assert_eq!(video_source(false, "wayland"), VideoSource::Unavailable);
    assert_eq!(video_source(false, "x11"), VideoSource::X11);
    assert!(fall_back_to_x11(false, "x11"));
    assert!(!fall_back_to_x11(true, "x11"));
    assert!(!fall_back_to_x11(false, "wayland"));
}

#[test]
fn session_type_lowercased_with_default() {
    assert_eq!(session_type(Some("Wayland")), "wayland");
    assert_eq!(session_type(Some("X11")), "x11");
    assert_eq!(session_type(None), "x11");
}

#[test]
fn portal_request_options() {
    assert_eq!(cursor_mode(true), CursorMode::Embedded);
    assert_eq!(cursor_mode(false), CursorMode::Hidden);
    assert_eq!(source_type(Scope::Window), SourceType::Window);
    assert_eq!(source_type(Scope::Full), SourceType::Monitor);
    assert_eq!(source_type(Scope::Region), SourceType::Monitor);
    assert_eq!(stream_layout(0), StreamLayout::NoStreams);
    assert_eq!(stream_layout(1), StreamLayout::Single);
    assert_eq!(stream_layout(3), StreamLayout::Composited);
}

#[test]
fn compositor_offsets_are_even() {
    let s = |x: i32, y: i32| Stream { node_id: 1, position: (x, y), size: (0, 0), source_type: SourceType::Monitor };
    assert_eq!(compositor_offsets(&vec![s(0, 0), s(1919, 3), s(-1, 2)]), vec![(0, 0), (1920, 4), (0, 2)]);
}

#[test]
fn default_directories() {
    assert_eq!(xdg_dir_var("videos"), "XDG_VIDEOS_DIR");
    assert_eq!(xdg_dir_var("music"), "XDG_MUSIC_DIR");
    assert_eq!(xdg_dir_var("pictures"), "XDG_PICTURES_DIR");
    assert_eq!(dirs_next("videos", Some("/home/a"), None), "/home/a/Videos");
    assert_eq!(dirs_next("music", None, None), "/tmp/Music");
    assert_eq!(dirs_next("other", Some("/home/a"), None), "/home/a/Pictures");
    assert_eq!(dirs_next("videos", Some("/home/a"), Some("/data/vid")), "/data/vid");
}

#[test]
fn output_paths() {
    assert_eq!(chrono_stamp(Some(1750000000)), "1750000000");
    assert_eq!(chrono_stamp(None), "0");
    assert_eq!(output_path("/home/a/Videos", Some(42), "mkv"), "/home/a/Videos/mediasnare-42.mkv");
    assert_eq!(output_path("/srv/", None, "ogg"), "/srv/mediasnare-0.ogg");
    assert_eq!(output_path("", Some(1), "mp4"), "mediasnare-1.mp4");
    assert_eq!(join_path("/a", "/b"), "/b");
    assert_eq!(save_dir(Some("/x"), "/y"), "/x");
    assert_eq!(save_dir(None, "/y"), "/y");
}

#[test]
fn crop_fits_bounds() {
    assert!(crop_fits((10, 20, 300, 200)));
    assert!(crop_fits((i32::MAX - 10, 0, 10, 5)));
    assert!(!crop_fits((i32::MAX - 10, 0, 12, 5)));
    assert!(!crop_fits((i32::MIN, 0, 0, 5)));
    assert!(!crop_fits((0, i32::MIN, 5, 0)));
}
