use sensor_rt::mp4::{caps, pipeline_description, Action, Caps, Event, Mp4Writer};

#[test]
fn the_pipeline_ends_in_the_file() {
    assert_eq!(
        pipeline_description("/tmp/out.mp4"),
        "appsrc name=src is-live=true format=time do-timestamp=false ! videoconvert ! x264enc \
         speed-preset=ultrafast tune=zerolatency bitrate=8000 ! mp4mux ! filesink \
         location=/tmp/out.mp4"
    );
}

#[test]
fn caps_are_signed() {
    assert_eq!(caps(640, 360, 30), Caps { width: 640, height: 360, framerate: 30 });
    assert_eq!(
        caps(u32::MAX, 0x8000_0000, 0x1_8000_0001),
        Caps { width: -1, height: i32::MIN, framerate: i32::MIN + 1 }
    );
}

#[test]
fn frames_are_stamped_without_a_gap() {
    let mut w = Mp4Writer::new(25);
    let frame = Event::Frame { width: 4, height: 2 };
    assert_eq!(w.step(frame), Action::Build { width: 4, height: 2 });
    assert_eq!(w.step(Event::Built(true)), Action::Push { pts: 0, duration: 40_000_000 });
    assert_eq!(w.step(Event::Pushed(true)), Action::Wait);
    for n in 1..5u64 {
        assert_eq!(
            w.step(frame),
            Action::Push { pts: n * 40_000_000, duration: 40_000_000 }
        );
        assert_eq!(w.step(Event::Pushed(true)), Action::Wait);
    }
    assert!(w.can_step(Event::Closed));
    assert!(w.can_step(frame));
    assert_eq!(w.step(Event::Closed), Action::Finish { frames: 5 });
    assert_eq!(w.step(frame), Action::Ignore);
}

#[test]
fn a_frame_that_is_not_taken_ends_the_file() {
    let mut w = Mp4Writer::new(30);
    let frame = Event::Frame { width: 4, height: 2 };
    w.step(frame);
    w.step(Event::Built(true));
    w.step(Event::Pushed(true));
    assert_eq!(
        w.step(frame),
        Action::Push { pts: 33_333_333, duration: 33_333_333 }
    );
    assert_eq!(w.step(Event::Pushed(false)), Action::Finish { frames: 1 });
}

#[test]
fn without_a_pipeline_there_is_no_file() {
    let mut w = Mp4Writer::new(30);
    assert_eq!(w.step(Event::Closed), Action::Stop);
    let mut w = Mp4Writer::new(30);
    assert_eq!(
        w.step(Event::Frame { width: 4, height: 2 }),
        Action::Build { width: 4, height: 2 }
    );
    assert_eq!(w.step(Event::Built(false)), Action::Stop);
}

#[test]
fn a_rate_of_zero_is_one() {
    let mut w = Mp4Writer::new(0);
    w.step(Event::Frame { width: 1, height: 1 });
    assert_eq!(
        w.step(Event::Built(true)),
        Action::Push { pts: 0, duration: 1_000_000_000 }
    );
}

#[test]
fn events_that_do_not_fit_change_nothing() {
    let mut w = Mp4Writer::new(30);
    assert_eq!(w.step(Event::Built(true)), Action::Ignore);
    assert_eq!(w.step(Event::Pushed(true)), Action::Ignore);
    w.step(Event::Frame { width: 1, height: 1 });
    assert_eq!(w.step(Event::Closed), Action::Ignore);
    assert_eq!(w.step(Event::Built(false)), Action::Stop);
}
