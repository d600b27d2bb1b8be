//! The engine against a stand-in for a core: properties in a map, commands
//! in a list, events in a queue.

use std::cell::{Cell, RefCell};
use std::collections::HashMap;
use std::rc::Rc;

use mpv_engine::engine::{settle, BuildAction, BuildStep, DetachPath, LoadStep};
use mpv_engine::event::EndFileReason;
use mpv_engine::property::PropertyData;
use mpv_engine::render::{finish_sw, make_opaque, prepare_sw, SwFormat};
use mpv_engine::{
    Double, EndReason, Engine, EngineBuilder, Error, GlRenderOptions, MpvError, MpvEvent,
    PlaybackEvent, PropertyFormat, PropertyValue, RenderKind,
};

const GENERIC_TEXT: &str = "something happened (-20)";

type Callback = Rc<dyn Fn()>;

fn mpv_error(code: i32, text: &str) -> MpvError {
    MpvError { code: Some(code), text: format!("{text} ({code})") }
}

/// A core that answers at once. A source under `/nonexistent` fails to load.
struct Core {
    engine: Engine<Callback, &'static str>,
    props: RefCell<HashMap<String, PropertyValue>>,
    commands: Vec<Vec<String>>,
    queue: Vec<MpvEvent>,
    observed: Vec<(u64, String)>,
}

impl Core {
    fn up(builder: EngineBuilder) -> Core {
        let mut build = builder.build();
        let mut props = HashMap::new();
        let mut initialized = false;
        loop {
            match build.next(Ok(())) {
                BuildStep::Do(BuildAction::SetProperty { name, value }) => {
                    assert!(!initialized);
                    props.insert(name, PropertyValue::from(value));
                }
                BuildStep::Do(BuildAction::Initialize) => initialized = true,
                BuildStep::Do(_) => {}
                BuildStep::Done => break,
                BuildStep::Failed(e) => panic!("{}", e.message()),
                BuildStep::Over => panic!("nothing was told"),
            }
        }
        assert!(initialized);
        props.insert("pause".into(), PropertyValue::Flag(false));
        props.insert("idle-active".into(), PropertyValue::Flag(true));
        Core {
            engine: Engine::new(GENERIC_TEXT.to_owned()),
            props: RefCell::new(props),
            commands: Vec::new(),
            queue: Vec::new(),
            observed: Vec::new(),
        }
    }

    fn write(&self, name: &str, value: PropertyValue) -> Result<(), MpvError> {
        self.props.borrow_mut().insert(name.to_owned(), value);
        Ok(())
    }

    fn flag(&self, name: &str) -> Result<bool, MpvError> {
        match self.props.borrow().get(name) {
            Some(PropertyValue::Flag(v)) => Ok(*v),
            _ => Err(mpv_error(-10, "property unavailable")),
        }
    }

    fn text(&self, name: &str) -> Result<String, MpvError> {
        match self.props.borrow().get(name) {
            Some(PropertyValue::Str(v)) => Ok(v.clone()),
            _ => Err(mpv_error(-10, "property unavailable")),
        }
    }

    fn issue(&mut self, argv: Vec<String>) -> Result<(), Error> {
        let reply = match argv[0].as_str() {
            "loadfile" if argv[1].starts_with("/nonexistent") => {
                Err(mpv_error(-13, "loading failed"))
            }
            "loadfile" => {
                self.write("idle-active", PropertyValue::Flag(false)).unwrap();
                self.queue.push(MpvEvent::FileLoaded);
                Ok(())
            }
            "stop" => {
                self.queue.push(MpvEvent::EndFile { reason: EndFileReason::Stop, error: None });
                self.write("idle-active", PropertyValue::Flag(true)).unwrap();
                Ok(())
            }
            "quit" => {
                self.queue.push(MpvEvent::Shutdown);
                Ok(())
            }
            _ => Ok(()),
        };
        self.commands.push(argv);
        settle(reply)
    }

    fn load_when_ready(&mut self, source: &str) -> Result<(), Error> {
        let vo = self.text("vo");
        match self.engine.load_when_ready(source, vo) {
            LoadStep::Now(argv) => self.issue(argv),
            LoadStep::Queued => Ok(()),
        }
    }

    fn attach_sw_render(&mut self, on_update: impl Fn() + 'static) -> Result<(), Error> {
        if let Err((e, _)) = self.engine.begin_attach(Rc::new(on_update)) {
            return Err(e);
        }
        (self.engine.update_callback().unwrap())();
        if let Err((e, _)) = self.engine.attach_sw_render(Ok(())) {
            return Err(e);
        }
        let reply = match self.engine.load_pending() {
            Some(argv) => self.issue(argv),
            None => Ok(()),
        };
        self.engine.drain_pending_load(reply);
        Ok(())
    }

    fn set_render_update_callback(&mut self, on_update: impl Fn() + 'static) -> Result<(), Error> {
        let new: Callback = Rc::new(on_update);
        match self.engine.set_render_update_callback(new) {
            Ok(replacement) => {
                drop(replacement.fire(|callback| callback()));
                Ok(())
            }
            Err((e, _)) => Err(e),
        }
    }

    fn detach_render(&mut self, current: u64) {
        let own = self.engine.detach_path(current) == DetachPath::Own;
        self.engine.detach_render(own, None);
    }

    fn pump_events(&mut self) -> Vec<PlaybackEvent> {
        let mut pump = self.engine.pump_events();
        for event in self.queue.drain(..) {
            pump.push(event);
        }
        pump.finish()
    }

    fn is_paused(&self) -> bool {
        Engine::is_paused(|name: &str, _| self.flag(name))
    }

    fn is_idle(&self) -> bool {
        Engine::is_idle(|name: &str, _| self.flag(name))
    }

    fn set_paused(&self, paused: bool) -> Result<(), Error> {
        Engine::set_paused(|name: &str, v| self.write(name, v), paused)
    }
}

fn headless_engine() -> Core {
    Core::up(Engine::headless().property("ao", "null"))
}

fn video_engine() -> Core {
    Core::up(Engine::video().property("ao", "null"))
}

fn has_loaded(events: &[PlaybackEvent]) -> bool {
    events.iter().any(|ev| matches!(ev, PlaybackEvent::Loaded))
}

#[test]
fn loadfile_handles_awkward_filenames() {
    let source = "/tmp/x/Riley Cyriis_test \"q\" (copy).ogg";
    let mut core = headless_engine();
    let argv = core.engine.load(source);
    core.issue(argv).unwrap();
    assert_eq!(core.commands, vec![vec!["loadfile".to_owned(), source.to_owned()]]);
    assert!(has_loaded(&core.pump_events()), "awkward-path file never reached Loaded");
}

#[test]
fn empty_file_surfaces_failed_event() {
    let mut core = headless_engine();
    let argv = core.engine.load("empty.mkv");
    assert_eq!(argv[1], "empty.mkv");
    core.queue.push(MpvEvent::EndFile {
        reason: EndFileReason::Error,
        error: Some(mpv_error(-17, "unrecognized file format")),
    });
    let failed = core.pump_events().iter().any(|ev| match ev {
        PlaybackEvent::Failed { code, message } => {
            assert!(*code < 0, "Failed event must carry a negative mpv code");
            assert_eq!(*code, -17);
            assert_eq!(message, "unrecognized file format (-17)");
            true
        }
        _ => false,
    });
    assert!(failed, "empty file must produce a Failed playback event");
}

#[test]
fn load_paused_holds_until_unpaused() {
    let mut core = headless_engine();
    let paused = core.set_paused(true);
    let argv = core.engine.load_paused(paused, "tone.ogg").unwrap();
    core.issue(argv).unwrap();
    assert!(has_loaded(&core.pump_events()));
    assert!(core.is_paused(), "engine must come up paused");
    core.set_paused(false).unwrap();
    assert!(!core.is_paused());
}

#[test]
fn a_refused_pause_loads_nothing() {
    let mut core = video_engine();
    core.load_when_ready("queued.nut").unwrap();
    let refused = core.engine.load_paused(Err(Error::Mpv(mpv_error(-11, "no"))), "tone.ogg");
    assert!(matches!(refused, Err(Error::Mpv(_))));
    core.attach_sw_render(|| {}).unwrap();
    assert_eq!(core.commands[0][1], "queued.nut");
}

#[test]
fn load_when_ready_plays_immediately_without_render_api() {
    let mut core = headless_engine();
    core.load_when_ready("tone.ogg").unwrap();
    assert!(has_loaded(&core.pump_events()));
    assert!(
        !core.is_paused(),
        "no render attach is coming — playback must start immediately"
    );
}

#[test]
fn load_when_ready_loads_on_attach() {
    let mut core = video_engine();
    core.load_when_ready("test.nut").unwrap();
    assert!(core.pump_events().is_empty());
    assert!(core.commands.is_empty(), "load must wait for the attach");
    core.attach_sw_render(|| {}).unwrap();
    assert!(has_loaded(&core.pump_events()), "attach must issue the deferred load");
    assert!(!core.is_paused(), "deferred load must come up playing");
    assert_eq!(core.commands.len(), 1);
    assert!(core.engine.load_pending().is_none());
}

#[test]
fn pause_before_attach_loads_deferred_file_paused() {
    let mut core = video_engine();
    core.load_when_ready("test.nut").unwrap();
    core.set_paused(true).unwrap();
    core.attach_sw_render(|| {}).unwrap();
    assert!(has_loaded(&core.pump_events()));
    assert!(
        core.is_paused(),
        "pause set before attach must hold through the deferred load"
    );
}

#[test]
fn load_when_ready_follows_runtime_vo_change() {
    let mut core = video_engine();
    Engine::set_property(|name: &str, v| core.write(name, v), "vo", "null").unwrap();
    core.load_when_ready("test.nut").unwrap();
    assert!(
        has_loaded(&core.pump_events()),
        "with vo switched off the render API, the load must not defer"
    );
    assert!(!core.is_paused(), "playback must start immediately");
}

#[test]
fn the_vo_chain_decides_whether_a_load_waits() {
    let cases = [
        ("libmpv", true),
        ("gpu, libmpv ,null", true),
        ("gpu,\u{a0}libmpv\u{2003}", true),
        ("libmpvx", false),
        ("gpu", false),
        ("", false),
        ("lib mpv", false),
    ];
    for (vo, waits) in cases {
        let mut core = video_engine();
        core.write("vo", PropertyValue::from(vo)).unwrap();
        core.load_when_ready("a.nut").unwrap();
        assert_eq!(core.commands.is_empty(), waits, "vo={vo:?}");
    }
    let mut unread = video_engine();
    unread.props.borrow_mut().remove("vo");
    unread.load_when_ready("a.nut").unwrap();
    assert_eq!(unread.commands.len(), 1);
}

#[test]
fn command_stop_discards_deferred_load() {
    let mut core = video_engine();
    core.load_when_ready("test.nut").unwrap();
    let argv = core.engine.command("stop", &[]);
    core.issue(argv).unwrap();
    core.attach_sw_render(|| {}).unwrap();
    for ev in core.pump_events() {
        assert!(
            !matches!(ev, PlaybackEvent::Loaded),
            "stop before attach must discard the deferred load"
        );
    }
    assert!(core.is_idle(), "nothing may be loaded after the stop");
}

#[test]
fn transport_commands_discard_and_others_keep_the_queue() {
    let cases = [
        ("loadfile", true),
        ("loadlist", true),
        ("stop", true),
        ("quit", true),
        ("quit-watch-later", true),
        ("seek", false),
        ("Stop", false),
        ("loadfiles", false),
        ("", false),
    ];
    for (name, discards) in cases {
        let mut core = video_engine();
        core.load_when_ready("old.nut").unwrap();
        let argv = core.engine.command(name, &["a b", "\"c\""]);
        assert_eq!(argv, vec![name.to_owned(), "a b".to_owned(), "\"c\"".to_owned()]);
        assert_eq!(core.engine.load_pending().is_none(), discards, "{name}");
    }
}

#[test]
fn newest_queued_source_wins() {
    let mut core = video_engine();
    core.load_when_ready("first.nut").unwrap();
    core.load_when_ready("second.nut").unwrap();
    core.attach_sw_render(|| {}).unwrap();
    assert_eq!(core.commands, vec![vec!["loadfile".to_owned(), "second.nut".to_owned()]]);

    let mut plain = video_engine();
    plain.load_when_ready("first.nut").unwrap();
    let argv = plain.engine.load("now.nut");
    plain.issue(argv).unwrap();
    plain.attach_sw_render(|| {}).unwrap();
    assert_eq!(plain.commands.len(), 1);
}

#[test]
fn attach_survives_failing_deferred_load() {
    let mut core = video_engine();
    core.load_when_ready("/nonexistent/deferred.nut").unwrap();
    core.attach_sw_render(|| {})
        .expect("a failing deferred load must not fail the attach");
    assert!(core.engine.has_render(), "the render context must be live");
    core.queue.push(MpvEvent::FileLoaded);
    let events = core.pump_events();
    assert_eq!(
        events,
        vec![
            PlaybackEvent::Failed { code: -13, message: "loading failed (-13)".to_owned() },
            PlaybackEvent::Loaded,
        ],
        "the deferred load's failure must surface as a Failed event"
    );
    assert!(core.pump_events().is_empty());
}

#[test]
fn a_failed_load_wakes_the_shell() {
    let mut core = video_engine();
    assert!(!core.engine.drain_pending_load(Ok(())));
    assert!(core.engine.drain_pending_load(Err(Error::NotAttached)));
    assert_eq!(
        core.pump_events(),
        vec![PlaybackEvent::Failed { code: -20, message: GENERIC_TEXT.to_owned() }]
    );
    let nul = MpvError { code: None, text: "string contains an interior NUL byte".to_owned() };
    assert!(core.engine.drain_pending_load(Err(Error::from(nul))));
    assert_eq!(
        core.pump_events(),
        vec![PlaybackEvent::Failed { code: -20, message: GENERIC_TEXT.to_owned() }]
    );
}

#[test]
fn stop_reports_stop_reason() {
    let mut core = headless_engine();
    let paused = core.set_paused(true);
    let argv = core.engine.load_paused(paused, "tone.ogg").unwrap();
    core.issue(argv).unwrap();
    assert!(has_loaded(&core.pump_events()));
    let argv = core.engine.stop();
    core.issue(argv).unwrap();
    let ended = core.pump_events().iter().any(|ev| match ev {
        PlaybackEvent::Ended { reason } => {
            assert_eq!(*reason, EndReason::Stop, "stop must not look like EOF");
            true
        }
        _ => false,
    });
    assert!(ended, "stop must produce an Ended event");
}

#[test]
fn every_end_is_reported_with_its_reason() {
    let cases = [
        (EndFileReason::Eof, EndReason::Eof),
        (EndFileReason::Stop, EndReason::Stop),
        (EndFileReason::Quit, EndReason::Quit),
        (EndFileReason::Redirect, EndReason::Redirect),
        (EndFileReason::Unknown(9), EndReason::Other(9)),
        (EndFileReason::Unnamed, EndReason::Other(-1)),
    ];
    let mut core = headless_engine();
    for (reason, reported) in cases {
        core.queue.push(MpvEvent::EndFile { reason, error: None });
        assert_eq!(core.pump_events(), vec![PlaybackEvent::Ended { reason: reported }]);
    }
    core.queue.push(MpvEvent::EndFile { reason: EndFileReason::Error, error: None });
    assert_eq!(
        core.pump_events(),
        vec![PlaybackEvent::Failed { code: -20, message: GENERIC_TEXT.to_owned() }]
    );
}

#[test]
fn observe_pushes_initial_value_and_changes() {
    let mut core = headless_engine();
    let observation = core.engine.observe("volume", PropertyFormat::Double);
    core.observed.push((observation.id.userdata(), observation.name.clone()));
    assert_eq!(observation.format, PropertyFormat::Double);
    let observe_id = observation.registered(Ok(())).unwrap();
    let (userdata, name) = core.observed[0].clone();
    core.queue.push(MpvEvent::PropertyChange {
        userdata,
        name: name.clone(),
        data: PropertyData::Double(Double { bits: 100.0f64.to_bits() }),
    });
    let initial = core.pump_events().iter().any(|ev| {
        matches!(
            ev,
            PlaybackEvent::PropertyChanged { id, name, .. }
                if name == "volume" && *id == observe_id
        )
    });
    assert!(initial, "observe must push the initial value with its id");

    let wanted = Double { bits: 55.0f64.to_bits() };
    Engine::set_volume(|name: &str, v| core.write(name, v), wanted).unwrap();
    let now = match core.props.borrow().get("volume") {
        Some(PropertyValue::Double(v)) => *v,
        _ => panic!("volume is no double"),
    };
    core.queue.push(MpvEvent::PropertyChange { userdata, name, data: PropertyData::Double(now) });
    let changed = core.pump_events().iter().any(|ev| {
        matches!(
            ev,
            PlaybackEvent::PropertyChanged { name, value: PropertyValue::Double(v), .. }
                if name == "volume" && f64::from_bits(v.bits) == 55.0
        )
    });
    assert!(changed, "volume change must arrive as PropertyChanged");
}

#[test]
fn observations_are_told_apart_and_canceled() {
    let mut core = headless_engine();
    let a = core.engine.observe("pause", PropertyFormat::Flag);
    let b = core.engine.observe("pause", PropertyFormat::Flag);
    assert_eq!(a.id.userdata(), 1);
    assert_eq!(b.id.userdata(), 2);
    assert_ne!(a.id, b.id);
    let canceled = Cell::new(0u64);
    Engine::unobserve(
        |id| {
            canceled.set(id);
            Ok(())
        },
        b.id,
    )
    .unwrap();
    assert_eq!(canceled.get(), 2);
    assert!(matches!(
        a.registered(Err(mpv_error(-4, "invalid parameter"))),
        Err(Error::Mpv(_))
    ));
}

#[test]
fn payloads_are_delivered_or_skipped() {
    let mut core = headless_engine();
    let payloads = vec![
        (PropertyData::Flag(true), Some(PropertyValue::Flag(true))),
        (PropertyData::Int64(-7), Some(PropertyValue::Int(-7))),
        (PropertyData::Str("a".into()), Some(PropertyValue::Str("a".into()))),
        (PropertyData::OsdStr("b".into()), Some(PropertyValue::Str("b".into()))),
        (PropertyData::Unavailable, None),
        (PropertyData::Node, None),
    ];
    for (data, value) in payloads {
        core.queue.push(MpvEvent::PropertyChange { userdata: 5, name: "p".into(), data });
        core.queue.push(MpvEvent::Other);
        core.queue.push(MpvEvent::PlaybackRestart);
        let events = core.pump_events();
        assert_eq!(events.last(), Some(&PlaybackEvent::PlaybackRestart));
        match value {
            Some(value) => {
                assert_eq!(events.len(), 2);
                assert!(matches!(
                    &events[0],
                    PlaybackEvent::PropertyChanged { id, name, value: v }
                        if id.userdata() == 5 && name == "p" && *v == value
                ));
            }
            None => assert_eq!(events.len(), 1),
        }
    }
}

#[test]
fn property_values_convert_from_what_they_hold() {
    assert_eq!(PropertyValue::from(true), PropertyValue::Flag(true));
    assert_eq!(PropertyValue::from(-3i64), PropertyValue::Int(-3));
    assert_eq!(PropertyValue::from(-3i32), PropertyValue::Int(-3));
    assert_eq!(PropertyValue::from(u32::MAX), PropertyValue::Int(4294967295));
    assert_eq!(PropertyValue::from("x"), PropertyValue::Str("x".to_owned()));
    assert_eq!(PropertyValue::from("x".to_owned()), PropertyValue::Str("x".to_owned()));
    let d = Double { bits: 1.5f64.to_bits() };
    assert_eq!(PropertyValue::from(d), PropertyValue::Double(d));
}

#[test]
fn queries_fall_back_where_nothing_can_be_read() {
    let no = |_: &str, _: PropertyFormat| Err::<bool, MpvError>(mpv_error(-10, "unavailable"));
    assert!(!Engine::is_paused(no));
    assert!(Engine::is_idle(no));
    assert!(!Engine::is_muted(no));
    let none = |_: &str, _: PropertyFormat| Err::<Double, MpvError>(mpv_error(-10, "unavailable"));
    assert_eq!(Engine::volume(none), None);
    assert_eq!(Engine::speed(none), None);
    assert_eq!(Engine::position(none), None);
    assert_eq!(Engine::duration(none), None);

    let asked = RefCell::new(Vec::new());
    let some = |name: &str, format: PropertyFormat| {
        asked.borrow_mut().push((name.to_owned(), format));
        Ok::<Double, MpvError>(Double { bits: 2.0f64.to_bits() })
    };
    assert_eq!(Engine::volume(&some).map(|d| f64::from_bits(d.bits)), Some(2.0));
    assert!(Engine::speed(&some).is_some());
    assert!(Engine::position(&some).is_some());
    assert!(Engine::duration(&some).is_some());
    let names: Vec<String> = asked.borrow().iter().map(|(n, _)| n.clone()).collect();
    assert_eq!(names, ["volume", "speed", "time-pos", "duration"]);
    assert!(asked.borrow().iter().all(|(_, f)| *f == PropertyFormat::Double));
}

#[test]
fn properties_are_read_in_their_own_format() {
    let n = Engine::get_property::<i64, _>(
        |name: &str, format| {
            assert_eq!((name, format), ("dwidth", PropertyFormat::Int));
            Ok(64)
        },
        "dwidth",
    );
    assert_eq!(n.unwrap(), 64);
    let s = Engine::get_property::<String, _>(
        |_: &str, format| {
            assert_eq!(format, PropertyFormat::Str);
            Err(mpv_error(-8, "property not found"))
        },
        "nope",
    );
    assert_eq!(s.unwrap_err().message(), "mpv: property not found (-8)");
    Engine::set_muted(
        |name: &str, v| {
            assert_eq!((name, v), ("mute", PropertyValue::Flag(true)));
            Ok(())
        },
        true,
    )
    .unwrap();
    Engine::set_speed(
        |name: &str, v| {
            assert_eq!(name, "speed");
            assert_eq!(v, PropertyValue::Double(Double { bits: 3 }));
            Ok(())
        },
        Double { bits: 3 },
    )
    .unwrap();
}

#[test]
fn seeks_are_commands_that_keep_the_queue() {
    let mut core = video_engine();
    core.load_when_ready("a.nut").unwrap();
    assert_eq!(core.engine.seek_absolute("12.500"), ["seek", "12.500", "absolute"]);
    assert_eq!(core.engine.seek_relative("-3.000"), ["seek", "-3.000", "relative"]);
    assert!(core.engine.load_pending().is_some());
}

#[test]
fn sw_render_produces_opaque_rgba_frames() {
    let mut core = video_engine();
    assert!(!core.engine.render_update());

    let frame_ready = Rc::new(Cell::new(false));
    let flag = frame_ready.clone();
    core.attach_sw_render(move || flag.set(true)).unwrap();
    frame_ready.set(false);
    let argv = core.engine.load("test.nut");
    core.issue(argv).unwrap();
    assert!(has_loaded(&core.pump_events()));
    (core.engine.update_callback().unwrap())();
    assert!(frame_ready.get(), "update callback must signal a frame");
    assert!(core.engine.render_update(), "render_update must report the pending frame");

    let mut buf = Vec::new();
    let draw = core.engine.render_sw(64, 64, &mut buf).unwrap().unwrap();
    assert_eq!((draw.width, draw.height, draw.stride), (64, 64, 256));
    assert_eq!(draw.format, SwFormat::Rgb0);
    assert_eq!(buf.len(), 64 * 64 * 4);
    for (i, b) in buf.iter_mut().enumerate() {
        *b = (i % 7) as u8;
    }
    finish_sw(Ok(()), &mut buf).unwrap();
    assert_eq!(buf.len(), 64 * 64 * 4);
    assert!(
        buf.chunks_exact(4).all(|px| px[3] == 0xFF),
        "every pixel's alpha must be forced opaque"
    );
    assert!(
        buf.chunks_exact(4).any(|px| px[..3].iter().any(|&b| b != 0)),
        "a rendered test-pattern frame must contain non-black pixels"
    );
    assert!(buf.iter().enumerate().all(|(i, b)| i % 4 == 3 || *b == (i % 7) as u8));

    assert!(matches!(
        core.engine.render_gl(0, 64, 64, false),
        Err(Error::RenderBackendMismatch)
    ));
    core.detach_render(1);
    assert!(!core.engine.has_render());
}

#[test]
fn nothing_is_drawn_without_a_size_or_an_attach() {
    let mut core = video_engine();
    let mut buf = vec![1u8, 2, 3];
    assert!(matches!(core.engine.render_sw(2, 2, &mut buf), Ok(None)));
    core.attach_sw_render(|| {}).unwrap();
    for (w, h) in [(0, 5), (5, 0), (-1, 5), (5, -1)] {
        assert!(matches!(core.engine.render_sw(w, h, &mut buf), Ok(None)));
    }
    assert_eq!(buf, [1, 2, 3]);
    let draw = prepare_sw(1, 2, &mut buf).unwrap();
    assert_eq!(draw.stride, 4);
    assert_eq!(buf, [1, 2, 3, 0, 0, 0, 0, 0]);
    prepare_sw(1, 1, &mut buf).unwrap();
    assert_eq!(buf, [1, 2, 3, 0]);
    let failed = finish_sw(Err(mpv_error(-18, "unsupported")), &mut buf);
    assert!(matches!(failed, Err(Error::Mpv(_))));
    assert_eq!(buf, [1, 2, 3, 0]);
    make_opaque(&mut buf);
    make_opaque(&mut buf);
    assert_eq!(buf, [1, 2, 3, 255]);
}

#[test]
fn gl_render_options_build_externally() {
    let opts = mpv_engine::GlRenderOptions::default()
        .block_for_target_time(false)
        .advanced_control(true);
    assert!(!opts.block_for_target_time);
    assert!(opts.advanced_control);
}

#[test]
fn gl_draws_carry_the_attached_pacing() {
    for block in [true, false] {
        let mut core = video_engine();
        assert!(matches!(core.engine.render_gl(7, 1, 2, true), Ok(None)));
        assert!(core.engine.begin_attach(Rc::new(|| {})).is_ok());
        let options = GlRenderOptions::default().block_for_target_time(block);
        assert!(core.engine.attach_gl_render(Ok(()), options).is_ok());
        assert_eq!(core.engine.attached_render(), Some(RenderKind::OpenGl));
        assert!(core.engine.render_update());
        let draw = core.engine.render_gl(7, 1, 2, true).unwrap().unwrap();
        assert_eq!((draw.fbo, draw.width, draw.height), (7, 1, 2));
        assert_eq!(draw.internal_format, 0);
        assert!(draw.flip_y);
        assert_eq!(draw.block_for_target_time, block);
        let mut buf = vec![9u8];
        assert!(matches!(
            core.engine.render_sw(1, 1, &mut buf),
            Err(Error::RenderBackendMismatch)
        ));
        assert_eq!(buf, [9]);
        assert!(matches!(core.engine.acquire_frame(), Err(Error::RenderBackendMismatch)));
        assert!(matches!(core.engine.set_export_size(3, 4), Err(Error::RenderBackendMismatch)));
    }
}

#[test]
fn engine_drops_cleanly_without_render() {
    let core = headless_engine();
    assert!(!core.engine.has_render());
    drop(core);
}

#[test]
fn attached_render_reports_backend_kind() {
    let mut core = video_engine();
    assert_eq!(core.engine.attached_render(), None);
    core.attach_sw_render(|| {}).unwrap();
    assert_eq!(core.engine.attached_render(), Some(mpv_engine::RenderKind::Software));
    core.detach_render(1);
    assert_eq!(core.engine.attached_render(), None);
}

#[test]
fn a_second_attach_is_refused() {
    let mut core = video_engine();
    core.attach_sw_render(|| {}).unwrap();
    assert!(matches!(core.attach_sw_render(|| {}), Err(Error::AlreadyAttached)));
    assert_eq!(core.engine.attached_render(), Some(RenderKind::Software));
}

#[test]
fn a_failed_attach_attaches_nothing() {
    let mut core = video_engine();
    core.load_when_ready("a.nut").unwrap();
    assert!(core.engine.begin_attach(Rc::new(|| {})).is_ok());
    let failed = core
        .engine
        .attach_exported_render(Err(Error::ExportSetup("no GPU".to_owned())));
    match failed {
        Err((e, callback)) => {
            assert_eq!(e.message(), "exported render setup: no GPU");
            assert!(callback.is_some());
        }
        Ok(()) => panic!("attached"),
    }
    assert!(!core.engine.has_render());
    assert!(core.engine.update_callback().is_none());
    assert!(core.engine.load_pending().is_some());
}

#[test]
fn render_update_callback_requires_attach() {
    let mut core = video_engine();
    assert!(matches!(
        core.set_render_update_callback(|| {}),
        Err(mpv_engine::Error::NotAttached)
    ));
    core.attach_sw_render(|| {}).unwrap();
    core.set_render_update_callback(|| {}).unwrap();
    core.detach_render(1);
    assert!(matches!(
        core.set_render_update_callback(|| {}),
        Err(mpv_engine::Error::NotAttached)
    ));
}

#[test]
fn render_update_callback_replaces_attach_registration() {
    let mut core = video_engine();
    let attach_fires = Rc::new(Cell::new(0u32));
    let attach_counter = attach_fires.clone();
    core.attach_sw_render(move || attach_counter.set(attach_counter.get() + 1)).unwrap();
    assert!(attach_fires.get() >= 1, "attach must raise its on_update synchronously");

    let replacement_fires = Rc::new(Cell::new(0u32));
    let replacement_counter = replacement_fires.clone();
    core.set_render_update_callback(move || {
        replacement_counter.set(replacement_counter.get() + 1)
    })
    .unwrap();
    assert!(
        replacement_fires.get() >= 1,
        "registration must raise the replacement callback synchronously"
    );
    let attach_count_after_swap = attach_fires.get();
    let argv = core.engine.load("test.nut");
    core.issue(argv).unwrap();
    let before_frames = replacement_fires.get();
    (core.engine.update_callback().unwrap())();
    assert!(
        replacement_fires.get() > before_frames,
        "frame updates must land on the replacement callback"
    );
    assert_eq!(
        attach_fires.get(),
        attach_count_after_swap,
        "the replaced attach-time callback must not fire after the swap"
    );
}

#[test]
fn render_update_callback_sync_fire_holds_no_engine_lock() {
    let mut core = video_engine();
    core.attach_sw_render(|| {}).unwrap();
    let engine = Rc::new(RefCell::new(core.engine));
    let probe = Rc::downgrade(&engine);
    let saw_context = Rc::new(Cell::new(false));
    let saw = saw_context.clone();
    let new: Callback = Rc::new(move || {
        if let Some(e) = probe.upgrade() {
            saw.set(e.borrow().has_render());
        }
    });
    let set = engine.borrow_mut().set_render_update_callback(new);
    assert!(!saw_context.get(), "nothing fires while the engine is borrowed");
    match set {
        Ok(replacement) => drop(replacement.fire(|callback| callback())),
        Err((e, _)) => panic!("{}", e.message()),
    }
    assert!(
        saw_context.get(),
        "the sync fire must see the live context, without deadlocking"
    );
}

#[test]
fn a_replacement_fires_once_and_hands_the_old_callback_back() {
    let mut core = video_engine();
    let old_fires = Rc::new(Cell::new(0u32));
    let counter = old_fires.clone();
    core.attach_sw_render(move || counter.set(counter.get() + 1)).unwrap();
    assert_eq!(old_fires.get(), 1);
    let new_fires = Rc::new(Cell::new(0u32));
    let counter = new_fires.clone();
    let new: Callback = Rc::new(move || counter.set(counter.get() + 1));
    let displaced = match core.engine.set_render_update_callback(new) {
        Ok(replacement) => replacement.fire(|callback| callback()),
        Err((e, _)) => panic!("{}", e.message()),
    };
    assert_eq!((old_fires.get(), new_fires.get()), (1, 1));
    (displaced.unwrap())();
    assert_eq!((old_fires.get(), new_fires.get()), (2, 1));
    (core.engine.update_callback().unwrap())();
    assert_eq!((old_fires.get(), new_fires.get()), (2, 2));
}

#[test]
fn quit_surfaces_shutdown_event() {
    let mut core = headless_engine();
    let argv = core.engine.command("quit", &[]);
    core.issue(argv).unwrap();
    assert!(core
        .pump_events()
        .iter()
        .any(|ev| matches!(ev, PlaybackEvent::Shutdown)));
}

#[test]
fn detach_from_on_update_does_not_deadlock() {
    let mut core = video_engine();
    assert!(core.engine.begin_attach(Rc::new(|| {})).is_ok());
    assert!(core.engine.attach_exported_render(Ok(48)).is_ok());
    assert_eq!(core.engine.attached_render(), Some(RenderKind::Exported));
    assert!(!core.engine.render_update());
    assert!(matches!(core.engine.acquire_frame(), Ok(true)));
    assert!(matches!(core.engine.set_export_size(3, 4), Ok(Some((3, 4)))));

    assert_eq!(core.engine.detach_path(7), DetachPath::Other);
    assert_eq!(core.engine.detach_path(48), DetachPath::Own);
    let detached = core.engine.detach_render(true, Some("render thread"));
    assert!(detached.taken.is_some());
    assert!(detached.displaced.is_some());
    assert_eq!(detached.unparked, None);
    assert_eq!(core.engine.detach_path(48), DetachPath::Nothing);
    assert!(matches!(core.engine.acquire_frame(), Ok(false)));
    assert!(matches!(core.engine.set_export_size(3, 4), Ok(None)));

    assert_eq!(core.engine.join_orphaned_render(48), None, "a thread cannot join itself");
    assert_eq!(core.engine.join_orphaned_render(7), Some("render thread"));
    assert_eq!(core.engine.join_orphaned_render(7), None);
}

#[test]
fn a_detach_elsewhere_parks_nothing() {
    let mut core = video_engine();
    assert!(core.engine.attach_exported_render(Ok(48)).is_ok());
    let detached = core.engine.detach_render(false, Some("render thread"));
    assert_eq!(detached.unparked, Some("render thread"));
    assert_eq!(core.engine.join_orphaned_render(7), None);
    let nothing = core.engine.detach_render(true, None);
    assert!(nothing.taken.is_none());
    core.load_when_ready("again.nut").unwrap();
    assert!(core.commands.is_empty());
}

#[test]
fn properties_apply_in_call_order_before_initialization() {
    let mut build = Engine::video().property("vo", "null").build();
    let mut steps = Vec::new();
    loop {
        match build.next(Ok(())) {
            BuildStep::Do(BuildAction::SetProperty { name, value }) => {
                steps.push(format!("{name}={value}"))
            }
            BuildStep::Do(BuildAction::ForceNumericLocale) => steps.push("locale".to_owned()),
            BuildStep::Do(BuildAction::CreateCore) => steps.push("create".to_owned()),
            BuildStep::Do(BuildAction::Initialize) => steps.push("init".to_owned()),
            BuildStep::Done => break,
            BuildStep::Failed(_) | BuildStep::Over => panic!("failed"),
        }
    }
    assert_eq!(
        steps,
        [
            "locale",
            "create",
            "vo=libmpv",
            "hwdec=auto-safe",
            "keep-open=always",
            "vo=null",
            "init"
        ]
    );
    let mut failing = Engine::builder().build();
    assert!(matches!(failing.next(Ok(())), BuildStep::Do(_)));
    let refused = failing.next(Err(MpvError { code: None, text: "null handle".to_owned() }));
    match refused {
        BuildStep::Failed(e) => assert_eq!(e.message(), "mpv: null handle"),
        _ => panic!("went on"),
    }
    assert!(matches!(failing.next(Ok(())), BuildStep::Over));
    let late = failing.next(Err(MpvError { code: None, text: "late".to_owned() }));
    assert!(matches!(late, BuildStep::Over));
    assert!(matches!(build.next(Ok(())), BuildStep::Over), "how a build ended is told once");
}

#[test]
fn errors_say_what_went_wrong() {
    assert_eq!(Error::AlreadyAttached.message(), "a render context is already attached");
    assert_eq!(
        Error::RenderBackendMismatch.message(),
        "render call does not match the attached render backend"
    );
    assert_eq!(Error::WgpuImport("x".into()).message(), "wgpu import: x");
    assert_eq!(Error::NotAttached.message(), "no render context is attached");
}

#[test]
fn a_software_frame_is_resized_drawn_and_made_opaque() {
    let mut core = video_engine();
    core.attach_sw_render(|| {}).unwrap();
    let mut buf = vec![9u8; 12];
    let draw = core.engine.render_sw(2, 1, &mut buf).unwrap().unwrap();
    assert_eq!((draw.width, draw.height, draw.stride), (2, 1, 8));
    assert_eq!(draw.format, SwFormat::Rgb0);
    assert_eq!(buf, [9; 8]);
    buf.copy_from_slice(&[1, 2, 3, 4, 5, 6, 7, 8]);
    finish_sw(Ok(()), &mut buf).unwrap();
    assert_eq!(buf, [1, 2, 3, 255, 5, 6, 7, 255]);
}

#[test]
fn doubles_compare_as_numbers() {
    let double = |v: f64| Double { bits: v.to_bits() };
    assert_eq!(double(0.0), double(-0.0));
    assert_ne!(double(f64::NAN), double(f64::NAN));
    assert_ne!(double(f64::NAN), double(1.0));
    assert_eq!(double(f64::INFINITY), double(f64::INFINITY));
    assert_ne!(double(f64::INFINITY), double(f64::NEG_INFINITY));
    assert_ne!(double(1.0), double(-1.0));
    let values = [0.0, -0.0, 1.5, -1.5, f64::MIN_POSITIVE, 5e-324, f64::NAN, f64::INFINITY];
    for a in values {
        for b in values {
            assert_eq!(double(a) == double(b), a == b, "{a} and {b}");
        }
    }

    assert_eq!(PropertyValue::Double(double(0.0)), PropertyValue::Double(double(-0.0)));
    assert_ne!(
        PropertyValue::Double(double(f64::NAN)),
        PropertyValue::Double(double(f64::NAN))
    );
    let mut core = headless_engine();
    let id = core.engine.observe("volume", PropertyFormat::Double).id;
    let changed = |v: f64| PlaybackEvent::PropertyChanged {
        id,
        name: "volume".to_owned(),
        value: PropertyValue::Double(double(v)),
    };
    assert_eq!(changed(0.0), changed(-0.0));
    assert_ne!(changed(f64::NAN), changed(f64::NAN));
}

#[test]
fn every_failure_ends_in_its_code() {
    let mut core = video_engine();
    core.load_when_ready("/nonexistent/deferred.nut").unwrap();
    core.attach_sw_render(|| {}).unwrap();
    core.engine.drain_pending_load(Err(Error::NotAttached));
    core.queue.push(MpvEvent::EndFile {
        reason: EndFileReason::Error,
        error: Some(mpv_error(-17, "unrecognized file format")),
    });
    core.queue.push(MpvEvent::EndFile { reason: EndFileReason::Error, error: None });
    core.queue.push(MpvEvent::EndFile { reason: EndFileReason::Eof, error: None });
    let events = core.pump_events();
    let mut codes = Vec::new();
    for event in &events {
        if let PlaybackEvent::Failed { code, message } = event {
            assert!(*code < 0);
            assert!(message.ends_with(&format!(" ({code})")), "{message}");
            codes.push(*code);
        }
    }
    assert_eq!(codes, [-13, -20, -17, -20]);
    assert_eq!(events.len(), 5);
}

#[test]
fn an_exported_attach_fires_again_for_a_waiting_frame() {
    let fires = Rc::new(Cell::new(0u32));
    let counter = fires.clone();
    let on_update: Callback = Rc::new(move || counter.set(counter.get() + 1));
    let mut core = video_engine();
    core.load_when_ready("queued.nut").unwrap();
    assert!(core.engine.refire(true).is_none(), "nothing is attached");
    assert!(core.engine.begin_attach(on_update.clone()).is_ok());
    assert!(core.engine.refire(true).is_none(), "the context is not stored yet");
    assert!(core.engine.attach_exported_render(Ok(48)).is_ok());
    assert!(core.engine.refire(false).is_none(), "no frame waits");
    assert_eq!(fires.get(), 0);
    (core.engine.refire(true).unwrap())();
    assert_eq!(fires.get(), 1);
    assert!(matches!(core.engine.acquire_frame(), Ok(true)));
    core.detach_render(1);
    assert!(core.engine.refire(true).is_none());

    core.attach_sw_render(|| {}).unwrap();
    assert!(core.engine.refire(true).is_none(), "only exported frames wait");

    let mut failing = video_engine();
    failing.load_when_ready("queued.nut").unwrap();
    assert!(failing.engine.begin_attach(on_update).is_ok());
    let no_gpu = Error::ExportSetup("no GPU".to_owned());
    match failing.engine.attach_exported_render(Err(no_gpu)) {
        Err((Error::ExportSetup(why), released)) => {
            assert_eq!(why, "no GPU");
            assert!(released.is_some());
        }
        _ => panic!("attached"),
    }
    assert_eq!(failing.engine.attached_render(), None);
    assert!(failing.engine.refire(true).is_none());
    assert!(failing.engine.load_pending().is_some());
}
