use xplane::command::{
    Command, CommandCreateError, CommandFindError, CommandHandler, CommandHandlerResult,
    RegisteredCommandHandler,
};
use xplane::data::{CreateError, DataRef, FindError, OwnedData, ReadOnly, ReadWrite, TYPE_INT, TYPE_INT_ARRAY};
use xplane::draw::{Draw, DrawCallback, Error as DrawError, GraphicsState, Phase};
use xplane::camera::{CameraApi, RegisteredController};
use xplane::feature::Feature;
use xplane::ffi::NulByteError;
use xplane::plugin::{identity_buffer, PluginInfo};
use xplane::sound::audio_bus_valid;
use xplane::state::StateData;
use xplane::{make_x, XPAPI};

struct Counter {
    begun: u32,
}

impl CommandHandler for Counter {
    fn command_begin(&mut self, _x: &mut XPAPI) -> CommandHandlerResult {
        self.begun += 1;
        CommandHandlerResult::DisallowXPlaneProcessing
    }
    fn command_continue(&mut self, _x: &mut XPAPI) -> CommandHandlerResult {
        CommandHandlerResult::AllowXPlaneProcessing
    }
    fn command_end(&mut self, _x: &mut XPAPI) -> CommandHandlerResult {
        CommandHandlerResult::Irrelevant
    }
}

#[test]
fn command_creation_and_lookup_decisions() {
    assert_eq!(Command::validate_new("xplane_rs/test/command", "A test command", None), Ok(()));
    assert_eq!(
        Command::validate_new("xplane_rs/test/command", "A test command", Some(4)),
        Err(CommandCreateError::Exists { existing_command: Command { id: 4 } })
    );
    assert_eq!(
        Command::validate_new("bad\0name", "d", None),
        Err(CommandCreateError::Null(NulByteError { position: 3 }))
    );
    assert_eq!(
        Command::validate_new("n", "\0", Some(1)),
        Err(CommandCreateError::Null(NulByteError { position: 0 }))
    );
    assert_eq!(Command::try_find("sim/none", None), Err(CommandFindError::NotFound));
    assert_eq!(Command::try_find("sim/x", Some(3)), Ok(Command { id: 3 }));
    assert_eq!(
        Command::try_find("a\0", Some(3)),
        Err(CommandFindError::Null(NulByteError { position: 1 }))
    );
}

#[test]
fn command_handler_phases() {
    let mut x = make_x();
    let cmd = Command { id: 77 };
    let mut h = RegisteredCommandHandler::new(&cmd, Counter { begun: 0 }, true);
    assert_eq!(h.binding().command, 77);
    assert!(h.binding().before);
    h.bind();
    assert_eq!(h.handle(&mut x, 0), 0);
    assert_eq!(h.handle(&mut x, 1), 1);
    assert_eq!(h.handle(&mut x, 2), 1);
    assert_eq!(h.handle(&mut x, 9), 1);
    assert_eq!(h.detach(), Some(77));
    let _ = h.release();
}

#[test]
fn dataref_lookup_decisions() {
    let r: Result<DataRef<i32, ReadOnly>, FindError> = DataRef::find("sim/x", Some(5), TYPE_INT | 2, TYPE_INT);
    let d = r.unwrap();
    assert_eq!(d.id(), 5);
    let r: Result<DataRef<i32, ReadOnly>, FindError> = DataRef::find("sim/x", Some(5), 2, TYPE_INT);
    assert!(matches!(r, Err(FindError::WrongType)));
    let r: Result<DataRef<i32, ReadOnly>, FindError> = DataRef::find("sim/x", None, 1, TYPE_INT);
    assert!(matches!(r, Err(FindError::NotFound)));
    let r: Result<DataRef<i32, ReadOnly>, FindError> = DataRef::find("s\0", Some(1), 1, TYPE_INT);
    assert!(matches!(r, Err(FindError::Null(NulByteError { position: 1 }))));
    let w: Result<DataRef<i32, ReadWrite>, _> = d.writeable(true);
    assert_eq!(w.ok().unwrap().id(), 5);
}

#[test]
fn owned_data_decisions_and_windows() {
    assert_eq!(OwnedData::<i32, ReadOnly>::validate_new("my/data", None), Ok(()));
    assert_eq!(OwnedData::<i32, ReadOnly>::validate_new("my/data", Some(1)), Err(CreateError::Exists));
    assert_eq!(
        OwnedData::<i32, ReadOnly>::validate_new("my\0data", None),
        Err(CreateError::Null(NulByteError { position: 2 }))
    );
    assert_eq!(OwnedData::<i32, ReadOnly>::writeable(), 0);
    assert_eq!(OwnedData::<i32, ReadWrite>::writeable(), 1);
    let mut v: OwnedData<i32, ReadWrite> = OwnedData::new(10);
    assert_eq!(v.id(), None);
    assert_eq!(v.bind(Some(3)), Ok(()));
    assert_eq!(v.get(), 10);
    v.set(-4);
    assert_eq!(v.get(), -4);
    assert_eq!(v.id(), Some(3));
    assert_eq!(v.detach(), Some(3));
    let _ = v.release();
    let mut refused: OwnedData<i32, ReadOnly> = OwnedData::new(1);
    assert_eq!(refused.bind(None), Err(CreateError::HostRejected));
    let _ = refused.release();

    let mut a: OwnedData<Vec<i32>, ReadWrite> = OwnedData::new(vec![1, 2, 3, 4, 5]);
    a.bind(Some(4)).unwrap();
    assert_eq!(a.len(), 5);
    assert_eq!(a.read_window(1, 2), vec![2, 3]);
    assert_eq!(a.read_window(3, 10), vec![4, 5]);
    assert_eq!(a.read_window(3, -1), vec![4, 5]);
    assert_eq!(a.read_window(5, 1), Vec::<i32>::new());
    assert_eq!(a.read_window(-1, 1), Vec::<i32>::new());
    a.write_window(&[9, 9, 9], 3);
    assert_eq!(a.read_window(0, 5), vec![1, 2, 3, 9, 9]);
    a.write_window(&[7], 9);
    assert_eq!(a.read_window(0, 5), vec![1, 2, 3, 9, 9]);
    let mut dest = vec![0; 3];
    assert_eq!(a.get_into(&mut dest), 3);
    assert_eq!(dest, vec![1, 2, 3]);
    let mut dest = vec![0; 7];
    assert_eq!(a.get_into(&mut dest), 5);
    assert_eq!(dest, vec![1, 2, 3, 9, 9, 0, 0]);
    a.set_from(&[6, 6]);
    assert_eq!(a.read_window(0, 5), vec![6, 6, 3, 9, 9]);
}

struct Painter {
    calls: u32,
}

impl DrawCallback for Painter {
    fn draw(&mut self) {
        self.calls += 1;
    }
}

#[test]
fn draw_registration() {
    assert_eq!(Phase::AfterPanel.to_xplm(), 40);
    assert_eq!(Phase::AfterLocalMapProfile.to_xplm(), 102);
    let mut d = Draw::new(Phase::AfterWindows, Painter { calls: 0 });
    assert_eq!(d.phase_code(), 50);
    assert_eq!(d.bind(1), Ok(()));
    assert_eq!(d.draw(), 1);
    assert_eq!(d.detach(), Some(50));
    let _ = d.release();
    let mut d = Draw::new(Phase::AfterGauges, Painter { calls: 0 });
    assert_eq!(d.bind(0), Err(DrawError::UnsupportedPhase { phase: Phase::AfterGauges }));
    let _ = d.release();
    let g = GraphicsState {
        fog: true,
        lighting: false,
        alpha_testing: true,
        alpha_blending: false,
        depth_testing: true,
        depth_writing: false,
        textures: 2,
    };
    assert_eq!(g.host_args(), (1, 2, 0, 1, 0, 1, 0));
}

#[test]
fn camera_controller_lifecycle() {
    let mut x = make_x();
    assert_eq!(x.camera.is_controlled(0, 2), None);
    assert_eq!(x.camera.is_controlled(1, 1000), None);
    assert_eq!(x.camera.is_controlled(1, 2), Some(2));
    let _ = CameraApi { _phantom: std::marker::PhantomData };
    let mut c = RegisteredController::new(1);
    c.bind();
    assert!(c.is_active());
    assert_eq!(c.control(true, false), 1);
    assert_eq!(c.control(false, true), 0);
    assert!(!c.is_active());
    assert!(!c.detach());
    let _ = c.release();
    let mut c = RegisteredController::new(2);
    c.bind();
    assert!(c.detach());
    let _ = c.release();
}

#[test]
fn features_paths_and_state() {
    let mut x = make_x();
    let f = x.features.find(Feature::USE_NATIVE_PATHS, 1).unwrap().unwrap();
    assert_eq!(f.name(), "XPLM_USE_NATIVE_PATHS");
    assert!(x.features.find("XPLM_ANOTHER_FEATURE", 0).unwrap().is_none());
    assert_eq!(x.features.find("a\0", 1).unwrap_err().position, 1);
    assert!(Feature::enabled_from(1));
    assert!(!Feature::enabled_from(0));
    assert_eq!(Feature::enable_code(true), 1);
    assert_eq!(Feature::from_host("XPLM_SOME_OTHER_FEATURE".to_string()).name(), "XPLM_SOME_OTHER_FEATURE");
    let p = x.paths.plugins_folder("/opt/X-Plane 12");
    assert_eq!(p, "/opt/X-Plane 12/Resources/plugins");
    let mut s = StateData::new(5u32);
    *s.get_mut() += 1;
    assert_eq!(*s.get(), 6);
    assert!(audio_bus_valid(0));
    assert!(audio_bus_valid(10));
    assert!(!audio_bus_valid(11));
    assert!(!audio_bus_valid(-1));
}

#[test]
fn plugin_identity_buffers() {
    assert_eq!(identity_buffer("name"), Ok(b"name\0".to_vec()));
    assert_eq!(identity_buffer("na\0me"), Err(NulByteError { position: 2 }));
    let long = "x".repeat(300);
    let b = identity_buffer(&long).unwrap();
    assert_eq!(b.len(), 256);
    assert_eq!(b[255], 0);
    let info = PluginInfo {
        name: "n".to_string(),
        signature: "com.example.n".to_string(),
        description: "d".to_string(),
    };
    let (a, s, d) = info.identity_buffers().unwrap();
    let bad = PluginInfo {
        name: "n".to_string(),
        signature: "com.example\0n".to_string(),
        description: "d".to_string(),
    };
    assert_eq!(bad.identity_buffers(), Err(NulByteError { position: 11 }));
    assert_eq!(a, b"n\0".to_vec());
    assert_eq!(s, b"com.example.n\0".to_vec());
    assert_eq!(d, b"d\0".to_vec());
}

#[test]
fn test_as_truncate() {
    let x = 0x1122_3344_u32;
    let x8 = x as u8;
    assert_eq!(x8, 0x44u8);
}
