use xplane::avionics::{
    AvionicsCallbackResult, AvionicsCustomization, AvionicsDrawer, DeviceID, DeviceUnmatchedError,
    ThreeSideDevice,
};
use xplane::command::{
    Command, CommandCreateError, CommandFindError, CommandHandler, CommandHandlerResult,
    RegisteredCommandHandler, COMMAND_BEGIN, COMMAND_CONTINUE, COMMAND_END,
};
use xplane::data::{CreateError, FindError, SharedDataError};
use xplane::draw::{Error as DrawError, Phase};
use xplane::feature::Feature;
use xplane::ffi::NulByteError;
use xplane::registry::RegistrationError;
use xplane::window::{Cursor, KeyEvent, MouseEvent, Point, ScrollEvent, Window, WindowDelegate};
use xplane::{make_x, XPAPI};

#[test]
fn test_features() {
    let mut x = make_x();
    // The host enumerates two features, then one whose name is not UTF-8.
    let enumerated = vec![
        b"XPLM_USE_NATIVE_PATHS".to_vec(),
        b"XPLM_SOME_OTHER_FEATURE".to_vec(),
        vec![0xff, 0xfe],
    ];
    let feats: Vec<String> = x
        .features
        .all(enumerated)
        .iter()
        .map(|feat| feat.name().to_string())
        .collect();
    assert_eq!(feats, vec!["XPLM_USE_NATIVE_PATHS", "XPLM_SOME_OTHER_FEATURE"]);
    let feat = x.features.find("XPLM_ANOTHER_FEATURE", 1).unwrap().unwrap();
    assert_eq!(feat.name(), "XPLM_ANOTHER_FEATURE");
    assert!(!Feature::enabled_from(0));
    assert_eq!(Feature::enable_code(true), 1);
}

struct TestCommandHandler {
    internal_data: i32,
}

impl CommandHandler for TestCommandHandler {
    fn command_begin(&mut self, _x: &mut XPAPI) -> CommandHandlerResult {
        println!("Command begin! internal: {}", self.internal_data);
        self.internal_data = 32;
        CommandHandlerResult::AllowXPlaneProcessing
    }
    fn command_continue(&mut self, _x: &mut XPAPI) -> CommandHandlerResult {
        println!("Command continue! internal: {}", self.internal_data);
        self.internal_data = 64;
        CommandHandlerResult::DisallowXPlaneProcessing
    }
    fn command_end(&mut self, _x: &mut XPAPI) -> CommandHandlerResult {
        println!("Command end! internal: {}", self.internal_data);
        self.internal_data = 16;
        CommandHandlerResult::AllowXPlaneProcessing
    }
}

#[test]
fn test_commands() {
    let mut x = make_x();
    assert_eq!(
        Command::validate_new(
            "xplane_rs/test/command",
            "A test command for rust-xplane unit tests.",
            None
        ),
        Ok(())
    );
    let cmd = Command { id: 0x1000 };
    let mut handler = RegisteredCommandHandler::new(&cmd, TestCommandHandler { internal_data: 0 }, true);
    assert_eq!(handler.binding().command, 0x1000);
    assert!(handler.binding().before);
    handler.bind();
    // Triggered once: begin, then end.
    assert_eq!(handler.handle(&mut x, COMMAND_BEGIN), 1);
    assert_eq!(handler.handle(&mut x, COMMAND_END), 1);
    // Held down: begin, continue; then released: end.
    assert_eq!(handler.handle(&mut x, COMMAND_BEGIN), 1);
    assert_eq!(handler.handle(&mut x, COMMAND_CONTINUE), 0);
    assert_eq!(handler.handle(&mut x, COMMAND_END), 1);
    // One unregister call, with the same binding, before the handler is freed.
    assert_eq!(handler.detach(), Some(0x1000));
    let _ = handler.release();
}

struct Drawer {
    state: u8,
}

impl AvionicsDrawer for Drawer {
    fn draw_before_xp(
        &mut self,
        device_id: Result<DeviceID, DeviceUnmatchedError>,
    ) -> AvionicsCallbackResult {
        assert!(matches!(device_id, Ok(DeviceID::PrimusMfd(ThreeSideDevice::Center))));
        self.state = 10;
        AvionicsCallbackResult::SuppressDraw
    }

    fn draw_after_xp(&mut self, device_id: Result<DeviceID, DeviceUnmatchedError>) {
        assert!(matches!(device_id, Ok(DeviceID::PrimusMfd(ThreeSideDevice::Center))));
        self.state = 5;
    }
}

#[test]
fn test_avionics_customization() {
    let mut c = AvionicsCustomization::new(
        DeviceID::PrimusMfd(ThreeSideDevice::Center),
        Drawer { state: 0 },
    );
    assert_eq!(c.device_code(), 15);
    c.bind(Some(1)).expect("Could not customize avionics!");
    assert_eq!(c.draw(15, 1), 1);
    assert_eq!(c.draw(15, 0), 0);
    assert_eq!(c.detach(), Some(1));
    let _ = c.release();
}

#[test]
fn errors_map_to_the_shared_taxonomy() {
    let nul = NulByteError { position: 0 };
    assert_eq!(CommandFindError::NotFound.kind(), RegistrationError::NotFound);
    assert_eq!(CommandFindError::Null(nul).kind(), RegistrationError::InvalidIdentifier(nul));
    assert_eq!(
        CommandCreateError::Exists { existing_command: Command { id: 1 } }.kind(),
        RegistrationError::NameConflict
    );
    assert_eq!(CreateError::Exists.kind(), RegistrationError::NameConflict);
    assert_eq!(CreateError::Null(nul).kind(), RegistrationError::InvalidIdentifier(nul));
    assert_eq!(FindError::WrongType.kind(), RegistrationError::TypeMismatch);
    assert_eq!(FindError::NotFound.kind(), RegistrationError::NotFound);
    assert_eq!(SharedDataError::WrongType.kind(), RegistrationError::TypeMismatch);
    assert_eq!(
        DrawError::UnsupportedPhase { phase: Phase::AfterPanel }.kind(),
        RegistrationError::HostRejected
    );
}

struct Recorder {
    keys: Vec<KeyEvent>,
    propagate: bool,
}

impl WindowDelegate for Recorder {
    fn draw(&mut self, _window: u64) {}
    fn keyboard_event(&mut self, _window: u64, event: KeyEvent) {
        self.keys.push(event);
    }
    fn mouse_event(&mut self, _window: u64, _event: MouseEvent) -> bool {
        self.propagate
    }
    fn scroll_event(&mut self, _window: u64, _event: ScrollEvent) -> bool {
        self.propagate
    }
    fn cursor(&mut self, _window: u64, position: Point) -> Cursor {
        if position.x < 0 {
            Cursor::Hide
        } else {
            Cursor::Arrow
        }
    }
}

#[test]
fn window_callbacks() {
    let mut w = Window::new(Recorder { keys: Vec::new(), propagate: false });
    w.bind(21);
    assert_eq!(w.id(), 21);
    w.draw();
    assert!(w.key(b'a', 8, 0x41, false).is_ok());
    assert!(w.key(b'a', 0, 0x41, false).is_err());
    assert!(w.key(b'a', 0, 0x41, true).is_ok());
    assert_eq!(w.mouse(1, 2, 1), 1);
    assert_eq!(w.mouse(1, 2, 7), 0);
    assert_eq!(w.scroll(1, 2, 0, 3), 1);
    assert_eq!(w.cursor(-1, 0), 1);
    assert_eq!(w.cursor(1, 0), 2);
    assert_eq!(w.detach(), Some(21));
    let _ = w.release();
}
