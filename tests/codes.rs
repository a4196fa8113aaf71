use xplane::avionics::{
    AvionicsCallbackResult, AvionicsCustomization, AvionicsCustomizationError, AvionicsDrawer,
    DeviceID, DeviceUnmatchedError, ThreeSideDevice, TwoSideDevice,
};
use xplane::message::MessageId;
use xplane::registry::RegistrationError;
use xplane::window::{Cursor, Key, KeyAction, KeyEvent, KeyEventError, MouseAction, ScrollEvent, Point};
use xplane::{get_language, xp_major_ver};

const ALL_DEVICES: [DeviceID; 18] = [
    DeviceID::GNS430(TwoSideDevice::Pilot),
    DeviceID::GNS430(TwoSideDevice::Copilot),
    DeviceID::GNS530(TwoSideDevice::Pilot),
    DeviceID::GNS530(TwoSideDevice::Copilot),
    DeviceID::CDU739(TwoSideDevice::Pilot),
    DeviceID::CDU739(TwoSideDevice::Copilot),
    DeviceID::G1000Pfd(TwoSideDevice::Pilot),
    DeviceID::G1000Mfd,
    DeviceID::G1000Pfd(TwoSideDevice::Copilot),
    DeviceID::CDU815(TwoSideDevice::Pilot),
    DeviceID::CDU815(TwoSideDevice::Copilot),
    DeviceID::PrimusPfd(TwoSideDevice::Pilot),
    DeviceID::PrimusPfd(TwoSideDevice::Copilot),
    DeviceID::PrimusMfd(ThreeSideDevice::Pilot),
    DeviceID::PrimusMfd(ThreeSideDevice::Copilot),
    DeviceID::PrimusMfd(ThreeSideDevice::Center),
    DeviceID::PrimusRmu(TwoSideDevice::Pilot),
    DeviceID::PrimusRmu(TwoSideDevice::Copilot),
];

#[test]
fn device_codes_round_trip() {
    for (i, d) in ALL_DEVICES.iter().enumerate() {
        assert_eq!(d.code(), i as i32);
        assert_eq!(i32::from(*d), i as i32);
        assert_eq!(DeviceID::try_from(d.code()), Ok(*d));
    }
    assert_eq!(DeviceID::G1000Pfd(TwoSideDevice::Copilot).code(), 8);
    assert_eq!(DeviceID::G1000Mfd.code(), 7);
}

#[test]
fn unknown_device_code_is_carried() {
    assert_eq!(DeviceID::try_from(18), Err(DeviceUnmatchedError { id: 18 }));
    assert_eq!(DeviceID::try_from(-1), Err(DeviceUnmatchedError { id: -1 }));
    assert_eq!(DeviceID::try_from(i32::MAX), Err(DeviceUnmatchedError { id: i32::MAX }));
}

struct Drawer {
    before: u32,
    after: u32,
    unknown: u32,
}

impl AvionicsDrawer for Drawer {
    fn draw_before_xp(
        &mut self,
        device_id: Result<DeviceID, DeviceUnmatchedError>,
    ) -> AvionicsCallbackResult {
        self.before += 1;
        match device_id {
            Ok(_) => AvionicsCallbackResult::SuppressDraw,
            Err(_) => {
                self.unknown += 1;
                AvionicsCallbackResult::AllowDraw
            }
        }
    }

    fn draw_after_xp(&mut self, _device_id: Result<DeviceID, DeviceUnmatchedError>) {
        self.after += 1;
    }
}

#[test]
fn avionics_customization_draws_and_encodes() {
    assert_eq!(AvionicsCallbackResult::AllowDraw.code(), 0);
    assert_eq!(AvionicsCallbackResult::SuppressDraw.code(), 1);
    let mut c = AvionicsCustomization::new(
        DeviceID::GNS430(TwoSideDevice::Pilot),
        Drawer { before: 0, after: 0, unknown: 0 },
    );
    assert_eq!(c.device_code(), 0);
    assert_eq!(c.bind(Some(10)), Ok(()));
    assert_eq!(c.draw(0, 1), 1);
    assert_eq!(c.draw(0, 0), 0);
    assert_eq!(c.draw(99, 1), 0);
    assert_eq!(c.detach(), Some(10));
    let _ = c.release();
}

#[test]
fn refused_avionics_customization() {
    let mut c = AvionicsCustomization::new(DeviceID::G1000Mfd, Drawer { before: 0, after: 0, unknown: 0 });
    assert_eq!(c.bind(None), Err(AvionicsCustomizationError));
    assert_eq!(AvionicsCustomizationError.kind(), RegistrationError::HostRejected);
    let _ = c.release();
}

#[test]
fn message_codes_round_trip() {
    assert_eq!(MessageId::from_code(101), MessageId::PlaneCrashed);
    assert_eq!(MessageId::from_code(114), MessageId::DatarefsAdded);
    assert_eq!(MessageId::from(102), MessageId::PlaneLoaded);
    assert_eq!(i32::from(MessageId::LiveryLoaded), 108);
    assert_eq!(MessageId::from_code(0x1234_5678), MessageId::UnknownMessage(0x1234_5678));
    assert_eq!(MessageId::UnknownMessage(5).code(), 5);
    for c in 95..130 {
        assert_eq!(MessageId::from_code(c).code(), c);
    }
    assert!(MessageId::PlaneCrashed.is_xp_reserved());
    assert!(!MessageId::UnknownMessage(0x0100_0000).is_xp_reserved());
}

#[test]
fn key_codes_round_trip() {
    assert_eq!(Key::try_from(0x41), Ok(Key::A));
    assert_eq!(Key::A.code(), 0x41);
    assert_eq!(Key::NumpadEqual.code(), 0xBD);
    assert_eq!(Key::try_from(0xBD), Ok(Key::NumpadEqual));
    for c in 0u8..=255 {
        if let Ok(k) = Key::try_from(c) {
            assert_eq!(k.code(), c);
        }
    }
    assert!(Key::try_from(0x3A).is_err());
}

#[test]
fn key_events_from_host_codes() {
    let e = KeyEvent::from_xplm(b'a', 8 | 1, 0x41).unwrap();
    assert_eq!(e.char(), Some('a'));
    assert_eq!(e.key(), Key::A);
    assert_eq!(e.action(), KeyAction::Press);
    assert!(e.shift_pressed());
    assert!(!e.control_pressed());
    assert!(!e.option_pressed());
    let e = KeyEvent::from_xplm(0x1b, 16 | 4 | 2, 0x1B).unwrap();
    assert_eq!(e.char(), None);
    assert_eq!(e.action(), KeyAction::Release);
    assert!(e.control_pressed() && e.option_pressed());
    assert_eq!(KeyEvent::from_xplm(b'a', 1, 0x41), Err(KeyEventError::InvalidFlags { flags: 1 }));
    assert_eq!(KeyEvent::from_xplm(b'a', 8, 0x3A), Err(KeyEventError::InvalidKey { key: 0x3A }));
    assert_eq!(KeyEvent::from_xplm(b'\t', 8, 0x09).unwrap().char(), Some('\t'));
}

#[test]
fn mouse_cursor_and_scroll_codes() {
    assert_eq!(MouseAction::try_from(1), Ok(MouseAction::Down));
    assert_eq!(MouseAction::try_from(2), Ok(MouseAction::Drag));
    assert_eq!(MouseAction::try_from(3), Ok(MouseAction::Up));
    assert_eq!(MouseAction::try_from(4), Err(4));
    assert_eq!(MouseAction::Up.code(), 3);
    assert_eq!(Cursor::Default.code(), 0);
    assert_eq!(Cursor::Hide.code(), 1);
    assert_eq!(Cursor::Arrow.code(), 2);
    let p = Point { x: 3, y: 4 };
    let s = ScrollEvent::from_wheel(p, 1, 5);
    assert_eq!((s.scroll_x(), s.scroll_y()), (5, 0));
    let s = ScrollEvent::from_wheel(p, 0, -2);
    assert_eq!((s.scroll_x(), s.scroll_y()), (0, -2));
    assert_eq!(s.position(), p);
}

#[test]
fn versions_and_languages() {
    assert_eq!(xp_major_ver(12010, 12010), (12, 12010));
    assert_eq!(xp_major_ver(99, 99), (99, 99));
    assert_eq!(xp_major_ver(1150, 1150), (11, 1150));
    assert_eq!(xp_major_ver(-1234, 7), (-12, 7));
    assert_eq!(xp_major_ver(i32::MIN, 0).0, -21);
    assert_eq!(get_language(1), Some("en"));
    assert_eq!(get_language(10), Some("zh"));
    assert_eq!(get_language(0), None);
    assert_eq!(get_language(11), None);
}
