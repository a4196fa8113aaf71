use xplane::data::{
    ArrayRead, ArrayReadWrite, DataRead, DataReadWrite, DataRef, OwnedData, ReadWrite,
    SharedData, SharedDataError, SharedDataHandler, StringRead, StringReadWrite,
};
use xplane::ffi::NulByteError;
use xplane::navigation::{check_nav_type, navaid_of, BadIndex, BadNavType, Fms, NavAidIter, NAV_NOT_FOUND};
use xplane::{make_x, XPAPI};

#[test]
fn fms_index_bounds() {
    assert_eq!(Fms::check_index(0), Ok(()));
    assert_eq!(Fms::check_index(99), Ok(()));
    assert_eq!(Fms::check_index(100), Err(BadIndex { idx: 100 }));
    assert_eq!(Fms::check_index(-1), Err(BadIndex { idx: -1 }));
}

#[test]
fn nav_type_must_be_one_bit() {
    assert_eq!(check_nav_type(None), Ok(()));
    assert_eq!(check_nav_type(Some(4)), Ok(()));
    assert_eq!(check_nav_type(Some(1 << 31)), Ok(()));
    assert_eq!(check_nav_type(Some(6)), Err(BadNavType { typ: 6 }));
    assert_eq!(check_nav_type(Some(0)), Err(BadNavType { typ: 0 }));
}

#[test]
fn navaid_iteration_stops() {
    let mut it = NavAidIter::new(3, 6);
    let mut seen = Vec::new();
    while let Some(h) = it.current() {
        seen.push(h);
        it.advance(h + 1);
    }
    assert_eq!(seen, vec![3, 4, 5]);
    let mut it = NavAidIter::new(10, -1);
    assert_eq!(it.current(), Some(10));
    it.advance(-1);
    assert_eq!(it.current(), None);
}

#[test]
fn owned_data_through_traits() {
    let mut v: OwnedData<u16, ReadWrite> = OwnedData::new(3);
    assert_eq!(DataRead::get(&v), 3);
    DataReadWrite::set(&mut v, 9);
    assert_eq!(DataRead::get(&v), 9);
    let mut a: OwnedData<Vec<u8>, ReadWrite> = OwnedData::new(b"hi\0\0".to_vec());
    assert_eq!(ArrayRead::len(&a), 4);
    assert_eq!(a.get_as_string().unwrap(), "hi");
    ArrayReadWrite::set(&mut a, b"yes");
    assert_eq!(a.get_as_string().unwrap(), "yes");
    assert_eq!(a.set_as_string("ok"), Ok(()));
    assert_eq!(a.read_window(0, 4), b"ok\0\0".to_vec());
    assert_eq!(a.set_as_string("n\0o"), Err(NulByteError { position: 1 }));
    assert_eq!(a.read_window(0, 4), b"ok\0\0".to_vec());
    ArrayReadWrite::set(&mut a, &[0xff, 0x41, 0, 0]);
    assert_eq!(a.get_as_string().unwrap_err().bytes, vec![0xff, 0x41]);
    let mut dest = [0u8; 2];
    assert_eq!(ArrayRead::get(&a, &mut dest), 2);
    assert_eq!(dest, [0xff, 0x41]);
}

struct Changes(u32);

impl SharedDataHandler<i32> for Changes {
    fn data_changed(&mut self, _x: &mut XPAPI, dref: &mut DataRef<i32, ReadWrite>) {
        assert_eq!(dref.id(), 12);
        self.0 += 1;
    }
}

#[test]
fn shared_data_lifecycle() {
    let mut x = make_x();
    assert_eq!(
        SharedData::<i32, Changes>::new("a\0b", Changes(0)).err(),
        Some(SharedDataError::Nul(NulByteError { position: 1 }))
    );
    let mut s = SharedData::<i32, Changes>::new("my/shared", Changes(0)).unwrap();
    assert_eq!(s.name(), "my/shared");
    assert_eq!(s.bind(1), Ok(()));
    assert!(s.needs_lookup());
    s.data_changed(&mut x, 12);
    assert!(!s.needs_lookup());
    // Later changes reuse the dataref found first.
    s.data_changed(&mut x, 99);
    assert!(s.detach());
    let _ = s.release();
    let mut s = SharedData::<i32, Changes>::new("my/shared", Changes(0)).unwrap();
    assert_eq!(s.bind(0), Err(SharedDataError::WrongType));
    let _ = s.release();
}

#[test]
fn array_sizes_saturate() {
    use_array_size();
}

fn use_array_size() {
    assert_eq!(xplane::data::array_size(0), 0);
    assert_eq!(xplane::data::array_size(7), 7);
    assert_eq!(xplane::data::array_size(i32::MAX as usize), i32::MAX);
    assert_eq!(xplane::data::array_size(usize::MAX), i32::MAX);
}

#[test]
fn fms_entry_without_navaid() {
    assert_eq!(navaid_of(NAV_NOT_FOUND), None);
    assert_eq!(navaid_of(0), Some(0));
    assert_eq!(navaid_of(1234), Some(1234));
}

struct Named(&'static str);

impl xplane::plugin::Plugin for Named {
    type Error = String;
    fn start(_x: &mut XPAPI) -> Result<Self, String> {
        Ok(Named("bad\0name"))
    }
    fn enable(&mut self, _x: &mut XPAPI) -> Result<(), String> {
        Ok(())
    }
    fn disable(&mut self, _x: &mut XPAPI) {}
    fn info(&self) -> xplane::plugin::PluginInfo {
        xplane::plugin::PluginInfo {
            name: self.0.to_string(),
            signature: "com.example.named".to_string(),
            description: "d".to_string(),
        }
    }
    fn receive_message(&mut self, _x: &mut XPAPI, _from: i32, _m: xplane::message::MessageId, _p: usize) {}
}

#[test]
fn start_fails_on_a_null_in_the_identity() {
    let mut x = make_x();
    let mut data: xplane::plugin::PluginData<Named> = xplane::plugin::PluginData::new();
    match data.xplugin_start(&mut x) {
        Err(xplane::plugin::StartError::Identity(e)) => assert_eq!(e, NulByteError { position: 3 }),
        _ => panic!("a null byte in the name must fail the start"),
    }
    assert!(data.plugin.is_none());
}
