//! Safe bindings to the X-Plane plugin interface, with the ownership and
//! lifetime rules of host-registered callbacks stated and proved.
use vstd::prelude::*;

pub mod avionics;
pub mod camera;
pub mod command;
pub mod data;
pub mod draw;
pub mod feature;
pub mod ffi;
pub mod flight_loop;
pub mod menu;
pub mod message;
pub mod navigation;
pub mod paths;
pub mod plugin;
pub mod registry;
pub mod sound;
pub mod state;
pub mod weather;
pub mod window;

verus! {

/// A marker that keeps a type on the thread the host calls the plugin from.
pub type NoSendSync = core::marker::PhantomData<std::rc::Rc<()>>;

/// Access struct for the host's interfaces. Intentionally neither `Send` nor `Sync`.
pub struct XPAPI {
    pub camera: camera::CameraApi,
    pub data: data::DataApi,
    pub features: feature::FeatureApi,
    pub paths: paths::PathApi,
    pub sound: sound::SoundApi,
    pub weather: weather::WeatherApi,
    _phantom: NoSendSync,
}

/// The access struct handed to callbacks.
pub fn make_x() -> XPAPI {
    XPAPI {
        camera: camera::CameraApi { _phantom: core::marker::PhantomData },
        data: data::DataApi { _phantom: core::marker::PhantomData },
        features: feature::FeatureApi { _phantom: core::marker::PhantomData },
        paths: paths::PathApi { _phantom: core::marker::PhantomData },
        sound: sound::SoundApi { _phantom: core::marker::PhantomData },
        weather: weather::WeatherApi { _phantom: core::marker::PhantomData },
        _phantom: core::marker::PhantomData,
    }
}

/// The two leading decimal digits of `n` (all of them when it has at most two).
pub open spec fn leading_two(n: nat) -> nat
    decreases n,
{
    if n <= 99 {
        n
    } else {
        leading_two(n / 10)
    }
}

/// The major version within a full version number: its two leading digits, with its sign.
pub open spec fn major_version(v: int) -> int {
    if v >= 0 {
        leading_two(v as nat) as int
    } else {
        -(leading_two((-v) as nat) as int)
    }
}

/// Splits the host's version number: its major version (two leading digits) and the full
/// number.
pub fn xp_major_ver(input: i32, full_version: i32) -> (r: (i32, i32))
    ensures
        r.0 == major_version(input as int),
        r.1 == full_version,
        -99 <= r.0 <= 99,
{
    let neg = input < 0;
    let mut n: i64 = if neg {
        -(input as i64)
    } else {
        input as i64
    };
    let ghost start: nat = n as nat;
    while n > 99
        invariant
            n >= 0,
            leading_two(n as nat) == leading_two(start),
            n <= start,
            start <= 2147483648,
        decreases n,
    {
        n = n / 10;
    }
    assert(leading_two(n as nat) == n);
    if neg {
        (-(n as i32), full_version)
    } else {
        (n as i32, full_version)
    }
}

/// The ISO 639-1 code of each host language code this library knows.
pub open spec fn language_tag(code: i32) -> Option<Seq<char>> {
    if code == 1 {
        Some("en"@)
    } else if code == 2 {
        Some("fr"@)
    } else if code == 3 {
        Some("de"@)
    } else if code == 4 {
        Some("it"@)
    } else if code == 5 {
        Some("es"@)
    } else if code == 6 {
        Some("ko"@)
    } else if code == 7 {
        Some("ru"@)
    } else if code == 8 {
        Some("el"@)
    } else if code == 9 {
        Some("ja"@)
    } else if code == 10 {
        Some("zh"@)
    } else {
        None
    }
}

/// The ISO 639-1 code of the language the host reports as `code`, if it is a known one.
pub fn get_language(code: i32) -> (r: Option<&'static str>)
    ensures
        r is Some <==> language_tag(code) is Some,
        r matches Some(s) ==> language_tag(code) == Some(s@),
{
    match code {
        1 => Some("en"),
        2 => Some("fr"),
        3 => Some("de"),
        4 => Some("it"),
        5 => Some("es"),
        6 => Some("ko"),
        7 => Some("ru"),
        8 => Some("el"),
        9 => Some("ja"),
        10 => Some("zh"),
        _ => None,
    }
}

} // verus!
