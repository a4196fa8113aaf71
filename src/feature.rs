//! Features of the host's plugin interface that a plugin can turn on or off.
use vstd::prelude::*;

use crate::ffi::{check_c_string, check_c_string_ok, string_from_utf8, text_len, NulByteError};
use vstd::utf8::{decode_utf8, valid_utf8};
use crate::NoSendSync;
use vstd::string::*;

verus! {

/// A feature provided by the host's plugin interface
#[derive(Debug)]
pub struct Feature {
    /// The name of this feature; it holds no null byte
    name: String,
}

/// Access struct for the Feature API.
pub struct FeatureApi {
    pub _phantom: NoSendSync,
}

impl Feature {
    /// When this is enabled, the host uses Unix-style paths.
    pub const USE_NATIVE_PATHS: &'static str = "XPLM_USE_NATIVE_PATHS";

    /// When this is enabled, widgets use the host's modern windows.
    pub const USE_NATIVE_WIDGET_WINDOWS: &'static str = "XPLM_USE_NATIVE_WIDGET_WINDOWS";

    /// When enabled, the host sends a message any time new datarefs are added.
    pub const WANTS_DATAREF_NOTIFICATIONS: &'static str = "XPLM_WANTS_DATAREF_NOTIFICATIONS";

    pub closed spec fn spec_name(&self) -> Seq<char> {
        self.name@
    }

    /// The feature of the name the host enumerated.
    pub fn from_host(name: String) -> (r: Feature)
        ensures
            r.spec_name() == name@,
    {
        Feature { name }
    }

    /// Returns the name of this feature
    pub fn name(&self) -> (r: &str)
        ensures
            r@ == self.spec_name(),
    {
        self.name.as_str()
    }

    /// Whether the host's answer to "is it enabled" means enabled.
    pub fn enabled_from(host_value: i32) -> (r: bool)
        ensures
            r == (host_value == 1),
    {
        host_value == 1
    }

    /// The host's argument for enabling or disabling.
    pub fn enable_code(enable: bool) -> (r: i32)
        ensures
            r == (if enable { 1i32 } else { 0i32 }),
    {
        if enable {
            1
        } else {
            0
        }
    }
}

/// The names among `names` that are valid UTF-8, decoded, in order.
pub open spec fn valid_names(names: Seq<Seq<u8>>) -> Seq<Seq<char>>
    decreases names.len(),
{
    if names.len() == 0 {
        Seq::empty()
    } else {
        let before = valid_names(names.drop_last());
        if valid_utf8(names.last()) {
            before.push(decode_utf8(names.last()))
        } else {
            before
        }
    }
}

impl FeatureApi {
    /// The features of the names the host enumerated, in order; a name that is not valid
    /// UTF-8 is skipped.
    pub fn all(&mut self, names: Vec<Vec<u8>>) -> (r: Vec<Feature>)
        ensures
            r@.len() == valid_names(names@.map_values(|n: Vec<u8>| n@)).len(),
            forall|k: int|
                0 <= k < r@.len() ==> #[trigger] r@[k].spec_name() == valid_names(
                    names@.map_values(|n: Vec<u8>| n@),
                )[k],
    {
        let ghost all = names@.map_values(|n: Vec<u8>| n@);
        let mut out: Vec<Feature> = Vec::new();
        let mut rest = names;
        let mut i: usize = 0;
        let n = rest.len();
        while i < n
            invariant
                n == all.len(),
                i <= n,
                rest@.len() == n - i,
                forall|j: int| 0 <= j < rest@.len() ==> #[trigger] rest@[j]@ == all[i + j],
                out@.len() == valid_names(all.take(i as int)).len(),
                forall|k: int|
                    0 <= k < out@.len() ==> #[trigger] out@[k].spec_name() == valid_names(
                        all.take(i as int),
                    )[k],
            decreases n - i,
        {
            let ghost prev = rest@;
            let name = rest.remove(0);
            proof {
                assert(prev[0]@ == all[i + 0]);
                assert(name@ == all[i as int]);
                assert(all.take(i as int + 1).drop_last() =~= all.take(i as int));
                assert forall|j: int| 0 <= j < rest@.len() implies #[trigger] rest@[j]@ == all[i
                    + 1 + j] by {
                    assert(rest@[j] == prev[j + 1]);
                }
            }
            match string_from_utf8(name) {
                Ok(s) => {
                    out.push(Feature { name: s });
                },
                Err(_) => {},
            }
            i = i + 1;
        }
        proof {
            assert(all.take(n as int) =~= all);
        }
        out
    }

    /// Decides a lookup of the feature named `name`, given the host's answer to "has it this
    /// feature" (1 for yes). A name with a null byte is refused before any host call.
    pub fn find(&mut self, name: &str, has_feature: i32) -> (r: Result<Option<Feature>, NulByteError>)
        ensures
            !check_c_string_ok(name) ==> r == Err::<Option<Feature>, NulByteError>(
                NulByteError { position: text_len(name.spec_bytes()) as usize },
            ),
            check_c_string_ok(name) ==> r is Ok && (r->Ok_0 is Some <==> has_feature == 1),
            r matches Ok(Some(f)) ==> f.spec_name() == name@,
    {
        check_c_string(name)?;
        if has_feature == 1 {
            Ok(Some(Feature { name: name.to_string() }))
        } else {
            Ok(None)
        }
    }
}

} // verus!
