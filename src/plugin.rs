//! Plugin creation: the trait a plugin implements, and the work of the host's entry points.
use vstd::prelude::*;

use crate::ffi::{c_buffer_bytes, has_null_before, text_len, NulByteError};
use crate::message::{message_of, MessageId};
use crate::XPAPI;
use vstd::string::*;
use vstd::utf8::encode_utf8;

verus! {

/// Information about a plugin
pub struct PluginInfo {
    /// The plugin name
    pub name: String,
    /// The plugin's signature, in reverse DNS format
    pub signature: String,
    /// A description of the plugin
    pub description: String,
}

/// The size of each of the host's buffers for the plugin's identity, null included.
pub const IDENTITY_CAPACITY: usize = 256;

/// The bytes written into one of the host's identity buffers for `text`: the text cut to fit
/// with its null. A null byte within the buffer's reach is refused, not cut at.
pub fn identity_buffer(text: &str) -> (r: Result<Vec<u8>, NulByteError>)
    ensures
        r is Err <==> has_null_before(text.spec_bytes(), IDENTITY_CAPACITY as int),
        r matches Err(e) ==> e.position == text_len(text.spec_bytes()),
        r matches Ok(b) ==> b@ == identity_bytes(text.spec_bytes()),
        r matches Ok(b) ==> b@.len() <= IDENTITY_CAPACITY,
{
    c_buffer_bytes(text.as_bytes(), IDENTITY_CAPACITY)
}

/// The bytes of an identity buffer for text whose bytes are `text`, when it holds no null
/// byte within the buffer's reach.
pub open spec fn identity_bytes(text: Seq<u8>) -> Seq<u8> {
    text.take(vstd::math::min(text.len() as int, IDENTITY_CAPACITY - 1)).push(0u8)
}

/// Why the start entry point failed.
pub enum StartError<E> {
    /// The plugin's own start failed.
    Plugin(E),
    /// A text of the plugin's identity holds a null byte.
    Identity(NulByteError),
}

impl PluginInfo {
    /// The bytes of the three identity buffers: name, signature, description. The first text
    /// with a null byte within reach is refused.
    pub fn identity_buffers(&self) -> (r: Result<(Vec<u8>, Vec<u8>, Vec<u8>), NulByteError>)
        ensures
            r is Ok <==> !has_null_before(encode_utf8(self.name@), IDENTITY_CAPACITY as int)
                && !has_null_before(encode_utf8(self.signature@), IDENTITY_CAPACITY as int)
                && !has_null_before(encode_utf8(self.description@), IDENTITY_CAPACITY as int),
            r matches Ok(t) ==> t.0@ == identity_bytes(encode_utf8(self.name@)) && t.1@
                == identity_bytes(encode_utf8(self.signature@)) && t.2@ == identity_bytes(
                encode_utf8(self.description@),
            ),
    {
        let name = identity_buffer(self.name.as_str())?;
        let signature = identity_buffer(self.signature.as_str())?;
        let description = identity_buffer(self.description.as_str())?;
        Ok((name, signature, description))
    }
}

/// The trait that all plugins should implement
pub trait Plugin: Sized {
    /// The error type that a plugin may encounter when starting up or enabling
    type Error;

    /// Called when the host loads this plugin. On success, returns a plugin object.
    fn start(xpapi: &mut XPAPI) -> Result<Self, Self::Error>;

    /// Called when the plugin is enabled. If this returns an error, the plugin stays
    /// disabled.
    fn enable(&mut self, xpapi: &mut XPAPI) -> Result<(), Self::Error>;

    /// Called when the plugin is disabled
    fn disable(&mut self, xpapi: &mut XPAPI);

    /// Returns information on this plugin
    fn info(&self) -> PluginInfo;

    /// Called when a message is received; `param` is the host's parameter, an integer or an
    /// address as the message says.
    fn receive_message(&mut self, xpapi: &mut XPAPI, from: i32, message: MessageId, param: usize);
}

/// The plugin of a loaded library, once started
pub struct PluginData<P> {
    /// The plugin, while it is started
    pub plugin: Option<P>,
}

impl<P: Plugin> PluginData<P> {
    /// No plugin yet.
    pub fn new() -> (r: Self)
        ensures
            r.plugin is None,
    {
        PluginData { plugin: None }
    }

    /// The work of the start entry point: starts the plugin, keeps it, and returns the
    /// bytes of its identity buffers. A plugin that fails to start, or whose identity holds
    /// a null byte, is not kept, and the error is returned.
    pub fn xplugin_start(&mut self, x: &mut XPAPI) -> (r: Result<
        (Vec<u8>, Vec<u8>, Vec<u8>),
        StartError<P::Error>,
    >)
        ensures
            r is Ok <==> final(self).plugin is Some,
    {
        match P::start(x) {
            Ok(plugin) => match plugin.info().identity_buffers() {
                Ok(buffers) => {
                    self.plugin = Some(plugin);
                    Ok(buffers)
                },
                Err(e) => {
                    self.plugin = None;
                    Err(StartError::Identity(e))
                },
            },
            Err(e) => {
                self.plugin = None;
                Err(StartError::Plugin(e))
            },
        }
    }

    /// The work of the stop entry point: drops the plugin.
    pub fn xplugin_stop(&mut self)
        ensures
            final(self).plugin is None,
    {
        self.plugin = None;
    }

    /// The work of the enable entry point. Without a started plugin there is nothing to
    /// enable, which counts as success.
    pub fn xplugin_enable(&mut self, x: &mut XPAPI) -> (r: Result<(), P::Error>)
        ensures
            old(self).plugin is None ==> r is Ok,
            final(self).plugin is Some == old(self).plugin is Some,
    {
        match &mut self.plugin {
            Some(p) => p.enable(x),
            None => Ok(()),
        }
    }

    /// The work of the disable entry point.
    pub fn xplugin_disable(&mut self, x: &mut XPAPI)
        ensures
            final(self).plugin is Some == old(self).plugin is Some,
    {
        match &mut self.plugin {
            Some(p) => p.disable(x),
            None => {},
        }
    }

    /// The work of the message entry point: the host's message number becomes a message
    /// id; the message is dropped when no plugin is started.
    pub fn xplugin_receive_message(&mut self, x: &mut XPAPI, from: i32, message: i32, param: usize)
        ensures
            final(self).plugin is Some == old(self).plugin is Some,
    {
        let id = MessageId::from_code(message);
        proof {
            assert(id == message_of(message));
        }
        match &mut self.plugin {
            Some(p) => p.receive_message(x, from, id, param),
            None => {},
        }
    }
}

} // verus!
