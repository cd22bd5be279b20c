use vstd::prelude::*;
use vstd::utf8::encode_utf8;
use vstd::slice::slice_to_vec;

use crate::error::Error;
use crate::{MAX_PEERS, MAX_STREAMS};

verus! {

/// Settings of a host.
#[derive(Debug, Clone)]
pub struct Config {
    pub bind_port: u16,
    pub bind_address: Option<String>,
    pub stun_server: Option<String>,
    pub relay_server: Option<String>,
    pub max_peers: u32,
    pub max_streams: u32,
    pub handshake_timeout_ms: u32,
    pub keepalive_interval_ms: u32,
}

impl Default for Config {
    /// The settings that libspeer itself starts from.
    fn default() -> (c: Self)
        ensures
            c.bind_port == 0,
            c.bind_address is None,
            c.stun_server is None,
            c.relay_server is None,
            c.max_peers == MAX_PEERS,
            c.max_streams == MAX_STREAMS,
            c.handshake_timeout_ms == 10_000,
            c.keepalive_interval_ms == 5_000,
    {
        Config {
            bind_port: 0,
            bind_address: None,
            stun_server: None,
            relay_server: None,
            max_peers: MAX_PEERS as u32,
            max_streams: MAX_STREAMS as u32,
            handshake_timeout_ms: 10_000,
            keepalive_interval_ms: 5_000,
        }
    }
}

/// The UTF-8 bytes of a text.
pub open spec fn text_bytes(text: Seq<char>) -> Seq<u8> {
    encode_utf8(text)
}

/// Whether a text cannot be handed to C: its bytes hold a NUL.
pub open spec fn has_interior_nul(text: Seq<char>) -> bool {
    text_bytes(text).contains(0u8)
}

/// The bytes of the C string made from a text without an interior NUL:
/// its UTF-8 bytes followed by one NUL.
pub open spec fn c_bytes(text: Seq<char>) -> Seq<u8> {
    text_bytes(text).push(0u8)
}

/// The C string of a text: an error exactly when the text holds a NUL.
pub fn c_string(value: &str) -> (r: Result<Vec<u8>, Error>)
    ensures
        r is Err <==> has_interior_nul(value@),
        r matches Err(e) ==> e == Error::InteriorNul,
        r matches Ok(bytes) ==> bytes@ == c_bytes(value@),
        r is Err <==> encode_utf8(value@).contains(0u8),
        r matches Ok(bytes) ==> {
            &&& bytes@.len() == encode_utf8(value@).len() + 1
            &&& bytes@.drop_last() == encode_utf8(value@)
            &&& bytes@.last() == 0u8
        },
{
    let bytes = value.as_bytes();
    let n = bytes.len();
    let mut i: usize = 0;
    while i < n
        invariant
            n == bytes@.len(),
            bytes@ == text_bytes(value@),
            i <= n,
            forall|j: int| 0 <= j < i ==> bytes@[j] != 0u8,
        decreases n - i,
    {
        if bytes[i] == 0u8 {
            assert(bytes@[i as int] == 0u8);
            return Err(Error::InteriorNul);
        }
        i = i + 1;
    }
    assert(!bytes@.contains(0u8));
    let mut out = slice_to_vec(bytes);
    out.push(0u8);
    assert(out@.drop_last() =~= bytes@);
    Ok(out)
}

/// Whether an optional text cannot be handed to C.
pub open spec fn optional_has_interior_nul(value: Option<Seq<char>>) -> bool {
    match value {
        Some(text) => has_interior_nul(text),
        None => false,
    }
}

/// Whether an optional C string is the copy of an optional text.
pub open spec fn copy_of(copy: Option<Vec<u8>>, value: Option<Seq<char>>) -> bool {
    match (copy, value) {
        (None, None) => true,
        (Some(bytes), Some(text)) => bytes@ == c_bytes(text),
        _ => false,
    }
}

/// The view of an optional string slice.
pub open spec fn str_view(value: Option<&str>) -> Option<Seq<char>> {
    match value {
        Some(s) => Some(s@),
        None => None,
    }
}

/// The view of an optional string.
pub open spec fn string_view(value: Option<String>) -> Option<Seq<char>> {
    match value {
        Some(s) => Some(s@),
        None => None,
    }
}

/// The C string of an optional text; no text gives no C string.
pub fn optional_cstring(value: Option<&str>) -> (r: Result<Option<Vec<u8>>, Error>)
    ensures
        r is Err <==> optional_has_interior_nul(str_view(value)),
        r matches Err(e) ==> e == Error::InteriorNul,
        r matches Ok(copy) ==> copy_of(copy, str_view(value)),
        value is None ==> (r matches Ok(copy) && copy is None),
        value matches Some(s) ==> (r is Err <==> encode_utf8(s@).contains(0u8)),
        value matches Some(s) ==> (r matches Ok(copy) ==> (copy matches Some(b) && {
            &&& b@.len() == encode_utf8(s@).len() + 1
            &&& b@.drop_last() == encode_utf8(s@)
            &&& b@.last() == 0u8
        })),
{
    match value {
        Some(s) => match c_string(s) {
            Ok(bytes) => Ok(Some(bytes)),
            Err(e) => Err(e),
        },
        None => Ok(None),
    }
}

fn optional_field(value: &Option<String>) -> (r: Result<Option<Vec<u8>>, Error>)
    ensures
        r is Err <==> optional_has_interior_nul(string_view(*value)),
        r matches Err(e) ==> e == Error::InteriorNul,
        r matches Ok(copy) ==> copy_of(copy, string_view(*value)),
{
    match value {
        Some(s) => optional_cstring(Some(s.as_str())),
        None => optional_cstring(None),
    }
}

/// The C strings of a configuration, kept alive while libspeer reads them.
pub struct ConfigStrings {
    pub bind_address: Option<Vec<u8>>,
    pub stun_server: Option<Vec<u8>>,
    pub relay_server: Option<Vec<u8>>,
}

impl ConfigStrings {
    /// Whether these are the C strings of the configuration's texts.
    pub open spec fn copies(&self, config: &Config) -> bool {
        &&& copy_of(self.bind_address, string_view(config.bind_address))
        &&& copy_of(self.stun_server, string_view(config.stun_server))
        &&& copy_of(self.relay_server, string_view(config.relay_server))
    }

    /// Whether some text of the configuration holds a NUL.
    pub open spec fn rejects(config: &Config) -> bool {
        ||| optional_has_interior_nul(string_view(config.bind_address))
        ||| optional_has_interior_nul(string_view(config.stun_server))
        ||| optional_has_interior_nul(string_view(config.relay_server))
    }

    /// The C strings of a configuration; an error exactly when one of its
    /// texts holds a NUL.
    pub fn new(config: &Config) -> (r: Result<ConfigStrings, Error>)
        ensures
            r is Err <==> Self::rejects(config),
            r matches Err(e) ==> e == Error::InteriorNul,
            r matches Ok(strings) ==> strings.copies(config),
            r matches Ok(strings) ==> (strings.bind_address is None <==> config.bind_address is None),
            r matches Ok(strings) ==> (config.bind_address matches Some(t) ==> (strings.bind_address matches Some(b) && {
                &&& b@.len() == encode_utf8(t@).len() + 1
                &&& b@.drop_last() == encode_utf8(t@)
                &&& b@.last() == 0u8
            })),
            r matches Ok(strings) ==> (strings.stun_server is None <==> config.stun_server is None),
            r matches Ok(strings) ==> (config.stun_server matches Some(t) ==> (strings.stun_server matches Some(b) && {
                &&& b@.len() == encode_utf8(t@).len() + 1
                &&& b@.drop_last() == encode_utf8(t@)
                &&& b@.last() == 0u8
            })),
            r matches Ok(strings) ==> (strings.relay_server is None <==> config.relay_server is None),
            r matches Ok(strings) ==> (config.relay_server matches Some(t) ==> (strings.relay_server matches Some(b) && {
                &&& b@.len() == encode_utf8(t@).len() + 1
                &&& b@.drop_last() == encode_utf8(t@)
                &&& b@.last() == 0u8
            })),
            r is Err <==> ({
                ||| (config.bind_address matches Some(t) && encode_utf8(t@).contains(0u8))
                ||| (config.stun_server matches Some(t) && encode_utf8(t@).contains(0u8))
                ||| (config.relay_server matches Some(t) && encode_utf8(t@).contains(0u8))
            }),
    {
        let bind_address = match optional_field(&config.bind_address) {
            Ok(v) => v,
            Err(e) => return Err(e),
        };
        let stun_server = match optional_field(&config.stun_server) {
            Ok(v) => v,
            Err(e) => return Err(e),
        };
        let relay_server = match optional_field(&config.relay_server) {
            Ok(v) => v,
            Err(e) => return Err(e),
        };
        let strings = ConfigStrings { bind_address, stun_server, relay_server };
        proof {
            lemma_copies_field_by_field(&strings, config);
            lemma_rejects_means_some_text_has_nul(config);
        }
        Ok(strings)
    }
}

impl Default for ConfigStrings {
    /// No C strings at all, for a host made without a configuration.
    fn default() -> (s: Self)
        ensures
            s.bind_address is None,
            s.stun_server is None,
            s.relay_server is None,
    {
        ConfigStrings { bind_address: None, stun_server: None, relay_server: None }
    }
}

/// The C string of a text is the text's UTF-8 bytes, every one of them and
/// in order, followed by exactly one NUL.
pub proof fn lemma_c_bytes_is_text_then_nul(text: Seq<char>)
    ensures
        c_bytes(text).len() == encode_utf8(text).len() + 1,
        c_bytes(text).drop_last() == encode_utf8(text),
        c_bytes(text).last() == 0u8,
        forall|j: int| 0 <= j < encode_utf8(text).len() ==> #[trigger] c_bytes(text)[j] == encode_utf8(text)[j],
{
    assert(c_bytes(text).drop_last() =~= encode_utf8(text));
}

/// A text is refused exactly when its UTF-8 bytes hold a NUL.
pub proof fn lemma_interior_nul_is_a_zero_byte(text: Seq<char>)
    ensures
        has_interior_nul(text) <==> encode_utf8(text).contains(0u8),
{
}

/// An optional C string copies an optional text when both are absent, or
/// when the copy is the text's UTF-8 bytes followed by one NUL.
pub proof fn lemma_copy_of_field(copy: Option<Vec<u8>>, text: Option<Seq<char>>)
    requires
        copy_of(copy, text),
    ensures
        copy is None <==> text is None,
        text matches Some(t) ==> (copy matches Some(b) && {
            &&& b@.len() == encode_utf8(t).len() + 1
            &&& b@.drop_last() == encode_utf8(t)
            &&& b@.last() == 0u8
        }),
{
    if let Some(t) = text {
        lemma_c_bytes_is_text_then_nul(t);
    }
}

/// Each C string of a configuration comes from its own field alone: it is
/// absent exactly when that field is, and otherwise holds that field's bytes
/// and one NUL, whatever the other fields hold.
pub proof fn lemma_copies_field_by_field(strings: &ConfigStrings, config: &Config)
    requires
        strings.copies(config),
    ensures
        strings.bind_address is None <==> config.bind_address is None,
        strings.stun_server is None <==> config.stun_server is None,
        strings.relay_server is None <==> config.relay_server is None,
        config.bind_address matches Some(t) ==> (strings.bind_address matches Some(b) && {
            &&& b@.len() == encode_utf8(t@).len() + 1
            &&& b@.drop_last() == encode_utf8(t@)
            &&& b@.last() == 0u8
        }),
        config.stun_server matches Some(t) ==> (strings.stun_server matches Some(b) && {
            &&& b@.len() == encode_utf8(t@).len() + 1
            &&& b@.drop_last() == encode_utf8(t@)
            &&& b@.last() == 0u8
        }),
        config.relay_server matches Some(t) ==> (strings.relay_server matches Some(b) && {
            &&& b@.len() == encode_utf8(t@).len() + 1
            &&& b@.drop_last() == encode_utf8(t@)
            &&& b@.last() == 0u8
        }),
{
    lemma_copy_of_field(strings.bind_address, string_view(config.bind_address));
    lemma_copy_of_field(strings.stun_server, string_view(config.stun_server));
    lemma_copy_of_field(strings.relay_server, string_view(config.relay_server));
}

/// A configuration is refused exactly when one of its present texts has a
/// NUL among its UTF-8 bytes.
pub proof fn lemma_rejects_means_some_text_has_nul(config: &Config)
    ensures
        ConfigStrings::rejects(config) <==> ({
            ||| (config.bind_address matches Some(t) && encode_utf8(t@).contains(0u8))
            ||| (config.stun_server matches Some(t) && encode_utf8(t@).contains(0u8))
            ||| (config.relay_server matches Some(t) && encode_utf8(t@).contains(0u8))
        }),
{
}

} // verus!
