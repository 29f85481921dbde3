use vstd::prelude::*;
use crate::error::HandlerError;
use crate::text::str_equal;

verus! {

#[verifier::external_type_specification]
#[verifier::external_body]
pub struct ExValue(serde_json::Value);

#[verifier::external_type_specification]
#[verifier::external_body]
pub struct ExJsonError(serde_json::Error);

#[verifier::external_type_specification]
#[verifier::external_body]
pub struct ExTomlDeError(toml::de::Error);

#[verifier::external_type_specification]
#[verifier::external_body]
pub struct ExTomlSerError(toml::ser::Error);

/// The record that the TOML parser reads from a text, if the text is valid TOML.
pub uninterp spec fn toml_decoded(s: Seq<char>) -> Option<serde_json::Value>;

/// The TOML text that the TOML serializer writes for a record, if it can represent it.
pub uninterp spec fn toml_encoded(v: serde_json::Value) -> Option<Seq<char>>;

/// The record that the JSON parser reads from a text, if the text is valid JSON.
pub uninterp spec fn json_decoded(s: Seq<char>) -> Option<serde_json::Value>;

/// The JSON text that the JSON serializer writes for a record, if it can represent it.
pub uninterp spec fn json_encoded(v: serde_json::Value) -> Option<Seq<char>>;

/// Relies on toml::from_str, reading into a serde_json::Value: the outcome depends on the text alone.
#[verifier::external_body]
fn toml_from_str(s: &str) -> (r: Result<serde_json::Value, toml::de::Error>)
    ensures
        match r {
            Ok(v) => toml_decoded(s@) == Some(v),
            Err(_) => toml_decoded(s@) is None,
        },
{
    toml::from_str(s)
}

/// Relies on toml::to_string of a serde_json::Value: the outcome depends on the record alone.
#[verifier::external_body]
fn toml_to_string(v: &serde_json::Value) -> (r: Result<String, toml::ser::Error>)
    ensures
        match r {
            Ok(t) => toml_encoded(*v) == Some(t@),
            Err(_) => toml_encoded(*v) is None,
        },
{
    toml::to_string(v)
}

/// Relies on serde_json::from_str, reading into a serde_json::Value: the outcome depends on the
/// text alone.
#[verifier::external_body]
fn json_from_str(s: &str) -> (r: Result<serde_json::Value, serde_json::Error>)
    ensures
        match r {
            Ok(v) => json_decoded(s@) == Some(v),
            Err(_) => json_decoded(s@) is None,
        },
{
    serde_json::from_str(s)
}

/// Relies on serde_json::to_string of a serde_json::Value: the outcome depends on the record alone.
#[verifier::external_body]
fn json_to_string(v: &serde_json::Value) -> (r: Result<String, serde_json::Error>)
    ensures
        match r {
            Ok(t) => json_encoded(*v) == Some(t@),
            Err(_) => json_encoded(*v) is None,
        },
{
    serde_json::to_string(v)
}

/// A codec between structured records and text.
pub trait FormatHandler {
    /// The record this codec reads from a text, if any.
    spec fn decoded(&self, s: Seq<char>) -> Option<serde_json::Value>;

    /// The text this codec writes for a record, if any.
    spec fn encoded(&self, v: serde_json::Value) -> Option<Seq<char>>;

    fn from_str(&self, data: &str) -> (r: Result<serde_json::Value, HandlerError>)
        ensures
            match self.decoded(data@) {
                Some(v) => r == Ok::<serde_json::Value, HandlerError>(v),
                None => r == Err::<serde_json::Value, HandlerError>(HandlerError::Parse),
            },
    ;

    fn to_string(&self, record: &serde_json::Value) -> (r: Result<String, HandlerError>)
        ensures
            match self.encoded(*record) {
                Some(t) => r is Ok && r->Ok_0@ == t,
                None => r == Err::<String, HandlerError>(HandlerError::Serialize),
            },
    ;
}

/// The TOML codec.
#[derive(Debug, Clone, Copy, PartialEq, Eq, Structural)]
pub struct TomlHandler {}

/// The JSON codec.
#[derive(Debug, Clone, Copy, PartialEq, Eq, Structural)]
pub struct JsonHandler {}

impl FormatHandler for TomlHandler {
    open spec fn decoded(&self, s: Seq<char>) -> Option<serde_json::Value> {
        toml_decoded(s)
    }

    open spec fn encoded(&self, v: serde_json::Value) -> Option<Seq<char>> {
        toml_encoded(v)
    }

    fn from_str(&self, data: &str) -> (r: Result<serde_json::Value, HandlerError>) {
        match toml_from_str(data) {
            Ok(v) => Ok(v),
            Err(_) => Err(HandlerError::Parse),
        }
    }

    fn to_string(&self, record: &serde_json::Value) -> (r: Result<String, HandlerError>) {
        match toml_to_string(record) {
            Ok(t) => Ok(t),
            Err(_) => Err(HandlerError::Serialize),
        }
    }
}

impl FormatHandler for JsonHandler {
    open spec fn decoded(&self, s: Seq<char>) -> Option<serde_json::Value> {
        json_decoded(s)
    }

    open spec fn encoded(&self, v: serde_json::Value) -> Option<Seq<char>> {
        json_encoded(v)
    }

    fn from_str(&self, data: &str) -> (r: Result<serde_json::Value, HandlerError>) {
        match json_from_str(data) {
            Ok(v) => Ok(v),
            Err(_) => Err(HandlerError::Parse),
        }
    }

    fn to_string(&self, record: &serde_json::Value) -> (r: Result<String, HandlerError>) {
        match json_to_string(record) {
            Ok(t) => Ok(t),
            Err(_) => Err(HandlerError::Serialize),
        }
    }
}

/// One of the known codecs.
#[derive(Debug, Clone, Copy, PartialEq, Eq, Structural)]
pub enum KnownFormatHandler {
    Toml(TomlHandler),
    Json(JsonHandler),
}

impl FormatHandler for KnownFormatHandler {
    open spec fn decoded(&self, s: Seq<char>) -> Option<serde_json::Value> {
        match self {
            KnownFormatHandler::Toml(h) => h.decoded(s),
            KnownFormatHandler::Json(h) => h.decoded(s),
        }
    }

    open spec fn encoded(&self, v: serde_json::Value) -> Option<Seq<char>> {
        match self {
            KnownFormatHandler::Toml(h) => h.encoded(v),
            KnownFormatHandler::Json(h) => h.encoded(v),
        }
    }

    fn from_str(&self, data: &str) -> (r: Result<serde_json::Value, HandlerError>) {
        match self {
            KnownFormatHandler::Toml(h) => h.from_str(data),
            KnownFormatHandler::Json(h) => h.from_str(data),
        }
    }

    fn to_string(&self, record: &serde_json::Value) -> (r: Result<String, HandlerError>) {
        match self {
            KnownFormatHandler::Toml(h) => h.to_string(record),
            KnownFormatHandler::Json(h) => h.to_string(record),
        }
    }
}

/// The codecs in the order in which a probing decode tries them.
pub open spec fn probe_order() -> Seq<KnownFormatHandler> {
    seq![KnownFormatHandler::Toml(TomlHandler {  }), KnownFormatHandler::Json(JsonHandler {  })]
}

/// The codec registered under a format name.
pub open spec fn format_named(name: Seq<char>) -> Option<KnownFormatHandler> {
    if name == "toml"@ {
        Some(KnownFormatHandler::Toml(TomlHandler {  }))
    } else if name == "json"@ {
        Some(KnownFormatHandler::Json(JsonHandler {  }))
    } else {
        None
    }
}

/// The outcome of trying the codecs `hs` in order on a text: the first record decoded.
pub open spec fn probe_decoded(hs: Seq<KnownFormatHandler>, s: Seq<char>) -> Result<
    serde_json::Value,
    HandlerError,
>
    decreases hs.len(),
{
    if hs.len() == 0 {
        Err(HandlerError::NoMatchingFormat)
    } else {
        match hs[0].decoded(s) {
            Some(v) => Ok(v),
            None => probe_decoded(hs.drop_first(), s),
        }
    }
}

/// Holds one instance of each known codec.
#[derive(Debug, Clone, Copy)]
pub struct FormatHandlerRegistry {
    toml: KnownFormatHandler,
    json: KnownFormatHandler,
}

impl Default for FormatHandlerRegistry {
    fn default() -> (r: FormatHandlerRegistry)
        ensures
            r.handlers() == probe_order(),
    {
        FormatHandlerRegistry::new()
    }
}

impl FormatHandlerRegistry {
    #[verifier::type_invariant]
    spec fn inv(&self) -> bool {
        &&& self.toml == KnownFormatHandler::Toml(TomlHandler {  })
        &&& self.json == KnownFormatHandler::Json(JsonHandler {  })
    }

    /// The registered codecs, in probing order.
    pub closed spec fn handlers(&self) -> Seq<KnownFormatHandler> {
        seq![self.toml, self.json]
    }

    pub fn new() -> (r: FormatHandlerRegistry)
        ensures
            r.handlers() == probe_order(),
    {
        FormatHandlerRegistry {
            toml: KnownFormatHandler::Toml(TomlHandler {  }),
            json: KnownFormatHandler::Json(JsonHandler {  }),
        }
    }

    /// Every registered codec, in probing order.
    pub fn get_handlers(&self) -> (r: Vec<&KnownFormatHandler>)
        ensures
            r@.len() == probe_order().len(),
            forall|i: int| 0 <= i < r@.len() ==> *r@[i] == probe_order()[i],
    {
        proof {
            use_type_invariant(self);
        }
        let mut v: Vec<&KnownFormatHandler> = Vec::new();
        v.push(&self.toml);
        v.push(&self.json);
        v
    }

    /// The codec registered under a format name.
    pub fn get_handler_for_format(&self, format: &str) -> (r: Option<&KnownFormatHandler>)
        ensures
            match r {
                Some(h) => format_named(format@) == Some(*h),
                None => format_named(format@) is None,
            },
    {
        proof {
            use_type_invariant(self);
        }
        if str_equal(format, "toml") {
            Some(&self.toml)
        } else if str_equal(format, "json") {
            Some(&self.json)
        } else {
            None
        }
    }
}

/// Encodes a record with the codec named by a file extension.
pub fn build_string_from_record_with_extension(
    record: &serde_json::Value,
    extension: &str,
    registry: &FormatHandlerRegistry,
) -> (r: Result<String, HandlerError>)
    ensures
        match format_named(extension@) {
            None => r is Err && (r->Err_0 matches HandlerError::UnsupportedFormat(e) && e@
                == extension@),
            Some(h) => match h.encoded(*record) {
                Some(t) => r is Ok && r->Ok_0@ == t,
                None => r == Err::<String, HandlerError>(HandlerError::Serialize),
            },
        },
{
    match registry.get_handler_for_format(extension) {
        Some(h) => h.to_string(record),
        None => Err(HandlerError::UnsupportedFormat(String::from_str(extension))),
    }
}

/// Decodes a text with the codec named by a file extension.
pub fn build_record_from_string_with_extension(
    string: &str,
    extension: &str,
    registry: &FormatHandlerRegistry,
) -> (r: Result<serde_json::Value, HandlerError>)
    ensures
        match format_named(extension@) {
            None => r is Err && (r->Err_0 matches HandlerError::UnsupportedFormat(e) && e@
                == extension@),
            Some(h) => match h.decoded(string@) {
                Some(v) => r == Ok::<serde_json::Value, HandlerError>(v),
                None => r == Err::<serde_json::Value, HandlerError>(HandlerError::Parse),
            },
        },
{
    match registry.get_handler_for_format(extension) {
        Some(h) => h.from_str(string),
        None => Err(HandlerError::UnsupportedFormat(String::from_str(extension))),
    }
}

/// Decodes a text with the first codec, in probing order, that accepts it.
pub fn build_record_from_string(string: &str, registry: &FormatHandlerRegistry) -> (r: Result<
    serde_json::Value,
    HandlerError,
>)
    ensures
        r == probe_decoded(probe_order(), string@),
{
    let handlers = registry.get_handlers();
    let n = handlers.len();
    let mut i: usize = 0;
    assert(probe_order().subrange(0, n as int) =~= probe_order());
    while i < n
        invariant
            n == handlers@.len(),
            n == probe_order().len(),
            0 <= i <= n,
            forall|j: int| 0 <= j < n ==> *handlers@[j] == probe_order()[j],
            probe_decoded(probe_order(), string@) == probe_decoded(
                probe_order().subrange(i as int, n as int),
                string@,
            ),
        decreases n - i,
    {
        let h = handlers[i];
        assert(probe_order().subrange(i as int, n as int).drop_first() =~= probe_order().subrange(
            i + 1,
            n as int,
        ));
        match h.from_str(string) {
            Ok(v) => {
                return Ok(v);
            },
            Err(_) => {},
        }
        i = i + 1;
    }
    Err(HandlerError::NoMatchingFormat)
}

} // verus!
