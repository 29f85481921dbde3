//! Reads and writes string-valued records at file, secure-copy and HTTP(S) locations, and
//! converts structured records to and from TOML and JSON text.
//!
//! The library decides; the caller performs the I/O. An operation on an address is resolved,
//! through the backend registered for the address's scheme, into an [`Action`] that names the
//! exact filesystem call, secure-copy transfer or HTTP request to carry out.
use vstd::prelude::*;

pub mod address;
pub mod error;
pub mod format_handler;
pub mod openssh;
pub mod protocol_handler;
pub mod text;

pub use address::{
    file_address, scp_address, try_build_url_from_path_buf,
    try_build_url_from_path_buf_with_hostname, Address,
};
pub use error::HandlerError;
pub use format_handler::{
    build_record_from_string, build_record_from_string_with_extension,
    build_string_from_record_with_extension, FormatHandler, FormatHandlerRegistry, JsonHandler,
    KnownFormatHandler, TomlHandler,
};
pub use openssh::{CopyCommand, OpenSSHFascade};
pub use protocol_handler::file::FileProtocolHandler;
pub use protocol_handler::http::{
    HostConfig, HttpMethod, HttpProtocolHandler, HttpProtocolHandlerConfig, HttpRequest,
    RequestKind,
};
pub use protocol_handler::registry::{
    plan_for_url, ProtocolHandlerConfig, ProtocolHandlerRegistry,
};
pub use protocol_handler::scp::SCPProtocolHandler;
pub use protocol_handler::{Action, KnownProtocolHandler, Operation};

use address::extension_of;
use format_handler::{format_named, probe_decoded, probe_order};
use protocol_handler::registry::registry_plans;

verus! {

/// The action that stores a record at an address: the codec is the one named by the extension
/// of the address's path, whatever the scheme, and the encoded text is pushed through the
/// backend for the scheme. Without an extension nothing is encoded or pushed.
pub fn plan_record_push(
    url: &Address,
    record: &serde_json::Value,
    protocol_handlers: &ProtocolHandlerRegistry,
    format_handlers: &FormatHandlerRegistry,
) -> (r: Result<Action, HandlerError>)
    ensures
        match extension_of(url@.path) {
            None => r == Err::<Action, HandlerError>(HandlerError::MissingExtension),
            Some(ext) => match format_named(ext) {
                None => r is Err && (r->Err_0 matches HandlerError::UnsupportedFormat(e) && e@
                    == ext),
                Some(c) => match c.encoded(*record) {
                    None => r == Err::<Action, HandlerError>(HandlerError::Serialize),
                    Some(t) => exists|s: String|
                        s@ == t && registry_plans(
                            protocol_handlers.http_hosts(),
                            url@,
                            Operation::Push(s),
                            r,
                        ),
                },
            },
        },
{
    let extension = match url.extension() {
        Some(e) => e,
        None => {
            return Err(HandlerError::MissingExtension);
        },
    };
    let string = match build_string_from_record_with_extension(
        record,
        extension.as_str(),
        format_handlers,
    ) {
        Ok(s) => s,
        Err(e) => {
            return Err(e);
        },
    };
    let ghost pushed = string;
    let r = plan_for_url(url, Operation::Push(string), protocol_handlers);
    assert(registry_plans(protocol_handlers.http_hosts(), url@, Operation::Push(pushed), r));
    r
}

/// The record read from what a fetch returned: absent content is an error, never a default
/// record; present content is decoded by probing the codecs in order.
pub fn record_from_fetched(fetched: Option<String>, format_handlers: &FormatHandlerRegistry) -> (r:
    Result<serde_json::Value, HandlerError>)
    ensures
        match fetched {
            None => r == Err::<serde_json::Value, HandlerError>(HandlerError::EmptyRecord),
            Some(s) => r == probe_decoded(probe_order(), s@),
        },
{
    match fetched {
        None => Err(HandlerError::EmptyRecord),
        Some(s) => build_record_from_string(s.as_str(), format_handlers),
    }
}

/// When codec `i` of a sequence is the first to accept a text, probing the sequence gives what
/// that codec reads.
pub proof fn lemma_probe_first_accepting(hs: Seq<KnownFormatHandler>, s: Seq<char>, i: int)
    requires
        0 <= i < hs.len(),
        hs[i].decoded(s) is Some,
        forall|j: int| 0 <= j < i ==> (#[trigger] hs[j]).decoded(s) is None,
    ensures
        probe_decoded(hs, s) == Ok::<serde_json::Value, HandlerError>(hs[i].decoded(s)->0),
    decreases i,
{
    if i > 0 {
        assert(hs[0].decoded(s) is None);
        let rest = hs.drop_first();
        assert forall|j: int| 0 <= j < i - 1 implies (#[trigger] rest[j]).decoded(s) is None by {
            assert(rest[j] == hs[j + 1]);
        }
        lemma_probe_first_accepting(rest, s, i - 1);
    }
}

/// Probing reads back a record that a codec wrote, provided that codec reads its own text back
/// as the record and every codec before it in the probing order either rejects the text or
/// reads the same record from it.
pub proof fn lemma_probe_reads_encoded_record(c: KnownFormatHandler, record: serde_json::Value)
    requires
        probe_order().contains(c),
        c.encoded(record) is Some,
        c.decoded(c.encoded(record)->0) == Some(record),
        forall|j: int|
            0 <= j < probe_order().len() && (#[trigger] probe_order()[j]) != c ==> probe_order()[j].decoded(
                c.encoded(record)->0,
            ) is None || probe_order()[j].decoded(c.encoded(record)->0) == Some(record),
    ensures
        probe_decoded(probe_order(), c.encoded(record)->0) == Ok::<
            serde_json::Value,
            HandlerError,
        >(record),
{
    let hs = probe_order();
    let s = c.encoded(record)->0;
    if hs[0].decoded(s) is Some {
        lemma_probe_first_accepting(hs, s, 0);
    } else {
        assert(hs[1] == c);
        lemma_probe_first_accepting(hs, s, 1);
    }
}

} // verus!
