//! The wire formats: stateless descriptors, and the handler that encodes a
//! tree to bytes and decodes bytes to a tree.

use crate::error::{bytes_outcome, ErrorView, KonfigError};
use crate::tree::{
    json_decode, json_decoding, json_encode, json_encoding, toml_decode, toml_decoding,
    toml_encode, toml_encoding, utf8_failure, utf8_text, yaml_decode, yaml_decoding, yaml_encode,
    yaml_encoding,
};
use serde_json::Value;
use vstd::prelude::*;
use vstd::string::*;
use vstd::utf8::*;

verus! {

/// The wire format of a configuration document.
#[derive(Debug, Clone, Copy, PartialEq, Eq)]
pub enum Format {
    JSON,
    YAML,
    TOML,
}

/// The formats that the library encodes and decodes itself.
#[derive(Debug, Clone, Copy, PartialEq, Eq)]
pub enum BuiltinFormat {
    JSON,
    YAML,
    TOML,
}

/// A format supplied from outside the library. An implementation names what
/// its two operations return, as functions of their argument, and is held to
/// those names. The bodies given here say nothing of the result; they are
/// there so that an implementation written without Verus need not mention the
/// names.
pub trait ConfigFormat {
    /// What `marshal` returns for `data`.
    open spec fn marshaled(&self, data: Value) -> Result<Seq<u8>, ErrorView> {
        arbitrary()
    }

    /// What `unmarshal` returns for `data`.
    open spec fn unmarshaled(&self, data: Seq<u8>) -> Result<Value, ErrorView> {
        arbitrary()
    }

    /// Encodes a tree in this format.
    fn marshal(&self, data: &Value) -> (r: Result<Vec<u8>, KonfigError>)
        ensures
            bytes_outcome(r) == self.marshaled(*data),
    ;

    /// Decodes bytes of this format into a tree.
    fn unmarshal(&self, data: &[u8]) -> (r: Result<Value, KonfigError>)
        ensures
            tree_outcome(r) == self.unmarshaled(data@),
    ;
}

/// The handler that the rest of the library encodes and decodes through: a
/// built-in format or a custom one, used alike.
pub enum FormatHandler {
    Builtin(BuiltinFormat),
    Custom(Box<dyn ConfigFormat>),
}

/// The mathematical value of a decoder's result.
pub open spec fn tree_outcome(r: Result<Value, KonfigError>) -> Result<Value, ErrorView> {
    match r {
        Ok(value) => Ok(value),
        Err(e) => Err(e@),
    }
}

/// What an encoder's bytes, or its message, become: the bytes, or a
/// `MarshalError` with the message.
pub open spec fn marshal_of_bytes(encoded: Result<Seq<u8>, Seq<char>>) -> Result<
    Seq<u8>,
    ErrorView,
> {
    match encoded {
        Ok(bytes) => Ok(bytes),
        Err(reason) => Err(ErrorView::MarshalError(reason)),
    }
}

/// What an encoder's text, or its message, become: the UTF-8 bytes of the
/// text, or a `MarshalError` with the message.
pub open spec fn marshal_of_text(encoded: Result<Seq<char>, Seq<char>>) -> Result<
    Seq<u8>,
    ErrorView,
> {
    match encoded {
        Ok(text) => Ok(encode_utf8(text)),
        Err(reason) => Err(ErrorView::MarshalError(reason)),
    }
}

/// What a decoder's tree, or its message, become: the tree, or an
/// `UnmarshalError` with the message.
pub open spec fn unmarshal_of(decoded: Result<Value, Seq<char>>) -> Result<Value, ErrorView> {
    match decoded {
        Ok(value) => Ok(value),
        Err(reason) => Err(ErrorView::UnmarshalError(reason)),
    }
}

/// What decoding `bytes` as TOML gives: bytes that are not UTF-8 fail with the
/// reason why; text is handed to the TOML parser.
pub open spec fn toml_unmarshaled(bytes: Seq<u8>) -> Result<Value, ErrorView> {
    if valid_utf8(bytes) {
        unmarshal_of(toml_decoding(decode_utf8(bytes)))
    } else {
        Err(ErrorView::UnmarshalError(utf8_failure(bytes)))
    }
}

/// Turns what a byte encoder returned into the handler's result.
pub fn marshal_bytes(encoded: Result<Vec<u8>, String>) -> (r: Result<Vec<u8>, KonfigError>)
    ensures
        match encoded {
            Ok(bytes) => r == Ok::<Vec<u8>, KonfigError>(bytes),
            Err(reason) => r == Err::<Vec<u8>, KonfigError>(KonfigError::MarshalError(reason)),
        },
{
    match encoded {
        Ok(bytes) => Ok(bytes),
        Err(reason) => Err(KonfigError::MarshalError(reason)),
    }
}

/// Turns what a text encoder returned into the handler's result: the text's
/// UTF-8 bytes.
pub fn marshal_text(encoded: Result<String, String>) -> (r: Result<Vec<u8>, KonfigError>)
    ensures
        match encoded {
            Ok(text) => r is Ok && r->Ok_0@ == encode_utf8(text@),
            Err(reason) => r == Err::<Vec<u8>, KonfigError>(KonfigError::MarshalError(reason)),
        },
{
    match encoded {
        Ok(text) => Ok(text.as_str().as_bytes_vec()),
        Err(reason) => Err(KonfigError::MarshalError(reason)),
    }
}

/// Turns what a decoder returned into the handler's result.
pub fn unmarshal_tree(decoded: Result<Value, String>) -> (r: Result<Value, KonfigError>)
    ensures
        match decoded {
            Ok(value) => r == Ok::<Value, KonfigError>(value),
            Err(reason) => r == Err::<Value, KonfigError>(KonfigError::UnmarshalError(reason)),
        },
{
    match decoded {
        Ok(value) => Ok(value),
        Err(reason) => Err(KonfigError::UnmarshalError(reason)),
    }
}

impl Format {
    /// The handler that this format selects.
    pub open spec fn handler(self) -> FormatHandler {
        match self {
            Format::JSON => FormatHandler::Builtin(BuiltinFormat::JSON),
            Format::YAML => FormatHandler::Builtin(BuiltinFormat::YAML),
            Format::TOML => FormatHandler::Builtin(BuiltinFormat::TOML),
        }
    }

    /// Builds the handler for this format. Pure: nothing is read or written.
    pub fn create_handler(&self) -> (h: FormatHandler)
        ensures
            h == self.handler(),
    {
        match self {
            Format::JSON => FormatHandler::Builtin(BuiltinFormat::JSON),
            Format::YAML => FormatHandler::Builtin(BuiltinFormat::YAML),
            Format::TOML => FormatHandler::Builtin(BuiltinFormat::TOML),
        }
    }
}

impl FormatHandler {
    /// What `marshal` returns for `data`: the encoding in the handler's
    /// format, or a `MarshalError` with the encoder's message; a custom
    /// handler decides for itself.
    pub open spec fn marshaled(&self, data: Value) -> Result<Seq<u8>, ErrorView> {
        match self {
            FormatHandler::Builtin(BuiltinFormat::JSON) => marshal_of_bytes(json_encoding(data)),
            FormatHandler::Builtin(BuiltinFormat::YAML) => marshal_of_text(yaml_encoding(data)),
            FormatHandler::Builtin(BuiltinFormat::TOML) => marshal_of_text(toml_encoding(data)),
            FormatHandler::Custom(custom) => custom.marshaled(data),
        }
    }

    /// What `unmarshal` returns for `data`: the decoded tree, or an
    /// `UnmarshalError` with the decoder's message; a custom handler decides
    /// for itself, through its own decoder.
    pub open spec fn unmarshaled(&self, data: Seq<u8>) -> Result<Value, ErrorView> {
        match self {
            FormatHandler::Builtin(BuiltinFormat::JSON) => unmarshal_of(json_decoding(data)),
            FormatHandler::Builtin(BuiltinFormat::YAML) => unmarshal_of(yaml_decoding(data)),
            FormatHandler::Builtin(BuiltinFormat::TOML) => toml_unmarshaled(data),
            FormatHandler::Custom(custom) => custom.unmarshaled(data),
        }
    }

    /// Decoding what was encoded from `data` gives `data` back.
    pub open spec fn round_trips(&self, data: Value) -> bool {
        match self.marshaled(data) {
            Ok(bytes) => self.unmarshaled(bytes) == Ok::<Value, ErrorView>(data),
            Err(_) => false,
        }
    }

    /// Encodes a tree into the bytes of this handler's format.
    pub fn marshal(&self, data: &Value) -> (r: Result<Vec<u8>, KonfigError>)
        ensures
            bytes_outcome(r) == self.marshaled(*data),
    {
        match self {
            FormatHandler::Builtin(BuiltinFormat::JSON) => marshal_bytes(json_encode(data)),
            FormatHandler::Builtin(BuiltinFormat::YAML) => marshal_text(yaml_encode(data)),
            FormatHandler::Builtin(BuiltinFormat::TOML) => marshal_text(toml_encode(data)),
            FormatHandler::Custom(custom) => custom.marshal(data),
        }
    }

    /// Decodes bytes of this handler's format into a tree. Bytes that are not
    /// text fail for a text-only format as any other malformed input does.
    pub fn unmarshal(&self, data: &[u8]) -> (r: Result<Value, KonfigError>)
        ensures
            tree_outcome(r) == self.unmarshaled(data@),
    {
        match self {
            FormatHandler::Builtin(BuiltinFormat::JSON) => unmarshal_tree(json_decode(data)),
            FormatHandler::Builtin(BuiltinFormat::YAML) => unmarshal_tree(yaml_decode(data)),
            FormatHandler::Builtin(BuiltinFormat::TOML) => {
                match utf8_text(data) {
                    Ok(text) => {
                        proof {
                            encode_utf8_decode_utf8(text@);
                        }
                        unmarshal_tree(toml_decode(text))
                    },
                    Err(reason) => Err(KonfigError::UnmarshalError(reason)),
                }
            },
            FormatHandler::Custom(custom) => custom.unmarshal(data),
        }
    }
}

} // verus!
