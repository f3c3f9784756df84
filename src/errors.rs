use vstd::prelude::*;

verus! {

/// The request error of the filtering engine, carried inside [`RustException`].
#[verifier::external_type_specification]
#[verifier::external_body]
pub struct ExRequestError(adblock::request::RequestError);

/// The text decoding error of std, carried inside [`RustException`].
#[verifier::external_type_specification]
#[verifier::external_body]
pub struct ExUtf8Error(core::str::Utf8Error);

/// Every failure that may reach the host runtime, each with its cause.
#[derive(Debug)]
pub enum RustException {
    /// The url triple does not form a request the engine accepts.
    CreateRequest(adblock::request::RequestError),
    /// A host string is not valid text.
    ExtractParameter(core::str::Utf8Error),
    /// A host collection element is absent or of unexpected shape.
    ParseJavaObject(String),
    /// The registry lock is unusable, or the handle names no instance.
    InstanceAccess(String),
    /// The host bridge itself reported a failure.
    JvmException(String),
}

impl RustException {
    /// The name of the failure kind, as the host runtime shows it.
    pub fn kind_name(&self) -> (r: &'static str)
        ensures
            r@ == self.kind_spec(),
    {
        match self {
            RustException::CreateRequest(_) => "CreateRequest",
            RustException::ExtractParameter(_) => "ExtractParameter",
            RustException::ParseJavaObject(_) => "ParseJavaObject",
            RustException::InstanceAccess(_) => "InstanceAccess",
            RustException::JvmException(_) => "JvmException",
        }
    }

    pub open spec fn kind_spec(&self) -> Seq<char> {
        match self {
            RustException::CreateRequest(_) => "CreateRequest"@,
            RustException::ExtractParameter(_) => "ExtractParameter"@,
            RustException::ParseJavaObject(_) => "ParseJavaObject"@,
            RustException::InstanceAccess(_) => "InstanceAccess"@,
            RustException::JvmException(_) => "JvmException"@,
        }
    }
}

} // verus!
