//! The settings from which a driver opens a database.

use url::Url;
use vstd::prelude::*;

use crate::adapter_config::{AuthError, AuthFault};
use crate::uri::{parse_uri, uri_parse, uri_parts};

verus! {

/// The drivers.
#[derive(Clone, Copy, Debug, PartialEq, Eq, Structural)]
pub enum Backend {
    SQLServer,
}

/// A driver and the URI that it is to open.
#[derive(Debug)]
pub struct Builder {
    pub backend: Backend,
    pub uri: Option<Url>,
}

impl Builder {
    /// A builder without a URI.
    pub fn new(backend: Backend) -> (builder: Builder)
        ensures
            builder.backend == backend,
            builder.uri is None,
    {
        Builder { backend, uri: None }
    }

    /// Parses `text` and takes it as the URI; the URI stays as it was where `text` is none.
    pub fn with_parse_uri(&mut self, text: String) -> (r: Result<(), AuthError>)
        ensures
            final(self).backend == old(self).backend,
            match r {
                Ok(_) => final(self).uri matches Some(uri) && uri_parse(text@) == Some(
                    uri_parts(uri),
                ),
                Err(e) => uri_parse(text@) is None && e@ == AuthFault::InvalidUri(text@)
                    && final(self).uri == old(self).uri,
            },
    {
        match parse_uri(text.as_str()) {
            Ok(uri) => {
                self.uri = Some(uri);
                Ok(())
            },
            Err(_) => Err(AuthError::InvalidUri(text)),
        }
    }
}

} // verus!
