use vstd::prelude::*;

verus! {

/// An address at which the printer can be reached, with how clients authenticate there and how
/// the connection is secured.
#[derive(Debug, PartialEq, Eq)]
pub struct PrinterUri {
    pub uri: String,
    pub authentication: UriAuthenticationMethod,
    pub security: UriSecurityMethod,
}

impl PrinterUri {
    pub fn new(
        uri: &str,
        authentication: UriAuthenticationMethod,
        security: UriSecurityMethod,
    ) -> (r: PrinterUri)
        ensures
            r.uri@ == uri@,
            r.authentication == authentication,
            r.security == security,
    {
        PrinterUri { uri: String::from_str(uri), authentication, security }
    }
}

/// How clients authenticate at a printer address.
#[derive(Clone, Copy, Debug, PartialEq, Eq, Structural)]
pub enum UriAuthenticationMethod {
    NoAuthentication,
    RequestingUserName,
    Basic,
    Digest,
    Certificate,
}

impl UriAuthenticationMethod {
    pub open spec fn spec_name(self) -> Seq<char> {
        match self {
            UriAuthenticationMethod::NoAuthentication => "none"@,
            UriAuthenticationMethod::RequestingUserName => "requesting-user-name"@,
            UriAuthenticationMethod::Basic => "basic"@,
            UriAuthenticationMethod::Digest => "digest"@,
            UriAuthenticationMethod::Certificate => "certificate"@,
        }
    }

    /// The method's keyword.
    pub fn name(&self) -> (r: String)
        ensures
            r@ == self.spec_name(),
    {
        match self {
            UriAuthenticationMethod::NoAuthentication => String::from_str("none"),
            UriAuthenticationMethod::RequestingUserName => String::from_str("requesting-user-name"),
            UriAuthenticationMethod::Basic => String::from_str("basic"),
            UriAuthenticationMethod::Digest => String::from_str("digest"),
            UriAuthenticationMethod::Certificate => String::from_str("certificate"),
        }
    }
}

/// How the connection to a printer address is secured.
#[derive(Clone, Copy, Debug, PartialEq, Eq, Structural)]
pub enum UriSecurityMethod {
    NoSecurity,
    Tls,
}

impl UriSecurityMethod {
    pub open spec fn spec_name(self) -> Seq<char> {
        match self {
            UriSecurityMethod::NoSecurity => "none"@,
            UriSecurityMethod::Tls => "tls"@,
        }
    }

    /// The method's keyword.
    pub fn name(&self) -> (r: String)
        ensures
            r@ == self.spec_name(),
    {
        match self {
            UriSecurityMethod::NoSecurity => String::from_str("none"),
            UriSecurityMethod::Tls => String::from_str("tls"),
        }
    }
}

} // verus!
