//! Certificate material for terminating TLS, in text (PEM) or binary (DER) form.

use vstd::prelude::*;

verus! {

/// What a [`Certificate`] holds, as mathematical sequences of bytes.
pub enum Material {
    /// One PEM block of certificates, one PEM block with the private key.
    Pem { cert: Seq<u8>, key: Seq<u8> },
    /// The certificate chain, leaf first, each entry raw DER; and the raw DER key.
    Der { chain: Seq<Seq<u8>>, key: Seq<u8> },
}

impl Material {
    /// Neither the certificate part nor the key part is empty.
    pub open spec fn is_filled(self) -> bool {
        match self {
            Material::Pem { cert, key } => cert.len() > 0 && key.len() > 0,
            Material::Der { chain, key } => chain.len() > 0 && key.len() > 0,
        }
    }
}

/// Certificate and private key bytes, in one of the two accepted encodings.
#[derive(Debug, Clone, PartialEq)]
pub enum Certificate {
    Pem { cert: Vec<u8>, key: Vec<u8> },
    Der { cert: Vec<Vec<u8>>, key: Vec<u8> },
}

impl View for Certificate {
    type V = Material;

    open spec fn view(&self) -> Material {
        match self {
            Certificate::Pem { cert, key } => Material::Pem { cert: cert@, key: key@ },
            Certificate::Der { cert, key } => Material::Der { chain: cert.deep_view(), key: key@ },
        }
    }
}

impl Certificate {
    /// Whether both the certificate part and the key part hold at least one entry.
    pub fn is_filled(&self) -> (r: bool)
        ensures
            r == self@.is_filled(),
    {
        match self {
            Certificate::Pem { cert, key } => cert.len() > 0 && key.len() > 0,
            Certificate::Der { cert, key } => cert.len() > 0 && key.len() > 0,
        }
    }
}

/// The TLS setup of a server: the certificate material it presents.
#[derive(Debug, Clone, PartialEq)]
pub struct TlsConfig {
    cert: Certificate,
}

impl View for TlsConfig {
    type V = Material;

    closed spec fn view(&self) -> Material {
        self.cert@
    }
}

impl TlsConfig {
    /// TLS material from a PEM certificate block and a PEM key block.
    pub fn pem(cert: Vec<u8>, key: Vec<u8>) -> (r: TlsConfig)
        ensures
            r@ == (Material::Pem { cert: cert@, key: key@ }),
    {
        TlsConfig { cert: Certificate::Pem { cert, key } }
    }

    /// TLS material from a DER certificate chain, leaf first, and a DER key.
    pub fn der(cert: Vec<Vec<u8>>, key: Vec<u8>) -> (r: TlsConfig)
        ensures
            r@ == (Material::Der { chain: cert.deep_view(), key: key@ }),
    {
        TlsConfig { cert: Certificate::Der { cert, key } }
    }

    /// The material itself.
    pub fn certificate(&self) -> (r: &Certificate)
        ensures
            r@ == self@,
    {
        &self.cert
    }

    /// Gives the material up.
    pub fn into_certificate(self) -> (r: Certificate)
        ensures
            r@ == self@,
    {
        self.cert
    }
}

} // verus!
