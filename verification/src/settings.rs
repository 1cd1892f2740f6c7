//! The settings of a desktop front end, and how they turn into a server's
//! configuration. What only the machine can tell (whether a file exists,
//! whether a text is an IP address, what a file holds) is handed in by the
//! caller as plain values.

use vstd::prelude::*;
use crate::addr::{BindAddr, IpAddress};
use crate::config::{text_of, ConfigView, DavConfig};
use crate::tls::{Material, TlsConfig};

verus! {

/// The port of a plain listener where the settings name none.
pub const PLAIN_PORT: u16 = 80;

/// The port of a TLS listener where the settings name none.
pub const TLS_PORT: u16 = 443;

/// Why settings are refused.
#[derive(Debug, Clone, Copy, PartialEq, Eq, Structural)]
pub enum SettingsError {
    /// The address text is no IP address.
    InvalidIp,
    /// Nothing exists at the root path.
    RootMissing,
    /// No root path is set.
    RootNotSet,
    /// The certificate or the key held in the settings is empty.
    CertNotSet,
    /// The certificate file or the key file does not exist.
    CertFileMissing,
    /// The certificate file to import does not exist.
    ImportCertMissing,
    /// The key file to import does not exist.
    ImportKeyMissing,
}

impl SettingsError {
    /// The text that describes the error.
    pub open spec fn text(self) -> Seq<char> {
        match self {
            SettingsError::InvalidIp => "Invalid IP address"@,
            SettingsError::RootMissing => "Root path does not exist"@,
            SettingsError::RootNotSet => "Root path is not set"@,
            SettingsError::CertNotSet => "TLS certificate or key is not set"@,
            SettingsError::CertFileMissing => "TLS certificate or key file does not exist"@,
            SettingsError::ImportCertMissing => "Certificate file does not exist"@,
            SettingsError::ImportKeyMissing => "Key file does not exist"@,
        }
    }

    /// The error as a line for the user.
    pub fn message(&self) -> (r: String)
        ensures
            r@ == self.text(),
    {
        match self {
            SettingsError::InvalidIp => "Invalid IP address".to_owned(),
            SettingsError::RootMissing => "Root path does not exist".to_owned(),
            SettingsError::RootNotSet => "Root path is not set".to_owned(),
            SettingsError::CertNotSet => "TLS certificate or key is not set".to_owned(),
            SettingsError::CertFileMissing => "TLS certificate or key file does not exist".to_owned(),
            SettingsError::ImportCertMissing => "Certificate file does not exist".to_owned(),
            SettingsError::ImportKeyMissing => "Key file does not exist".to_owned(),
        }
    }
}

/// Why a server cannot be started on the settings, as a mathematical value.
pub enum StartFailure {
    /// The address text is no IP address; with the parser's words.
    InvalidIp(Seq<char>),
}

impl StartFailure {
    /// The text that describes the failure: a fixed opening, then the
    /// parser's words.
    pub open spec fn text(self) -> Seq<char> {
        match self {
            StartFailure::InvalidIp(words) => "Invaliable Ip Address: "@ + words,
        }
    }
}

/// Why a server cannot be started on the settings.
#[derive(Debug, Clone, PartialEq, Eq)]
pub enum StartError {
    /// The address text is no IP address; with the parser's words.
    InvalidIp(String),
}

impl View for StartError {
    type V = StartFailure;

    open spec fn view(&self) -> StartFailure {
        match self {
            StartError::InvalidIp(words) => StartFailure::InvalidIp(words@),
        }
    }
}

impl StartError {
    /// The error as a line for the user.
    pub fn message(&self) -> (r: String)
        ensures
            r@ == self@.text(),
    {
        match self {
            StartError::InvalidIp(words) => "Invaliable Ip Address: ".to_owned().concat(words.as_str()),
        }
    }
}

/// What the caller's parser made of the address text, as a mathematical
/// value: the address, or the parser's words on why it is none.
pub open spec fn parse_text(parsed: Option<Result<IpAddress, String>>) -> Option<Result<IpAddress, Seq<char>>> {
    match parsed {
        Some(Ok(ip)) => Some(Ok(ip)),
        Some(Err(words)) => Some(Err(words@)),
        None => None,
    }
}

/// Where the certificate and key of the settings are, as a mathematical value.
pub enum CertSource {
    /// Held in the settings as PEM bytes.
    Cert { cert: Seq<u8>, key: Seq<u8> },
    /// In two PEM files, named by their paths.
    CertFile { cert: Seq<char>, key: Seq<char> },
}

/// The certificate and key of the settings: the bytes themselves, or the
/// paths of the files that hold them.
#[derive(Debug, Clone, PartialEq)]
pub enum TlsCert {
    Cert { cert: Vec<u8>, key: Vec<u8> },
    CertFile { cert: String, key: String },
}

impl View for TlsCert {
    type V = CertSource;

    open spec fn view(&self) -> CertSource {
        match self {
            TlsCert::Cert { cert, key } => CertSource::Cert { cert: cert@, key: key@ },
            TlsCert::CertFile { cert, key } => CertSource::CertFile { cert: cert@, key: key@ },
        }
    }
}

impl CertSource {
    /// Held bytes are available when neither part is empty; files are
    /// available when both exist.
    pub open spec fn availability(self, cert_exists: bool, key_exists: bool) -> Result<(), SettingsError> {
        match self {
            CertSource::Cert { cert, key } => if cert.len() == 0 || key.len() == 0 {
                Err(SettingsError::CertNotSet)
            } else {
                Ok(())
            },
            CertSource::CertFile { .. } => if !cert_exists || !key_exists {
                Err(SettingsError::CertFileMissing)
            } else {
                Ok(())
            },
        }
    }
}

impl TlsCert {
    /// The certificate and key files at the application's own paths.
    pub fn use_app_default_path(cert_path: String, key_path: String) -> (r: TlsCert)
        ensures
            r@ == (CertSource::CertFile { cert: cert_path@, key: key_path@ }),
    {
        TlsCert::CertFile { cert: cert_path, key: key_path }
    }

    /// Whether the certificate and key can be had. `cert_exists` and
    /// `key_exists` say whether the two files exist; they are not looked at
    /// where the settings hold the bytes themselves.
    pub fn check_cert_available(&self, cert_exists: bool, key_exists: bool) -> (r: Result<(), SettingsError>)
        ensures
            r == self@.availability(cert_exists, key_exists),
    {
        match self {
            TlsCert::Cert { cert, key } => {
                if cert.len() == 0 || key.len() == 0 {
                    return Err(SettingsError::CertNotSet);
                }
                Ok(())
            },
            TlsCert::CertFile { .. } => {
                if !cert_exists || !key_exists {
                    return Err(SettingsError::CertFileMissing);
                }
                Ok(())
            },
        }
    }
}

/// Where a server that runs on the settings takes its TLS material from.
pub enum MaterialSource {
    /// TLS is switched off: no material is needed.
    Disabled,
    /// The bytes held in the settings.
    Held { cert: Seq<u8>, key: Seq<u8> },
    /// The two files named in the settings.
    Files { cert: Seq<char>, key: Seq<char> },
    /// The files at the application's own paths.
    AppDefault,
}

/// Where to take the TLS material from, borrowed from the settings.
#[derive(Debug, Clone, Copy, PartialEq)]
pub enum TlsSource<'a> {
    Disabled,
    Held { cert: &'a Vec<u8>, key: &'a Vec<u8> },
    Files { cert: &'a str, key: &'a str },
    AppDefault,
}

impl<'a> View for TlsSource<'a> {
    type V = MaterialSource;

    open spec fn view(&self) -> MaterialSource {
        match self {
            TlsSource::Disabled => MaterialSource::Disabled,
            TlsSource::Held { cert, key } => MaterialSource::Held { cert: cert@, key: key@ },
            TlsSource::Files { cert, key } => MaterialSource::Files { cert: cert@, key: key@ },
            TlsSource::AppDefault => MaterialSource::AppDefault,
        }
    }
}

/// Settings as a mathematical value.
pub struct SettingsView {
    pub ip: Option<Seq<char>>,
    pub port: Option<u16>,
    pub root: Option<Seq<char>>,
    pub auth: Option<(Seq<char>, Seq<char>)>,
    pub enable_tls: bool,
    pub tls_cert: Option<CertSource>,
}

impl SettingsView {
    /// Nothing set, TLS off.
    pub open spec fn initial() -> SettingsView {
        SettingsView { ip: None, port: None, root: None, auth: None, enable_tls: false, tls_cert: None }
    }

    /// What validation returns: the address text, where there is one, has to
    /// be an IP address, and the root has to be set and to exist.
    pub open spec fn validation(self, ip_parses: bool, root_exists: bool) -> Result<(), SettingsError> {
        if self.ip is Some && !ip_parses {
            Err(SettingsError::InvalidIp)
        } else if self.root is None {
            Err(SettingsError::RootNotSet)
        } else if !root_exists {
            Err(SettingsError::RootMissing)
        } else {
            Ok(())
        }
    }

    /// TLS is on and the settings name no certificate: the application's own
    /// files are to be named.
    pub open spec fn needs_default_cert(self) -> bool {
        self.enable_tls && self.tls_cert is None
    }

    /// The port to listen on: the one set, else the usual port of the kind
    /// of listener.
    pub open spec fn bind_port(self) -> u16 {
        match self.port {
            Some(port) => port,
            None => if self.enable_tls {
                TLS_PORT
            } else {
                PLAIN_PORT
            },
        }
    }

    /// The address to listen on, given what the address text parses to: the
    /// parsed address, or every interface where no text is set. An address
    /// text that does not parse is a failure that carries the parser's
    /// words; one for which no parse is handed in counts as unparsed, with
    /// no words.
    pub open spec fn bind_addr(
        self,
        parsed: Option<Result<IpAddress, Seq<char>>>,
    ) -> Result<BindAddr, StartFailure> {
        match self.ip {
            None => Ok(BindAddr { ip: IpAddress::spec_unspecified(), port: self.bind_port() }),
            Some(_) => match parsed {
                Some(Ok(ip)) => Ok(BindAddr { ip, port: self.bind_port() }),
                Some(Err(words)) => Err(StartFailure::InvalidIp(words)),
                None => Err(StartFailure::InvalidIp(Seq::empty())),
            },
        }
    }

    /// Where the TLS material comes from.
    pub open spec fn tls_source(self) -> MaterialSource {
        if !self.enable_tls {
            MaterialSource::Disabled
        } else {
            match self.tls_cert {
                Some(CertSource::Cert { cert, key }) => MaterialSource::Held { cert, key },
                Some(CertSource::CertFile { cert, key }) => MaterialSource::Files { cert, key },
                None => MaterialSource::AppDefault,
            }
        }
    }

    /// The server configuration that the settings stand for, on the address
    /// `bind` and with the PEM material `material` where TLS is on.
    pub open spec fn dav_config(self, bind: BindAddr, material: Option<(Seq<u8>, Seq<u8>)>) -> ConfigView
        recommends
            self.root is Some,
            self.enable_tls ==> material is Some,
    {
        let base = ConfigView::initial().with_bind(bind).with_root(self.root->0);
        let with_auth = match self.auth {
            Some((user, password)) => base.with_authorization(user, password),
            None => base,
        };
        match material {
            Some((cert, key)) if self.enable_tls => with_auth.with_tls(Material::Pem { cert, key }),
            _ => with_auth,
        }
    }

    /// The settings that replace these on an update: the new ones, with the
    /// certificate of the old.
    pub open spec fn replaced_by(self, incoming: SettingsView) -> SettingsView {
        SettingsView { tls_cert: self.tls_cert, ..incoming }
    }
}

/// The characters of an optional pair of strings.
pub open spec fn auth_text(auth: Option<(String, String)>) -> Option<(Seq<char>, Seq<char>)> {
    match auth {
        Some((user, password)) => Some((user@, password@)),
        None => None,
    }
}

/// The bytes of an optional pair of byte vectors.
pub open spec fn pem_bytes(material: Option<(Vec<u8>, Vec<u8>)>) -> Option<(Seq<u8>, Seq<u8>)> {
    match material {
        Some((cert, key)) => Some((cert@, key@)),
        None => None,
    }
}

/// What the front end lets its user set.
#[derive(Debug, Clone, PartialEq)]
pub struct Config {
    /// The address to listen on, as text.
    pub ip: Option<String>,
    pub port: Option<u16>,
    /// The directory to serve.
    pub root: Option<String>,
    /// User and password.
    pub auth: Option<(String, String)>,
    pub enable_tls: bool,
    pub tls_cert: Option<TlsCert>,
}

impl View for Config {
    type V = SettingsView;

    open spec fn view(&self) -> SettingsView {
        SettingsView {
            ip: text_of(self.ip),
            port: self.port,
            root: text_of(self.root),
            auth: auth_text(self.auth),
            enable_tls: self.enable_tls,
            tls_cert: match self.tls_cert {
                Some(cert) => Some(cert@),
                None => None,
            },
        }
    }
}

impl Default for Config {
    fn default() -> (r: Config)
        ensures
            r@ == SettingsView::initial(),
    {
        Config { ip: None, port: None, root: None, auth: None, enable_tls: false, tls_cert: None }
    }
}

impl Config {
    /// Names the certificate to use.
    pub fn update_tls_cert(&mut self, cert: TlsCert)
        ensures
            final(self)@ == (SettingsView { tls_cert: Some(cert@), ..old(self)@ }),
    {
        self.tls_cert = Some(cert);
    }

    /// Checks the settings. `ip_parses` says whether the address text is an
    /// IP address, `root_exists` whether the root path exists; each is only
    /// looked at where the field it speaks of is set.
    pub fn validate(&self, ip_parses: bool, root_exists: bool) -> (r: Result<(), SettingsError>)
        ensures
            r == self@.validation(ip_parses, root_exists),
    {
        if self.ip.is_some() && !ip_parses {
            return Err(SettingsError::InvalidIp);
        }
        match &self.root {
            Some(_) => {
                if !root_exists {
                    return Err(SettingsError::RootMissing);
                }
            },
            None => {
                return Err(SettingsError::RootNotSet);
            },
        }
        Ok(())
    }

    /// Whether the application's own certificate files are to be named.
    pub fn needs_default_cert(&self) -> (r: bool)
        ensures
            r == self@.needs_default_cert(),
    {
        self.enable_tls && self.tls_cert.is_none()
    }

    /// Replaces the settings by `incoming` where those are valid, keeping
    /// the certificate named so far; leaves them as they are where not.
    pub fn update(&mut self, incoming: Config, ip_parses: bool, root_exists: bool) -> (r: Result<(), SettingsError>)
        ensures
            r == incoming@.validation(ip_parses, root_exists),
            r is Ok ==> final(self)@ == old(self)@.replaced_by(incoming@),
            r is Err ==> final(self)@ == old(self)@,
    {
        match incoming.validate(ip_parses, root_exists) {
            Err(e) => Err(e),
            Ok(()) => {
                let mut next = incoming;
                next.tls_cert = self.tls_cert.take();
                *self = next;
                Ok(())
            },
        }
    }

    /// The address to listen on. `parsed` is what the caller's parser made
    /// of the address text: the address, or its words on why the text is
    /// none; it is not looked at where no address text is set.
    pub fn bind_addr(&self, parsed: Option<Result<IpAddress, String>>) -> (r: Result<BindAddr, StartError>)
        ensures
            match r {
                Ok(bind) => self@.bind_addr(parse_text(parsed)) == Ok::<BindAddr, StartFailure>(bind),
                Err(e) => self@.bind_addr(parse_text(parsed)) == Err::<BindAddr, StartFailure>(e@),
            },
    {
        let port = match self.port {
            Some(port) => port,
            None => if self.enable_tls {
                TLS_PORT
            } else {
                PLAIN_PORT
            },
        };
        match &self.ip {
            None => Ok(BindAddr::new(IpAddress::unspecified(), port)),
            Some(_) => match parsed {
                Some(Ok(ip)) => Ok(BindAddr::new(ip, port)),
                Some(Err(words)) => Err(StartError::InvalidIp(words)),
                None => Err(StartError::InvalidIp(String::new())),
            },
        }
    }

    /// Where the TLS material is to be taken from.
    pub fn tls_source(&self) -> (r: TlsSource<'_>)
        ensures
            r@ == self@.tls_source(),
    {
        if !self.enable_tls {
            TlsSource::Disabled
        } else {
            match &self.tls_cert {
                Some(TlsCert::Cert { cert, key }) => TlsSource::Held { cert, key },
                Some(TlsCert::CertFile { cert, key }) => TlsSource::Files { cert: cert.as_str(), key: key.as_str() },
                None => TlsSource::AppDefault,
            }
        }
    }

    /// The server configuration for these settings: the address, the root,
    /// the credential where one is set, and TLS on the PEM `material` where
    /// TLS is on.
    pub fn dav_config(&self, bind: BindAddr, material: Option<(Vec<u8>, Vec<u8>)>) -> (r: DavConfig)
        requires
            self@.root is Some,
            self@.enable_tls ==> material is Some,
        ensures
            r@ == self@.dav_config(bind, pem_bytes(material)),
    {
        let root = match &self.root {
            Some(root) => root.clone(),
            None => String::new(),
        };
        let mut config = DavConfig::new().bind(bind).root(root);
        if let Some((user, password)) = &self.auth {
            config = config.authorization(user.clone(), password.clone());
        }
        if self.enable_tls {
            if let Some((cert, key)) = material {
                config = config.tls(TlsConfig::pem(cert, key));
            }
        }
        config
    }
}

/// What is asked of an import of certificate files: each file that is named
/// has to exist. `cert` and `key` say, for each file that is named, whether
/// it exists.
pub open spec fn import_check(cert: Option<bool>, key: Option<bool>) -> Result<(), SettingsError> {
    if cert == Some(false) {
        Err(SettingsError::ImportCertMissing)
    } else if key == Some(false) {
        Err(SettingsError::ImportKeyMissing)
    } else {
        Ok(())
    }
}

/// Checks an import of certificate files before anything is copied.
pub fn check_import(cert: Option<bool>, key: Option<bool>) -> (r: Result<(), SettingsError>)
    ensures
        r == import_check(cert, key),
{
    if let Some(exists) = cert {
        if !exists {
            return Err(SettingsError::ImportCertMissing);
        }
    }
    if let Some(exists) = key {
        if !exists {
            return Err(SettingsError::ImportKeyMissing);
        }
    }
    Ok(())
}

/// Whether a server is running.
#[derive(Debug, Clone, Copy, PartialEq, Eq, Structural)]
pub enum DavServerStatus {
    Running,
    Stopped,
}

impl DavServerStatus {
    /// The status of the server task: `task` is none where no task was
    /// started, else whether the task has finished. Only a task that was
    /// started and has not finished is running.
    pub open spec fn spec_of(task: Option<bool>) -> DavServerStatus {
        if task == Some(false) {
            DavServerStatus::Running
        } else {
            DavServerStatus::Stopped
        }
    }

    #[verifier::when_used_as_spec(spec_of)]
    pub fn of(task: Option<bool>) -> (r: DavServerStatus)
        ensures
            r == DavServerStatus::spec_of(task),
    {
        match task {
            Some(finished) => if finished {
                DavServerStatus::Stopped
            } else {
                DavServerStatus::Running
            },
            None => DavServerStatus::Stopped,
        }
    }
}

/// A start on an address text that does not parse fails, whatever else the
/// settings hold, and the text of the failure opens with the same words
/// each time, followed by the parser's own.
pub proof fn lemma_unparsed_address_fails_start(s: SettingsView, words: Seq<char>)
    requires
        s.ip is Some,
    ensures
        s.bind_addr(Some(Err(words))) == Err::<BindAddr, StartFailure>(StartFailure::InvalidIp(words)),
        "Invaliable Ip Address: "@.is_prefix_of(StartFailure::InvalidIp(words).text()),
        StartFailure::InvalidIp(words).text().skip("Invaliable Ip Address: "@.len() as int) == words,
        StartFailure::InvalidIp(words).text() != SettingsError::InvalidIp.text(),
{
    let opening = "Invaliable Ip Address: "@;
    let text = StartFailure::InvalidIp(words).text();
    reveal_strlit("Invaliable Ip Address: ");
    reveal_strlit("Invalid IP address");
    assert(opening =~= text.subrange(0, opening.len() as int));
    assert(text.skip(opening.len() as int) =~= words);
    assert(text[6] == 'a');
    assert(SettingsError::InvalidIp.text()[6] == 'd');
}

} // verus!
