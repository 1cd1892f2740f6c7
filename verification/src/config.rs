//! The server's configuration: a builder that collects the fields, and the
//! rules a configuration has to meet before a server may run on it.

use vstd::prelude::*;
use crate::addr::{BindAddr, IpAddress, DEFAULT_PORT};
use crate::error::ConfigError;
use crate::gate::{Account, Credential, Gate};
use crate::server::DavServer;
use crate::tls::{Certificate, Material, TlsConfig};

verus! {

/// What was found on disk at the configured root path.
#[derive(Debug, Clone, Copy, PartialEq, Eq, Structural)]
pub enum RootStatus {
    /// Nothing exists there.
    Missing,
    /// Something exists there that is no directory.
    NotDirectory,
    /// A directory.
    Directory,
}

impl RootStatus {
    /// The status that two findings of a probe amount to: whether the path
    /// exists, and whether it is a directory.
    pub open spec fn spec_from_probe(exists: bool, is_dir: bool) -> RootStatus {
        if !exists {
            RootStatus::Missing
        } else if !is_dir {
            RootStatus::NotDirectory
        } else {
            RootStatus::Directory
        }
    }

    #[verifier::when_used_as_spec(spec_from_probe)]
    pub fn from_probe(exists: bool, is_dir: bool) -> (r: RootStatus)
        ensures
            r == RootStatus::spec_from_probe(exists, is_dir),
    {
        if !exists {
            RootStatus::Missing
        } else if !is_dir {
            RootStatus::NotDirectory
        } else {
            RootStatus::Directory
        }
    }
}

/// The prefix of a configuration that names none: the separator alone.
pub open spec fn default_prefix() -> Seq<char> {
    seq!['/']
}

/// A path prefix is well formed when it starts and ends with `/`.
pub open spec fn well_formed_prefix(path: Seq<char>) -> bool {
    path.len() > 0 && path.first() == '/' && path.last() == '/'
}

/// Whether `path` starts and ends with `/`.
pub fn is_well_formed_prefix(path: &str) -> (r: bool)
    ensures
        r == well_formed_prefix(path@),
{
    let n = path.unicode_len();
    n > 0 && path.get_char(0) == '/' && path.get_char(n - 1) == '/'
}

/// A configuration as a mathematical value. The fields are independent: the
/// rules that tie them together are those of [`ConfigView::first_violation`].
pub struct ConfigView {
    pub bind: BindAddr,
    pub root: Option<Seq<char>>,
    pub http_path: Option<Seq<char>>,
    pub user: Option<Seq<char>>,
    pub password: Option<Seq<char>>,
    pub tls: Option<Material>,
    pub enable_tls: bool,
}

impl ConfigView {
    /// The configuration a builder starts from: every interface, the default
    /// port, nothing else set.
    pub open spec fn initial() -> ConfigView {
        ConfigView {
            bind: BindAddr { ip: IpAddress::spec_unspecified(), port: DEFAULT_PORT },
            root: None,
            http_path: None,
            user: None,
            password: None,
            tls: None,
            enable_tls: false,
        }
    }

    pub open spec fn with_bind(self, bind: BindAddr) -> ConfigView {
        ConfigView { bind, ..self }
    }

    pub open spec fn with_root(self, root: Seq<char>) -> ConfigView {
        ConfigView { root: Some(root), ..self }
    }

    pub open spec fn with_http_path(self, path: Seq<char>) -> ConfigView {
        ConfigView { http_path: Some(path), ..self }
    }

    /// Both credential fields set at once.
    pub open spec fn with_authorization(self, user: Seq<char>, password: Seq<char>) -> ConfigView {
        ConfigView { user: Some(user), password: Some(password), ..self }
    }

    /// Both credential fields cleared at once.
    pub open spec fn without_authorization(self) -> ConfigView {
        ConfigView { user: None, password: None, ..self }
    }

    /// The material set and TLS switched on, at once.
    pub open spec fn with_tls(self, material: Material) -> ConfigView {
        ConfigView { tls: Some(material), enable_tls: true, ..self }
    }

    /// The material dropped and TLS switched off, at once.
    pub open spec fn without_tls(self) -> ConfigView {
        ConfigView { tls: None, enable_tls: false, ..self }
    }

    /// User and password are both set or both absent.
    pub open spec fn credentials_paired(self) -> bool {
        self.user is Some <==> self.password is Some
    }

    /// User and password are both set or both absent, and TLS is switched on
    /// exactly where material is held: what every chain of setters keeps.
    pub open spec fn coupled(self) -> bool {
        &&& self.credentials_paired()
        &&& self.enable_tls <==> self.tls is Some
    }

    /// The prefix, where one is set, starts and ends with `/`.
    pub open spec fn prefix_ok(self) -> bool {
        self.http_path matches Some(path) ==> well_formed_prefix(path)
    }

    /// Where TLS is switched on, material is there and is not empty.
    pub open spec fn tls_ok(self) -> bool {
        self.enable_tls ==> (self.tls matches Some(material) && material.is_filled())
    }

    /// The material that TLS runs on: the configured one where TLS is switched
    /// on, none where it is not, whatever was supplied.
    pub open spec fn active_tls(self) -> Option<Material> {
        if self.enable_tls {
            self.tls
        } else {
            None
        }
    }

    /// The prefix that requests are routed under: the configured one, or `/`
    /// alone where none is set.
    pub open spec fn effective_prefix(self) -> Seq<char> {
        match self.http_path {
            Some(path) => path,
            None => default_prefix(),
        }
    }

    /// The credential that requests are held to: the configured pair where
    /// both parts are set, none otherwise.
    pub open spec fn credential(self) -> Option<Credential> {
        match (self.user, self.password) {
            (Some(user), Some(password)) => Some(Credential { user, password }),
            _ => None,
        }
    }

    /// Every rule holds, given what is on disk at the root path.
    pub open spec fn is_valid(self, root: RootStatus) -> bool {
        &&& self.root is Some
        &&& root == RootStatus::Directory
        &&& self.prefix_ok()
        &&& self.credentials_paired()
        &&& self.tls_ok()
    }

    /// The first rule that is broken, in the order root, prefix, credentials,
    /// TLS; none where all hold.
    pub open spec fn first_violation(self, root: RootStatus) -> Option<ConfigError> {
        if self.root is None {
            Some(ConfigError::RootNotSet)
        } else if root == RootStatus::Missing {
            Some(ConfigError::RootNotExists)
        } else if root == RootStatus::NotDirectory {
            Some(ConfigError::RootNotDirectory)
        } else if !self.prefix_ok() {
            Some(ConfigError::HttpPathMalformed)
        } else if !self.credentials_paired() {
            Some(ConfigError::PartialCredentials)
        } else if self.enable_tls && self.tls is None {
            Some(ConfigError::TlsMaterialMissing)
        } else if !self.tls_ok() {
            Some(ConfigError::TlsMaterialEmpty)
        } else {
            None
        }
    }

    /// What validation returns.
    pub open spec fn validation(self, root: RootStatus) -> Result<(), ConfigError> {
        match self.first_violation(root) {
            Some(e) => Err(e),
            None => Ok(()),
        }
    }
}

/// The fields of a server's configuration, collected by chained setters.
#[derive(Debug, Clone, PartialEq)]
pub struct DavConfig {
    bind: BindAddr,
    root: Option<String>,
    http_path: Option<String>,
    user: Option<String>,
    password: Option<String>,
    tls_config: Option<TlsConfig>,
    enable_tls: bool,
}

/// The characters of an optional string.
pub open spec fn text_of(s: Option<String>) -> Option<Seq<char>> {
    match s {
        Some(s) => Some(s@),
        None => None,
    }
}

/// The characters of an optional string slice.
pub open spec fn str_text(s: Option<&str>) -> Option<Seq<char>> {
    match s {
        Some(s) => Some(s@),
        None => None,
    }
}

/// The material of an optional TLS setup.
pub open spec fn material_of(t: Option<TlsConfig>) -> Option<Material> {
    match t {
        Some(t) => Some(t@),
        None => None,
    }
}

impl View for DavConfig {
    type V = ConfigView;

    closed spec fn view(&self) -> ConfigView {
        ConfigView {
            bind: self.bind,
            root: text_of(self.root),
            http_path: text_of(self.http_path),
            user: text_of(self.user),
            password: text_of(self.password),
            tls: material_of(self.tls_config),
            enable_tls: self.enable_tls,
        }
    }
}

impl Default for DavConfig {
    fn default() -> (r: DavConfig)
        ensures
            r@ == ConfigView::initial(),
    {
        DavConfig {
            bind: BindAddr::new(IpAddress::unspecified(), DEFAULT_PORT),
            root: None,
            http_path: None,
            user: None,
            password: None,
            tls_config: None,
            enable_tls: false,
        }
    }
}

impl DavConfig {
    /// A configuration with nothing set but the default address.
    pub fn new() -> (r: DavConfig)
        ensures
            r@ == ConfigView::initial(),
    {
        DavConfig {
            bind: BindAddr::new(IpAddress::unspecified(), DEFAULT_PORT),
            root: None,
            http_path: None,
            user: None,
            password: None,
            tls_config: None,
            enable_tls: false,
        }
    }

    /// A configuration from its seven fields as they are, with no rule
    /// applied: what [`DavConfig::validate`] refuses can be built here.
    pub fn from_parts(
        bind: BindAddr,
        root: Option<String>,
        http_path: Option<String>,
        user: Option<String>,
        password: Option<String>,
        tls_config: Option<TlsConfig>,
        enable_tls: bool,
    ) -> (r: DavConfig)
        ensures
            r@ == (ConfigView {
                bind,
                root: text_of(root),
                http_path: text_of(http_path),
                user: text_of(user),
                password: text_of(password),
                tls: material_of(tls_config),
                enable_tls,
            }),
    {
        DavConfig { bind, root, http_path, user, password, tls_config, enable_tls }
    }

    /// Sets the address to listen on.
    pub fn bind(self, bind: BindAddr) -> (r: DavConfig)
        ensures
            r@ == self@.with_bind(bind),
    {
        let mut this = self;
        this.bind = bind;
        this
    }

    /// Sets the directory to serve.
    pub fn root(self, root: String) -> (r: DavConfig)
        ensures
            r@ == self@.with_root(root@),
    {
        let mut this = self;
        this.root = Some(root);
        this
    }

    /// Sets the path prefix under which the directory is served.
    pub fn http_path(self, path: String) -> (r: DavConfig)
        ensures
            r@ == self@.with_http_path(path@),
    {
        let mut this = self;
        this.http_path = Some(path);
        this
    }

    /// Switches authorization on: sets user and password together.
    pub fn authorization(self, user: String, password: String) -> (r: DavConfig)
        ensures
            r@ == self@.with_authorization(user@, password@),
    {
        let mut this = self;
        this.user = Some(user);
        this.password = Some(password);
        this
    }

    /// Switches authorization off: clears user and password together.
    pub fn no_authorization(self) -> (r: DavConfig)
        ensures
            r@ == self@.without_authorization(),
    {
        let mut this = self;
        this.user = None;
        this.password = None;
        this
    }

    /// Switches TLS on with the given material.
    pub fn tls(self, tls_config: TlsConfig) -> (r: DavConfig)
        ensures
            r@ == self@.with_tls(tls_config@),
    {
        let mut this = self;
        this.tls_config = Some(tls_config);
        this.enable_tls = true;
        this
    }

    /// Switches TLS off and drops the material.
    pub fn no_tls(self) -> (r: DavConfig)
        ensures
            r@ == self@.without_tls(),
    {
        let mut this = self;
        this.tls_config = None;
        this.enable_tls = false;
        this
    }

    /// Wraps the configuration into a server. Nothing is checked here: the
    /// rules are applied when the server is started.
    pub fn build(self) -> (r: DavServer)
        ensures
            r@ == self@,
    {
        DavServer::new(self)
    }

    /// The address to listen on.
    pub fn bind_addr(&self) -> (r: BindAddr)
        ensures
            r == self@.bind,
    {
        self.bind
    }

    /// The directory to serve, where one is set.
    pub fn root_dir(&self) -> (r: Option<&str>)
        ensures
            str_text(r) == self@.root,
    {
        match &self.root {
            Some(root) => Some(root.as_str()),
            None => None,
        }
    }

    /// The path prefix as it was set, where one was.
    pub fn configured_prefix(&self) -> (r: Option<&str>)
        ensures
            str_text(r) == self@.http_path,
    {
        match &self.http_path {
            Some(path) => Some(path.as_str()),
            None => None,
        }
    }

    /// The prefix that requests are routed under.
    pub fn path_prefix(&self) -> (r: &str)
        ensures
            r@ == self@.effective_prefix(),
    {
        match &self.http_path {
            Some(path) => path.as_str(),
            None => {
                proof {
                    reveal_strlit("/");
                    assert("/"@ =~= default_prefix());
                }
                "/"
            },
        }
    }

    /// The user name, where one is set.
    pub fn user(&self) -> (r: Option<&str>)
        ensures
            str_text(r) == self@.user,
    {
        match &self.user {
            Some(user) => Some(user.as_str()),
            None => None,
        }
    }

    /// The password, where one is set.
    pub fn password(&self) -> (r: Option<&str>)
        ensures
            str_text(r) == self@.password,
    {
        match &self.password {
            Some(password) => Some(password.as_str()),
            None => None,
        }
    }

    /// The credential gate of this configuration: enabled with the pair where
    /// user and password are both set, disabled otherwise.
    pub fn gate(&self) -> (r: Gate)
        ensures
            r@ == self@.credential(),
    {
        match (&self.user, &self.password) {
            (Some(user), Some(password)) => Gate::Enabled(Account::new(user.clone(), password.clone())),
            _ => Gate::Disabled,
        }
    }

    /// The TLS material as it was supplied, switched on or not.
    pub fn tls_config(&self) -> (r: Option<&TlsConfig>)
        ensures
            r is Some <==> self@.tls is Some,
            r matches Some(t) ==> self@.tls == Some(t@),
    {
        self.tls_config.as_ref()
    }

    /// Whether TLS is switched on.
    pub fn tls_enabled(&self) -> (r: bool)
        ensures
            r == self@.enable_tls,
    {
        self.enable_tls
    }

    /// The material that TLS runs on: none where TLS is switched off.
    pub fn active_tls(&self) -> (r: Option<&Certificate>)
        ensures
            r is Some <==> self@.active_tls() is Some,
            r matches Some(c) ==> self@.active_tls() == Some(c@),
    {
        if self.enable_tls {
            match &self.tls_config {
                Some(tls_config) => Some(tls_config.certificate()),
                None => None,
            }
        } else {
            None
        }
    }

    /// Checks the rules in order and returns the first that is broken.
    /// `root` says what the caller found on disk at the root path; it is not
    /// looked at where no root is set.
    pub fn validate(&self, root: RootStatus) -> (r: Result<(), ConfigError>)
        ensures
            r == self@.validation(root),
            r is Ok <==> self@.is_valid(root),
    {
        if self.root.is_none() {
            return Err(ConfigError::RootNotSet);
        }
        match root {
            RootStatus::Missing => {
                return Err(ConfigError::RootNotExists);
            },
            RootStatus::NotDirectory => {
                return Err(ConfigError::RootNotDirectory);
            },
            RootStatus::Directory => {},
        }
        if let Some(path) = &self.http_path {
            if !is_well_formed_prefix(path.as_str()) {
                return Err(ConfigError::HttpPathMalformed);
            }
        }
        match (&self.user, &self.password) {
            (Some(_), Some(_)) | (None, None) => {},
            _ => {
                return Err(ConfigError::PartialCredentials);
            },
        }
        if self.enable_tls {
            match &self.tls_config {
                Some(tls_config) => {
                    if !tls_config.certificate().is_filled() {
                        return Err(ConfigError::TlsMaterialEmpty);
                    }
                },
                None => {
                    return Err(ConfigError::TlsMaterialMissing);
                },
            }
        }
        Ok(())
    }
}

/// Validation fails on every configuration with a defect, each time with
/// the error of that defect, and succeeds on every configuration without
/// one. A missing root, a root that does not exist or is no directory, a
/// malformed prefix, a single credential part, TLS without material and TLS
/// with an empty certificate or key each have an error of their own; where
/// several rules are broken, the error is that of the first in this order.
pub proof fn lemma_validation_is_total(c: ConfigView, root: RootStatus)
    ensures
        c.validation(root) is Ok <==> c.is_valid(root),
        c.root is None ==> c.validation(root) == Err::<(), ConfigError>(ConfigError::RootNotSet),
        c.root is Some && root == RootStatus::Missing ==> c.validation(root) == Err::<(), ConfigError>(
            ConfigError::RootNotExists,
        ),
        c.root is Some && root == RootStatus::NotDirectory ==> c.validation(root) == Err::<(), ConfigError>(
            ConfigError::RootNotDirectory,
        ),
        c.root is Some && root == RootStatus::Directory && !c.prefix_ok() ==> c.validation(root) == Err::<
            (),
            ConfigError,
        >(ConfigError::HttpPathMalformed),
        c.root is Some && root == RootStatus::Directory && c.prefix_ok() && !c.credentials_paired()
            ==> c.validation(root) == Err::<(), ConfigError>(ConfigError::PartialCredentials),
        c.root is Some && root == RootStatus::Directory && c.prefix_ok() && c.credentials_paired()
            && c.enable_tls && c.tls is None ==> c.validation(root) == Err::<(), ConfigError>(
            ConfigError::TlsMaterialMissing,
        ),
        c.root is Some && root == RootStatus::Directory && c.prefix_ok() && c.credentials_paired()
            && c.enable_tls && c.tls is Some && !c.tls->0.is_filled() ==> c.validation(root) == Err::<
            (),
            ConfigError,
        >(ConfigError::TlsMaterialEmpty),
{
}

/// Each error is returned only for its own defect.
pub proof fn lemma_error_tells_defect(c: ConfigView, root: RootStatus, e: ConfigError)
    requires
        c.validation(root) == Err::<(), ConfigError>(e),
    ensures
        e == ConfigError::RootNotSet ==> c.root is None,
        e == ConfigError::RootNotExists ==> root == RootStatus::Missing,
        e == ConfigError::RootNotDirectory ==> root == RootStatus::NotDirectory,
        e == ConfigError::HttpPathMalformed ==> c.http_path is Some && !well_formed_prefix(c.http_path->0),
        e == ConfigError::PartialCredentials ==> (c.user is Some) != (c.password is Some),
        e == ConfigError::TlsMaterialMissing ==> c.enable_tls && c.tls is None,
        e == ConfigError::TlsMaterialEmpty ==> c.enable_tls && c.tls is Some && !c.tls->0.is_filled(),
{
}

/// Authorization is set and cleared as a whole: after `authorization` both
/// parts are set, after `no_authorization` both are absent, whatever was
/// set before, and neither call touches another field.
pub proof fn lemma_authorization_is_atomic(c: ConfigView, user: Seq<char>, password: Seq<char>)
    ensures
        c.with_authorization(user, password).credential() == Some(Credential { user, password }),
        c.with_authorization(user, password).without_authorization().user is None,
        c.with_authorization(user, password).without_authorization().password is None,
        c.with_authorization(user, password).without_authorization() == c.without_authorization(),
        c.without_authorization().credential() is None,
        c.with_authorization(user, password).credentials_paired(),
        c.without_authorization().credentials_paired(),
{
}

/// TLS is switched with its material: after `tls` it is on with that
/// material, after `no_tls` it is off and no material is kept, whatever was
/// set before. Material alone never switches TLS on.
pub proof fn lemma_tls_is_atomic(c: ConfigView, material: Material)
    ensures
        c.with_tls(material).active_tls() == Some(material),
        !c.with_tls(material).without_tls().enable_tls,
        c.with_tls(material).without_tls().tls is None,
        c.with_tls(material).without_tls().active_tls() is None,
        c.with_tls(material).without_tls() == c.without_tls(),
        c.without_tls().tls_ok(),
        !c.enable_tls ==> c.active_tls() is None,
{
}

/// A later call of a setter replaces what an earlier call of it has set.
pub proof fn lemma_later_setter_wins(
    c: ConfigView,
    b1: BindAddr,
    b2: BindAddr,
    s1: Seq<char>,
    s2: Seq<char>,
    t1: Seq<char>,
    t2: Seq<char>,
    m1: Material,
    m2: Material,
)
    ensures
        c.with_bind(b1).with_bind(b2) == c.with_bind(b2),
        c.with_root(s1).with_root(s2) == c.with_root(s2),
        c.with_http_path(s1).with_http_path(s2) == c.with_http_path(s2),
        c.with_authorization(s1, t1).with_authorization(s2, t2) == c.with_authorization(s2, t2),
        c.with_tls(m1).with_tls(m2) == c.with_tls(m2),
{
}

/// No setter leaves a pair half set: a fresh configuration is
/// [`ConfigView::coupled`], and every setter keeps it so. A configuration
/// that is coupled is never refused for a single credential part or for TLS
/// without material.
pub proof fn lemma_setters_keep_coupled(
    c: ConfigView,
    bind: BindAddr,
    text: Seq<char>,
    user: Seq<char>,
    password: Seq<char>,
    material: Material,
    root: RootStatus,
)
    requires
        c.coupled(),
    ensures
        ConfigView::initial().coupled(),
        c.with_bind(bind).coupled(),
        c.with_root(text).coupled(),
        c.with_http_path(text).coupled(),
        c.with_authorization(user, password).coupled(),
        c.without_authorization().coupled(),
        c.with_tls(material).coupled(),
        c.without_tls().coupled(),
        c.validation(root) != Err::<(), ConfigError>(ConfigError::PartialCredentials),
        c.validation(root) != Err::<(), ConfigError>(ConfigError::TlsMaterialMissing),
{
}

} // verus!
