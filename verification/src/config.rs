//! Layered configuration: three ordered key/value layers merged into one
//! snapshot, later layers overriding earlier ones.

use vstd::prelude::*;
use vstd::string::*;

verus! {

/// The keys a configuration layer may define.
#[derive(Clone, Copy, Debug, PartialEq, Eq, Structural)]
pub enum ConfigKey {
    /// `[runtime].mode`
    Mode,
    /// `[nats].url`, the bus connection URL
    Url,
    /// `[nats].subject`
    Subject,
    /// `[nats].queue`, the queue-group name
    Queue,
    /// `[nats].stream`
    Stream,
    /// `[nats].consumer`
    Consumer,
    /// `[recv].wait_secs`
    WaitSecs,
}

/// What a key is bound to: text, or for the wait duration a number.
pub ghost enum ConfigValue {
    Text(Seq<char>),
    Number(u64),
}

/// The wait duration, in seconds, of a snapshot whose layers define none.
pub const DEFAULT_WAIT_SECS: u64 = 5;

/// The content of an optional text.
pub open spec fn text_of(field: Option<String>) -> Option<Seq<char>> {
    match field {
        Some(s) => Some(s@),
        None => None,
    }
}

/// The value of a text key that may be bound.
pub open spec fn text_value(field: Option<Seq<char>>) -> Option<ConfigValue> {
    match field {
        Some(t) => Some(ConfigValue::Text(t)),
        None => None,
    }
}

/// The value of a numeric key that may be bound.
pub open spec fn number_value(field: Option<u64>) -> Option<ConfigValue> {
    match field {
        Some(n) => Some(ConfigValue::Number(n)),
        None => None,
    }
}

/// A binding where there is one in `top`, else the one in `base`.
pub open spec fn prefer_of<T>(top: Option<T>, base: Option<T>) -> Option<T> {
    if top is Some {
        top
    } else {
        base
    }
}

/// What a layer or a snapshot binds: for each key, its value or nothing.
pub ghost struct Bindings {
    pub mode: Option<Seq<char>>,
    pub url: Option<Seq<char>>,
    pub subject: Option<Seq<char>>,
    pub queue: Option<Seq<char>>,
    pub stream: Option<Seq<char>>,
    pub consumer: Option<Seq<char>>,
    pub wait_secs: Option<u64>,
}

impl Bindings {
    /// Bindings that bind nothing.
    pub open spec fn none() -> Bindings {
        Bindings {
            mode: None,
            url: None,
            subject: None,
            queue: None,
            stream: None,
            consumer: None,
            wait_secs: None,
        }
    }

    /// What `key` is bound to.
    pub open spec fn value(self, key: ConfigKey) -> Option<ConfigValue> {
        match key {
            ConfigKey::Mode => text_value(self.mode),
            ConfigKey::Url => text_value(self.url),
            ConfigKey::Subject => text_value(self.subject),
            ConfigKey::Queue => text_value(self.queue),
            ConfigKey::Stream => text_value(self.stream),
            ConfigKey::Consumer => text_value(self.consumer),
            ConfigKey::WaitSecs => number_value(self.wait_secs),
        }
    }

    /// These bindings with `top` laid over them: what `top` binds it
    /// overrides, and everything else stays.
    pub open spec fn overlaid_by(self, top: Bindings) -> Bindings {
        Bindings {
            mode: prefer_of(top.mode, self.mode),
            url: prefer_of(top.url, self.url),
            subject: prefer_of(top.subject, self.subject),
            queue: prefer_of(top.queue, self.queue),
            stream: prefer_of(top.stream, self.stream),
            consumer: prefer_of(top.consumer, self.consumer),
            wait_secs: prefer_of(top.wait_secs, self.wait_secs),
        }
    }

    /// These bindings completed by the fixed defaults: a wait duration
    /// that is not bound becomes `DEFAULT_WAIT_SECS`.
    pub open spec fn with_defaults(self) -> Bindings {
        Bindings { wait_secs: prefer_of(self.wait_secs, Some(DEFAULT_WAIT_SECS)), ..self }
    }
}

/// One configuration layer: a flat document that binds some of the keys.
#[derive(Clone, Debug, PartialEq, Eq)]
pub struct ConfigLayer {
    pub mode: Option<String>,
    pub url: Option<String>,
    pub subject: Option<String>,
    pub queue: Option<String>,
    pub stream: Option<String>,
    pub consumer: Option<String>,
    pub wait_secs: Option<u64>,
}

impl View for ConfigLayer {
    type V = Bindings;

    open spec fn view(&self) -> Bindings {
        Bindings {
            mode: text_of(self.mode),
            url: text_of(self.url),
            subject: text_of(self.subject),
            queue: text_of(self.queue),
            stream: text_of(self.stream),
            consumer: text_of(self.consumer),
            wait_secs: self.wait_secs,
        }
    }
}

impl ConfigLayer {
    /// The layer that binds nothing.
    pub fn empty() -> (layer: ConfigLayer)
        ensures
            layer@ == Bindings::none(),
    {
        ConfigLayer {
            mode: None,
            url: None,
            subject: None,
            queue: None,
            stream: None,
            consumer: None,
            wait_secs: None,
        }
    }

    /// Lays `top` over `self`: every key that `top` binds takes `top`'s
    /// value, every other key keeps the one it has in `self`.
    pub fn overlay(self, top: &ConfigLayer) -> (merged: ConfigLayer)
        ensures
            merged@ == self@.overlaid_by(top@),
    {
        ConfigLayer {
            mode: prefer(&top.mode, self.mode),
            url: prefer(&top.url, self.url),
            subject: prefer(&top.subject, self.subject),
            queue: prefer(&top.queue, self.queue),
            stream: prefer(&top.stream, self.stream),
            consumer: prefer(&top.consumer, self.consumer),
            wait_secs: match top.wait_secs {
                Some(n) => Some(n),
                None => self.wait_secs,
            },
        }
    }
}

/// The text of `top` where it has one, else `base`.
fn prefer(top: &Option<String>, base: Option<String>) -> (chosen: Option<String>)
    ensures
        chosen == prefer_of(*top, base),
{
    match top {
        Some(s) => Some(s.clone()),
        None => base,
    }
}

/// `[runtime]` section of a snapshot.
#[derive(Clone, Debug, PartialEq, Eq)]
pub struct RuntimeConfig {
    pub mode: Option<String>,
}

/// `[nats]` section of a snapshot: where the bus is and which resources the
/// tools use when no override is given.
#[derive(Clone, Debug, PartialEq, Eq)]
pub struct NatsConfig {
    pub url: Option<String>,
    pub subject: Option<String>,
    pub queue: Option<String>,
    pub stream: Option<String>,
    pub consumer: Option<String>,
}

/// `[recv]` section of a snapshot.
#[derive(Clone, Debug, PartialEq, Eq)]
pub struct RecvConfig {
    pub wait_secs: Option<u64>,
}

/// The configuration snapshot of one process invocation.
#[derive(Clone, Debug, PartialEq, Eq)]
pub struct AppConfig {
    pub runtime: RuntimeConfig,
    pub nats: NatsConfig,
    pub recv: RecvConfig,
}

impl Default for RuntimeConfig {
    fn default() -> (cfg: RuntimeConfig)
        ensures
            cfg.mode is None,
    {
        RuntimeConfig { mode: None }
    }
}

impl Default for NatsConfig {
    fn default() -> (cfg: NatsConfig)
        ensures
            cfg.url is None,
            cfg.subject is None,
            cfg.queue is None,
            cfg.stream is None,
            cfg.consumer is None,
    {
        NatsConfig { url: None, subject: None, queue: None, stream: None, consumer: None }
    }
}

impl Default for RecvConfig {
    fn default() -> (cfg: RecvConfig)
        ensures
            cfg.wait_secs is None,
    {
        RecvConfig { wait_secs: None }
    }
}

/// Why no snapshot could be built, or why it cannot be used.
#[derive(Clone, Debug, PartialEq, Eq)]
pub enum ConfigError {
    /// No document exists at the root path.
    MissingRoot { path: String },
    /// A document that takes part in the merge exists but has no readable content.
    Unreadable { path: String },
    /// The snapshot has no bus connection URL.
    MissingUrl,
}

/// A `ConfigError` with its paths as plain text.
pub ghost enum ConfigFault {
    MissingRoot { path: Seq<char> },
    Unreadable { path: Seq<char> },
    MissingUrl,
}

impl View for ConfigError {
    type V = ConfigFault;

    open spec fn view(&self) -> ConfigFault {
        match self {
            ConfigError::MissingRoot { path } => ConfigFault::MissingRoot { path: path@ },
            ConfigError::Unreadable { path } => ConfigFault::Unreadable { path: path@ },
            ConfigError::MissingUrl => ConfigFault::MissingUrl,
        }
    }
}

impl ConfigError {
    /// The text of `message`.
    pub open spec fn message_text(self) -> Seq<char> {
        match self {
            ConfigError::MissingRoot { path } => "Root config not found at '"@ + path@
                + "'. Create it (e.g. copy config.example.toml) or pass --config <path>."@,
            ConfigError::Unreadable { path } => "Config at '"@ + path@ + "' could not be read."@,
            ConfigError::MissingUrl => "Missing [nats].url in config"@,
        }
    }

    /// Says what is wrong, and with which document.
    pub fn message(&self) -> (text: String)
        ensures
            text@ == self.message_text(),
    {
        match self {
            ConfigError::MissingRoot { path } => {
                let mut text = String::from_str("Root config not found at '");
                text.append(path.as_str());
                text.append("'. Create it (e.g. copy config.example.toml) or pass --config <path>.");
                text
            },
            ConfigError::Unreadable { path } => {
                let mut text = String::from_str("Config at '");
                text.append(path.as_str());
                text.append("' could not be read.");
                text
            },
            ConfigError::MissingUrl => String::from_str("Missing [nats].url in config"),
        }
    }
}

/// A document found at `path`. `layer` is `None` when the document exists
/// but its content could not be read as a layer.
#[derive(Clone, Debug, PartialEq, Eq)]
pub struct SourceFile {
    pub path: String,
    pub layer: Option<ConfigLayer>,
}

/// Everything a merge can draw on: the documents that exist, by path, and
/// the layer derived from the environment.
#[derive(Clone, Debug, PartialEq, Eq)]
pub struct ConfigSources {
    pub files: Vec<SourceFile>,
    pub environment: ConfigLayer,
}

/// The first document of `files` that lies at `path`.
pub open spec fn find_source(files: Seq<SourceFile>, path: Seq<char>) -> Option<SourceFile>
    decreases files.len(),
{
    if files.len() == 0 {
        None
    } else if files[0].path@ == path {
        Some(files[0])
    } else {
        find_source(files.drop_first(), path)
    }
}

/// The layers laid over each other, lowest precedence first: root, then the
/// scope layer where there is one, then the environment.
pub open spec fn layered(root: Bindings, scope: Option<Bindings>, env: Bindings) -> Bindings {
    match scope {
        Some(s) => root.overlaid_by(s).overlaid_by(env),
        None => root.overlaid_by(env),
    }
}

/// The bindings of the snapshot that the sources give for a root path and an
/// optional scope path, or the reason why there is none.
///
/// The root document must exist. The scope document is applied over it when
/// a path is given and a document exists there. The environment layer is
/// applied last, and the defaults after all layers. A document that takes
/// part must be readable.
pub open spec fn merged_bindings(
    sources: ConfigSources,
    root: Seq<char>,
    scope: Option<Seq<char>>,
) -> Result<Bindings, ConfigFault> {
    match find_source(sources.files@, root) {
        None => Err(ConfigFault::MissingRoot { path: root }),
        Some(root_file) => match root_file.layer {
            None => Err(ConfigFault::Unreadable { path: root }),
            Some(root_layer) => {
                let scope_file = match scope {
                    Some(p) => find_source(sources.files@, p),
                    None => None,
                };
                match scope_file {
                    None => Ok(layered(root_layer@, None, sources.environment@).with_defaults()),
                    Some(file) => match file.layer {
                        None => Err(ConfigFault::Unreadable { path: scope.unwrap() }),
                        Some(scope_layer) => Ok(
                            layered(
                                root_layer@,
                                Some(scope_layer@),
                                sources.environment@,
                            ).with_defaults(),
                        ),
                    },
                }
            },
        },
    }
}

impl ConfigSources {
    /// Looks up the document at `path`.
    pub fn find(&self, path: &str) -> (found: Option<&SourceFile>)
        ensures
            match found {
                Some(file) => find_source(self.files@, path@) == Some(*file),
                None => find_source(self.files@, path@) is None,
            },
    {
        let wanted = path.to_owned();
        let mut i: usize = 0;
        assert(self.files@.skip(0) =~= self.files@);
        while i < self.files.len()
            invariant
                i <= self.files.len(),
                wanted@ == path@,
                find_source(self.files@, path@) == find_source(self.files@.skip(i as int), path@),
            decreases self.files.len() - i,
        {
            if self.files[i].path == wanted {
                return Some(&self.files[i]);
            }
            assert(self.files@.skip(i as int).drop_first() =~= self.files@.skip(i + 1));
            i += 1;
        }
        None
    }
}

impl AppConfig {
    /// Freezes merged layers into a snapshot and fills in the defaults.
    pub fn from_layer(layer: ConfigLayer) -> (cfg: AppConfig)
        ensures
            cfg@ == layer@.with_defaults(),
    {
        AppConfig {
            runtime: RuntimeConfig { mode: layer.mode },
            nats: NatsConfig {
                url: layer.url,
                subject: layer.subject,
                queue: layer.queue,
                stream: layer.stream,
                consumer: layer.consumer,
            },
            recv: RecvConfig {
                wait_secs: match layer.wait_secs {
                    Some(n) => Some(n),
                    None => Some(DEFAULT_WAIT_SECS),
                },
            },
        }
    }

    /// Builds the snapshot from the root document at `root_config`, the
    /// scope document at `lab_config` where one is named and exists, and the
    /// environment layer, each overriding the ones before it.
    pub fn load_merged(root_config: &str, lab_config: Option<&str>, sources: &ConfigSources) -> (loaded:
        Result<AppConfig, ConfigError>)
        ensures
            match loaded {
                Ok(cfg) => merged_bindings(*sources, root_config@, scope_text(lab_config)) == Ok::<
                    Bindings,
                    ConfigFault,
                >(cfg@),
                Err(e) => merged_bindings(*sources, root_config@, scope_text(lab_config)) == Err::<
                    Bindings,
                    ConfigFault,
                >(e@),
            },
    {
        let root_layer = match sources.find(root_config) {
            None => {
                return Err(ConfigError::MissingRoot { path: root_config.to_owned() });
            },
            Some(file) => match &file.layer {
                None => {
                    return Err(ConfigError::Unreadable { path: root_config.to_owned() });
                },
                Some(layer) => layer,
            },
        };
        let mut merged = ConfigLayer::empty().overlay(root_layer);
        if let Some(lab_path) = lab_config {
            if let Some(file) = sources.find(lab_path) {
                match &file.layer {
                    None => {
                        return Err(ConfigError::Unreadable { path: lab_path.to_owned() });
                    },
                    Some(layer) => {
                        merged = merged.overlay(layer);
                    },
                }
            }
        }
        merged = merged.overlay(&sources.environment);
        Ok(AppConfig::from_layer(merged))
    }

    /// The bus connection URL. A snapshot without one cannot be used.
    pub fn nats_url(&self) -> (url: Result<String, ConfigError>)
        ensures
            match self.nats.url {
                Some(u) => url == Ok::<String, ConfigError>(u),
                None => url == Err::<String, ConfigError>(ConfigError::MissingUrl),
            },
    {
        match &self.nats.url {
            Some(u) => Ok(u.clone()),
            None => Err(ConfigError::MissingUrl),
        }
    }

    /// The default subject, if the snapshot has one.
    pub fn subject(&self) -> (subject: Option<String>)
        ensures
            subject == self.nats.subject,
    {
        match &self.nats.subject {
            Some(s) => Some(s.clone()),
            None => None,
        }
    }

    /// The wait duration in seconds, `DEFAULT_WAIT_SECS` where the snapshot
    /// has none.
    pub fn recv_wait_secs(&self) -> (secs: u64)
        ensures
            secs == match self.recv.wait_secs {
                Some(n) => n,
                None => DEFAULT_WAIT_SECS,
            },
    {
        match self.recv.wait_secs {
            Some(n) => n,
            None => DEFAULT_WAIT_SECS,
        }
    }
}

impl View for AppConfig {
    type V = Bindings;

    open spec fn view(&self) -> Bindings {
        Bindings {
            mode: text_of(self.runtime.mode),
            url: text_of(self.nats.url),
            subject: text_of(self.nats.subject),
            queue: text_of(self.nats.queue),
            stream: text_of(self.nats.stream),
            consumer: text_of(self.nats.consumer),
            wait_secs: self.recv.wait_secs,
        }
    }
}

/// The text of an optional path.
pub open spec fn scope_text(path: Option<&str>) -> Option<Seq<char>> {
    match path {
        Some(p) => Some(p@),
        None => None,
    }
}

/// Precedence of the layers: whatever the three layers bind, a key has in
/// the snapshot the value of the highest layer that binds it, the
/// environment ranking above the scope layer and the scope layer above the
/// root. A key that no layer binds has its default, if it has one.
pub proof fn lemma_highest_layer_wins(
    root: Bindings,
    scope: Option<Bindings>,
    env: Bindings,
    key: ConfigKey,
)
    ensures
        layered(root, scope, env).with_defaults().value(key) == (if env.value(key) is Some {
            env.value(key)
        } else if scope is Some && scope.unwrap().value(key) is Some {
            scope.unwrap().value(key)
        } else if root.value(key) is Some {
            root.value(key)
        } else if key == ConfigKey::WaitSecs {
            Some(ConfigValue::Number(DEFAULT_WAIT_SECS))
        } else {
            None
        }),
{
}

} // verus!
