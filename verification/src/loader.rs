//! The loader builder and the decisions it takes while loading: where the
//! file comes from, which layers are merged in which order, when a corrupt
//! file is replaced by defaults and when the result is written back.

use vstd::prelude::*;

use crate::error::ConfigError;
use crate::text::{ascii_lowercase, is_ascii_text, lowercase, to_lowercase};

verus! {

/// Where a [`Loader`] reads the TOML config file from (if any).
#[derive(Debug)]
pub enum Source {
    /// The file in the OS config dir of a module, resolved by name.
    Module(String),
    /// An explicit, caller-supplied file path. Never creates directories.
    Path(String),
    /// No file at all: defaults and environment only.
    NoFile,
}

/// The model of a [`Source`].
pub enum SourceView {
    Module(Seq<char>),
    Path(Seq<char>),
    NoFile,
}

impl View for Source {
    type V = SourceView;

    open spec fn view(&self) -> SourceView {
        match self {
            Source::Module(m) => SourceView::Module(m@),
            Source::Path(p) => SourceView::Path(p@),
            Source::NoFile => SourceView::NoFile,
        }
    }
}

/// The model of a [`Loader`].
pub struct LoaderView {
    pub source: SourceView,
    pub env_prefix: Option<Seq<char>>,
    pub shared_env: Seq<Seq<char>>,
    pub write_back: bool,
}

/// Builder for loading configuration with control over the file source, a
/// bare shared-env layer, the prefixed-env layer, and write-back.
///
/// Layers are merged in increasing precedence:
///
/// 1. the type's default
/// 2. the TOML file (if the source has one and it exists)
/// 3. bare shared env: the unprefixed keys named via [`Loader::shared_env`]
/// 4. prefixed env: `<PREFIX>*` via [`Loader::env_prefix`]
pub struct Loader<'a> {
    source: Source,
    env_prefix: Option<&'a str>,
    shared_env: Vec<&'a str>,
    write_back: bool,
}

pub open spec fn str_views<'a>(keys: Seq<&'a str>) -> Seq<Seq<char>> {
    keys.map_values(|k: &'a str| k@)
}

impl<'a> View for Loader<'a> {
    type V = LoaderView;

    closed spec fn view(&self) -> LoaderView {
        LoaderView {
            source: self.source@,
            env_prefix: match self.env_prefix {
                Some(p) => Some(p@),
                None => None,
            },
            shared_env: str_views(self.shared_env@),
            write_back: self.write_back,
        }
    }
}

impl<'a> Loader<'a> {
    /// Desktop/tool default: the file of `module` in the OS config dir, with
    /// the canonical config written back to disk after loading.
    pub fn module(module: &str) -> (l: Self)
        ensures
            l@.source == SourceView::Module(module@),
            l@.env_prefix is None,
            l@.shared_env == Seq::<Seq<char>>::empty(),
            l@.write_back,
    {
        let l = Loader {
            source: Source::Module(module.to_owned()),
            env_prefix: None,
            shared_env: Vec::new(),
            write_back: true,
        };
        proof {
            assert(str_views(l.shared_env@) =~= Seq::<Seq<char>>::empty());
        }
        l
    }

    /// Read from an explicit, caller-supplied path. Never creates directories
    /// and, by default, never writes back.
    pub fn path(path: &str) -> (l: Self)
        ensures
            l@.source == SourceView::Path(path@),
            l@.env_prefix is None,
            l@.shared_env == Seq::<Seq<char>>::empty(),
            !l@.write_back,
    {
        let l = Loader {
            source: Source::Path(path.to_owned()),
            env_prefix: None,
            shared_env: Vec::new(),
            write_back: false,
        };
        proof {
            assert(str_views(l.shared_env@) =~= Seq::<Seq<char>>::empty());
        }
        l
    }

    /// No config file at all: pure defaults and environment. Never touches
    /// the file system and never writes back.
    pub fn pure_env() -> (l: Self)
        ensures
            l@.source == SourceView::NoFile,
            l@.env_prefix is None,
            l@.shared_env == Seq::<Seq<char>>::empty(),
            !l@.write_back,
    {
        let l = Loader {
            source: Source::NoFile,
            env_prefix: None,
            shared_env: Vec::new(),
            write_back: false,
        };
        proof {
            assert(str_views(l.shared_env@) =~= Seq::<Seq<char>>::empty());
        }
        l
    }

    /// Set the prefix of the highest-precedence env layer (e.g. `"APP_"`
    /// enables `APP_SERVER_PORT`).
    pub fn env_prefix(self, prefix: &'a str) -> (l: Self)
        ensures
            l@ == (LoaderView { env_prefix: Some(prefix@), ..self@ }),
    {
        let mut l = self;
        l.env_prefix = Some(prefix);
        l
    }

    /// Merge a set of unprefixed env keys as a layer between the TOML file
    /// and the prefixed-env layer. Keys are matched case-insensitively; each
    /// maps to the lower-cased config field of the same name.
    pub fn shared_env(self, keys: &[&'a str]) -> (l: Self)
        ensures
            l@ == (LoaderView { shared_env: str_views(keys@), ..self@ }),
    {
        let mut collected: Vec<&'a str> = Vec::new();
        let n = keys.len();
        for i in 0..n
            invariant
                n == keys@.len(),
                collected@ =~= keys@.take(i as int),
        {
            collected.push(keys[i]);
        }
        proof {
            assert(keys@.take(n as int) =~= keys@);
        }
        let mut l = self;
        l.shared_env = collected;
        l
    }

    /// The loader of the file of `module` in the OS config dir, with the
    /// shared env keys `shared_env` and, when given, the env prefix
    /// `env_prefix`: what the functional API and a config type's own loader
    /// use.
    pub fn for_module(module: &str, env_prefix: Option<&'a str>, shared_env: &[&'a str]) -> (l: Self)
        ensures
            l@.source == SourceView::Module(module@),
            l@.env_prefix == (match env_prefix {
                Some(p) => Some(p@),
                None => None::<Seq<char>>,
            }),
            l@.shared_env == str_views(shared_env@),
            l@.write_back,
    {
        let mut l = Loader::module(module).shared_env(shared_env);
        if let Some(prefix) = env_prefix {
            l = l.env_prefix(prefix);
        }
        l
    }

    /// Override whether the canonical config is written back to the source
    /// file after loading. Has no effect when there is no file.
    pub fn write_back(self, write_back: bool) -> (l: Self)
        ensures
            l@ == (LoaderView { write_back: write_back, ..self@ }),
    {
        let mut l = self;
        l.write_back = write_back;
        l
    }
}

/// Which file a loader reads: the file of a module in the OS config dir
/// (creating the directories on the way only when `create` holds), or an
/// explicit path.
#[derive(Debug, PartialEq, Eq)]
pub enum PathRequest {
    ConfigDir { module: String, create: bool },
    Explicit(String),
}

/// The model of a [`PathRequest`].
pub enum PathRequestView {
    ConfigDir { module: Seq<char>, create: bool },
    Explicit(Seq<char>),
}

impl View for PathRequest {
    type V = PathRequestView;

    open spec fn view(&self) -> PathRequestView {
        match self {
            PathRequest::ConfigDir { module, create } => PathRequestView::ConfigDir {
                module: module@,
                create: *create,
            },
            PathRequest::Explicit(p) => PathRequestView::Explicit(p@),
        }
    }
}

pub open spec fn request_view(r: Option<PathRequest>) -> Option<PathRequestView> {
    match r {
        Some(q) => Some(q@),
        None => None,
    }
}

/// The file a loader with model `v` reads, if any.
pub open spec fn resolve_spec(v: LoaderView) -> Option<PathRequestView> {
    match v.source {
        SourceView::Module(m) => Some(PathRequestView::ConfigDir { module: m, create: v.write_back }),
        SourceView::Path(p) => Some(PathRequestView::Explicit(p)),
        SourceView::NoFile => None,
    }
}

/// One layer of the merged configuration.
#[derive(Debug, PartialEq, Eq)]
pub enum Layer<'a> {
    /// The config type's default value.
    Defaults,
    /// The TOML file that the loader resolved.
    File,
    /// The environment variables whose names, lower-cased, are these keys,
    /// read without a prefix.
    SharedEnv(Vec<String>),
    /// The environment variables that start with this prefix, with the
    /// prefix removed.
    PrefixedEnv(&'a str),
}

/// The model of a [`Layer`].
pub enum LayerView {
    Defaults,
    File,
    SharedEnv(Seq<Seq<char>>),
    PrefixedEnv(Seq<char>),
}

pub open spec fn string_views(keys: Seq<String>) -> Seq<Seq<char>> {
    keys.map_values(|k: String| k@)
}

impl<'a> View for Layer<'a> {
    type V = LayerView;

    open spec fn view(&self) -> LayerView {
        match self {
            Layer::Defaults => LayerView::Defaults,
            Layer::File => LayerView::File,
            Layer::SharedEnv(keys) => LayerView::SharedEnv(string_views(keys@)),
            Layer::PrefixedEnv(p) => LayerView::PrefixedEnv(p@),
        }
    }
}

pub open spec fn layer_views<'a>(layers: Seq<Layer<'a>>) -> Seq<LayerView> {
    layers.map_values(|l: Layer<'a>| l@)
}

/// The lower-cased names of the shared env layer.
pub open spec fn lowered(keys: Seq<Seq<char>>) -> Seq<Seq<char>> {
    keys.map_values(|k: Seq<char>| key_lowercase(k))
}

/// The lower-cased name of one shared key: the ASCII lower-case for an ASCII
/// name, the Unicode lower-case mapping of `str::to_lowercase` otherwise.
pub open spec fn key_lowercase(k: Seq<char>) -> Seq<char> {
    if is_ascii_text(k) {
        ascii_lowercase(k)
    } else {
        lowercase(k)
    }
}

/// Whether the layers include the file: the loader resolved one and it
/// exists.
pub open spec fn has_file_spec(v: LoaderView, path_exists: bool) -> bool {
    resolve_spec(v) is Some && path_exists
}

/// The layers a loader with model `v` merges, lowest precedence first, where
/// `path_exists` tells whether the path it resolved exists.
pub open spec fn layers_spec(v: LoaderView, path_exists: bool) -> Seq<LayerView> {
    seq![LayerView::Defaults]
        + (if has_file_spec(v, path_exists) { seq![LayerView::File] } else { Seq::empty() })
        + (if v.shared_env.len() > 0 {
            seq![LayerView::SharedEnv(lowered(v.shared_env))]
        } else {
            Seq::empty()
        })
        + (match v.env_prefix {
            Some(p) => seq![LayerView::PrefixedEnv(p)],
            None => Seq::empty(),
        })
}

/// Whether a failed extraction is healed: only a loader that writes back
/// deletes its file, and only when the file exists.
pub open spec fn heals_spec(v: LoaderView, path_exists: bool) -> bool {
    v.write_back && has_file_spec(v, path_exists)
}

/// Whether the loaded configuration is written back to the resolved file.
pub open spec fn stores_spec(v: LoaderView) -> bool {
    v.write_back && resolve_spec(v) is Some
}

/// What follows the first extraction of the layered configuration.
#[derive(Debug)]
pub enum ExtractStep<C> {
    /// The configuration was extracted.
    Loaded(C),
    /// The file is corrupt and owned by this loader: delete it, then extract
    /// again from the layers without the file.
    Heal,
    /// Loading failed with this error.
    Failed(ConfigError),
}

/// The step that follows a first extraction with outcome `result`.
pub open spec fn after_extract_spec<C>(v: LoaderView, path_exists: bool, result: Result<C, String>) -> ExtractStep<C> {
    match result {
        Ok(c) => ExtractStep::Loaded(c),
        Err(m) => if heals_spec(v, path_exists) {
            ExtractStep::Heal
        } else {
            ExtractStep::Failed(ConfigError::Parse { inner_error: m })
        },
    }
}

/// The outcome of the second extraction, made after a corrupt file was
/// deleted.
pub open spec fn after_retry_spec<C>(result: Result<C, String>) -> Result<C, ConfigError> {
    match result {
        Ok(c) => Ok(c),
        Err(m) => Err(ConfigError::Parse { inner_error: m }),
    }
}

impl<'a> Loader<'a> {
    /// The file this loader reads and writes, if any. A module source creates
    /// the directories on the way only when it writes back.
    pub fn resolve_path(&self) -> (r: Option<PathRequest>)
        ensures
            request_view(r) == resolve_spec(self@),
    {
        match &self.source {
            Source::Module(module) => Some(PathRequest::ConfigDir {
                module: module.clone(),
                create: self.write_back,
            }),
            Source::Path(path) => Some(PathRequest::Explicit(path.clone())),
            Source::NoFile => None,
        }
    }

    fn has_path(&self) -> (r: bool)
        ensures
            r == (resolve_spec(self@) is Some),
    {
        match &self.source {
            Source::NoFile => false,
            _ => true,
        }
    }

    /// The layers to merge, lowest precedence first. `path_exists` tells
    /// whether the resolved path exists; the shared keys are lower-cased, as
    /// the environment provider lower-cases the names it reads (for an ASCII
    /// name such as `OTLP_ENDPOINT`, the ASCII lower-case `otlp_endpoint`).
    pub fn layers(&self, path_exists: bool) -> (r: Vec<Layer<'a>>)
        ensures
            layer_views(r@) == layers_spec(self@, path_exists),
            forall|i: int|
                0 <= i < self@.shared_env.len() && is_ascii_text(#[trigger] self@.shared_env[i])
                    ==> lowercase(self@.shared_env[i]) == ascii_lowercase(self@.shared_env[i]),
    {
        let mut r: Vec<Layer<'a>> = Vec::new();
        r.push(Layer::Defaults);
        if self.has_path() && path_exists {
            r.push(Layer::File);
        }
        if self.shared_env.len() > 0 {
            let mut lowered_keys: Vec<String> = Vec::new();
            let n = self.shared_env.len();
            for i in 0..n
                invariant
                    n == self.shared_env@.len(),
                    string_views(lowered_keys@) =~= lowered(str_views(self.shared_env@)).take(i as int),
                    forall|j: int|
                        0 <= j < i && is_ascii_text(#[trigger] str_views(self.shared_env@)[j])
                            ==> lowercase(str_views(self.shared_env@)[j]) == ascii_lowercase(str_views(self.shared_env@)[j]),
            {
                let k = to_lowercase(self.shared_env[i]);
                proof {
                    let names = str_views(self.shared_env@);
                    assert(names[i as int] == self.shared_env@[i as int]@);
                    assert(lowered(names)[i as int] == key_lowercase(names[i as int]));
                }
                let ghost prev = lowered_keys@;
                let ghost kv = k@;
                lowered_keys.push(k);
                proof {
                    assert(lowered_keys@ == prev.push(k));
                    assert(string_views(lowered_keys@) =~= string_views(prev).push(kv));
                    assert(string_views(lowered_keys@) =~= lowered(str_views(self.shared_env@)).take(i + 1));
                }
            }
            proof {
                assert(lowered(str_views(self.shared_env@)).take(n as int) =~= lowered(str_views(self.shared_env@)));
            }
            r.push(Layer::SharedEnv(lowered_keys));
        }
        match self.env_prefix {
            Some(p) => r.push(Layer::PrefixedEnv(p)),
            None => {},
        }
        proof {
            assert(layer_views(r@) =~= layers_spec(self@, path_exists));
        }
        r
    }

    /// Decide what follows the first extraction, where `path_exists` tells
    /// whether the resolved path exists now. A failure is healed (the file
    /// deleted and the extraction repeated without it) only when this loader
    /// writes back and its file exists; otherwise it is a parse error.
    pub fn after_extract<C>(&self, path_exists: bool, result: Result<C, String>) -> (r: ExtractStep<C>)
        ensures
            r == after_extract_spec(self@, path_exists, result),
    {
        match result {
            Ok(c) => ExtractStep::Loaded(c),
            Err(m) => if self.write_back && self.has_path() && path_exists {
                ExtractStep::Heal
            } else {
                ExtractStep::Failed(ConfigError::Parse { inner_error: m })
            },
        }
    }

    /// Whether the loaded configuration is written back: only by a loader
    /// that writes back and has a file.
    pub fn writes_back(&self) -> (r: bool)
        ensures
            r == stores_spec(self@),
    {
        self.write_back && self.has_path()
    }
}

/// The outcome of the extraction repeated after a corrupt file was deleted: a
/// failure there is a parse error.
pub fn after_retry<C>(result: Result<C, String>) -> (r: Result<C, ConfigError>)
    ensures
        r == after_retry_spec(result),
{
    match result {
        Ok(c) => Ok(c),
        Err(m) => Err(ConfigError::Parse { inner_error: m }),
    }
}

} // verus!
