//! Laws of the loader: what holds of every load, whatever the environment
//! and the file system report.

use vstd::prelude::*;

use crate::error::ConfigError;
use crate::loader::{
    after_extract_spec, has_file_spec, heals_spec, layers_spec, lowered, resolve_spec, stores_spec,
    ExtractStep, LayerView,
    LoaderView, PathRequestView, SourceView,
};
use crate::text::{ascii_lowercase, is_ascii_text, lowercase};
use crate::run::{accepts, step_spec, ActionView, LoadEvent, LoadPhase};

verus! {

/// The precedence of a layer: a layer of higher rank overrides one of lower
/// rank.
pub open spec fn layer_rank(l: LayerView) -> int {
    match l {
        LayerView::Defaults => 0,
        LayerView::File => 1,
        LayerView::SharedEnv(_) => 2,
        LayerView::PrefixedEnv(_) => 3,
    }
}

/// Layers are merged in increasing precedence: the type's defaults first,
/// then the TOML file, then the bare shared env, then the prefixed env; each
/// kind occurs at most once.
pub proof fn lemma_layers_in_precedence_order(v: LoaderView, path_exists: bool)
    ensures
        layers_spec(v, path_exists).len() >= 1,
        layers_spec(v, path_exists)[0] == LayerView::Defaults,
        forall|i: int, j: int|
            0 <= i < j < layers_spec(v, path_exists).len() ==> layer_rank(
                #[trigger] layers_spec(v, path_exists)[i],
            ) < layer_rank(#[trigger] layers_spec(v, path_exists)[j]),
{
    let s = layers_spec(v, path_exists);
    let f: Seq<LayerView> = if has_file_spec(v, path_exists) { seq![LayerView::File] } else { Seq::empty() };
    let e: Seq<LayerView> = if v.shared_env.len() > 0 {
        seq![LayerView::SharedEnv(lowered(v.shared_env))]
    } else {
        Seq::empty()
    };
    let p: Seq<LayerView> = match v.env_prefix {
        Some(x) => seq![LayerView::PrefixedEnv(x)],
        None => Seq::empty(),
    };
    assert(s == seq![LayerView::Defaults] + f + e + p);
    assert forall|i: int, j: int| 0 <= i < j < s.len() implies layer_rank(#[trigger] s[i]) < layer_rank(#[trigger] s[j]) by {
        // the rank of the element at each position of the concatenation
        assert forall|k: int| 0 <= k < s.len() implies {
            &&& (k == 0 ==> layer_rank(s[k]) == 0)
            &&& (1 <= k < 1 + f.len() ==> layer_rank(s[k]) == 1)
            &&& (1 + f.len() <= k < 1 + f.len() + e.len() ==> layer_rank(s[k]) == 2)
            &&& (1 + f.len() + e.len() <= k ==> layer_rank(s[k]) == 3)
        } by {
            if k == 0 {
            } else if k < 1 + f.len() {
                assert(s[k] == f[k - 1]);
            } else if k < 1 + f.len() + e.len() {
                assert(s[k] == e[k - 1 - f.len()]);
            } else {
                assert(s[k] == p[k - 1 - f.len() - e.len()]);
            }
        }
    }
}

/// The file layer is there exactly when the loader resolved a path that
/// exists; the shared layer exactly when shared keys were named, holding
/// their lower-cased names; the prefixed layer exactly when a prefix was set.
pub proof fn lemma_layers_present(v: LoaderView, path_exists: bool)
    ensures
        layers_spec(v, path_exists).contains(LayerView::File) <==> (resolve_spec(v) is Some && path_exists),
        layers_spec(v, path_exists).contains(LayerView::SharedEnv(lowered(v.shared_env))) <==> v.shared_env.len() > 0,
        forall|x: Seq<char>| #[trigger] layers_spec(v, path_exists).contains(LayerView::PrefixedEnv(x)) <==> v.env_prefix == Some(x),
{
    let s = layers_spec(v, path_exists);
    lemma_layers_in_precedence_order(v, path_exists);
    if has_file_spec(v, path_exists) {
        assert(s[1] == LayerView::File);
    }
    if v.shared_env.len() > 0 {
        let k = if has_file_spec(v, path_exists) { 2int } else { 1int };
        assert(s[k] == LayerView::SharedEnv(lowered(v.shared_env)));
    }
    if let Some(x) = v.env_prefix {
        assert(s[s.len() - 1] == LayerView::PrefixedEnv(x));
    }
    assert forall|x: Seq<char>| #[trigger] s.contains(LayerView::PrefixedEnv(x)) implies v.env_prefix == Some(x) by {
        let i = choose|i: int| 0 <= i < s.len() && s[i] == LayerView::PrefixedEnv(x);
        if i < s.len() - 1 {
            assert(layer_rank(s[i]) < layer_rank(s[s.len() - 1]));
        }
    }
}

/// A pure-env loader never touches the file system: no load of it resolves a
/// path, merges a file, deletes one, or writes one, whatever `write_back`
/// says.
pub proof fn lemma_pure_env_never_touches_files<C>(v: LoaderView, phase: LoadPhase<C>, event: LoadEvent<C>)
    requires
        v.source == SourceView::NoFile,
        accepts(phase, event),
    ensures
        !(step_spec(v, phase, event).1 is Resolve),
        !(step_spec(v, phase, event).1 is RemoveFile),
        !(step_spec(v, phase, event).1 is Store),
        step_spec(v, phase, event).1 matches ActionView::Extract(layers) ==> !layers.contains(LayerView::File),
{
    let pe = match event {
        LoadEvent::Resolved { path_exists } => path_exists,
        _ => false,
    };
    lemma_layers_present(v, false);
    lemma_layers_present(v, pe);
}

/// A loader that does not write back never deletes nor writes a file, and
/// never asks for directories to be created.
pub proof fn lemma_read_only_never_writes<C>(v: LoaderView, phase: LoadPhase<C>, event: LoadEvent<C>)
    requires
        !v.write_back,
        accepts(phase, event),
    ensures
        !(step_spec(v, phase, event).1 is RemoveFile),
        !(step_spec(v, phase, event).1 is Store),
        !(step_spec(v, phase, event).1 matches ActionView::Resolve(PathRequestView::ConfigDir { create: true, .. })),
{
}

/// Without a file, `write_back` has no effect: a pure-env load runs the same
/// way with and without it.
pub proof fn lemma_write_back_irrelevant_without_file<C>(v: LoaderView, write_back: bool, phase: LoadPhase<C>, event: LoadEvent<C>)
    requires
        v.source == SourceView::NoFile,
        accepts(phase, event),
    ensures
        step_spec(LoaderView { write_back: write_back, ..v }, phase, event) == step_spec(v, phase, event),
{
    let w = LoaderView { write_back: write_back, ..v };
    assert(layers_spec(w, false) == layers_spec(v, false));
    assert forall|b: bool| layers_spec(w, b) == layers_spec(v, b) by {}
}

/// Only a module source that writes back asks for directories to be
/// created; an explicit path never does.
pub proof fn lemma_directories_created_only_when_writing_back(v: LoaderView)
    ensures
        resolve_spec(v) matches Some(PathRequestView::ConfigDir { create, .. }) ==> (v.source is Module && create == v.write_back),
        v.source is Path ==> (resolve_spec(v) matches Some(PathRequestView::Explicit(p)) && v.source == SourceView::Path(p)),
{
}

/// A corrupt file is only ever deleted by a loader that writes back and has
/// a file that exists, and the load then falls back to defaults and
/// environment: the repeated extraction merges no file.
pub proof fn lemma_heal_falls_back_to_defaults_and_env<C>(v: LoaderView, phase: LoadPhase<C>, event: LoadEvent<C>)
    requires
        accepts(phase, event),
    ensures
        step_spec(v, phase, event).1 is RemoveFile ==> (phase is Extracting && v.write_back && resolve_spec(v) is Some
            && event matches LoadEvent::Extracted { result: Err(_), path_exists: true }),
        phase is Healing ==> step_spec(v, phase, event) == (LoadPhase::<C>::Retrying, ActionView::<C>::Extract(layers_spec(v, false))),
        !layers_spec(v, false).contains(LayerView::File),
{
    lemma_layers_present(v, false);
}

/// The configuration that a load writes back is the one it extracted: a
/// load asks for a write only when the loader writes back and has a file,
/// and then holds the extracted configuration in the storing phase.
pub proof fn lemma_stores_what_was_extracted<C>(v: LoaderView, phase: LoadPhase<C>, event: LoadEvent<C>)
    requires
        accepts(phase, event),
    ensures
        step_spec(v, phase, event).1 is Store ==> (stores_spec(v) && (event matches LoadEvent::Extracted { result: Ok(e), .. }
            && step_spec(v, phase, event).0 == LoadPhase::Storing { config: e })),
{
}

/// A successful load ends with the configuration it extracted, whether or
/// not it was written back in between.
pub proof fn lemma_load_yields_extracted_config<C>(v: LoaderView, phase: LoadPhase<C>, event: LoadEvent<C>)
    requires
        accepts(phase, event),
    ensures
        step_spec(v, phase, event).1 matches ActionView::Finish(Ok(c)) ==> {
            ||| (phase matches LoadPhase::Storing { config } && c == config
                && (event matches LoadEvent::Stored { outcome: Ok(()) }))
            ||| (!stores_spec(v) && (event matches LoadEvent::Extracted { result: Ok(e), .. } && c == e))
        },
        phase matches LoadPhase::Storing { config } ==> (event matches LoadEvent::Stored { outcome: Ok(()) } ==>
            step_spec(v, phase, event).1 == ActionView::Finish(Ok::<C, ConfigError>(config))),
{
}

/// Whether two names are ASCII and differ at most in the letter case of
/// their ASCII letters.
pub open spec fn same_ascii_ignoring_case(a: Seq<char>, b: Seq<char>) -> bool {
    is_ascii_text(a) && is_ascii_text(b) && ascii_lowercase(a) == ascii_lowercase(b)
}

/// Shared env keys are matched case-insensitively: a loader whose shared keys
/// are the same ASCII names up to letter case (`OTLP_ENDPOINT` or
/// `otlp_endpoint`) merges exactly the same layers.
pub proof fn lemma_shared_keys_ignore_ascii_case(v: LoaderView, keys: Seq<Seq<char>>, path_exists: bool)
    requires
        keys.len() == v.shared_env.len(),
        forall|i: int| 0 <= i < keys.len() ==> same_ascii_ignoring_case(#[trigger] keys[i], v.shared_env[i]),
    ensures
        layers_spec(LoaderView { shared_env: keys, ..v }, path_exists) == layers_spec(v, path_exists),
{
    assert(lowered(keys) =~= lowered(v.shared_env)) by {
        assert forall|i: int| 0 <= i < keys.len() implies #[trigger] lowered(keys)[i] == lowered(v.shared_env)[i] by {
            assert(same_ascii_ignoring_case(keys[i], v.shared_env[i]));
        }
    }
    assert(layers_spec(LoaderView { shared_env: keys, ..v }, path_exists) =~= layers_spec(v, path_exists));
}

/// Every shared-env layer that a loader merges holds one key per name it
/// was given, in order, each the lower-case of that name alone: the ASCII
/// lower-case for an ASCII name, the Unicode lower-case mapping otherwise;
/// and a loader that was given names merges such a layer.
pub proof fn lemma_each_shared_key_lowercased(v: LoaderView, path_exists: bool)
    ensures
        v.shared_env.len() > 0 ==> exists|i: int|
            0 <= i < layers_spec(v, path_exists).len() && #[trigger] layers_spec(v, path_exists)[i] is SharedEnv,
        forall|i: int|
            0 <= i < layers_spec(v, path_exists).len() && #[trigger] layers_spec(v, path_exists)[i] is SharedEnv ==> {
                let keys = layers_spec(v, path_exists)[i]->SharedEnv_0;
                &&& keys.len() == v.shared_env.len()
                &&& forall|j: int|
                    0 <= j < keys.len() ==> (is_ascii_text(v.shared_env[j]) ==> #[trigger] keys[j] == ascii_lowercase(v.shared_env[j]))
                        && (!is_ascii_text(v.shared_env[j]) ==> keys[j] == lowercase(v.shared_env[j]))
            },
{
    let s = layers_spec(v, path_exists);
    let f: Seq<LayerView> = if has_file_spec(v, path_exists) { seq![LayerView::File] } else { Seq::empty() };
    let e: Seq<LayerView> = if v.shared_env.len() > 0 {
        seq![LayerView::SharedEnv(lowered(v.shared_env))]
    } else {
        Seq::empty()
    };
    let p: Seq<LayerView> = match v.env_prefix {
        Some(x) => seq![LayerView::PrefixedEnv(x)],
        None => Seq::empty(),
    };
    assert(s == seq![LayerView::Defaults] + f + e + p);
    if v.shared_env.len() > 0 {
        assert(s[1 + f.len() as int] == LayerView::SharedEnv(lowered(v.shared_env)));
    }
    assert forall|i: int| 0 <= i < s.len() && #[trigger] s[i] is SharedEnv implies s[i] == LayerView::SharedEnv(lowered(v.shared_env)) by {
        if i == 0 {
        } else if i < 1 + f.len() {
            assert(s[i] == f[i - 1]);
        } else if i < 1 + f.len() + e.len() {
            assert(s[i] == e[i - 1 - f.len()]);
        } else {
            assert(s[i] == p[i - 1 - f.len() - e.len()]);
        }
    }
}

/// A load merges the file it resolved whenever that file exists, whether the
/// loader writes back or not, and only then; the prefixed env is merged
/// exactly when a prefix was set.
pub proof fn lemma_existing_file_is_merged<C>(v: LoaderView, path_exists: bool)
    requires
        !(v.source is NoFile),
    ensures
        step_spec(v, LoadPhase::<C>::Resolving, LoadEvent::<C>::Resolved { path_exists }).0 is Extracting,
        step_spec(v, LoadPhase::<C>::Resolving, LoadEvent::<C>::Resolved { path_exists }).1 is Extract,
        step_spec(v, LoadPhase::<C>::Resolving, LoadEvent::<C>::Resolved { path_exists }).1->Extract_0.contains(
            LayerView::File,
        ) <==> path_exists,
        step_spec(v, LoadPhase::<C>::Resolving, LoadEvent::<C>::Resolved { path_exists }).1->Extract_0[0]
            == LayerView::Defaults,
        forall|x: Seq<char>|
            #[trigger] step_spec(v, LoadPhase::<C>::Resolving, LoadEvent::<C>::Resolved { path_exists }).1->Extract_0.contains(
                LayerView::PrefixedEnv(x),
            ) <==> v.env_prefix == Some(x),
{
    lemma_layers_present(v, path_exists);
    lemma_layers_in_precedence_order(v, path_exists);
}

/// A failed first extraction is healed (the file deleted, then a retry)
/// exactly when the loader writes back, has a file source (a module or an
/// explicit path) and the file exists; otherwise the load ends with the parse
/// error carrying the failure's message.
pub proof fn lemma_heal_exactly_when_owned_file_exists<C>(v: LoaderView, message: String, path_exists: bool)
    ensures
        (step_spec(v, LoadPhase::<C>::Extracting, LoadEvent::<C>::Extracted { result: Err(message), path_exists }).1
            is RemoveFile) <==> (v.write_back && !(v.source is NoFile) && path_exists),
        (v.write_back && !(v.source is NoFile) && path_exists) ==> step_spec(
            v,
            LoadPhase::<C>::Extracting,
            LoadEvent::<C>::Extracted { result: Err(message), path_exists },
        ).0 is Healing,
        !(v.write_back && !(v.source is NoFile) && path_exists) ==> step_spec(
            v,
            LoadPhase::<C>::Extracting,
            LoadEvent::<C>::Extracted { result: Err(message), path_exists },
        ) == (LoadPhase::<C>::Finished, ActionView::<C>::Finish(Err(ConfigError::Parse { inner_error: message }))),
        (after_extract_spec::<C>(v, path_exists, Err(message)) is Heal) <==> (v.write_back && !(v.source is NoFile)
            && path_exists),
{
}

/// A load first resolves the file of its own source, unchanged: a module
/// source its module name (creating directories only when it writes back),
/// an explicit path that path; a pure-env source resolves nothing and goes
/// straight to merging defaults and environment.
pub proof fn lemma_resolves_own_source<C>(v: LoaderView)
    ensures
        v.source matches SourceView::Module(m) ==> {
            &&& resolve_spec(v) == Some(PathRequestView::ConfigDir { module: m, create: v.write_back })
            &&& step_spec(v, LoadPhase::<C>::Start, LoadEvent::<C>::Begin) == (
                LoadPhase::<C>::Resolving,
                ActionView::<C>::Resolve(PathRequestView::ConfigDir { module: m, create: v.write_back }),
            )
        },
        v.source matches SourceView::Path(p) ==> {
            &&& resolve_spec(v) == Some(PathRequestView::Explicit(p))
            &&& step_spec(v, LoadPhase::<C>::Start, LoadEvent::<C>::Begin) == (
                LoadPhase::<C>::Resolving,
                ActionView::<C>::Resolve(PathRequestView::Explicit(p)),
            )
        },
        v.source is NoFile ==> resolve_spec(v) is None && step_spec(v, LoadPhase::<C>::Start, LoadEvent::<C>::Begin).0
            is Extracting,
{
}

/// A successful extraction is written back exactly when the loader writes
/// back and has a file source, whatever its env prefix and shared keys; the
/// storing phase then holds the extracted configuration, and otherwise the
/// load ends with it at once. The same holds after a healed retry.
pub proof fn lemma_write_back_after_successful_load<C>(
    v: LoaderView,
    config: C,
    path_exists: bool,
    env_prefix: Option<Seq<char>>,
    shared_env: Seq<Seq<char>>,
)
    ensures
        stores_spec(v) <==> (v.write_back && !(v.source is NoFile)),
        (step_spec(v, LoadPhase::<C>::Extracting, LoadEvent::<C>::Extracted { result: Ok(config), path_exists }).1
            is Store) <==> (v.write_back && !(v.source is NoFile)),
        (v.write_back && !(v.source is NoFile)) ==> step_spec(
            v,
            LoadPhase::<C>::Extracting,
            LoadEvent::<C>::Extracted { result: Ok(config), path_exists },
        ) == (LoadPhase::Storing { config }, ActionView::<C>::Store),
        !(v.write_back && !(v.source is NoFile)) ==> step_spec(
            v,
            LoadPhase::<C>::Extracting,
            LoadEvent::<C>::Extracted { result: Ok(config), path_exists },
        ) == (LoadPhase::<C>::Finished, ActionView::<C>::Finish(Ok(config))),
        step_spec(v, LoadPhase::<C>::Retrying, LoadEvent::<C>::Extracted { result: Ok(config), path_exists })
            == step_spec(v, LoadPhase::<C>::Extracting, LoadEvent::<C>::Extracted { result: Ok(config), path_exists }),
        step_spec(
            LoaderView { env_prefix: env_prefix, shared_env: shared_env, ..v },
            LoadPhase::<C>::Extracting,
            LoadEvent::<C>::Extracted { result: Ok(config), path_exists },
        ) == step_spec(v, LoadPhase::<C>::Extracting, LoadEvent::<C>::Extracted { result: Ok(config), path_exists }),
{
}

/// A load that fails after a heal, or whose write-back fails, ends with that
/// failure: the retry's message as a parse error, the write's own error.
pub proof fn lemma_late_failures_carry_their_cause<C>(v: LoaderView, message: String, path_exists: bool, config: C, error: ConfigError)
    ensures
        step_spec(v, LoadPhase::<C>::Retrying, LoadEvent::<C>::Extracted { result: Err(message), path_exists }) == (
            LoadPhase::<C>::Finished,
            ActionView::<C>::Finish(Err(ConfigError::Parse { inner_error: message })),
        ),
        step_spec(v, LoadPhase::Storing { config }, LoadEvent::<C>::Stored { outcome: Err(error) }) == (
            LoadPhase::<C>::Finished,
            ActionView::<C>::Finish(Err(error)),
        ),
        step_spec(v, LoadPhase::Storing { config }, LoadEvent::<C>::Stored { outcome: Ok(()) }) == (
            LoadPhase::<C>::Finished,
            ActionView::<C>::Finish(Ok(config)),
        ),
{
}

/// After a corrupt file is deleted, the load retries from defaults and the
/// whole environment: the retry merges the defaults first, no file, the
/// prefixed env exactly when a prefix was set, and the shared env exactly when
/// shared keys were named.
pub proof fn lemma_retry_merges_defaults_and_env<C>(v: LoaderView)
    ensures
        step_spec(v, LoadPhase::<C>::Healing, LoadEvent::<C>::Removed).0 is Retrying,
        step_spec(v, LoadPhase::<C>::Healing, LoadEvent::<C>::Removed).1 is Extract,
        step_spec(v, LoadPhase::<C>::Healing, LoadEvent::<C>::Removed).1->Extract_0[0] == LayerView::Defaults,
        !step_spec(v, LoadPhase::<C>::Healing, LoadEvent::<C>::Removed).1->Extract_0.contains(LayerView::File),
        forall|x: Seq<char>|
            #[trigger] step_spec(v, LoadPhase::<C>::Healing, LoadEvent::<C>::Removed).1->Extract_0.contains(
                LayerView::PrefixedEnv(x),
            ) <==> v.env_prefix == Some(x),
        step_spec(v, LoadPhase::<C>::Healing, LoadEvent::<C>::Removed).1->Extract_0.contains(
            LayerView::SharedEnv(lowered(v.shared_env)),
        ) <==> v.shared_env.len() > 0,
{
    lemma_layers_present(v, false);
    lemma_layers_in_precedence_order(v, false);
}

} // verus!
