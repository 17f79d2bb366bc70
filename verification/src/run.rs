//! A load as a sequence of steps: the loader decides each next action from
//! the phase it is in and what the previous action produced, and the caller
//! performs the action (resolving the path, extracting the layered
//! configuration, deleting a corrupt file, writing the result back) and
//! reports back.

use vstd::prelude::*;

use crate::error::ConfigError;
use crate::loader::{
    after_retry, heals_spec, layer_views, layers_spec, resolve_spec, stores_spec, ExtractStep,
    Layer, LayerView, Loader, LoaderView, PathRequest, PathRequestView,
};

verus! {

/// Where a load stands.
#[derive(Debug)]
pub enum LoadPhase<C> {
    /// Nothing happened yet.
    Start,
    /// Waiting for the path of the file.
    Resolving,
    /// Waiting for the first extraction.
    Extracting,
    /// Waiting for a corrupt file to be deleted.
    Healing,
    /// Waiting for the extraction repeated without the file.
    Retrying,
    /// Waiting for the loaded configuration, held here, to be written back.
    Storing { config: C },
    /// The load is over.
    Finished,
}

/// What the caller reports after performing an action.
#[derive(Debug)]
pub enum LoadEvent<C> {
    /// The load begins.
    Begin,
    /// The requested path was resolved; `path_exists` tells whether a file
    /// is there.
    Resolved { path_exists: bool },
    /// The layers were merged and extracted into the config type (or the
    /// message of the failure); `path_exists` tells whether the resolved path
    /// exists after the extraction.
    Extracted { result: Result<C, String>, path_exists: bool },
    /// The file was deleted (or the deletion failed, which is ignored).
    Removed,
    /// The configuration held by the storing phase was written back, with
    /// this outcome.
    Stored { outcome: Result<(), ConfigError> },
}

/// What the caller is asked to do next.
#[derive(Debug)]
pub enum LoadAction<'a, C> {
    /// Resolve this path, and tell whether the file exists.
    Resolve(PathRequest),
    /// Merge these layers, lowest precedence first, and extract the
    /// configuration.
    Extract(Vec<Layer<'a>>),
    /// Delete the resolved file.
    RemoveFile,
    /// Write the configuration held by the storing phase to the resolved
    /// file.
    Store,
    /// The load is over, with this outcome.
    Finish(Result<C, ConfigError>),
}

/// The model of a [`LoadAction`].
pub enum ActionView<C> {
    Resolve(PathRequestView),
    Extract(Seq<LayerView>),
    RemoveFile,
    Store,
    Finish(Result<C, ConfigError>),
}

pub open spec fn action_view<'a, C>(a: LoadAction<'a, C>) -> ActionView<C> {
    match a {
        LoadAction::Resolve(q) => ActionView::Resolve(q@),
        LoadAction::Extract(layers) => ActionView::Extract(layer_views(layers@)),
        LoadAction::RemoveFile => ActionView::RemoveFile,
        LoadAction::Store => ActionView::Store,
        LoadAction::Finish(r) => ActionView::Finish(r),
    }
}

/// Whether `event` answers the action that led to `phase`.
pub open spec fn accepts<C>(phase: LoadPhase<C>, event: LoadEvent<C>) -> bool {
    match phase {
        LoadPhase::Start => event is Begin,
        LoadPhase::Resolving => event is Resolved,
        LoadPhase::Extracting => event is Extracted,
        LoadPhase::Healing => event is Removed,
        LoadPhase::Retrying => event is Extracted,
        LoadPhase::Storing { .. } => event is Stored,
        LoadPhase::Finished => false,
    }
}

/// What follows a loaded configuration: writing it back, or the end.
pub open spec fn loaded_spec<C>(v: LoaderView, c: C) -> (LoadPhase<C>, ActionView<C>) {
    if stores_spec(v) {
        (LoadPhase::Storing { config: c }, ActionView::Store)
    } else {
        (LoadPhase::Finished, ActionView::Finish(Ok(c)))
    }
}

/// The next phase and action of a load by a loader with model `v`.
pub open spec fn step_spec<C>(v: LoaderView, phase: LoadPhase<C>, event: LoadEvent<C>) -> (LoadPhase<C>, ActionView<C>) {
    match (phase, event) {
        (LoadPhase::Start, _) => match resolve_spec(v) {
            Some(q) => (LoadPhase::Resolving, ActionView::Resolve(q)),
            None => (LoadPhase::Extracting, ActionView::Extract(layers_spec(v, false))),
        },
        (LoadPhase::Resolving, LoadEvent::Resolved { path_exists }) =>
            (LoadPhase::Extracting, ActionView::Extract(layers_spec(v, path_exists))),
        (LoadPhase::Extracting, LoadEvent::Extracted { result, path_exists }) => match result {
            Ok(c) => loaded_spec(v, c),
            Err(m) => if heals_spec(v, path_exists) {
                (LoadPhase::Healing, ActionView::RemoveFile)
            } else {
                (LoadPhase::Finished, ActionView::Finish(Err(ConfigError::Parse { inner_error: m })))
            },
        },
        (LoadPhase::Healing, _) => (LoadPhase::Retrying, ActionView::Extract(layers_spec(v, false))),
        (LoadPhase::Retrying, LoadEvent::Extracted { result, .. }) => match result {
            Ok(c) => loaded_spec(v, c),
            Err(m) => (LoadPhase::Finished, ActionView::Finish(Err(ConfigError::Parse { inner_error: m }))),
        },
        (LoadPhase::Storing { config }, LoadEvent::Stored { outcome }) => match outcome {
            Ok(()) => (LoadPhase::Finished, ActionView::Finish(Ok(config))),
            Err(e) => (LoadPhase::Finished, ActionView::Finish(Err(e))),
        },
        _ => vstd::pervasive::arbitrary(),
    }
}

impl<'a> Loader<'a> {
    fn after_load<C>(&self, c: C) -> (r: (LoadPhase<C>, LoadAction<'a, C>))
        ensures
            (r.0, action_view(r.1)) == loaded_spec(self@, c),
    {
        if self.writes_back() {
            (LoadPhase::Storing { config: c }, LoadAction::Store)
        } else {
            (LoadPhase::Finished, LoadAction::Finish(Ok(c)))
        }
    }

    /// The next step of a load: given the phase the load is in and what the
    /// caller reports of the last action, the phase it moves to and the
    /// action the caller performs next.
    ///
    /// A load resolves the file (when the source has one), extracts the
    /// layered configuration, and on success writes it back when this loader
    /// writes back and has a file; the storing phase holds the configuration
    /// until the write is reported, and the load then ends with it. When the first extraction fails, a loader
    /// that writes back deletes its file if it exists and extracts again from
    /// defaults and environment; any other failure is a parse error.
    pub fn step<C>(&self, phase: LoadPhase<C>, event: LoadEvent<C>) -> (r: (LoadPhase<C>, LoadAction<'a, C>))
        requires
            accepts(phase, event),
        ensures
            (r.0, action_view(r.1)) == step_spec(self@, phase, event),
    {
        match phase {
            LoadPhase::Start => match self.resolve_path() {
                Some(q) => (LoadPhase::Resolving, LoadAction::Resolve(q)),
                None => (LoadPhase::Extracting, LoadAction::Extract(self.layers(false))),
            },
            LoadPhase::Resolving => match event {
                LoadEvent::Resolved { path_exists } =>
                    (LoadPhase::Extracting, LoadAction::Extract(self.layers(path_exists))),
                _ => vstd::pervasive::unreached(),
            },
            LoadPhase::Extracting => match event {
                LoadEvent::Extracted { result, path_exists } => match self.after_extract(path_exists, result) {
                    ExtractStep::Loaded(c) => self.after_load(c),
                    ExtractStep::Heal => (LoadPhase::Healing, LoadAction::RemoveFile),
                    ExtractStep::Failed(e) => (LoadPhase::Finished, LoadAction::Finish(Err(e))),
                },
                _ => vstd::pervasive::unreached(),
            },
            LoadPhase::Healing => (LoadPhase::Retrying, LoadAction::Extract(self.layers(false))),
            LoadPhase::Retrying => match event {
                LoadEvent::Extracted { result, .. } => match after_retry(result) {
                    Ok(c) => self.after_load(c),
                    Err(e) => (LoadPhase::Finished, LoadAction::Finish(Err(e))),
                },
                _ => vstd::pervasive::unreached(),
            },
            LoadPhase::Storing { config } => match event {
                LoadEvent::Stored { outcome } => match outcome {
                    Ok(()) => (LoadPhase::Finished, LoadAction::Finish(Ok(config))),
                    Err(e) => (LoadPhase::Finished, LoadAction::Finish(Err(e))),
                },
                _ => vstd::pervasive::unreached(),
            },
            LoadPhase::Finished => vstd::pervasive::unreached(),
        }
    }
}

} // verus!
