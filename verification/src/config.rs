//! The configuration that is kept between sessions, and the question whether
//! the screen runs inside the desktop shell.
//!
//! The store in which the configuration is kept belongs to the host, and so
//! does the turning of a configuration into text and back. This module decides
//! what is asked of the host and what is made of its answers: each operation is
//! a short exchange in which the host does one thing at a time and hands the
//! outcome to the next step. No step fails: whatever goes wrong ends in the
//! default configuration, or in nothing done, and in a warning for the log.

use std::collections::HashMap;
use vstd::prelude::*;

use crate::text::text_view;

verus! {

/// The key under which the configuration is stored.
pub const CONFIG_KEY: &'static str = "cube_shuffle_config";

/// The property of the host's global object that the desktop shell sets.
pub const TAURI_MARKER: &'static str = "__TAURI__";

/// The property that later versions of the desktop shell set.
pub const TAURI_INTERNALS_MARKER: &'static str = "__TAURI_INTERNALS__";

/// The pack size of a configuration that was never saved.
pub const DEFAULT_PACK_SIZE: usize = 15;

/// What reading one property of the host's global object gave.
#[derive(Clone, Copy, Debug, PartialEq, Eq)]
pub enum Probe {
    /// The property could not be read.
    Failed,
    /// The property is not there.
    Undefined,
    /// The property is there and holds null.
    Null,
    /// The property is there and holds a value.
    Present,
}

/// What reading the two markers of the desktop shell gave.
#[derive(Clone, Copy, Debug, PartialEq, Eq)]
pub struct HostMarkers {
    /// The outcome for `TAURI_MARKER`.
    pub tauri: Probe,
    /// The outcome for `TAURI_INTERNALS_MARKER`.
    pub internals: Probe,
}

/// Whether the screen runs inside the desktop shell: the host has a global
/// object, and at least one of the two markers is there and is not null.
/// `None` stands for a host without a global object.
pub fn is_tauri(window: Option<HostMarkers>) -> (desktop: bool)
    ensures
        desktop == (window matches Some(markers) && (markers.tauri is Present
            || markers.internals is Present)),
{
    match window {
        Some(markers) => {
            match markers.tauri {
                Probe::Present => true,
                _ => match markers.internals {
                    Probe::Present => true,
                    _ => false,
                },
            }
        },
        None => false,
    }
}

/// The configuration that is kept between sessions. `P` is the record of one
/// pile, which this library carries and never reads. A pack holds at least one
/// card: a configuration whose pack size is zero is none, and no load ends
/// with one.
#[derive(Clone, Debug, PartialEq)]
pub struct Config<P> {
    pub piles: HashMap<String, P>,
    pub seed: String,
    pub pack_size: usize,
}

/// A configuration as contracts see it.
pub struct ConfigView<P> {
    pub piles: Map<String, P>,
    pub seed: Seq<char>,
    pub pack_size: nat,
}

impl<P> View for Config<P> {
    type V = ConfigView<P>;

    open spec fn view(&self) -> ConfigView<P> {
        ConfigView { piles: self.piles@, seed: self.seed@, pack_size: self.pack_size as nat }
    }
}

impl<P> ConfigView<P> {
    /// The pack size is positive.
    pub open spec fn is_valid(self) -> bool {
        self.pack_size >= 1
    }

    /// The configuration of a session that has nothing saved: no piles, no
    /// seed, packs of fifteen.
    pub open spec fn default() -> ConfigView<P> {
        ConfigView { piles: Map::empty(), seed: Seq::empty(), pack_size: DEFAULT_PACK_SIZE as nat }
    }
}

impl<P> Default for Config<P> {
    fn default() -> (config: Config<P>)
        ensures
            config@ == ConfigView::<P>::default(),
    {
        Config { piles: HashMap::new(), seed: String::new(), pack_size: DEFAULT_PACK_SIZE }
    }
}

/// What a load does next.
pub enum LoadStep<P> {
    /// The host is to read the entry under `key` and hand the outcome to
    /// `Config::load_read`.
    Read { key: &'static str },
    /// The host is to parse `text` as a configuration and hand the outcome to
    /// `Config::load_parsed`.
    Parse { text: String },
    /// The load has ended with `config`; `warning`, if any, goes to the log.
    Done { config: Config<P>, warning: Option<String> },
}

/// A step of a load as contracts see it.
pub enum LoadStepView<P> {
    Read { key: Seq<char> },
    Parse { text: Seq<char> },
    Done { config: ConfigView<P>, warning: Option<Seq<char>> },
}

impl<P> View for LoadStep<P> {
    type V = LoadStepView<P>;

    open spec fn view(&self) -> LoadStepView<P> {
        match *self {
            LoadStep::Read { key } => LoadStepView::Read { key: key@ },
            LoadStep::Parse { text } => LoadStepView::Parse { text: text@ },
            LoadStep::Done { config, warning } => LoadStepView::Done {
                config: config@,
                warning: text_view(warning),
            },
        }
    }
}

/// What a save does next.
#[derive(Clone, Debug, PartialEq, Eq)]
pub enum SaveStep {
    /// The host is to turn the configuration into text and hand the outcome
    /// to `Config::save_serialized`.
    Serialize,
    /// The host is to write `text` under `key` and hand the outcome to
    /// `Config::save_written`.
    Write { key: &'static str, text: String },
    /// The save has ended; `warning`, if any, goes to the log.
    Done { warning: Option<String> },
}

/// A step of a save as contracts see it.
pub enum SaveStepView {
    Serialize,
    Write { key: Seq<char>, text: Seq<char> },
    Done { warning: Option<Seq<char>> },
}

impl View for SaveStep {
    type V = SaveStepView;

    open spec fn view(&self) -> SaveStepView {
        match *self {
            SaveStep::Serialize => SaveStepView::Serialize,
            SaveStep::Write { key, text } => SaveStepView::Write { key: key@, text: text@ },
            SaveStep::Done { warning } => SaveStepView::Done { warning: text_view(warning) },
        }
    }
}

/// The outcome of reading the stored entry as contracts see it: the text
/// found, or that there is none, or why the read failed.
pub open spec fn read_view(read: Result<Option<String>, String>) -> Result<
    Option<Seq<char>>,
    Seq<char>,
> {
    match read {
        Ok(entry) => Ok(text_view(entry)),
        Err(detail) => Err(detail@),
    }
}

/// The outcome of parsing as contracts see it: the configuration, or why the
/// text is none.
pub open spec fn parsed_view<P>(parsed: Result<Config<P>, String>) -> Result<
    ConfigView<P>,
    Seq<char>,
> {
    match parsed {
        Ok(config) => Ok(config@),
        Err(detail) => Err(detail@),
    }
}

/// The outcome of turning a configuration into text as contracts see it.
pub open spec fn serialized_view(serialized: Result<String, String>) -> Result<
    Seq<char>,
    Seq<char>,
> {
    match serialized {
        Ok(text) => Ok(text@),
        Err(detail) => Err(detail@),
    }
}

/// The outcome of writing the entry as contracts see it.
pub open spec fn written_view(written: Result<(), String>) -> Result<(), Seq<char>> {
    match written {
        Ok(_) => Ok(()),
        Err(detail) => Err(detail@),
    }
}

/// The warning of a load that found no store.
pub open spec fn warning_no_store_to_load() -> Seq<char> {
    "localStorage not available, using default config"@
}

/// The warning of a load whose read failed.
pub open spec fn warning_load_failed(detail: Seq<char>) -> Seq<char> {
    "Failed to load config: "@ + detail + ", using default"@
}

/// The warning of a load that found text which is no configuration.
pub open spec fn warning_parse_failed(detail: Seq<char>) -> Seq<char> {
    "Failed to parse saved config: "@ + detail + ", using default"@
}

/// What is wrong with a configuration whose pack size is zero.
pub open spec fn detail_no_pack_size() -> Seq<char> {
    "pack_size must be at least 1"@
}

/// The warning of a save that found no store.
pub open spec fn warning_no_store_to_save() -> Seq<char> {
    "localStorage not available, cannot save config"@
}

/// The warning of a save whose configuration could not be turned into text.
pub open spec fn warning_serialize_failed(detail: Seq<char>) -> Seq<char> {
    "Failed to serialize config: "@ + detail
}

/// The warning of a save whose write failed.
pub open spec fn warning_save_failed(detail: Seq<char>) -> Seq<char> {
    "Failed to save config: "@ + detail
}

impl<P> ConfigView<P> {
    /// The first step of a load: without a store it ends at once with the
    /// default and a warning; with one, the entry is read.
    pub open spec fn load(store_available: bool) -> LoadStepView<P> {
        if store_available {
            LoadStepView::Read { key: CONFIG_KEY@ }
        } else {
            LoadStepView::Done {
                config: ConfigView::default(),
                warning: Some(warning_no_store_to_load()),
            }
        }
    }

    /// The step after the read: text that was found is parsed; with no entry
    /// the load ends with the default, silently; a failed read ends it with
    /// the default and a warning.
    pub open spec fn load_read(read: Result<Option<Seq<char>>, Seq<char>>) -> LoadStepView<P> {
        match read {
            Ok(Some(text)) => LoadStepView::Parse { text },
            Ok(None) => LoadStepView::Done { config: ConfigView::default(), warning: None },
            Err(detail) => LoadStepView::Done {
                config: ConfigView::default(),
                warning: Some(warning_load_failed(detail)),
            },
        }
    }

    /// The step after the parse, which ends the load: with the configuration
    /// that was parsed, where its pack size is positive; with the default and
    /// a warning, where the text was no configuration or gave a pack size of
    /// zero.
    pub open spec fn load_parsed(parsed: Result<ConfigView<P>, Seq<char>>) -> LoadStepView<P> {
        match parsed {
            Ok(config) => if config.is_valid() {
                LoadStepView::Done { config, warning: None }
            } else {
                LoadStepView::Done {
                    config: ConfigView::default(),
                    warning: Some(warning_parse_failed(detail_no_pack_size())),
                }
            },
            Err(detail) => LoadStepView::Done {
                config: ConfigView::default(),
                warning: Some(warning_parse_failed(detail)),
            },
        }
    }

    /// The first step of a save: without a store it ends at once with a
    /// warning; with one, the configuration is turned into text.
    pub open spec fn save(store_available: bool) -> SaveStepView {
        if store_available {
            SaveStepView::Serialize
        } else {
            SaveStepView::Done { warning: Some(warning_no_store_to_save()) }
        }
    }

    /// The step after the configuration was turned into text: the text is
    /// written under the key; a failure ends the save with a warning.
    pub open spec fn save_serialized(serialized: Result<Seq<char>, Seq<char>>) -> SaveStepView {
        match serialized {
            Ok(text) => SaveStepView::Write { key: CONFIG_KEY@, text },
            Err(detail) => SaveStepView::Done { warning: Some(warning_serialize_failed(detail)) },
        }
    }

    /// The step after the write, which ends the save: silently, or with a
    /// warning where the write failed.
    pub open spec fn save_written(written: Result<(), Seq<char>>) -> SaveStepView {
        match written {
            Ok(_) => SaveStepView::Done { warning: None },
            Err(detail) => SaveStepView::Done { warning: Some(warning_save_failed(detail)) },
        }
    }

    /// The key of the entry that a reset removes; none without a store.
    pub open spec fn reset(store_available: bool) -> Option<Seq<char>> {
        if store_available {
            Some(CONFIG_KEY@)
        } else {
            None
        }
    }
}

/// `head` and `detail` in one text.
fn prefixed(head: &str, detail: &str) -> (text: String)
    ensures
        text@ == head@ + detail@,
{
    let mut text = String::from_str(head);
    text.append(detail);
    text
}

/// `head`, `detail` and `tail` in one text.
fn framed(head: &str, detail: &str, tail: &str) -> (text: String)
    ensures
        text@ == head@ + detail@ + tail@,
{
    let mut text = prefixed(head, detail);
    text.append(tail);
    text
}

impl<P> Config<P> {
    /// Begins a load. `store_available` tells whether the host has a store.
    pub fn load(store_available: bool) -> (step: LoadStep<P>)
        ensures
            step@ == ConfigView::<P>::load(store_available),
    {
        if store_available {
            LoadStep::Read { key: CONFIG_KEY }
        } else {
            LoadStep::Done {
                config: Config::default(),
                warning: Some(
                    String::from_str("localStorage not available, using default config"),
                ),
            }
        }
    }

    /// Goes on with a load once the entry was read: `Ok` with the text found
    /// or with `None` where there is no entry, `Err` with the reason where the
    /// read failed.
    pub fn load_read(read: Result<Option<String>, String>) -> (step: LoadStep<P>)
        ensures
            step@ == ConfigView::<P>::load_read(read_view(read)),
    {
        match read {
            Ok(Some(text)) => LoadStep::Parse { text },
            Ok(None) => LoadStep::Done { config: Config::default(), warning: None },
            Err(detail) => {
                let warning = framed("Failed to load config: ", detail.as_str(), ", using default");
                LoadStep::Done { config: Config::default(), warning: Some(warning) }
            },
        }
    }

    /// Ends a load once the text was parsed: `Ok` with the configuration,
    /// `Err` with the reason where the text is none. A configuration whose
    /// pack size is zero is none either: the load then ends with the default
    /// and a warning, as it does for text that did not parse.
    pub fn load_parsed(parsed: Result<Config<P>, String>) -> (step: LoadStep<P>)
        ensures
            step@ == ConfigView::<P>::load_parsed(parsed_view(parsed)),
            parsed matches Ok(given) ==> (given.pack_size >= 1 ==> (step matches LoadStep::Done {
                config,
                ..
            } && config == given)),
            step matches LoadStep::Done { config, .. } && config.pack_size >= 1,
    {
        match parsed {
            Ok(config) => {
                if config.pack_size == 0 {
                    let warning = framed(
                        "Failed to parse saved config: ",
                        "pack_size must be at least 1",
                        ", using default",
                    );
                    LoadStep::Done { config: Config::default(), warning: Some(warning) }
                } else {
                    LoadStep::Done { config, warning: None }
                }
            },
            Err(detail) => {
                let warning = framed(
                    "Failed to parse saved config: ",
                    detail.as_str(),
                    ", using default",
                );
                LoadStep::Done { config: Config::default(), warning: Some(warning) }
            },
        }
    }

    /// Begins a save of this configuration, which stays as it is whatever
    /// becomes of the save.
    pub fn save(&self, store_available: bool) -> (step: SaveStep)
        ensures
            step@ == ConfigView::<P>::save(store_available),
    {
        if store_available {
            SaveStep::Serialize
        } else {
            SaveStep::Done {
                warning: Some(String::from_str("localStorage not available, cannot save config")),
            }
        }
    }

    /// Goes on with a save once the configuration was turned into text: `Ok`
    /// with the text, `Err` with the reason where that failed.
    pub fn save_serialized(serialized: Result<String, String>) -> (step: SaveStep)
        ensures
            step@ == ConfigView::<P>::save_serialized(serialized_view(serialized)),
    {
        match serialized {
            Ok(text) => SaveStep::Write { key: CONFIG_KEY, text },
            Err(detail) => {
                let warning = prefixed("Failed to serialize config: ", detail.as_str());
                SaveStep::Done { warning: Some(warning) }
            },
        }
    }

    /// Ends a save once the text was written: `Err` with the reason where the
    /// write failed.
    pub fn save_written(written: Result<(), String>) -> (step: SaveStep)
        ensures
            step@ == ConfigView::<P>::save_written(written_view(written)),
    {
        match written {
            Ok(_) => SaveStep::Done { warning: None },
            Err(detail) => {
                let warning = prefixed("Failed to save config: ", detail.as_str());
                SaveStep::Done { warning: Some(warning) }
            },
        }
    }

    /// The key of the entry that the host is to remove from its store, or
    /// `None` where it has no store and nothing is to be done. Whether the
    /// removal succeeds is of no account. The configuration in memory is the
    /// caller's to set back.
    pub fn reset(store_available: bool) -> (key: Option<&'static str>)
        ensures
            match key {
                Some(key) => ConfigView::<P>::reset(store_available) == Some(key@),
                None => ConfigView::<P>::reset(store_available) is None,
            },
    {
        if store_available {
            Some(CONFIG_KEY)
        } else {
            None
        }
    }
}

/// A host as the steps of this module meet it, for stating what the steps
/// achieve together on a store that works.
#[verifier::reject_recursive_types(P)]
pub struct HostModel<P> {
    /// What the store holds under each key; `None` where the host has no
    /// store.
    pub store: Option<Map<Seq<char>, Seq<char>>>,
    /// What the host makes of a text that it is asked to parse.
    pub parse: spec_fn(Seq<char>) -> Result<ConfigView<P>, Seq<char>>,
    /// What the host makes of a configuration that it is asked to turn into
    /// text.
    pub serialize: spec_fn(ConfigView<P>) -> Result<Seq<char>, Seq<char>>,
}

/// The configuration that a finished load has ended with.
pub open spec fn ended_with<P>(step: LoadStepView<P>) -> ConfigView<P> {
    match step {
        LoadStepView::Done { config, .. } => config,
        _ => arbitrary(),
    }
}

impl<P> HostModel<P> {
    /// What a read of the entry under `key` gives on a store that works.
    pub open spec fn read(self, key: Seq<char>) -> Result<Option<Seq<char>>, Seq<char>> {
        if self.store.unwrap().dom().contains(key) {
            Ok(Some(self.store.unwrap()[key]))
        } else {
            Ok(None)
        }
    }

    /// The configuration that a load ends with on this host, where the host
    /// does at each step what the step asks for.
    pub open spec fn loaded(self) -> ConfigView<P> {
        match ConfigView::<P>::load(self.store is Some) {
            LoadStepView::Read { key } => match ConfigView::<P>::load_read(self.read(key)) {
                LoadStepView::Parse { text } => ended_with(
                    ConfigView::load_parsed((self.parse)(text)),
                ),
                step => ended_with(step),
            },
            step => ended_with(step),
        }
    }

    /// The host after a save of `config`, where the host does at each step
    /// what the step asks for and its store takes what is written.
    pub open spec fn after_save(self, config: ConfigView<P>) -> HostModel<P> {
        match ConfigView::<P>::save(self.store is Some) {
            SaveStepView::Serialize => match ConfigView::<P>::save_serialized(
                (self.serialize)(config),
            ) {
                SaveStepView::Write { key, text } => HostModel {
                    store: Some(self.store.unwrap().insert(key, text)),
                    ..self
                },
                _ => self,
            },
            _ => self,
        }
    }

    /// The host after a reset, where its store lets go of what it is asked to
    /// remove.
    pub open spec fn after_reset(self) -> HostModel<P> {
        match ConfigView::<P>::reset(self.store is Some) {
            Some(key) => HostModel { store: Some(self.store.unwrap().remove(key)), ..self },
            None => self,
        }
    }
}

/// A load gives what the store holds under the key, parsed, and in every
/// other case the default: where there is no store, where the store has no
/// entry under the key, where the entry is no configuration, and where it
/// gives a pack size of zero.
pub proof fn lemma_loaded<P>(host: HostModel<P>)
    ensures
        host.loaded() == match host.store {
            None => ConfigView::<P>::default(),
            Some(entries) => if entries.dom().contains(CONFIG_KEY@) {
                match (host.parse)(entries[CONFIG_KEY@]) {
                    Ok(config) => if config.is_valid() {
                        config
                    } else {
                        ConfigView::<P>::default()
                    },
                    Err(_) => ConfigView::<P>::default(),
                }
            } else {
                ConfigView::<P>::default()
            },
        },
{
}

/// Whatever the host holds and however it parses, the configuration that a
/// load ends with has a positive pack size.
pub proof fn lemma_loaded_is_valid<P>(host: HostModel<P>)
    ensures
        host.loaded().is_valid(),
{
    lemma_loaded(host);
}

/// What was saved is what is loaded: on a host with a store, whose parsing
/// gives back each configuration that it has turned into text, a load after a
/// save of a configuration with a positive pack size ends with that
/// configuration.
pub proof fn lemma_load_after_save<P>(host: HostModel<P>, config: ConfigView<P>)
    requires
        config.is_valid(),
        host.store is Some,
        (host.serialize)(config) matches Ok(text) && (host.parse)(text) == Ok::<
            ConfigView<P>,
            Seq<char>,
        >(config),
    ensures
        host.after_save(config).loaded() == config,
{
}

/// A save on a host without a store leaves the host as it is.
pub proof fn lemma_save_needs_store<P>(host: HostModel<P>, config: ConfigView<P>)
    requires
        host.store is None,
    ensures
        host.after_save(config) == host,
        ConfigView::<P>::save(false) == (SaveStepView::Done {
            warning: Some(warning_no_store_to_save()),
        }),
{
}

/// After a reset a load ends with the default.
pub proof fn lemma_load_after_reset<P>(host: HostModel<P>)
    ensures
        host.after_reset().loaded() == ConfigView::<P>::default(),
{
}

} // verus!
