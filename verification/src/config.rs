//! The configuration: where uploads go, where downloads go, and which
//! folders hold audio. The current configuration is a value that the caller
//! keeps; reading it from disk and writing it back is the caller's business.

use crate::text::{clone_texts, contains_text, has_prefix, texts};
use vstd::prelude::*;
use vstd::string::{StrSliceExecFns, StringExecFns};

verus! {

/// The folders the server works with. A folder that begins with `~/` lies
/// below the user's home directory.
#[derive(Debug, PartialEq, Eq)]
pub struct Config {
    pub upload_folder: String,
    pub download_folder: String,
    pub audio_folders: Vec<String>,
}

/// A configuration, as mathematics.
pub struct ConfigModel {
    pub upload_folder: Seq<char>,
    pub download_folder: Seq<char>,
    pub audio_folders: Seq<Seq<char>>,
}

impl View for Config {
    type V = ConfigModel;

    open spec fn view(&self) -> ConfigModel {
        ConfigModel {
            upload_folder: self.upload_folder@,
            download_folder: self.download_folder@,
            audio_folders: texts(self.audio_folders@),
        }
    }
}

impl ConfigModel {
    /// The configuration of a first start.
    pub open spec fn initial() -> ConfigModel {
        ConfigModel {
            upload_folder: "~/noplacelike/uploads"@,
            download_folder: "~/Downloads"@,
            audio_folders: Seq::empty(),
        }
    }

    /// The configuration with `folder` among the audio folders: added at the
    /// end unless it is there already.
    pub open spec fn with_audio_folder(self, folder: Seq<char>) -> ConfigModel {
        if self.audio_folders.contains(folder) {
            self
        } else {
            ConfigModel { audio_folders: self.audio_folders.push(folder), ..self }
        }
    }

    /// The configuration without `folder` among the audio folders; the others
    /// keep their order.
    pub open spec fn without_audio_folder(self, folder: Seq<char>) -> ConfigModel {
        ConfigModel {
            audio_folders: self.audio_folders.filter(|kept: Seq<char>| kept != folder),
            ..self
        }
    }

    /// The audio folders to serve: those configured, or the default one where
    /// none is.
    pub open spec fn served_audio_folders(self) -> Seq<ExpandedPathModel> {
        if self.audio_folders.len() == 0 {
            seq![expansion_of(default_audio_folder())]
        } else {
            self.audio_folders.map_values(|folder: Seq<char>| expansion_of(folder))
        }
    }
}

/// The audio folder that is served where none is configured.
pub open spec fn default_audio_folder() -> Seq<char> {
    "~/noplacelike/audio"@
}

impl Default for Config {
    fn default() -> (config: Self)
        ensures
            config@ == ConfigModel::initial(),
    {
        let config = Config {
            upload_folder: String::from_str("~/noplacelike/uploads"),
            download_folder: String::from_str("~/Downloads"),
            audio_folders: Vec::new(),
        };
        assert(texts(config.audio_folders@) =~= Seq::empty());
        config
    }
}

impl Clone for Config {
    fn clone(&self) -> (copy: Self)
        ensures
            copy@ == self@,
    {
        Config {
            upload_folder: self.upload_folder.clone(),
            download_folder: self.download_folder.clone(),
            audio_folders: clone_texts(&self.audio_folders),
        }
    }
}

/// A configured path, read: either a path below the home directory or a path
/// to take as it stands.
#[derive(Debug, Clone, PartialEq, Eq)]
pub enum ExpandedPath {
    /// The path, relative to the home directory.
    UnderHome(String),
    /// The path as it was written.
    AsGiven(String),
}

/// A configured path, read, as mathematics.
pub enum ExpandedPathModel {
    UnderHome(Seq<char>),
    AsGiven(Seq<char>),
}

impl View for ExpandedPath {
    type V = ExpandedPathModel;

    open spec fn view(&self) -> ExpandedPathModel {
        match self {
            ExpandedPath::UnderHome(rest) => ExpandedPathModel::UnderHome(rest@),
            ExpandedPath::AsGiven(path) => ExpandedPathModel::AsGiven(path@),
        }
    }
}

/// How `path` is read: what follows a leading `~/` lies below the home
/// directory, any other path stands as it is.
pub open spec fn expansion_of(path: Seq<char>) -> ExpandedPathModel {
    if seq!['~', '/'].is_prefix_of(path) {
        ExpandedPathModel::UnderHome(path.skip(2))
    } else {
        ExpandedPathModel::AsGiven(path)
    }
}

/// Reads a configured path.
pub fn expand_path(path: &str) -> (expanded: ExpandedPath)
    ensures
        expanded@ == expansion_of(path@),
{
    proof {
        reveal_strlit("~/");
        assert("~/"@ =~= seq!['~', '/']);
    }
    if has_prefix(path, "~/") {
        let rest = path.substring_char(2, path.unicode_len());
        assert(rest@ =~= path@.skip(2));
        ExpandedPath::UnderHome(rest.to_owned())
    } else {
        ExpandedPath::AsGiven(path.to_owned())
    }
}

/// Takes what was read from the configuration file as the current
/// configuration. Where nothing usable was read (`stored` is `None`) the
/// defaults become current, and the second result tells the caller to write
/// them to the file.
pub fn load_config(store: &mut Config, stored: Option<Config>) -> (loaded: (Config, bool))
    ensures
        final(store)@ == loaded.0@,
        loaded.1 == (stored is None),
        loaded.0@ == match stored {
            Some(config) => config@,
            None => ConfigModel::initial(),
        },
{
    match stored {
        Some(config) => {
            *store = config.clone();
            (config, false)
        },
        None => {
            let config = Config::default();
            save_config(store, &config);
            (config, true)
        },
    }
}

/// Makes `config` the current configuration. The caller writes it to the
/// file.
pub fn save_config(store: &mut Config, config: &Config)
    ensures
        final(store)@ == config@,
{
    *store = config.clone();
}

/// Makes `config` the current configuration and hands it back.
pub fn update_config(store: &mut Config, config: Config) -> (current: Config)
    ensures
        final(store)@ == config@,
        current@ == config@,
{
    save_config(store, &config);
    config
}

/// Where uploads go, read off the current configuration.
pub fn ensure_upload_folder(store: &Config) -> (folder: ExpandedPath)
    ensures
        folder@ == expansion_of(store@.upload_folder),
{
    expand_path(store.upload_folder.as_str())
}

/// The audio folders to serve, in the order configured; the default folder
/// where none is configured.
pub fn get_audio_folders(store: &Config) -> (folders: Vec<ExpandedPath>)
    ensures
        folders@.map_values(|folder: ExpandedPath| folder@) == store@.served_audio_folders(),
{
    let mut folders: Vec<ExpandedPath> = Vec::new();
    let ghost view = |folder: ExpandedPath| folder@;
    let ghost expand = |folder: Seq<char>| expansion_of(folder);
    let mut i: usize = 0;
    while i < store.audio_folders.len()
        invariant
            i <= store.audio_folders.len(),
            folders@.len() == i,
            forall|j: int| 0 <= j < i ==> folders@[j]@ == expansion_of(store@.audio_folders[j]),
        decreases store.audio_folders.len() - i,
    {
        folders.push(expand_path(store.audio_folders[i].as_str()));
        i += 1;
    }
    if folders.len() == 0 {
        proof {
            reveal_strlit("~/noplacelike/audio");
        }
        folders.push(expand_path("~/noplacelike/audio"));
        assert(folders@.map_values(view) =~= seq![expansion_of(default_audio_folder())]);
    } else {
        assert(folders@.map_values(view) =~= store@.audio_folders.map_values(expand));
    }
    folders
}

/// Adds `folder` to the audio folders of the current configuration unless it
/// is there already. This cannot fail.
pub fn add_audio_folder(store: &mut Config, folder: String) -> (done: Result<(), String>)
    ensures
        done is Ok,
        final(store)@ == old(store)@.with_audio_folder(folder@),
{
    if !contains_text(&store.audio_folders, folder.as_str()) {
        let ghost before = store.audio_folders@;
        store.audio_folders.push(folder);
        assert(texts(store.audio_folders@) =~= texts(before).push(folder@));
    }
    Ok(())
}

/// Removes `folder` from the audio folders of the current configuration,
/// wherever it stands. This cannot fail.
pub fn remove_audio_folder(store: &mut Config, folder: &str) -> (done: Result<(), String>)
    ensures
        done is Ok,
        final(store)@ == old(store)@.without_audio_folder(folder@),
{
    let unwanted = folder.to_owned();
    let ghost differs = |kept: Seq<char>| kept != folder@;
    let ghost all = texts(store.audio_folders@);
    let mut kept: Vec<String> = Vec::new();
    let mut i: usize = 0;
    while i < store.audio_folders.len()
        invariant
            i <= store.audio_folders.len(),
            unwanted@ == folder@,
            all == texts(store.audio_folders@),
            differs == |kept: Seq<char>| kept != folder@,
            texts(kept@) == all.take(i as int).filter(differs),
        decreases store.audio_folders.len() - i,
    {
        let ghost before = kept@;
        proof {
            assert(all.take(i + 1) =~= all.take(i as int).push(all[i as int]));
            all.take(i as int).lemma_filter_push(all[i as int], differs);
        }
        if store.audio_folders[i] != unwanted {
            kept.push(store.audio_folders[i].clone());
            assert(texts(kept@) =~= texts(before).push(all[i as int]));
        }
        i += 1;
    }
    assert(all.take(store.audio_folders.len() as int) =~= all);
    store.audio_folders = kept;
    Ok(())
}

} // verus!
