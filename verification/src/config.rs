//! The bot's configuration and the process-wide store that holds it.
use vstd::prelude::*;

verus! {

/// The only version of the configuration file that this program reads.
pub const SUPPORTED_CONFIG_VERSION: u8 = 1;

/// The contents of the configuration file.
pub struct StreamhookConfig {
    version: u8,
    mod_account: String,
    streamers: Vec<String>,
}

/// Why a configuration was refused.
#[derive(Debug, Clone, Copy, PartialEq, Eq, Structural)]
pub enum ConfigError {
    /// The file declares a version other than the supported one.
    WrongVersion(u8),
}

impl StreamhookConfig {
    pub closed spec fn spec_version(&self) -> u8 {
        self.version
    }

    pub closed spec fn spec_mod_account(&self) -> Seq<char> {
        self.mod_account@
    }

    pub closed spec fn spec_streamers(&self) -> Seq<Seq<char>> {
        crate::string_views(self.streamers@)
    }

    /// A configuration with the given fields, as read from the file.
    pub fn new(version: u8, mod_account: String, streamers: Vec<String>) -> (cfg: Self)
        ensures
            cfg.spec_version() == version,
            cfg.spec_mod_account() == mod_account@,
            cfg.spec_streamers() == crate::string_views(streamers@),
    {
        StreamhookConfig { version, mod_account, streamers }
    }

    /// Accepts a configuration read from the file only if it declares the
    /// supported version.
    pub fn check_version(self) -> (res: Result<Self, ConfigError>)
        ensures
            self.spec_version() == SUPPORTED_CONFIG_VERSION ==> res == Ok::<Self, ConfigError>(self),
            self.spec_version() != SUPPORTED_CONFIG_VERSION ==> res == Err::<Self, ConfigError>(
                ConfigError::WrongVersion(self.spec_version()),
            ),
    {
        if self.version == SUPPORTED_CONFIG_VERSION {
            Ok(self)
        } else {
            let v = self.version;
            Err(ConfigError::WrongVersion(v))
        }
    }
}

/// The process-wide configuration: empty until first asked for.
pub struct ConfigStore {
    current: Option<StreamhookConfig>,
}

impl ConfigStore {
    pub closed spec fn spec_current(&self) -> Option<StreamhookConfig> {
        self.current
    }

    pub fn new() -> (store: Self)
        ensures
            store.spec_current() is None,
    {
        ConfigStore { current: None }
    }
}

/// What holds after a read of the store: the store holds `cfg`, which is what
/// it held before, or, if it was empty, a configuration that `load` returned.
pub open spec fn read_post<F: Fn() -> StreamhookConfig>(
    before: Option<StreamhookConfig>,
    after: Option<StreamhookConfig>,
    cfg: StreamhookConfig,
    load: F,
) -> bool {
    &&& after == Some(cfg)
    &&& before matches Some(c) ==> c == cfg
    &&& before is None ==> load.ensures((), cfg)
}

/// What holds after a reload: the store holds a configuration that `load`
/// returned.
pub open spec fn reload_post<F: Fn() -> StreamhookConfig>(
    after: Option<StreamhookConfig>,
    load: F,
) -> bool {
    after matches Some(c) && load.ensures((), c)
}

impl StreamhookConfig {
    /// The stored configuration; loads it with `load` first if the store is
    /// still empty. Once the store holds a configuration, this neither loads
    /// again nor changes it.
    pub fn get<'a, F: Fn() -> StreamhookConfig>(store: &'a mut ConfigStore, load: &F) -> (cfg: &'a StreamhookConfig)
        requires
            load.requires(()),
        ensures
            read_post(old(store).spec_current(), final(store).spec_current(), *cfg, *load),
    {
        if store.current.is_none() {
            let loaded = load();
            store.current = Some(loaded);
        }
        match &store.current {
            Some(cfg) => cfg,
            None => vstd::pervasive::unreached(),
        }
    }

    /// Replaces the stored configuration with a freshly loaded one. An empty
    /// store is filled first, as a read would, and then loaded again.
    pub fn reload<F: Fn() -> StreamhookConfig>(store: &mut ConfigStore, load: &F)
        requires
            load.requires(()),
        ensures
            reload_post(final(store).spec_current(), *load),
    {
        let _ = Self::get(store, load);
        let fresh = load();
        store.current = Some(fresh);
    }

    /// The stored configuration, loaded first if the store is still empty.
    pub fn get_config<'a, F: Fn() -> StreamhookConfig>(store: &'a mut ConfigStore, load: &F) -> (cfg: &'a StreamhookConfig)
        requires
            load.requires(()),
        ensures
            read_post(old(store).spec_current(), final(store).spec_current(), *cfg, *load),
    {
        Self::get(store, load)
    }

    /// The moderator account of the stored configuration, which is loaded
    /// first if the store is still empty.
    pub fn get_mod_account<F: Fn() -> StreamhookConfig>(store: &mut ConfigStore, load: &F) -> (account: String)
        requires
            load.requires(()),
        ensures
            final(store).spec_current() is Some,
            read_post(
                old(store).spec_current(),
                final(store).spec_current(),
                final(store).spec_current().unwrap(),
                *load,
            ),
            account@ == final(store).spec_current().unwrap().spec_mod_account(),
    {
        let cfg = Self::get(store, load);
        cfg.mod_account.clone()
    }

    /// The declared version of the configuration file.
    pub fn version(&self) -> (v: u8)
        ensures
            v == self.spec_version(),
    {
        self.version
    }

    /// The account the bot acts as a moderator with.
    pub fn mod_account(&self) -> (account: &String)
        ensures
            account@ == self.spec_mod_account(),
    {
        &self.mod_account
    }

    /// The handles of the streamers the bot follows.
    pub fn streamers(&self) -> (streamers: &Vec<String>)
        ensures
            crate::string_views(streamers@) == self.spec_streamers(),
    {
        &self.streamers
    }
}

/// Once a reload has put a configuration in the store, a read returns that
/// configuration and leaves the store as it was.
pub proof fn lemma_read_after_reload<F: Fn() -> StreamhookConfig>(
    reloaded: Option<StreamhookConfig>,
    after_read: Option<StreamhookConfig>,
    cfg: StreamhookConfig,
    load: F,
)
    requires
        reload_post(reloaded, load),
        read_post(reloaded, after_read, cfg, load),
    ensures
        reloaded == Some(cfg),
        after_read == reloaded,
        load.ensures((), cfg),
{
}

/// Two reads in a row return the same configuration, and the second one
/// does not change the store.
pub proof fn lemma_reads_agree<F: Fn() -> StreamhookConfig>(
    before: Option<StreamhookConfig>,
    middle: Option<StreamhookConfig>,
    after: Option<StreamhookConfig>,
    first: StreamhookConfig,
    second: StreamhookConfig,
    load: F,
)
    requires
        read_post(before, middle, first, load),
        read_post(middle, after, second, load),
    ensures
        first == second,
        after == middle,
{
}

} // verus!
