use std::cell::Cell;

use sq_streamhook::config::{ConfigError, ConfigStore, StreamhookConfig};

fn cfg(version: u8, account: &str) -> StreamhookConfig {
    StreamhookConfig::new(version, account.to_string(), vec!["alice".to_string(), "bob".to_string()])
}

#[test]
fn check_version_accepts_version_one() {
    let checked = cfg(1, "mod").check_version().unwrap();
    assert_eq!(checked.version(), 1);
    assert_eq!(checked.mod_account(), "mod");
    assert_eq!(checked.streamers(), &vec!["alice".to_string(), "bob".to_string()]);
}

#[test]
fn check_version_refuses_other_versions() {
    assert_eq!(cfg(2, "mod").check_version().err(), Some(ConfigError::WrongVersion(2)));
    assert_eq!(cfg(0, "mod").check_version().err(), Some(ConfigError::WrongVersion(0)));
}

#[test]
fn get_loads_once() {
    let loads = Cell::new(0u32);
    let load = || {
        loads.set(loads.get() + 1);
        cfg(1, &format!("mod{}", loads.get()))
    };
    let mut store = ConfigStore::new();
    assert_eq!(StreamhookConfig::get(&mut store, &load).mod_account(), "mod1");
    assert_eq!(StreamhookConfig::get(&mut store, &load).mod_account(), "mod1");
    assert_eq!(StreamhookConfig::get_config(&mut store, &load).mod_account(), "mod1");
    assert_eq!(loads.get(), 1);
}

#[test]
fn reload_replaces_the_stored_config() {
    let loads = Cell::new(0u32);
    let load = || {
        loads.set(loads.get() + 1);
        cfg(1, &format!("mod{}", loads.get()))
    };
    let mut store = ConfigStore::new();
    assert_eq!(StreamhookConfig::get_mod_account(&mut store, &load), "mod1");
    StreamhookConfig::reload(&mut store, &load);
    assert_eq!(loads.get(), 2);
    assert_eq!(StreamhookConfig::get_mod_account(&mut store, &load), "mod2");
    assert_eq!(loads.get(), 2);
}

#[test]
fn reload_of_empty_store_loads_twice() {
    let loads = Cell::new(0u32);
    let load = || {
        loads.set(loads.get() + 1);
        cfg(1, &format!("mod{}", loads.get()))
    };
    let mut store = ConfigStore::new();
    StreamhookConfig::reload(&mut store, &load);
    assert_eq!(loads.get(), 2);
    assert_eq!(StreamhookConfig::get_config(&mut store, &load).mod_account(), "mod2");
}
