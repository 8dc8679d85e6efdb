//! The settings the watcher runs with, read once at start.
use vstd::prelude::*;
use crate::notify::{BatchModel, NotificationBatcher};

verus! {

/// Where notices are sent, and how they are batched.
#[derive(Debug)]
pub struct WebhookConfig {
    /// The endpoint; empty means none is configured.
    pub url: String,
    /// Written at the head of every digest.
    pub prefix: String,
    /// The batching window, in seconds.
    pub message_interval: u64,
}

/// The watcher's settings.
#[derive(Debug)]
pub struct Config {
    /// The repository's directory.
    pub repository: String,
    pub build: String,
    pub publish: String,
    pub branch: String,
    /// The poll interval, in seconds.
    pub interval: u64,
    pub webhook: WebhookConfig,
}

/// The file read when no configuration file is named.
pub const DEFAULT_CONFIG_FILE: &'static str = "autobuild.json";

impl Default for Config {
    fn default() -> (r: Config)
        ensures
            r.repository@ == "."@,
            r.build@ == "npm run build"@,
            r.publish@ == "npm run publish"@,
            r.branch@ == "main"@,
            r.interval == 10,
            r.webhook.url@.len() == 0,
            r.webhook.prefix@.len() == 0,
            r.webhook.message_interval == 60,
    {
        Config {
            repository: String::from_str("."),
            build: String::from_str("npm run build"),
            publish: String::from_str("npm run publish"),
            branch: String::from_str("main"),
            interval: 10,
            webhook: WebhookConfig {
                url: String::new(),
                prefix: String::new(),
                message_interval: 60,
            },
        }
    }
}

/// Where the settings come from.
#[derive(Debug)]
pub enum ConfigSource {
    /// Read them from this file.
    File(String),
    /// Use `Config::default()`.
    Defaults,
}

/// A named file is read; without one the default file is read where it exists;
/// otherwise the defaults apply.
pub fn config_source(path: Option<&str>, default_file_exists: bool) -> (r: ConfigSource)
    ensures
        (path matches Some(p) ==> (r matches ConfigSource::File(f) && f@ == p@)),
        path is None && default_file_exists ==> (r matches ConfigSource::File(f)
            && f@ == DEFAULT_CONFIG_FILE@),
        path is None && !default_file_exists ==> r is Defaults,
{
    match path {
        Some(p) => ConfigSource::File(String::from_str(p)),
        None => if default_file_exists {
            ConfigSource::File(String::from_str(DEFAULT_CONFIG_FILE))
        } else {
            ConfigSource::Defaults
        },
    }
}

impl NotificationBatcher {
    /// A fresh batcher for these settings: an empty URL means no endpoint.
    pub fn for_webhook(config: &WebhookConfig) -> (r: NotificationBatcher)
        ensures
            r.wf(),
            r@ == (BatchModel {
                backlog: Seq::empty(),
                sending: None,
                last_flush: None,
                window: config.message_interval as int,
                prefix: config.prefix@,
                has_endpoint: config.url@.len() != 0,
            }),
    {
        let has_endpoint = !config.url.as_str().is_empty();
        let r = NotificationBatcher::new(config.message_interval, config.prefix.clone(), has_endpoint);
        assert(r@.backlog =~= Seq::empty());
        r
    }
}

} // verus!
