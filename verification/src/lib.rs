//! # rarity-cache
//!
//! A cache of what a gateway client knows: guilds, channels, messages,
//! members, roles, users, presences and voice states, kept up to date from
//! the events of the gateway, so that an application need not ask the remote
//! API what it has been told already.
//!
//! # Design
//!
//! The cache is built around the repository pattern. Entities - things like
//! guilds, channels, or users - contain data about themselves and refer to
//! each other by id only, while repositories are for retrieving, removing,
//! and modifying those entries at the data source. A [`Backend`] makes one
//! repository per entity type; the [`Cache`] holds them and knows what each
//! event of the gateway asks of them.
//!
//! Every function of the library states in its contract what it returns and
//! what it changes, over the entities that a repository holds
//! ([`Repository::entries`]), and is verified against that contract.
//!
//! # Backends
//!
//! - [`inmemory`]: datastore in the process's memory, with a bound on the
//!   messages kept per channel and a switch per entity type
//! - [`NoopRepository`]: holds nothing, for the entity types that a backend
//!   leaves out
//! - [`unqlite`]: the keys for a backend over a key-value store
//!
//! # Usage
//!
//! ```ignore
//! use rarity_cache::id::GuildId;
//! use rarity_cache::inmemory::InMemoryCache;
//! use rarity_cache::Repository;
//!
//! let mut cache = InMemoryCache::new();
//!
//! // To update the cache, you pass events from the gateway into it.
//! cache.process(event)?;
//!
//! // Get a guild by its id, and its members:
//! if let Some(guild) = cache.guilds.get(GuildId(987_654_321))? {
//!     println!("the guild's name is {}", guild.name);
//! }
//! ```
//!
//! The repositories work through exclusive borrows: what a call leaves
//! behind is what the next call finds. Callers that share a cache between
//! threads put it behind a lock.

pub mod backend;
pub mod cache;
pub mod config;
pub mod entity;
pub mod id;
pub mod inmemory;
pub mod lemmas;
pub mod model;
pub mod repository;
pub mod unqlite;
pub mod utils;

pub use self::backend::Backend;
pub use self::cache::Cache;
pub use self::entity::Entity;
pub use self::repository::{NoopRepository, Repository, SingleEntityRepository};
