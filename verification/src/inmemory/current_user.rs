//! The slot that holds the current user.

use vstd::prelude::*;
use crate::config::{lemma_bits, BITS_USER_CURRENT, Config, EntityType};
use crate::entity::user::current_user::{CurrentUserEntity, CurrentUserRepository};
use crate::inmemory::InMemoryBackendError;
use crate::repository::SingleEntityRepository;

verus! {

/// Repository to retrieve and work with the current user.
///
/// There is one current user at most; it is not kept by id.
pub struct InMemoryCurrentUserRepository {
    user: Option<CurrentUserEntity>,
    enabled: bool,
}

impl InMemoryCurrentUserRepository {
    /// Make the repository of the current user under a configuration: it
    /// holds nothing, and it stores what is upserted if the configuration
    /// has the flag of the current user.
    pub fn new(config: &Config) -> (repo: Self)
        ensures
            repo.wf(),
            repo.entity() is None,
            repo.accepts() == config.spec_entity_types().spec_contains(EntityType::spec_of(BITS_USER_CURRENT)),
    {
        let flag = EntityType::USER_CURRENT();
        proof {
            lemma_bits(flag);
        }
        InMemoryCurrentUserRepository { user: None, enabled: config.entity_types().contains(flag) }
    }
}

impl SingleEntityRepository<CurrentUserEntity, InMemoryBackendError> for InMemoryCurrentUserRepository {
    /// A repository that is switched off holds nothing.
    closed spec fn wf(&self) -> bool {
        !self.enabled ==> self.user is None
    }

    closed spec fn entity(&self) -> Option<CurrentUserEntity> {
        self.user
    }

    closed spec fn accepts(&self) -> bool {
        self.enabled
    }

    open spec fn reliable() -> bool {
        true
    }

    fn get(&self) -> (found: Result<Option<CurrentUserEntity>, InMemoryBackendError>)
        ensures
            !self.accepts() ==> found == Ok::<Option<CurrentUserEntity>, InMemoryBackendError>(None),
    {
        match &self.user {
            Some(user) => Ok(Some(user.duplicate())),
            None => Ok(None),
        }
    }

    fn remove(&mut self) -> (done: Result<(), InMemoryBackendError>) {
        self.user = None;
        Ok(())
    }

    fn upsert(&mut self, entity: CurrentUserEntity) -> (done: Result<(), InMemoryBackendError>) {
        if !self.enabled {
            return Ok(());
        }
        self.user = Some(entity);
        Ok(())
    }
}

impl CurrentUserRepository<InMemoryBackendError> for InMemoryCurrentUserRepository {
}

} // verus!
