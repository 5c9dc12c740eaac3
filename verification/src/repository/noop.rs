//! The repository that holds nothing.

use vstd::prelude::*;
use crate::backend::Backend;
use crate::entity::Entity;
use crate::entity::channel::attachment::AttachmentRepository;
use crate::entity::channel::category_channel::CategoryChannelRepository;
use crate::entity::channel::group::GroupRepository;
use crate::entity::channel::message::MessageRepository;
use crate::entity::channel::private_channel::PrivateChannelRepository;
use crate::entity::channel::text_channel::TextChannelRepository;
use crate::entity::channel::voice_channel::VoiceChannelRepository;
use crate::entity::gateway::presence::PresenceRepository;
use crate::entity::guild::GuildRepository;
use crate::entity::guild::emoji::EmojiRepository;
use crate::entity::guild::member::MemberRepository;
use crate::entity::guild::role::RoleRepository;
use crate::entity::user::UserRepository;
use crate::entity::voice::state::VoiceStateRepository;
use crate::id::GuildId;
use crate::repository::Repository;

verus! {

/// Repository that implements no operations: when called it will do nothing.
///
/// This is a default repository that may be used by backends when a specific
/// entity, such as presences, is not handled by the cache.
///
/// Retrieval methods such as `get` will return no entity, and mutating
/// methods such as `upsert` will do nothing with the given entity.
/// Entity-specific repositories also function this way.
pub struct NoopRepository<B>(B);

impl<B: Backend> NoopRepository<B> {
    /// The backend that the repository was made with.
    pub closed spec fn spec_backend(&self) -> B {
        self.0
    }

    /// Create a new noop repository with the backend.
    pub fn new(backend: B) -> (repo: Self)
        ensures
            repo.spec_backend() == backend,
    {
        NoopRepository(backend)
    }

    /// Returns an immutable reference to the backend.
    pub fn backend(&self) -> (backend: &B)
        ensures
            *backend == self.spec_backend(),
    {
        &self.0
    }
}

impl<B: Backend, E: Entity> Repository<E, B::Error> for NoopRepository<B> {
    open spec fn wf(&self) -> bool {
        true
    }

    open spec fn entries(&self) -> Map<E::Id, E> {
        Map::empty()
    }

    open spec fn accepts(&self) -> bool {
        false
    }

    open spec fn evicted_by(&self, entity: E) -> Set<E::Id> {
        Set::empty()
    }

    open spec fn reliable() -> bool {
        true
    }

    open spec fn keeps_all() -> bool {
        true
    }

    proof fn lemma_ids(&self, entity_id: E::Id) {
    }

    proof fn lemma_replacing(&self, entity: E) {
        assert(<Self as Repository<E, B::Error>>::evicted_by(self, entity) =~= Set::<E::Id>::empty());
    }

    proof fn lemma_keeps_all(&self, entity: E) {
        assert(<Self as Repository<E, B::Error>>::evicted_by(self, entity) =~= Set::<E::Id>::empty());
    }

    /// Always returns no entity.
    fn get(&self, entity_id: E::Id) -> (found: Result<Option<E>, B::Error>) {
        Ok(None)
    }

    /// Always returns an empty list with no entities.
    fn list(&self) -> (found: Result<Vec<E>, B::Error>) {
        Ok(Vec::new())
    }

    /// Always returns an empty list with no ids.
    fn ids_in_guild(&self, guild_id: GuildId) -> (found: Result<Vec<E::Id>, B::Error>) {
        Ok(Vec::new())
    }

    /// Always does nothing.
    fn remove(&mut self, entity_id: E::Id) -> (done: Result<(), B::Error>) {
        proof {
            assert(Map::<E::Id, E>::empty().remove(entity_id) =~= Map::<E::Id, E>::empty());
        }
        Ok(())
    }

    /// Always does nothing with the provided entity.
    fn upsert(&mut self, entity: E) -> (done: Result<(), B::Error>) {
        Ok(())
    }

    /// Always does nothing.
    fn remove_bulk(&mut self, entity_ids: Vec<E::Id>) -> (done: Result<(), B::Error>) {
        proof {
            assert(Map::<E::Id, E>::empty().remove_keys(entity_ids@.to_set()) =~= Map::<E::Id, E>::empty());
        }
        Ok(())
    }

    /// Always does nothing with the provided entities.
    fn upsert_bulk(&mut self, entities: Vec<E>) -> (done: Result<(), B::Error>) {
        Ok(())
    }
}

impl<B: Backend> AttachmentRepository<B::Error> for NoopRepository<B> {
}

impl<B: Backend> CategoryChannelRepository<B::Error> for NoopRepository<B> {
}

impl<B: Backend> EmojiRepository<B::Error> for NoopRepository<B> {
}

impl<B: Backend> GroupRepository<B::Error> for NoopRepository<B> {
}

impl<B: Backend> GuildRepository<B::Error> for NoopRepository<B> {
}

impl<B: Backend> MemberRepository<B::Error> for NoopRepository<B> {
}

impl<B: Backend> MessageRepository<B::Error> for NoopRepository<B> {
}

impl<B: Backend> PresenceRepository<B::Error> for NoopRepository<B> {
}

impl<B: Backend> PrivateChannelRepository<B::Error> for NoopRepository<B> {
}

impl<B: Backend> RoleRepository<B::Error> for NoopRepository<B> {
}

impl<B: Backend> TextChannelRepository<B::Error> for NoopRepository<B> {
}

impl<B: Backend> UserRepository<B::Error> for NoopRepository<B> {
}

impl<B: Backend> VoiceChannelRepository<B::Error> for NoopRepository<B> {
}

impl<B: Backend> VoiceStateRepository<B::Error> for NoopRepository<B> {
}

} // verus!
