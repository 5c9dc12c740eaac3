//! The voice state entity and its repository.

use vstd::prelude::*;
use crate::entity::Entity;
use crate::entity::channel::voice_channel::VoiceChannelEntity;
use crate::id::{ChannelId, GuildId, UserId};
use crate::model::voice::VoiceState;
use crate::repository::Repository;
use crate::utils::relation_and_then;

verus! {

/// The voice state of a user in a guild.
#[derive(Clone, Debug, PartialEq, Eq)]
pub struct VoiceStateEntity {
    pub channel_id: Option<ChannelId>,
    pub deaf: bool,
    pub guild_id: GuildId,
    pub mute: bool,
    pub self_deaf: bool,
    pub self_mute: bool,
    pub self_stream: bool,
    pub session_id: String,
    pub suppress: bool,
    pub token: Option<String>,
    pub user_id: UserId,
}

impl VoiceStateEntity {
    /// The entity that [`VoiceStateEntity::from`] makes.
    pub open spec fn spec_from(pair: (VoiceState, GuildId)) -> VoiceStateEntity {
        VoiceStateEntity {
            channel_id: pair.0.channel_id,
            deaf: pair.0.deaf,
            guild_id: pair.1,
            mute: pair.0.mute,
            self_deaf: pair.0.self_deaf,
            self_mute: pair.0.self_mute,
            self_stream: pair.0.self_stream,
            session_id: pair.0.session_id,
            suppress: pair.0.suppress,
            token: pair.0.token,
            user_id: pair.0.user_id,
        }
    }

    /// Make the entity of a voice state in the given guild.
    pub fn from(pair: (VoiceState, GuildId)) -> (entity: VoiceStateEntity)
        ensures
            entity == Self::spec_from(pair),
    {
        VoiceStateEntity {
            channel_id: pair.0.channel_id,
            deaf: pair.0.deaf,
            guild_id: pair.1,
            mute: pair.0.mute,
            self_deaf: pair.0.self_deaf,
            self_mute: pair.0.self_mute,
            self_stream: pair.0.self_stream,
            session_id: pair.0.session_id,
            suppress: pair.0.suppress,
            token: pair.0.token,
            user_id: pair.0.user_id,
        }
    }
}

impl Entity for VoiceStateEntity {
    type Id = (GuildId, UserId);

    open spec fn spec_id(&self) -> (GuildId, UserId) {
        (self.guild_id, self.user_id)
    }

    open spec fn spec_scope(&self) -> Option<GuildId> {
        Some(self.guild_id)
    }

    /// Return an ID consisting of a tuple of the guild ID and user ID.
    fn id(&self) -> (id: (GuildId, UserId)) {
        (self.guild_id, self.user_id)
    }

    fn scope(&self) -> (guild_id: Option<GuildId>) {
        Some(self.guild_id)
    }
}

/// Repository to work with voice states and their associated entities.
pub trait VoiceStateRepository<Error>: Repository<VoiceStateEntity, Error> {
    /// Retrieve the channel associated with a voice state.
    /// 
    /// If the channel ID of the voice state is `None`, or the channel does not
    /// exist in the cache, then `Ok(None)` is returned.
    fn channel<R: Repository<VoiceChannelEntity, Error>>(
        &self,
        voice_channels: &R,
        guild_id: GuildId,
        user_id: UserId,
    ) -> (found: Result<Option<VoiceChannelEntity>, Error>)
        requires
            self.wf(),
            voice_channels.wf(),
        ensures
            Self::reliable() && R::reliable() ==> found is Ok,
            found matches Ok(entity) ==> entity == (match self.entries().get((guild_id, user_id)) {
                Some(local) => match local.channel_id {
                    Some(foreign_id) => voice_channels.entries().get(foreign_id),
                    None => None,
                },
                None => None,
            }),
    {
        let foreign_id = |local: VoiceStateEntity| -> (id: Option<ChannelId>)
            ensures
                id == local.channel_id,
        {
            local.channel_id
        };
        relation_and_then(self, voice_channels, (guild_id, user_id), foreign_id)
    }
}

/// The entities of the voice states of a guild, in their order.
pub open spec fn voice_state_entities_of(guild_id: GuildId, voice_states: Seq<VoiceState>) -> Seq<VoiceStateEntity> {
    voice_states.map_values(|voice_state: VoiceState| VoiceStateEntity::spec_from((voice_state, guild_id)))
}

/// Make the entities of the voice states of a guild.
pub fn voice_state_entities(guild_id: GuildId, voice_states: Vec<VoiceState>) -> (entities: Vec<VoiceStateEntity>)
    ensures
        entities@ == voice_state_entities_of(guild_id, voice_states@),
{
    let mut entities: Vec<VoiceStateEntity> = Vec::new();
    for voice_state in it: voice_states.into_iter()
        invariant
            it.seq() == voice_states@,
            entities@ == voice_state_entities_of(guild_id, voice_states@.take(it.index() as int)),
    {
        let ghost n = entities@.len() as int;
        entities.push(VoiceStateEntity::from((voice_state, guild_id)));
        proof {
            assert(voice_states@.take(n + 1) =~= voice_states@.take(n).push(voice_states@[n]));
            assert(entities@ =~= voice_state_entities_of(guild_id, voice_states@.take(n + 1)));
        }
    }
    proof {
        assert(voice_states@.take(voice_states@.len() as int) =~= voice_states@);
    }
    entities
}

} // verus!
