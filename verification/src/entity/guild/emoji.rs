//! The emoji entity and its repository.

use vstd::prelude::*;
use crate::entity::Entity;
use crate::entity::guild::GuildEntity;
use crate::entity::guild::role::RoleEntity;
use crate::entity::user::UserEntity;
use crate::id::{EmojiId, GuildId, RoleId, UserId};
use crate::model::guild::Emoji;
use crate::repository::Repository;
use crate::utils::{is_resolution, relation_and_then, relation_map, stream};

verus! {

/// Cachable version of an emoji.
#[derive(Clone, Debug, PartialEq, Eq)]
pub struct EmojiEntity {
    pub animated: bool,
    pub available: bool,
    pub guild_id: GuildId,
    pub id: EmojiId,
    pub managed: bool,
    pub name: String,
    pub require_colons: bool,
    pub role_ids: Vec<RoleId>,
    pub user_id: Option<UserId>,
}

impl EmojiEntity {
    /// The entity that [`EmojiEntity::from`] makes.
    pub open spec fn spec_from(pair: (GuildId, Emoji)) -> EmojiEntity {
        EmojiEntity {
            animated: pair.1.animated,
            available: pair.1.available,
            guild_id: pair.0,
            id: pair.1.id,
            managed: pair.1.managed,
            name: pair.1.name,
            require_colons: pair.1.require_colons,
            role_ids: pair.1.roles,
            user_id: match pair.1.user {
                Some(user) => Some(user.id),
                None => None,
            },
        }
    }

    /// Make the entity of an emoji of the given guild.
    pub fn from(pair: (GuildId, Emoji)) -> (entity: EmojiEntity)
        ensures
            entity == Self::spec_from(pair),
    {
        let (guild_id, emoji) = pair;
        EmojiEntity {
            animated: emoji.animated,
            available: emoji.available,
            guild_id,
            id: emoji.id,
            managed: emoji.managed,
            name: emoji.name,
            require_colons: emoji.require_colons,
            role_ids: emoji.roles,
            user_id: match emoji.user {
                Some(user) => Some(user.id),
                None => None,
            },
        }
    }
}

impl Entity for EmojiEntity {
    type Id = EmojiId;

    open spec fn spec_id(&self) -> EmojiId {
        self.id
    }

    open spec fn spec_scope(&self) -> Option<GuildId> {
        Some(self.guild_id)
    }

    /// Return the emoji's ID.
    fn id(&self) -> (id: EmojiId) {
        self.id
    }

    fn scope(&self) -> (guild_id: Option<GuildId>) {
        Some(self.guild_id)
    }
}

/// Repository to work with emojis and their associated entities.
pub trait EmojiRepository<Error>: Repository<EmojiEntity, Error> {
    /// Retrieve the guild associated with an emoji.
    fn guild<R: Repository<GuildEntity, Error>>(
        &self,
        guilds: &R,
        emoji_id: EmojiId,
    ) -> (found: Result<Option<GuildEntity>, Error>)
        requires
            self.wf(),
            guilds.wf(),
        ensures
            Self::reliable() && R::reliable() ==> found is Ok,
            found matches Ok(entity) ==> entity == (match self.entries().get(emoji_id) {
                Some(local) => guilds.entries().get(local.guild_id),
                None => None,
            }),
    {
        let foreign_id = |local: EmojiEntity| -> (id: GuildId)
            ensures
                id == local.guild_id,
        {
            local.guild_id
        };
        relation_map(self, guilds, emoji_id, foreign_id)
    }

    /// Retrieve the roles associated with an emoji.
    fn roles<R: Repository<RoleEntity, Error>>(
        &self,
        roles: &R,
        emoji_id: EmojiId,
    ) -> (found: Result<Vec<Result<RoleEntity, Error>>, Error>)
        requires
            self.wf(),
            roles.wf(),
        ensures
            Self::reliable() ==> found is Ok,
            found matches Ok(list) ==> {
                &&& match self.entries().get(emoji_id) {
                    Some(local) => is_resolution(roles.entries(), local.role_ids@, list@),
                    None => list@.len() == 0,
                }
                &&& R::reliable() ==> forall|i: int| 0 <= i < list@.len() ==> #[trigger] list@[i] is Ok
            },
    {
        let foreign_ids = |local: EmojiEntity| -> (ids: Vec<RoleId>)
            ensures
                ids == local.role_ids,
        {
            local.role_ids
        };
        stream(self, roles, emoji_id, foreign_ids)
    }

    /// Retrieve the user associated with an emoji.
    fn user<R: Repository<UserEntity, Error>>(
        &self,
        users: &R,
        emoji_id: EmojiId,
    ) -> (found: Result<Option<UserEntity>, Error>)
        requires
            self.wf(),
            users.wf(),
        ensures
            Self::reliable() && R::reliable() ==> found is Ok,
            found matches Ok(entity) ==> entity == (match self.entries().get(emoji_id) {
                Some(local) => match local.user_id {
                    Some(foreign_id) => users.entries().get(foreign_id),
                    None => None,
                },
                None => None,
            }),
    {
        let foreign_id = |local: EmojiEntity| -> (id: Option<UserId>)
            ensures
                id == local.user_id,
        {
            local.user_id
        };
        relation_and_then(self, users, emoji_id, foreign_id)
    }
}

/// The entities of the emojis of a guild, in their order.
pub open spec fn emoji_entities_of(guild_id: GuildId, emojis: Seq<Emoji>) -> Seq<EmojiEntity> {
    emojis.map_values(|emoji: Emoji| EmojiEntity::spec_from((guild_id, emoji)))
}

/// Make the entities of the emojis of a guild.
pub fn emoji_entities(guild_id: GuildId, emojis: Vec<Emoji>) -> (entities: Vec<EmojiEntity>)
    ensures
        entities@ == emoji_entities_of(guild_id, emojis@),
{
    let mut entities: Vec<EmojiEntity> = Vec::new();
    for emoji in it: emojis.into_iter()
        invariant
            it.seq() == emojis@,
            entities@ == emoji_entities_of(guild_id, emojis@.take(it.index() as int)),
    {
        let ghost n = entities@.len() as int;
        entities.push(EmojiEntity::from((guild_id, emoji)));
        proof {
            assert(emojis@.take(n + 1) =~= emojis@.take(n).push(emojis@[n]));
            assert(entities@ =~= emoji_entities_of(guild_id, emojis@.take(n + 1)));
        }
    }
    proof {
        assert(emojis@.take(emojis@.len() as int) =~= emojis@);
    }
    entities
}

} // verus!
