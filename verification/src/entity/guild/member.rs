//! The member entity and its repository.

use vstd::prelude::*;
use crate::entity::Entity;
use crate::entity::guild::role::RoleEntity;
use crate::entity::user::UserEntity;
use crate::id::{GuildId, RoleId, UserId};
use crate::model::gateway::MemberUpdate;
use crate::model::guild::Member;
use crate::repository::Repository;
use crate::utils::{is_resolution, relation_and_then, stream};

verus! {

/// A member of a guild, with the id of its user.
#[derive(Clone, Debug, PartialEq, Eq)]
pub struct MemberEntity {
    pub deaf: bool,
    pub guild_id: GuildId,
    pub hoisted_role_id: Option<RoleId>,
    pub joined_at: Option<String>,
    pub mute: bool,
    pub nick: Option<String>,
    pub premium_since: Option<String>,
    pub role_ids: Vec<RoleId>,
    pub user_id: UserId,
}

impl MemberEntity {
    /// The entity that [`MemberEntity::from`] makes.
    pub open spec fn spec_from(member: Member) -> MemberEntity {
        MemberEntity {
            deaf: member.deaf,
            guild_id: member.guild_id,
            hoisted_role_id: member.hoisted_role,
            joined_at: member.joined_at,
            mute: member.mute,
            nick: member.nick,
            premium_since: member.premium_since,
            role_ids: member.roles,
            user_id: member.user.id,
        }
    }

    /// The entity that [`MemberEntity::from_update`] makes: the guild, the
    /// user, the roles and the time of joining are those of the update; the
    /// nickname and the premium time are those of the update where it has
    /// them, and else what was stored; the rest is what was stored.
    pub open spec fn spec_from_update(pair: (MemberUpdate, MemberEntity)) -> MemberEntity {
        MemberEntity {
            deaf: pair.1.deaf,
            guild_id: pair.0.guild_id,
            hoisted_role_id: pair.1.hoisted_role_id,
            joined_at: Some(pair.0.joined_at),
            mute: pair.1.mute,
            nick: match pair.0.nick {
                Some(nick) => Some(nick),
                None => pair.1.nick,
            },
            premium_since: match pair.0.premium_since {
                Some(premium_since) => Some(premium_since),
                None => pair.1.premium_since,
            },
            role_ids: pair.0.roles,
            user_id: pair.0.user.id,
        }
    }

    /// Make the entity of a member, and the entity of its user.
    pub fn with_user(member: Member) -> (made: (MemberEntity, UserEntity))
        ensures
            made.0 == Self::spec_from(member),
            made.1 == UserEntity::spec_from(member.user),
    {
        let entity = MemberEntity {
            deaf: member.deaf,
            guild_id: member.guild_id,
            hoisted_role_id: member.hoisted_role,
            joined_at: member.joined_at,
            mute: member.mute,
            nick: member.nick,
            premium_since: member.premium_since,
            role_ids: member.roles,
            user_id: member.user.id,
        };
        (entity, UserEntity::from(member.user))
    }

    /// Make the entity of a member.
    pub fn from(member: Member) -> (entity: MemberEntity)
        ensures
            entity == Self::spec_from(member),
    {
        Self::with_user(member).0
    }

    /// Lay an update of a member over the stored member, and make the entity
    /// of the user that the update came with.
    ///
    /// A nickname or a premium time that the update lacks keeps what was
    /// stored.
    pub fn with_updated_user(pair: (MemberUpdate, MemberEntity)) -> (made: (MemberEntity, UserEntity))
        ensures
            made.0 == Self::spec_from_update(pair),
            made.1 == UserEntity::spec_from(pair.0.user),
    {
        let (member, stored) = pair;
        let entity = MemberEntity {
            deaf: stored.deaf,
            guild_id: member.guild_id,
            hoisted_role_id: stored.hoisted_role_id,
            joined_at: Some(member.joined_at),
            mute: stored.mute,
            nick: match member.nick {
                Some(nick) => Some(nick),
                None => stored.nick,
            },
            premium_since: match member.premium_since {
                Some(premium_since) => Some(premium_since),
                None => stored.premium_since,
            },
            role_ids: member.roles,
            user_id: member.user.id,
        };
        (entity, UserEntity::from(member.user))
    }

    /// Lay an update of a member over the stored member.
    ///
    /// A nickname or a premium time that the update lacks keeps what was
    /// stored.
    pub fn from_update(pair: (MemberUpdate, MemberEntity)) -> (entity: MemberEntity)
        ensures
            entity == Self::spec_from_update(pair),
    {
        Self::with_updated_user(pair).0
    }
}

impl Entity for MemberEntity {
    type Id = (GuildId, UserId);

    open spec fn spec_id(&self) -> (GuildId, UserId) {
        (self.guild_id, self.user_id)
    }

    open spec fn spec_scope(&self) -> Option<GuildId> {
        Some(self.guild_id)
    }

    /// Return an ID consisting of a tuple of the guild ID and user ID.
    fn id(&self) -> (id: (GuildId, UserId)) {
        (self.guild_id, self.user_id)
    }

    fn scope(&self) -> (guild_id: Option<GuildId>) {
        Some(self.guild_id)
    }
}

/// Repository to work with members and their associated entities.
pub trait MemberRepository<Error>: Repository<MemberEntity, Error> {
    /// Retrieve the hoisted role associated with a member.
    fn hoisted_role<R: Repository<RoleEntity, Error>>(
        &self,
        roles: &R,
        guild_id: GuildId,
        user_id: UserId,
    ) -> (found: Result<Option<RoleEntity>, Error>)
        requires
            self.wf(),
            roles.wf(),
        ensures
            Self::reliable() && R::reliable() ==> found is Ok,
            found matches Ok(entity) ==> entity == (match self.entries().get((guild_id, user_id)) {
                Some(local) => match local.hoisted_role_id {
                    Some(foreign_id) => roles.entries().get(foreign_id),
                    None => None,
                },
                None => None,
            }),
    {
        let foreign_id = |local: MemberEntity| -> (id: Option<RoleId>)
            ensures
                id == local.hoisted_role_id,
        {
            local.hoisted_role_id
        };
        relation_and_then(self, roles, (guild_id, user_id), foreign_id)
    }

    /// Retrieve the roles associated with a member.
    fn roles<R: Repository<RoleEntity, Error>>(
        &self,
        roles: &R,
        guild_id: GuildId,
        user_id: UserId,
    ) -> (found: Result<Vec<Result<RoleEntity, Error>>, Error>)
        requires
            self.wf(),
            roles.wf(),
        ensures
            Self::reliable() ==> found is Ok,
            found matches Ok(list) ==> {
                &&& match self.entries().get((guild_id, user_id)) {
                    Some(local) => is_resolution(roles.entries(), local.role_ids@, list@),
                    None => list@.len() == 0,
                }
                &&& R::reliable() ==> forall|i: int| 0 <= i < list@.len() ==> #[trigger] list@[i] is Ok
            },
    {
        let foreign_ids = |local: MemberEntity| -> (ids: Vec<RoleId>)
            ensures
                ids == local.role_ids,
        {
            local.role_ids
        };
        stream(self, roles, (guild_id, user_id), foreign_ids)
    }
}

/// The entities of members, in their order.
pub open spec fn member_entities_of(members: Seq<Member>) -> Seq<MemberEntity> {
    members.map_values(|member: Member| MemberEntity::spec_from(member))
}

/// The entities of the users of members, in the order of the members.
pub open spec fn member_users_of(members: Seq<Member>) -> Seq<UserEntity> {
    members.map_values(|member: Member| UserEntity::spec_from(member.user))
}

/// Make the entities of members, and the entities of their users.
pub fn member_entities(members: Vec<Member>) -> (made: (Vec<MemberEntity>, Vec<UserEntity>))
    ensures
        made.0@ == member_entities_of(members@),
        made.1@ == member_users_of(members@),
{
    let mut entities: Vec<MemberEntity> = Vec::new();
    let mut users: Vec<UserEntity> = Vec::new();
    for member in it: members.into_iter()
        invariant
            it.seq() == members@,
            entities@ == member_entities_of(members@.take(it.index() as int)),
            users@ == member_users_of(members@.take(it.index() as int)),
    {
        let ghost n = entities@.len() as int;
        let (entity, user) = MemberEntity::with_user(member);
        entities.push(entity);
        users.push(user);
        proof {
            assert(members@.take(n + 1) =~= members@.take(n).push(members@[n]));
            assert(entities@ =~= member_entities_of(members@.take(n + 1)));
            assert(users@ =~= member_users_of(members@.take(n + 1)));
        }
    }
    proof {
        assert(members@.take(members@.len() as int) =~= members@);
    }
    (entities, users)
}

} // verus!
