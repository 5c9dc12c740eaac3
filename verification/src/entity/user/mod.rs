//! Entities related to users.

pub mod current_user;

pub use self::current_user::CurrentUserEntity;

use vstd::prelude::*;
use crate::entity::Entity;
use crate::entity::guild::GuildEntity;
use crate::entity::guild::member::MemberEntity;
use crate::id::{GuildId, UserId};
use crate::model::user::User;
use crate::repository::{is_listing, Repository};
use crate::utils::{is_resolution, stream_ids};
use twilight_model::user::{PremiumType, UserFlags};

verus! {

/// A user.
#[derive(Clone, Debug, PartialEq, Eq)]
pub struct UserEntity {
    pub avatar: Option<String>,
    pub bot: bool,
    pub discriminator: String,
    pub email: Option<String>,
    pub flags: Option<UserFlags>,
    pub id: UserId,
    pub locale: Option<String>,
    pub mfa_enabled: Option<bool>,
    pub name: String,
    pub premium_type: Option<PremiumType>,
    pub public_flags: Option<UserFlags>,
    pub system: Option<bool>,
    pub verified: Option<bool>,
}

impl UserEntity {
    /// The entity that [`UserEntity::from`] makes.
    pub open spec fn spec_from(user: User) -> UserEntity {
        UserEntity {
            avatar: user.avatar,
            bot: user.bot,
            discriminator: user.discriminator,
            email: user.email,
            flags: user.flags,
            id: user.id,
            locale: user.locale,
            mfa_enabled: user.mfa_enabled,
            name: user.name,
            premium_type: user.premium_type,
            public_flags: user.public_flags,
            system: user.system,
            verified: user.verified,
        }
    }

    /// Make the entity of a user.
    pub fn from(user: User) -> (entity: UserEntity)
        ensures
            entity == Self::spec_from(user),
    {
        UserEntity {
            avatar: user.avatar,
            bot: user.bot,
            discriminator: user.discriminator,
            email: user.email,
            flags: user.flags,
            id: user.id,
            locale: user.locale,
            mfa_enabled: user.mfa_enabled,
            name: user.name,
            premium_type: user.premium_type,
            public_flags: user.public_flags,
            system: user.system,
            verified: user.verified,
        }
    }
}

impl Entity for UserEntity {
    type Id = UserId;

    open spec fn spec_id(&self) -> UserId {
        self.id
    }

    open spec fn spec_scope(&self) -> Option<GuildId> {
        None
    }

    /// Return the user's ID.
    fn id(&self) -> (id: UserId) {
        self.id
    }

    fn scope(&self) -> (guild_id: Option<GuildId>) {
        None
    }
}

/// The ids of users, in their order.
pub open spec fn user_ids_of(users: Seq<User>) -> Seq<UserId> {
    users.map_values(|user: User| user.id)
}

/// The entities of users, in their order.
pub open spec fn user_entities_of(users: Seq<User>) -> Seq<UserEntity> {
    users.map_values(|user: User| UserEntity::spec_from(user))
}

/// Collect the ids of users.
pub fn user_ids(users: &Vec<User>) -> (ids: Vec<UserId>)
    ensures
        ids@ == user_ids_of(users@),
{
    let mut ids: Vec<UserId> = Vec::new();
    let mut i: usize = 0;
    while i < users.len()
        invariant
            i <= users.len(),
            ids@ == user_ids_of(users@.take(i as int)),
        decreases users.len() - i,
    {
        ids.push(users[i].id);
        proof {
            assert(users@.take(i + 1) =~= users@.take(i as int).push(users@[i as int]));
            assert(ids@ =~= user_ids_of(users@.take(i + 1)));
        }
        i += 1;
    }
    proof {
        assert(users@.take(users.len() as int) =~= users@);
    }
    ids
}

/// Make the entities of users.
pub fn user_entities(users: Vec<User>) -> (entities: Vec<UserEntity>)
    ensures
        entities@ == user_entities_of(users@),
{
    let mut entities: Vec<UserEntity> = Vec::new();
    for user in it: users.into_iter()
        invariant
            it.seq() == users@,
            entities@ == user_entities_of(users@.take(it.index() as int)),
    {
        let ghost n = entities@.len() as int;
        entities.push(UserEntity::from(user));
        proof {
            assert(users@.take(n + 1) =~= users@.take(n).push(users@[n]));
            assert(entities@ =~= user_entities_of(users@.take(n + 1)));
        }
    }
    proof {
        assert(users@.take(users@.len() as int) =~= users@);
    }
    entities
}

/// Whether `ids` holds each of the guilds that the user is a member of
/// once, and nothing else.
pub open spec fn is_guilds_of(
    members: Map<(GuildId, UserId), MemberEntity>,
    user_id: UserId,
    ids: Seq<GuildId>,
) -> bool {
    &&& forall|guild_id: GuildId| ids.contains(guild_id) <==> #[trigger] members.contains_key((guild_id, user_id))
    &&& ids.no_duplicates()
}

/// List the guilds that a user is a member of, as the members say.
pub fn guilds_of_user<Error, R: Repository<MemberEntity, Error>>(
    members: &R,
    user_id: UserId,
) -> (found: Result<Vec<GuildId>, Error>)
    requires
        members.wf(),
    ensures
        R::reliable() ==> found is Ok,
        found matches Ok(ids) ==> is_guilds_of(members.entries(), user_id, ids@),
{
    let list = match members.list() {
        Ok(list) => list,
        Err(why) => {
            return Err(why);
        },
    };
    let ghost entries = members.entries();
    let mut ids: Vec<GuildId> = Vec::new();
    let ghost mut from: Seq<int> = Seq::empty();
    let mut i: usize = 0;
    while i < list.len()
        invariant
            i <= list.len(),
            is_listing(entries, list@),
            ids@.len() == from.len(),
            forall|k: int|
                0 <= k < from.len() ==> 0 <= #[trigger] from[k] < i && list@[from[k]].user_id == user_id
                    && list@[from[k]].guild_id == ids@[k],
            forall|k: int, l: int| 0 <= k < l < from.len() ==> from[k] < from[l],
            forall|j: int|
                0 <= j < i && (#[trigger] list@[j]).user_id == user_id ==> exists|k: int|
                    0 <= k < from.len() && #[trigger] from[k] == j,
        decreases list.len() - i,
    {
        if list[i].user_id.0 == user_id.0 {
            ids.push(list[i].guild_id);
            proof {
                let ghost before = from;
                from = from.push(i as int);
                assert forall|j: int| 0 <= j < i + 1 && (#[trigger] list@[j]).user_id == user_id implies exists|
                    k: int,
                | 0 <= k < from.len() && #[trigger] from[k] == j by {
                    if j < i {
                        let k = choose|k: int| 0 <= k < before.len() && #[trigger] before[k] == j;
                        assert(from[k] == j);
                    } else {
                        assert(from[before.len() as int] == j);
                    }
                }
            }
        }
        i += 1;
    }
    proof {
        assert forall|guild_id: GuildId| ids@.contains(guild_id) <==> #[trigger] entries.contains_key(
            (guild_id, user_id),
        ) by {
            if ids@.contains(guild_id) {
                let k = choose|k: int| 0 <= k < ids@.len() && ids@[k] == guild_id;
                assert(entries.contains_key(list@[from[k]].spec_id()));
            }
            if entries.contains_key((guild_id, user_id)) {
                let j = choose|j: int| 0 <= j < list@.len() && #[trigger] list@[j].spec_id() == (guild_id, user_id);
                assert(list@[j].user_id == user_id);
                let k = choose|k: int| 0 <= k < from.len() && #[trigger] from[k] == j;
                assert(ids@[k] == guild_id);
            }
        }
        assert forall|k: int, l: int| 0 <= k < ids@.len() && 0 <= l < ids@.len() && k != l implies ids@[k]
            != ids@[l] by {
            if k < l {
                assert(from[k] < from[l]);
            } else {
                assert(from[l] < from[k]);
            }
            assert(list@[from[k]].spec_id() != list@[from[l]].spec_id());
        }
    }
    Ok(ids)
}

/// Repository to work with users and their associated entities.
pub trait UserRepository<Error>: Repository<UserEntity, Error> {
    /// Retrieve the IDs of the guilds that a user is a member of.
    fn guild_ids<M: Repository<MemberEntity, Error>>(
        &self,
        members: &M,
        user_id: UserId,
    ) -> (found: Result<Vec<GuildId>, Error>)
        requires
            members.wf(),
        ensures
            M::reliable() ==> found is Ok,
            found matches Ok(ids) ==> is_guilds_of(members.entries(), user_id, ids@),
    {
        guilds_of_user(members, user_id)
    }

    /// Retrieve the guilds that a user is a member of.
    fn guilds<M: Repository<MemberEntity, Error>, G: Repository<GuildEntity, Error>>(
        &self,
        members: &M,
        guilds: &G,
        user_id: UserId,
    ) -> (found: Result<Vec<Result<GuildEntity, Error>>, Error>)
        requires
            members.wf(),
            guilds.wf(),
        ensures
            M::reliable() ==> found is Ok,
            found matches Ok(list) ==> {
                &&& exists|ids: Seq<GuildId>| #[trigger]
                    is_guilds_of(members.entries(), user_id, ids) && is_resolution(guilds.entries(), ids, list@)
                &&& G::reliable() ==> forall|i: int| 0 <= i < list@.len() ==> #[trigger] list@[i] is Ok
            },
    {
        let ids = guilds_of_user(members, user_id);
        proof {
            if ids is Ok {
                assert(is_guilds_of(members.entries(), user_id, ids->Ok_0@));
            }
        }
        stream_ids(ids, guilds)
    }
}

} // verus!
