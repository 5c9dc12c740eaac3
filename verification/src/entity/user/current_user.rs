//! The entity of the current user and its repository.

use vstd::prelude::*;
use crate::entity::Entity;
use crate::entity::guild::GuildEntity;
use crate::entity::guild::member::MemberEntity;
use crate::entity::user::{guilds_of_user, is_guilds_of};
use crate::id::{GuildId, UserId};
use crate::model::user::CurrentUser;
use crate::repository::{Repository, SingleEntityRepository};
use crate::utils::{is_resolution, stream_ids};
use twilight_model::user::{PremiumType, UserFlags};

verus! {

/// The user that the gateway session belongs to.
#[derive(Clone, Debug, PartialEq, Eq)]
pub struct CurrentUserEntity {
    pub avatar: Option<String>,
    pub bot: bool,
    pub discriminator: String,
    pub email: Option<String>,
    pub flags: Option<UserFlags>,
    pub id: UserId,
    pub mfa_enabled: bool,
    pub name: String,
    pub premium_type: Option<PremiumType>,
    pub public_flags: Option<UserFlags>,
    pub verified: Option<bool>,
}

impl CurrentUserEntity {
    /// The entity that [`CurrentUserEntity::from`] makes.
    pub open spec fn spec_from(current_user: CurrentUser) -> CurrentUserEntity {
        CurrentUserEntity {
            avatar: current_user.avatar,
            bot: current_user.bot,
            discriminator: current_user.discriminator,
            email: current_user.email,
            flags: current_user.flags,
            id: current_user.id,
            mfa_enabled: current_user.mfa_enabled,
            name: current_user.name,
            premium_type: current_user.premium_type,
            public_flags: current_user.public_flags,
            verified: current_user.verified,
        }
    }

    /// Make the entity of the current user.
    pub fn from(current_user: CurrentUser) -> (entity: CurrentUserEntity)
        ensures
            entity == Self::spec_from(current_user),
    {
        CurrentUserEntity {
            avatar: current_user.avatar,
            bot: current_user.bot,
            discriminator: current_user.discriminator,
            email: current_user.email,
            flags: current_user.flags,
            id: current_user.id,
            mfa_enabled: current_user.mfa_enabled,
            name: current_user.name,
            premium_type: current_user.premium_type,
            public_flags: current_user.public_flags,
            verified: current_user.verified,
        }
    }
}

impl CurrentUserEntity {
    /// Make a copy of the entity, field by field.
    pub fn duplicate(&self) -> (copy: CurrentUserEntity)
        ensures
            copy == *self,
    {
        CurrentUserEntity {
            avatar: self.avatar.clone(),
            bot: self.bot,
            discriminator: self.discriminator.clone(),
            email: self.email.clone(),
            flags: self.flags.clone(),
            id: self.id,
            mfa_enabled: self.mfa_enabled,
            name: self.name.clone(),
            premium_type: self.premium_type.clone(),
            public_flags: self.public_flags.clone(),
            verified: self.verified,
        }
    }
}

impl Entity for CurrentUserEntity {
    type Id = UserId;

    open spec fn spec_id(&self) -> UserId {
        self.id
    }

    open spec fn spec_scope(&self) -> Option<GuildId> {
        None
    }

    /// Return the current user's ID.
    fn id(&self) -> (id: UserId) {
        self.id
    }

    fn scope(&self) -> (guild_id: Option<GuildId>) {
        None
    }
}

/// Repository to work with the current user.
pub trait CurrentUserRepository<Error>: SingleEntityRepository<CurrentUserEntity, Error> {
    /// Retrieve the IDs of the guilds that the current user is a member of.
    ///
    /// Where no current user is stored, there are none.
    fn guild_ids<M: Repository<MemberEntity, Error>>(&self, members: &M) -> (found: Result<Vec<GuildId>, Error>)
        requires
            self.wf(),
            members.wf(),
        ensures
            Self::reliable() && M::reliable() ==> found is Ok,
            found matches Ok(ids) ==> match self.entity() {
                Some(user) => is_guilds_of(members.entries(), user.id, ids@),
                None => ids@.len() == 0,
            },
    {
        match self.get() {
            Ok(Some(user)) => guilds_of_user(members, user.id),
            Ok(None) => Ok(Vec::new()),
            Err(why) => Err(why),
        }
    }

    /// Retrieve the guilds that the current user is a member of.
    ///
    /// Where no current user is stored, there are none.
    fn guilds<M: Repository<MemberEntity, Error>, G: Repository<GuildEntity, Error>>(
        &self,
        members: &M,
        guilds: &G,
    ) -> (found: Result<Vec<Result<GuildEntity, Error>>, Error>)
        requires
            self.wf(),
            members.wf(),
            guilds.wf(),
        ensures
            Self::reliable() && M::reliable() ==> found is Ok,
            found matches Ok(list) ==> {
                &&& match self.entity() {
                    Some(user) => exists|ids: Seq<GuildId>| #[trigger]
                        is_guilds_of(members.entries(), user.id, ids) && is_resolution(
                            guilds.entries(),
                            ids,
                            list@,
                        ),
                    None => list@.len() == 0,
                }
                &&& G::reliable() ==> forall|i: int| 0 <= i < list@.len() ==> #[trigger] list@[i] is Ok
            },
    {
        match self.get() {
            Ok(Some(user)) => {
                let ids = guilds_of_user(members, user.id);
                proof {
                    if ids is Ok {
                        assert(is_guilds_of(members.entries(), user.id, ids->Ok_0@));
                    }
                }
                stream_ids(ids, guilds)
            },
            Ok(None) => Ok(Vec::new()),
            Err(why) => Err(why),
        }
    }
}

} // verus!
