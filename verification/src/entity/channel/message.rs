//! The message entity and its repository.

use vstd::prelude::*;
use crate::entity::Entity;
use crate::entity::channel::{channel_of, find_channel, ChannelEntity};
use crate::entity::channel::attachment::{
    attachment_entities, attachment_entities_of, attachment_ids, attachment_ids_of,
    AttachmentEntity,
};
use crate::entity::channel::group::GroupEntity;
use crate::entity::channel::private_channel::PrivateChannelEntity;
use crate::entity::channel::text_channel::TextChannelEntity;
use crate::entity::guild::GuildEntity;
use crate::entity::guild::role::RoleEntity;
use crate::entity::user::UserEntity;
use crate::id::{
    ApplicationId, AttachmentId, ChannelId, GuildId, MessageId, RoleId, UserId, WebhookId,
};
use crate::model::channel::Message;
use crate::model::gateway::MessageUpdate;
use crate::repository::Repository;
use crate::utils::{is_resolution, relation_and_then, relation_map, stream};
use twilight_model::channel::embed::Embed;
use twilight_model::channel::message::{MessageActivity, MessageFlags, MessageReaction, MessageType};

verus! {

/// A message, with the ids of its author and of its attachments.
#[derive(Clone, Debug, PartialEq, Eq)]
pub struct MessageEntity {
    pub activity: Option<MessageActivity>,
    pub application_id: Option<ApplicationId>,
    pub attachments: Vec<AttachmentId>,
    pub author_id: UserId,
    pub channel_id: ChannelId,
    pub content: String,
    pub edited_timestamp: Option<String>,
    pub embeds: Vec<Embed>,
    pub flags: Option<MessageFlags>,
    pub guild_id: Option<GuildId>,
    pub id: MessageId,
    pub kind: MessageType,
    pub mention_channels: Vec<ChannelId>,
    pub mention_everyone: bool,
    pub mention_roles: Vec<RoleId>,
    pub mentions: Vec<UserId>,
    pub pinned: bool,
    pub reactions: Vec<MessageReaction>,
    pub timestamp: String,
    pub tts: bool,
    pub webhook_id: Option<WebhookId>,
}

impl MessageEntity {
    /// Whether the entity is the one made from `message`: the fields of the
    /// message, with ids in place of the author and of the attachments.
    pub open spec fn is_from(self, message: Message) -> bool {
        &&& self.activity == message.activity
        &&& self.application_id == message.application_id
        &&& self.attachments@ == attachment_ids_of(message.attachments@)
        &&& self.author_id == message.author.id
        &&& self.channel_id == message.channel_id
        &&& self.content == message.content
        &&& self.edited_timestamp == message.edited_timestamp
        &&& self.embeds == message.embeds
        &&& self.flags == message.flags
        &&& self.guild_id == message.guild_id
        &&& self.id == message.id
        &&& self.kind == message.kind
        &&& self.mention_channels == message.mention_channels
        &&& self.mention_everyone == message.mention_everyone
        &&& self.mention_roles == message.mention_roles
        &&& self.mentions == message.mentions
        &&& self.pinned == message.pinned
        &&& self.reactions == message.reactions
        &&& self.timestamp == message.timestamp
        &&& self.tts == message.tts
        &&& self.webhook_id == message.webhook_id
    }

    /// Whether the entity is `stored` with the fields that `update` carries
    /// laid over it: a field that the update lacks keeps what was stored.
    pub open spec fn is_update_of(self, stored: MessageEntity, update: MessageUpdate) -> bool {
        &&& self.activity == stored.activity
        &&& self.application_id == stored.application_id
        &&& match update.attachments {
            Some(attachments) => self.attachments@ == attachment_ids_of(attachments@),
            None => self.attachments == stored.attachments,
        }
        &&& self.author_id == (match update.author {
            Some(author) => author.id,
            None => stored.author_id,
        })
        &&& self.channel_id == update.channel_id
        &&& self.content == (match update.content {
            Some(content) => content,
            None => stored.content,
        })
        &&& self.edited_timestamp == (match update.edited_timestamp {
            Some(edited_timestamp) => Some(edited_timestamp),
            None => stored.edited_timestamp,
        })
        &&& self.embeds == (match update.embeds {
            Some(embeds) => embeds,
            None => stored.embeds,
        })
        &&& self.flags == stored.flags
        &&& self.guild_id == (match update.guild_id {
            Some(guild_id) => Some(guild_id),
            None => stored.guild_id,
        })
        &&& self.id == update.id
        &&& self.kind == (match update.kind {
            Some(kind) => kind,
            None => stored.kind,
        })
        &&& self.mention_channels == stored.mention_channels
        &&& self.mention_everyone == (match update.mention_everyone {
            Some(mention_everyone) => mention_everyone,
            None => stored.mention_everyone,
        })
        &&& self.mention_roles == (match update.mention_roles {
            Some(mention_roles) => mention_roles,
            None => stored.mention_roles,
        })
        &&& self.mentions == (match update.mentions {
            Some(mentions) => mentions,
            None => stored.mentions,
        })
        &&& self.pinned == (match update.pinned {
            Some(pinned) => pinned,
            None => stored.pinned,
        })
        &&& self.reactions == stored.reactions
        &&& self.timestamp == (match update.timestamp {
            Some(timestamp) => timestamp,
            None => stored.timestamp,
        })
        &&& self.tts == (match update.tts {
            Some(tts) => tts,
            None => stored.tts,
        })
        &&& self.webhook_id == stored.webhook_id
    }

    /// Make the entity of a message, the entities of its attachments and the
    /// entity of its author.
    pub fn with_parts(message: Message) -> (made: (MessageEntity, Vec<AttachmentEntity>, UserEntity))
        ensures
            made.0.is_from(message),
            made.1@ == attachment_entities_of(message.id, message.attachments@),
            made.2 == UserEntity::spec_from(message.author),
    {
        let attachments = attachment_ids(&message.attachments);
        let entity = MessageEntity {
            activity: message.activity,
            application_id: message.application_id,
            attachments,
            author_id: message.author.id,
            channel_id: message.channel_id,
            content: message.content,
            edited_timestamp: message.edited_timestamp,
            embeds: message.embeds,
            flags: message.flags,
            guild_id: message.guild_id,
            id: message.id,
            kind: message.kind,
            mention_channels: message.mention_channels,
            mention_everyone: message.mention_everyone,
            mention_roles: message.mention_roles,
            mentions: message.mentions,
            pinned: message.pinned,
            reactions: message.reactions,
            timestamp: message.timestamp,
            tts: message.tts,
            webhook_id: message.webhook_id,
        };
        (entity, attachment_entities(message.id, message.attachments), UserEntity::from(message.author))
    }

    /// Make the entity of a message.
    pub fn from(message: Message) -> (entity: MessageEntity)
        ensures
            entity.is_from(message),
    {
        Self::with_parts(message).0
    }

    /// Lay the fields that an update carries over the stored message.
    ///
    /// The id and the channel are those of the update. A field that the
    /// update lacks keeps what was stored.
    pub fn update(self, update: MessageUpdate) -> (entity: MessageEntity)
        ensures
            entity.is_update_of(self, update),
    {
        let attachments = match &update.attachments {
            Some(attachments) => attachment_ids(attachments),
            None => self.attachments,
        };
        let author_id = match &update.author {
            Some(author) => author.id,
            None => self.author_id,
        };
        MessageEntity {
            activity: self.activity,
            application_id: self.application_id,
            attachments,
            author_id,
            channel_id: update.channel_id,
            content: match update.content {
                Some(content) => content,
                None => self.content,
            },
            edited_timestamp: match update.edited_timestamp {
                Some(edited_timestamp) => Some(edited_timestamp),
                None => self.edited_timestamp,
            },
            embeds: match update.embeds {
                Some(embeds) => embeds,
                None => self.embeds,
            },
            flags: self.flags,
            guild_id: match update.guild_id {
                Some(guild_id) => Some(guild_id),
                None => self.guild_id,
            },
            id: update.id,
            kind: match update.kind {
                Some(kind) => kind,
                None => self.kind,
            },
            mention_channels: self.mention_channels,
            mention_everyone: match update.mention_everyone {
                Some(mention_everyone) => mention_everyone,
                None => self.mention_everyone,
            },
            mention_roles: match update.mention_roles {
                Some(mention_roles) => mention_roles,
                None => self.mention_roles,
            },
            mentions: match update.mentions {
                Some(mentions) => mentions,
                None => self.mentions,
            },
            pinned: match update.pinned {
                Some(pinned) => pinned,
                None => self.pinned,
            },
            reactions: self.reactions,
            timestamp: match update.timestamp {
                Some(timestamp) => timestamp,
                None => self.timestamp,
            },
            tts: match update.tts {
                Some(tts) => tts,
                None => self.tts,
            },
            webhook_id: self.webhook_id,
        }
    }
}

impl Entity for MessageEntity {
    type Id = MessageId;

    open spec fn spec_id(&self) -> MessageId {
        self.id
    }

    open spec fn spec_scope(&self) -> Option<GuildId> {
        None
    }

    /// Return the message's ID.
    fn id(&self) -> (id: MessageId) {
        self.id
    }

    fn scope(&self) -> (guild_id: Option<GuildId>) {
        None
    }
}

/// Repository to work with messages and their associated entities.
pub trait MessageRepository<Error>: Repository<MessageEntity, Error> {
    /// Retrieve the attachments of a message.
    fn attachments<R: Repository<AttachmentEntity, Error>>(
        &self,
        attachments: &R,
        message_id: MessageId,
    ) -> (found: Result<Vec<Result<AttachmentEntity, Error>>, Error>)
        requires
            self.wf(),
            attachments.wf(),
        ensures
            Self::reliable() ==> found is Ok,
            found matches Ok(list) ==> {
                &&& match self.entries().get(message_id) {
                    Some(local) => is_resolution(attachments.entries(), local.attachments@, list@),
                    None => list@.len() == 0,
                }
                &&& R::reliable() ==> forall|i: int| 0 <= i < list@.len() ==> #[trigger] list@[i] is Ok
            },
    {
        let foreign_ids = |local: MessageEntity| -> (ids: Vec<AttachmentId>)
            ensures
                ids == local.attachments,
        {
            local.attachments
        };
        stream(self, attachments, message_id, foreign_ids)
    }

    /// Retrieve the author of a message.
    fn author<R: Repository<UserEntity, Error>>(
        &self,
        users: &R,
        message_id: MessageId,
    ) -> (found: Result<Option<UserEntity>, Error>)
        requires
            self.wf(),
            users.wf(),
        ensures
            Self::reliable() && R::reliable() ==> found is Ok,
            found matches Ok(entity) ==> entity == (match self.entries().get(message_id) {
                Some(local) => users.entries().get(local.author_id),
                None => None,
            }),
    {
        let foreign_id = |local: MessageEntity| -> (id: UserId)
            ensures
                id == local.author_id,
        {
            local.author_id
        };
        relation_map(self, users, message_id, foreign_id)
    }

    /// Retrieve the channel of a message.
    ///
    /// The message names its channel by id alone: the channel is looked up
    /// among the text channels, then the private channels, then the groups.
    fn channel<
        T: Repository<TextChannelEntity, Error>,
        P: Repository<PrivateChannelEntity, Error>,
        G: Repository<GroupEntity, Error>,
    >(
        &self,
        text_channels: &T,
        private_channels: &P,
        groups: &G,
        message_id: MessageId,
    ) -> (found: Result<Option<ChannelEntity>, Error>)
        requires
            self.wf(),
            text_channels.wf(),
            private_channels.wf(),
            groups.wf(),
        ensures
            Self::reliable() && T::reliable() && P::reliable() && G::reliable() ==> found is Ok,
            found matches Ok(channel) ==> channel == (match self.entries().get(message_id) {
                Some(message) => channel_of(
                    text_channels.entries(),
                    private_channels.entries(),
                    groups.entries(),
                    message.channel_id,
                ),
                None => None,
            }),
    {
        match self.get(message_id) {
            Ok(Some(message)) => find_channel(text_channels, private_channels, groups, message.channel_id),
            Ok(None) => Ok(None),
            Err(why) => Err(why),
        }
    }

    /// Retrieve the guild a message was posted in.
    fn guild<R: Repository<GuildEntity, Error>>(
        &self,
        guilds: &R,
        message_id: MessageId,
    ) -> (found: Result<Option<GuildEntity>, Error>)
        requires
            self.wf(),
            guilds.wf(),
        ensures
            Self::reliable() && R::reliable() ==> found is Ok,
            found matches Ok(entity) ==> entity == (match self.entries().get(message_id) {
                Some(local) => match local.guild_id {
                    Some(foreign_id) => guilds.entries().get(foreign_id),
                    None => None,
                },
                None => None,
            }),
    {
        let foreign_id = |local: MessageEntity| -> (id: Option<GuildId>)
            ensures
                id == local.guild_id,
        {
            local.guild_id
        };
        relation_and_then(self, guilds, message_id, foreign_id)
    }

    /// Retrieve the text channels that a message mentions.
    fn mention_channels<R: Repository<TextChannelEntity, Error>>(
        &self,
        text_channels: &R,
        message_id: MessageId,
    ) -> (found: Result<Vec<Result<TextChannelEntity, Error>>, Error>)
        requires
            self.wf(),
            text_channels.wf(),
        ensures
            Self::reliable() ==> found is Ok,
            found matches Ok(list) ==> {
                &&& match self.entries().get(message_id) {
                    Some(local) => is_resolution(text_channels.entries(), local.mention_channels@, list@),
                    None => list@.len() == 0,
                }
                &&& R::reliable() ==> forall|i: int| 0 <= i < list@.len() ==> #[trigger] list@[i] is Ok
            },
    {
        let foreign_ids = |local: MessageEntity| -> (ids: Vec<ChannelId>)
            ensures
                ids == local.mention_channels,
        {
            local.mention_channels
        };
        stream(self, text_channels, message_id, foreign_ids)
    }

    /// Retrieve the roles that a message mentions.
    fn mention_roles<R: Repository<RoleEntity, Error>>(
        &self,
        roles: &R,
        message_id: MessageId,
    ) -> (found: Result<Vec<Result<RoleEntity, Error>>, Error>)
        requires
            self.wf(),
            roles.wf(),
        ensures
            Self::reliable() ==> found is Ok,
            found matches Ok(list) ==> {
                &&& match self.entries().get(message_id) {
                    Some(local) => is_resolution(roles.entries(), local.mention_roles@, list@),
                    None => list@.len() == 0,
                }
                &&& R::reliable() ==> forall|i: int| 0 <= i < list@.len() ==> #[trigger] list@[i] is Ok
            },
    {
        let foreign_ids = |local: MessageEntity| -> (ids: Vec<RoleId>)
            ensures
                ids == local.mention_roles,
        {
            local.mention_roles
        };
        stream(self, roles, message_id, foreign_ids)
    }

    /// Retrieve the users that a message mentions.
    fn mentions<R: Repository<UserEntity, Error>>(
        &self,
        users: &R,
        message_id: MessageId,
    ) -> (found: Result<Vec<Result<UserEntity, Error>>, Error>)
        requires
            self.wf(),
            users.wf(),
        ensures
            Self::reliable() ==> found is Ok,
            found matches Ok(list) ==> {
                &&& match self.entries().get(message_id) {
                    Some(local) => is_resolution(users.entries(), local.mentions@, list@),
                    None => list@.len() == 0,
                }
                &&& R::reliable() ==> forall|i: int| 0 <= i < list@.len() ==> #[trigger] list@[i] is Ok
            },
    {
        let foreign_ids = |local: MessageEntity| -> (ids: Vec<UserId>)
            ensures
                ids == local.mentions,
        {
            local.mentions
        };
        stream(self, users, message_id, foreign_ids)
    }
}

} // verus!
