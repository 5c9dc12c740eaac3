//! Entities related to and within channels.

pub mod attachment;
pub mod category_channel;
pub mod group;
pub mod message;
pub mod private_channel;
pub mod text_channel;
pub mod voice_channel;

pub use self::attachment::AttachmentEntity;
pub use self::category_channel::CategoryChannelEntity;
pub use self::group::GroupEntity;
pub use self::message::MessageEntity;
pub use self::private_channel::PrivateChannelEntity;
pub use self::text_channel::TextChannelEntity;
pub use self::voice_channel::VoiceChannelEntity;

use vstd::prelude::*;
use crate::id::ChannelId;
use crate::model::channel::GuildChannel;
use crate::repository::Repository;

verus! {

/// A channel of any kind, as the lookup of a channel by its id alone finds it.
#[derive(Clone, Debug, PartialEq, Eq)]
pub enum ChannelEntity {
    Group(GroupEntity),
    Guild(GuildChannelEntity),
    Private(PrivateChannelEntity),
}

/// A channel of a guild, of one of the three kinds that a guild has.
#[derive(Clone, Debug, PartialEq, Eq)]
pub enum GuildChannelEntity {
    Category(CategoryChannelEntity),
    Text(TextChannelEntity),
    Voice(VoiceChannelEntity),
}

impl GuildChannelEntity {
    /// The id of the channel, whatever its kind.
    pub open spec fn spec_id(self) -> ChannelId {
        match self {
            GuildChannelEntity::Category(channel) => channel.id,
            GuildChannelEntity::Text(channel) => channel.id,
            GuildChannelEntity::Voice(channel) => channel.id,
        }
    }
}

/// The entities of the category channels among channels of a guild, in
/// their order.
pub open spec fn category_channels_of(channels: Seq<GuildChannel>) -> Seq<CategoryChannelEntity>
    decreases channels.len(),
{
    if channels.len() == 0 {
        Seq::empty()
    } else {
        match channels.last() {
            GuildChannel::Category(channel) => category_channels_of(channels.drop_last()).push(
                CategoryChannelEntity::spec_from(channel),
            ),
            _ => category_channels_of(channels.drop_last()),
        }
    }
}

/// The entities of the text channels among channels of a guild, in their
/// order.
pub open spec fn text_channels_of(channels: Seq<GuildChannel>) -> Seq<TextChannelEntity>
    decreases channels.len(),
{
    if channels.len() == 0 {
        Seq::empty()
    } else {
        match channels.last() {
            GuildChannel::Text(channel) => text_channels_of(channels.drop_last()).push(
                TextChannelEntity::spec_from(channel),
            ),
            _ => text_channels_of(channels.drop_last()),
        }
    }
}

/// The entities of the voice channels among channels of a guild, in their
/// order.
pub open spec fn voice_channels_of(channels: Seq<GuildChannel>) -> Seq<VoiceChannelEntity>
    decreases channels.len(),
{
    if channels.len() == 0 {
        Seq::empty()
    } else {
        match channels.last() {
            GuildChannel::Voice(channel) => voice_channels_of(channels.drop_last()).push(
                VoiceChannelEntity::spec_from(channel),
            ),
            _ => voice_channels_of(channels.drop_last()),
        }
    }
}

/// The channels of a guild by kind.
pub struct GuildChannels {
    pub category_channels: Vec<CategoryChannelEntity>,
    pub text_channels: Vec<TextChannelEntity>,
    pub voice_channels: Vec<VoiceChannelEntity>,
}

/// Make the entities of the channels of a guild, parted by kind.
pub fn guild_channel_entities(channels: Vec<GuildChannel>) -> (made: GuildChannels)
    ensures
        made.category_channels@ == category_channels_of(channels@),
        made.text_channels@ == text_channels_of(channels@),
        made.voice_channels@ == voice_channels_of(channels@),
{
    let mut category_channels: Vec<CategoryChannelEntity> = Vec::new();
    let mut text_channels: Vec<TextChannelEntity> = Vec::new();
    let mut voice_channels: Vec<VoiceChannelEntity> = Vec::new();
    for channel in it: channels.into_iter()
        invariant
            it.seq() == channels@,
            category_channels@ == category_channels_of(channels@.take(it.index() as int)),
            text_channels@ == text_channels_of(channels@.take(it.index() as int)),
            voice_channels@ == voice_channels_of(channels@.take(it.index() as int)),
    {
        let ghost n = it.index() as int;
        proof {
            assert(channels@.take(n + 1).drop_last() =~= channels@.take(n));
            assert(channels@.take(n + 1).last() == channel);
        }
        match channel {
            GuildChannel::Category(channel) => {
                category_channels.push(CategoryChannelEntity::from(channel));
            },
            GuildChannel::Text(channel) => {
                text_channels.push(TextChannelEntity::from(channel));
            },
            GuildChannel::Voice(channel) => {
                voice_channels.push(VoiceChannelEntity::from(channel));
            },
        }
    }
    proof {
        assert(channels@.take(channels@.len() as int) =~= channels@);
    }
    GuildChannels { category_channels, text_channels, voice_channels }
}

/// The channel with the given id among the kinds of channel that hold
/// messages: a text channel where there is one, else a private channel,
/// else a group.
///
/// The kinds share one space of ids, so that at most one of them has the
/// id: the order only decides how many repositories are asked.
pub open spec fn channel_of(
    text_channels: Map<ChannelId, TextChannelEntity>,
    private_channels: Map<ChannelId, PrivateChannelEntity>,
    groups: Map<ChannelId, GroupEntity>,
    channel_id: ChannelId,
) -> Option<ChannelEntity> {
    if text_channels.contains_key(channel_id) {
        Some(ChannelEntity::Guild(GuildChannelEntity::Text(text_channels[channel_id])))
    } else if private_channels.contains_key(channel_id) {
        Some(ChannelEntity::Private(private_channels[channel_id]))
    } else if groups.contains_key(channel_id) {
        Some(ChannelEntity::Group(groups[channel_id]))
    } else {
        None
    }
}

/// The channel with the given id among the kinds of channel of a guild: a
/// text channel where there is one, else a voice channel, else a category
/// channel.
pub open spec fn guild_channel_of(
    text_channels: Map<ChannelId, TextChannelEntity>,
    voice_channels: Map<ChannelId, VoiceChannelEntity>,
    category_channels: Map<ChannelId, CategoryChannelEntity>,
    channel_id: ChannelId,
) -> Option<GuildChannelEntity> {
    if text_channels.contains_key(channel_id) {
        Some(GuildChannelEntity::Text(text_channels[channel_id]))
    } else if voice_channels.contains_key(channel_id) {
        Some(GuildChannelEntity::Voice(voice_channels[channel_id]))
    } else if category_channels.contains_key(channel_id) {
        Some(GuildChannelEntity::Category(category_channels[channel_id]))
    } else {
        None
    }
}

/// Look a channel up by its id alone among the kinds of channel that hold
/// messages, asking the repositories in a fixed order and taking the first
/// that has it.
pub fn find_channel<
    Error,
    T: Repository<TextChannelEntity, Error>,
    P: Repository<PrivateChannelEntity, Error>,
    G: Repository<GroupEntity, Error>,
>(text_channels: &T, private_channels: &P, groups: &G, channel_id: ChannelId) -> (found: Result<
    Option<ChannelEntity>,
    Error,
>)
    requires
        text_channels.wf(),
        private_channels.wf(),
        groups.wf(),
    ensures
        T::reliable() && P::reliable() && G::reliable() ==> found is Ok,
        found matches Ok(channel) ==> channel == channel_of(
            text_channels.entries(),
            private_channels.entries(),
            groups.entries(),
            channel_id,
        ),
{
    match text_channels.get(channel_id) {
        Ok(Some(channel)) => {
            return Ok(Some(ChannelEntity::Guild(GuildChannelEntity::Text(channel))));
        },
        Ok(None) => {},
        Err(why) => {
            return Err(why);
        },
    }
    match private_channels.get(channel_id) {
        Ok(Some(channel)) => {
            return Ok(Some(ChannelEntity::Private(channel)));
        },
        Ok(None) => {},
        Err(why) => {
            return Err(why);
        },
    }
    match groups.get(channel_id) {
        Ok(Some(channel)) => Ok(Some(ChannelEntity::Group(channel))),
        Ok(None) => Ok(None),
        Err(why) => Err(why),
    }
}

/// Look a channel of a guild up by its id alone, asking the repositories in
/// a fixed order and taking the first that has it.
pub fn find_guild_channel<
    Error,
    T: Repository<TextChannelEntity, Error>,
    V: Repository<VoiceChannelEntity, Error>,
    C: Repository<CategoryChannelEntity, Error>,
>(text_channels: &T, voice_channels: &V, category_channels: &C, channel_id: ChannelId) -> (found: Result<
    Option<GuildChannelEntity>,
    Error,
>)
    requires
        text_channels.wf(),
        voice_channels.wf(),
        category_channels.wf(),
    ensures
        T::reliable() && V::reliable() && C::reliable() ==> found is Ok,
        found matches Ok(channel) ==> channel == guild_channel_of(
            text_channels.entries(),
            voice_channels.entries(),
            category_channels.entries(),
            channel_id,
        ),
{
    match text_channels.get(channel_id) {
        Ok(Some(channel)) => {
            return Ok(Some(GuildChannelEntity::Text(channel)));
        },
        Ok(None) => {},
        Err(why) => {
            return Err(why);
        },
    }
    match voice_channels.get(channel_id) {
        Ok(Some(channel)) => {
            return Ok(Some(GuildChannelEntity::Voice(channel)));
        },
        Ok(None) => {},
        Err(why) => {
            return Err(why);
        },
    }
    match category_channels.get(channel_id) {
        Ok(Some(channel)) => Ok(Some(GuildChannelEntity::Category(channel))),
        Ok(None) => Ok(None),
        Err(why) => Err(why),
    }
}

} // verus!
