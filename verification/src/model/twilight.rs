//! The types of `twilight_model` that payloads and entities carry unread.
//!
//! Nothing in the cache looks into a value of one of these types: a value
//! comes in with a payload, is stored in an entity and is handed out again.
//! Each is declared here without its fields. Those that stand in a field by
//! themselves are copied when the payload or entity around them is cloned:
//! their `clone` is taken to return what it was given.

use vstd::prelude::*;

verus! {

/// The kind of a channel.
#[verifier::external_type_specification]
#[verifier::external_body]
pub struct ExChannelType(twilight_model::channel::ChannelType);

/// A permission overwrite of a guild channel.
#[verifier::external_type_specification]
#[verifier::external_body]
pub struct ExPermissionOverwrite(twilight_model::channel::permission_overwrite::PermissionOverwrite);

/// An embed of a message.
#[verifier::external_type_specification]
#[verifier::external_body]
pub struct ExEmbed(twilight_model::channel::embed::Embed);

/// The activity that a message announces.
#[verifier::external_type_specification]
#[verifier::external_body]
pub struct ExMessageActivity(twilight_model::channel::message::MessageActivity);

/// The flags of a message.
#[verifier::external_type_specification]
#[verifier::external_body]
pub struct ExMessageFlags(twilight_model::channel::message::MessageFlags);

/// The reactions to a message under one emoji.
#[verifier::external_type_specification]
#[verifier::external_body]
pub struct ExMessageReaction(twilight_model::channel::message::MessageReaction);

/// The kind of a message.
#[verifier::external_type_specification]
#[verifier::external_body]
pub struct ExMessageType(twilight_model::channel::message::MessageType);

/// An activity of a user.
#[verifier::external_type_specification]
#[verifier::external_body]
pub struct ExActivity(twilight_model::gateway::presence::Activity);

/// The status of a user on each of the platforms.
#[verifier::external_type_specification]
#[verifier::external_body]
pub struct ExClientStatus(twilight_model::gateway::presence::ClientStatus);

/// The status of a user.
#[verifier::external_type_specification]
#[verifier::external_body]
pub struct ExStatus(twilight_model::gateway::presence::Status);

/// The default message notification level of a guild.
#[verifier::external_type_specification]
#[verifier::external_body]
pub struct ExDefaultMessageNotificationLevel(twilight_model::guild::DefaultMessageNotificationLevel);

/// The explicit content filter level of a guild.
#[verifier::external_type_specification]
#[verifier::external_body]
pub struct ExExplicitContentFilter(twilight_model::guild::ExplicitContentFilter);

/// The multi-factor authentication level of a guild.
#[verifier::external_type_specification]
#[verifier::external_body]
pub struct ExMfaLevel(twilight_model::guild::MfaLevel);

/// A set of permissions.
#[verifier::external_type_specification]
#[verifier::external_body]
pub struct ExPermissions(twilight_model::guild::Permissions);

/// The premium tier of a guild.
#[verifier::external_type_specification]
#[verifier::external_body]
pub struct ExPremiumTier(twilight_model::guild::PremiumTier);

/// The flags of the system channel of a guild.
#[verifier::external_type_specification]
#[verifier::external_body]
pub struct ExSystemChannelFlags(twilight_model::guild::SystemChannelFlags);

/// The verification level of a guild.
#[verifier::external_type_specification]
#[verifier::external_body]
pub struct ExVerificationLevel(twilight_model::guild::VerificationLevel);

/// The premium subscription of a user.
#[verifier::external_type_specification]
#[verifier::external_body]
pub struct ExPremiumType(twilight_model::user::PremiumType);

/// The flags of a user.
#[verifier::external_type_specification]
#[verifier::external_body]
pub struct ExUserFlags(twilight_model::user::UserFlags);

/// `ChannelType::clone`, which `derive` wrote: the clone equals the value.
pub assume_specification[ <twilight_model::channel::ChannelType as Clone>::clone ](
    value: &twilight_model::channel::ChannelType,
) -> (copy: twilight_model::channel::ChannelType)
    ensures
        copy == *value,
;

/// `MessageType::clone`, which `derive` wrote: the clone equals the value.
pub assume_specification[ <twilight_model::channel::message::MessageType as Clone>::clone ](
    value: &twilight_model::channel::message::MessageType,
) -> (copy: twilight_model::channel::message::MessageType)
    ensures
        copy == *value,
;

/// `ClientStatus::clone`, which `derive` wrote: the clone equals the value.
pub assume_specification[ <twilight_model::gateway::presence::ClientStatus as Clone>::clone ](
    value: &twilight_model::gateway::presence::ClientStatus,
) -> (copy: twilight_model::gateway::presence::ClientStatus)
    ensures
        copy == *value,
;

/// `Status::clone`, which `derive` wrote: the clone equals the value.
pub assume_specification[ <twilight_model::gateway::presence::Status as Clone>::clone ](
    value: &twilight_model::gateway::presence::Status,
) -> (copy: twilight_model::gateway::presence::Status)
    ensures
        copy == *value,
;

/// `DefaultMessageNotificationLevel::clone`, which `derive` wrote: the clone equals the value.
pub assume_specification[ <twilight_model::guild::DefaultMessageNotificationLevel as Clone>::clone ](
    value: &twilight_model::guild::DefaultMessageNotificationLevel,
) -> (copy: twilight_model::guild::DefaultMessageNotificationLevel)
    ensures
        copy == *value,
;

/// `ExplicitContentFilter::clone`, which `derive` wrote: the clone equals the value.
pub assume_specification[ <twilight_model::guild::ExplicitContentFilter as Clone>::clone ](
    value: &twilight_model::guild::ExplicitContentFilter,
) -> (copy: twilight_model::guild::ExplicitContentFilter)
    ensures
        copy == *value,
;

/// `MfaLevel::clone`, which `derive` wrote: the clone equals the value.
pub assume_specification[ <twilight_model::guild::MfaLevel as Clone>::clone ](
    value: &twilight_model::guild::MfaLevel,
) -> (copy: twilight_model::guild::MfaLevel)
    ensures
        copy == *value,
;

/// `Permissions::clone`, which `derive` wrote: the clone equals the value.
pub assume_specification[ <twilight_model::guild::Permissions as Clone>::clone ](
    value: &twilight_model::guild::Permissions,
) -> (copy: twilight_model::guild::Permissions)
    ensures
        copy == *value,
;

/// `PremiumTier::clone`, which `derive` wrote: the clone equals the value.
pub assume_specification[ <twilight_model::guild::PremiumTier as Clone>::clone ](
    value: &twilight_model::guild::PremiumTier,
) -> (copy: twilight_model::guild::PremiumTier)
    ensures
        copy == *value,
;

/// `SystemChannelFlags::clone`, which `derive` wrote: the clone equals the value.
pub assume_specification[ <twilight_model::guild::SystemChannelFlags as Clone>::clone ](
    value: &twilight_model::guild::SystemChannelFlags,
) -> (copy: twilight_model::guild::SystemChannelFlags)
    ensures
        copy == *value,
;

/// `VerificationLevel::clone`, which `derive` wrote: the clone equals the value.
pub assume_specification[ <twilight_model::guild::VerificationLevel as Clone>::clone ](
    value: &twilight_model::guild::VerificationLevel,
) -> (copy: twilight_model::guild::VerificationLevel)
    ensures
        copy == *value,
;

/// `PremiumType::clone`, which `derive` wrote: the clone equals the value.
pub assume_specification[ <twilight_model::user::PremiumType as Clone>::clone ](
    value: &twilight_model::user::PremiumType,
) -> (copy: twilight_model::user::PremiumType)
    ensures
        copy == *value,
;

/// `UserFlags::clone`, which `derive` wrote: the clone equals the value.
pub assume_specification[ <twilight_model::user::UserFlags as Clone>::clone ](
    value: &twilight_model::user::UserFlags,
) -> (copy: twilight_model::user::UserFlags)
    ensures
        copy == *value,
;

} // verus!
