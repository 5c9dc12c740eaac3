//! The keys under which a key-value store such as UnQLite holds the
//! entities: a short prefix for the entity type, and the id in decimal.

use vstd::prelude::*;
use crate::entity::Entity;
use crate::entity::channel::{
    AttachmentEntity, CategoryChannelEntity, GroupEntity, MessageEntity, PrivateChannelEntity,
    TextChannelEntity, VoiceChannelEntity,
};
use crate::entity::gateway::PresenceEntity;
use crate::entity::guild::{EmojiEntity, GuildEntity, MemberEntity, RoleEntity};
use crate::entity::user::UserEntity;
use crate::entity::voice::VoiceStateEntity;
use crate::id::{AttachmentId, ChannelId, EmojiId, GuildId, MessageId, RoleId, UserId};

verus! {

/// The byte of the colon that parts a key.
pub const COLON: u8 = 0x3a;

/// The byte of the digit `0`.
pub const ZERO: u8 = 0x30;

/// The decimal digits of a number, the highest first, without leading
/// zeros.
pub open spec fn decimal(n: nat) -> Seq<u8>
    decreases n,
{
    if n < 10 {
        seq![(ZERO + n) as u8]
    } else {
        decimal(n / 10).push((ZERO + n % 10) as u8)
    }
}

/// The key of a single id: the prefix, a colon, and the id in decimal.
pub open spec fn single_key(prefix: Seq<u8>, id: u64) -> Seq<u8> {
    prefix.push(COLON) + decimal(id as nat)
}

/// The key of an id that is a pair: the prefix, a colon, the first half in
/// decimal, a colon, and the second half in decimal.
pub open spec fn pair_key(prefix: Seq<u8>, first: u64, second: u64) -> Seq<u8> {
    (prefix.push(COLON) + decimal(first as nat)).push(COLON) + decimal(second as nat)
}

/// Write a number in decimal at the end of the bytes.
pub fn push_decimal(bytes: &mut Vec<u8>, n: u64)
    ensures
        final(bytes)@ == old(bytes)@ + decimal(n as nat),
{
    // The digits come out lowest first: they are collected, and then
    // written from the last to the first.
    let mut digits: Vec<u8> = Vec::new();
    let mut rest = n;
    while rest >= 10
        invariant
            decimal(n as nat) == decimal(rest as nat) + digits@.reverse(),
        decreases rest,
    {
        let digit = ZERO + (rest % 10) as u8;
        proof {
            assert(decimal(rest as nat) == decimal((rest / 10) as nat).push(digit));
            assert(decimal((rest / 10) as nat).push(digit) + digits@.reverse() =~= decimal((rest / 10) as nat)
                + digits@.push(digit).reverse());
        }
        digits.push(digit);
        rest = rest / 10;
    }
    let ghost start = bytes@;
    bytes.push(ZERO + rest as u8);
    let mut i = digits.len();
    while i > 0
        invariant
            i <= digits.len(),
            bytes@ == start + decimal(rest as nat) + digits@.reverse().take(digits.len() - i),
        decreases i,
    {
        i -= 1;
        bytes.push(digits[i]);
        proof {
            let turned = digits@.reverse();
            assert(turned.take(digits.len() - i) =~= turned.take(digits.len() - i - 1).push(digits@[i as int]));
        }
    }
    proof {
        assert(digits@.reverse().take(digits.len() as int) =~= digits@.reverse());
        assert(start + decimal(rest as nat) + digits@.reverse() =~= start + (decimal(rest as nat)
            + digits@.reverse()));
    }
}

/// Make the key of a single id.
pub fn make_single_key(prefix: &[u8], id: u64) -> (key: Vec<u8>)
    ensures
        key@ == single_key(prefix@, id),
{
    let mut key: Vec<u8> = Vec::new();
    let mut i: usize = 0;
    while i < prefix.len()
        invariant
            i <= prefix.len(),
            key@ == prefix@.take(i as int),
        decreases prefix.len() - i,
    {
        key.push(prefix[i]);
        proof {
            assert(prefix@.take(i + 1) =~= prefix@.take(i as int).push(prefix@[i as int]));
        }
        i += 1;
    }
    proof {
        assert(prefix@.take(prefix.len() as int) =~= prefix@);
    }
    key.push(COLON);
    push_decimal(&mut key, id);
    key
}

/// Make the key of an id that is a pair.
pub fn make_pair_key(prefix: &[u8], first: u64, second: u64) -> (key: Vec<u8>)
    ensures
        key@ == pair_key(prefix@, first, second),
{
    let mut key = make_single_key(prefix, first);
    key.push(COLON);
    push_decimal(&mut key, second);
    key
}

/// An entity that a key-value store holds under a key of bytes.
pub trait UnqliteEntity: Entity {
    /// The key of an id.
    spec fn spec_key(id: Self::Id) -> Seq<u8>;

    /// Return the key of an id.
    fn key(id: Self::Id) -> (key: Vec<u8>)
        ensures
            key@ == Self::spec_key(id),
    ;
}

/// The keys of attachments start with `at:`.
impl UnqliteEntity for AttachmentEntity {
    open spec fn spec_key(id: AttachmentId) -> Seq<u8> {
        single_key(seq![0x61u8, 0x74u8], id.0)
    }

    fn key(id: AttachmentId) -> (key: Vec<u8>) {
        let prefix: [u8; 2] = [0x61, 0x74];
        proof {
            assert(prefix@ =~= seq![0x61u8, 0x74u8]);
        }
        make_single_key(prefix.as_slice(), id.0)
    }
}

/// The keys of category channels start with `cc:`.
impl UnqliteEntity for CategoryChannelEntity {
    open spec fn spec_key(id: ChannelId) -> Seq<u8> {
        single_key(seq![0x63u8, 0x63u8], id.0)
    }

    fn key(id: ChannelId) -> (key: Vec<u8>) {
        let prefix: [u8; 2] = [0x63, 0x63];
        proof {
            assert(prefix@ =~= seq![0x63u8, 0x63u8]);
        }
        make_single_key(prefix.as_slice(), id.0)
    }
}

/// The keys of emojis start with `em:`.
impl UnqliteEntity for EmojiEntity {
    open spec fn spec_key(id: EmojiId) -> Seq<u8> {
        single_key(seq![0x65u8, 0x6du8], id.0)
    }

    fn key(id: EmojiId) -> (key: Vec<u8>) {
        let prefix: [u8; 2] = [0x65, 0x6d];
        proof {
            assert(prefix@ =~= seq![0x65u8, 0x6du8]);
        }
        make_single_key(prefix.as_slice(), id.0)
    }
}

/// The keys of groups start with `gr:`.
impl UnqliteEntity for GroupEntity {
    open spec fn spec_key(id: ChannelId) -> Seq<u8> {
        single_key(seq![0x67u8, 0x72u8], id.0)
    }

    fn key(id: ChannelId) -> (key: Vec<u8>) {
        let prefix: [u8; 2] = [0x67, 0x72];
        proof {
            assert(prefix@ =~= seq![0x67u8, 0x72u8]);
        }
        make_single_key(prefix.as_slice(), id.0)
    }
}

/// The keys of guilds start with `g:`.
impl UnqliteEntity for GuildEntity {
    open spec fn spec_key(id: GuildId) -> Seq<u8> {
        single_key(seq![0x67u8], id.0)
    }

    fn key(id: GuildId) -> (key: Vec<u8>) {
        let prefix: [u8; 1] = [0x67];
        proof {
            assert(prefix@ =~= seq![0x67u8]);
        }
        make_single_key(prefix.as_slice(), id.0)
    }
}

/// The keys of members start with `m:`.
impl UnqliteEntity for MemberEntity {
    open spec fn spec_key(id: (GuildId, UserId)) -> Seq<u8> {
        pair_key(seq![0x6du8], id.0.0, id.1.0)
    }

    fn key(id: (GuildId, UserId)) -> (key: Vec<u8>) {
        let prefix: [u8; 1] = [0x6d];
        proof {
            assert(prefix@ =~= seq![0x6du8]);
        }
        make_pair_key(prefix.as_slice(), id.0.0, id.1.0)
    }
}

/// The keys of messages start with `ms:`.
impl UnqliteEntity for MessageEntity {
    open spec fn spec_key(id: MessageId) -> Seq<u8> {
        single_key(seq![0x6du8, 0x73u8], id.0)
    }

    fn key(id: MessageId) -> (key: Vec<u8>) {
        let prefix: [u8; 2] = [0x6d, 0x73];
        proof {
            assert(prefix@ =~= seq![0x6du8, 0x73u8]);
        }
        make_single_key(prefix.as_slice(), id.0)
    }
}

/// The keys of presences start with `pr:`.
impl UnqliteEntity for PresenceEntity {
    open spec fn spec_key(id: (GuildId, UserId)) -> Seq<u8> {
        pair_key(seq![0x70u8, 0x72u8], id.0.0, id.1.0)
    }

    fn key(id: (GuildId, UserId)) -> (key: Vec<u8>) {
        let prefix: [u8; 2] = [0x70, 0x72];
        proof {
            assert(prefix@ =~= seq![0x70u8, 0x72u8]);
        }
        make_pair_key(prefix.as_slice(), id.0.0, id.1.0)
    }
}

/// The keys of private channels start with `cp:`.
impl UnqliteEntity for PrivateChannelEntity {
    open spec fn spec_key(id: ChannelId) -> Seq<u8> {
        single_key(seq![0x63u8, 0x70u8], id.0)
    }

    fn key(id: ChannelId) -> (key: Vec<u8>) {
        let prefix: [u8; 2] = [0x63, 0x70];
        proof {
            assert(prefix@ =~= seq![0x63u8, 0x70u8]);
        }
        make_single_key(prefix.as_slice(), id.0)
    }
}

/// The keys of roles start with `r:`.
impl UnqliteEntity for RoleEntity {
    open spec fn spec_key(id: RoleId) -> Seq<u8> {
        single_key(seq![0x72u8], id.0)
    }

    fn key(id: RoleId) -> (key: Vec<u8>) {
        let prefix: [u8; 1] = [0x72];
        proof {
            assert(prefix@ =~= seq![0x72u8]);
        }
        make_single_key(prefix.as_slice(), id.0)
    }
}

/// The keys of text channels start with `ct:`.
impl UnqliteEntity for TextChannelEntity {
    open spec fn spec_key(id: ChannelId) -> Seq<u8> {
        single_key(seq![0x63u8, 0x74u8], id.0)
    }

    fn key(id: ChannelId) -> (key: Vec<u8>) {
        let prefix: [u8; 2] = [0x63, 0x74];
        proof {
            assert(prefix@ =~= seq![0x63u8, 0x74u8]);
        }
        make_single_key(prefix.as_slice(), id.0)
    }
}

/// The keys of users start with `u:`.
impl UnqliteEntity for UserEntity {
    open spec fn spec_key(id: UserId) -> Seq<u8> {
        single_key(seq![0x75u8], id.0)
    }

    fn key(id: UserId) -> (key: Vec<u8>) {
        let prefix: [u8; 1] = [0x75];
        proof {
            assert(prefix@ =~= seq![0x75u8]);
        }
        make_single_key(prefix.as_slice(), id.0)
    }
}

/// The keys of voice channels start with `cv:`.
impl UnqliteEntity for VoiceChannelEntity {
    open spec fn spec_key(id: ChannelId) -> Seq<u8> {
        single_key(seq![0x63u8, 0x76u8], id.0)
    }

    fn key(id: ChannelId) -> (key: Vec<u8>) {
        let prefix: [u8; 2] = [0x63, 0x76];
        proof {
            assert(prefix@ =~= seq![0x63u8, 0x76u8]);
        }
        make_single_key(prefix.as_slice(), id.0)
    }
}

/// The keys of voice states start with `v:`.
impl UnqliteEntity for VoiceStateEntity {
    open spec fn spec_key(id: (GuildId, UserId)) -> Seq<u8> {
        pair_key(seq![0x76u8], id.0.0, id.1.0)
    }

    fn key(id: (GuildId, UserId)) -> (key: Vec<u8>) {
        let prefix: [u8; 1] = [0x76];
        proof {
            assert(prefix@ =~= seq![0x76u8]);
        }
        make_pair_key(prefix.as_slice(), id.0.0, id.1.0)
    }
}

} // verus!
