//! Type-strong numeric identifiers.
//!
//! Every identifier family wraps one non-zero `u64` whose high 42 bits encode
//! a creation instant (a snowflake). The families share this one structural
//! implementation and differ only by a nominal marker, so a channel
//! identifier can never be passed where a user identifier is expected.

use core::marker::PhantomData;
use vstd::prelude::*;

use crate::numeric::{
    dec_digits_of, dec_value, is_dec_numeral, lemma_decimal_round_trip, parse_u64_dec, parse_wire,
    NumericError, WireValue,
};
use crate::timestamp::{Timestamp, MAX_RFC3339_MILLIS};

verus! {

/// The fixed platform epoch (milliseconds since the Unix epoch) that
/// snowflake timestamps are measured from.
pub const SNOWFLAKE_EPOCH_MS: u64 = 1_420_070_400_000;

/// A textual identifier failed to lex, or denoted the reserved zero value.
#[derive(Clone, Copy, Debug, PartialEq, Eq, Structural)]
pub enum ParseError {
    NotNumeral,
    Zero,
}

/// An untrusted wire value failed to convert to a valid identifier.
#[derive(Clone, Copy, Debug, PartialEq, Eq, Structural)]
pub enum DeserializeError {
    /// A textual value does not lex as an unsigned 64-bit decimal numeral.
    Parse,
    /// A signed wire value is negative.
    Range,
    /// The wire value denoted zero, which is reserved for "absent/invalid".
    Zero,
}

/// The millisecond instant encoded in the high 42 bits of a snowflake.
pub open spec fn snowflake_millis(v: u64) -> int {
    (v >> 22) + SNOWFLAKE_EPOCH_MS
}

/// A non-zero 64-bit identifier, tagged by the nominal family `M`.
#[derive(Debug)]
pub struct Id<M> {
    value: u64,
    family: PhantomData<M>,
}

impl<M> View for Id<M> {
    type V = u64;

    closed spec fn view(&self) -> u64 {
        self.value
    }
}

impl<M> Id<M> {
    /// Zero is reserved as "absent/invalid" and never a valid instance.
    #[verifier::type_invariant]
    pub open spec fn wf(self) -> bool {
        self@ != 0
    }

    /// Constructs from a trusted, already-validated in-process value. The
    /// zero value is an invariant violation and is excluded at the call
    /// site; untrusted data goes through [`Id::try_from_wire`] instead.
    pub fn new(value: u64) -> (r: Self)
        requires
            value != 0,
        ensures
            r@ == value,
    {
        Id { value, family: PhantomData }
    }

    /// The underlying value; never zero.
    pub fn get(&self) -> (r: u64)
        ensures
            r == self@,
            r != 0,
    {
        proof {
            use_type_invariant(&*self);
        }
        self.value
    }

    /// The creation instant encoded in the identifier: the high 42 bits,
    /// shifted into milliseconds past the platform epoch.
    pub fn created_at(&self) -> (t: Timestamp)
        ensures
            t@ == snowflake_millis(self@),
            t@ <= MAX_RFC3339_MILLIS,
    {
        let v = self.value;
        proof {
            assert(v >> 22 <= 0x3FF_FFFF_FFFFu64) by (bit_vector);
        }
        Timestamp::from_unix_millis((v >> 22) + SNOWFLAKE_EPOCH_MS)
    }

    /// Parses a decimal numeral; fails on any other text and on zero.
    pub fn parse(s: &str) -> (r: Result<Self, ParseError>)
        ensures
            is_dec_numeral(s@) && dec_value(s@) <= u64::MAX && dec_value(s@) != 0 ==> r is Ok
                && r->Ok_0@ == dec_value(s@),
            !(is_dec_numeral(s@) && dec_value(s@) <= u64::MAX) ==> r == Err::<Self, ParseError>(
                ParseError::NotNumeral,
            ),
            is_dec_numeral(s@) && dec_value(s@) <= u64::MAX && dec_value(s@) == 0 ==> r
                == Err::<Self, ParseError>(ParseError::Zero),
    {
        proof {
            if is_dec_numeral(s@) {
                crate::numeric::lemma_dec_value_nonneg(s@);
            }
        }
        match parse_u64_dec(s) {
            Ok(v) => {
                if v == 0 {
                    Err(ParseError::Zero)
                } else {
                    Ok(Id::new(v))
                }
            },
            Err(_) => Err(ParseError::NotNumeral),
        }
    }

    /// The fallible path for untrusted data: converges the wire shape via the
    /// numeric adapter, then rejects zero recoverably.
    pub fn try_from_wire(w: &WireValue) -> (r: Result<Self, DeserializeError>)
        ensures
            w is Unsigned && w->Unsigned_0 != 0 ==> r is Ok && r->Ok_0@ == w->Unsigned_0,
            w is Unsigned && w->Unsigned_0 == 0 ==> r == Err::<Self, DeserializeError>(
                DeserializeError::Zero,
            ),
            w is Signed && w->Signed_0 > 0 ==> r is Ok && r->Ok_0@ == w->Signed_0 as u64,
            w is Signed && w->Signed_0 == 0 ==> r == Err::<Self, DeserializeError>(
                DeserializeError::Zero,
            ),
            w is Signed && w->Signed_0 < 0 ==> r == Err::<Self, DeserializeError>(
                DeserializeError::Range,
            ),
            w is Text ==> {
                let s = w->Text_0@;
                &&& is_dec_numeral(s) && dec_value(s) <= u64::MAX && dec_value(s) != 0 ==> r is Ok
                    && r->Ok_0@ == dec_value(s)
                &&& !(is_dec_numeral(s) && dec_value(s) <= u64::MAX) ==> r == Err::<
                    Self,
                    DeserializeError,
                >(DeserializeError::Parse)
                &&& is_dec_numeral(s) && dec_value(s) <= u64::MAX && dec_value(s) == 0 ==> r
                    == Err::<Self, DeserializeError>(DeserializeError::Zero)
            },
    {
        proof {
            if w is Text && is_dec_numeral(w->Text_0@) {
                crate::numeric::lemma_dec_value_nonneg(w->Text_0@);
            }
        }
        match parse_wire(w) {
            Ok(v) => {
                if v == 0 {
                    Err(DeserializeError::Zero)
                } else {
                    Ok(Id::new(v))
                }
            },
            Err(NumericError::Parse) => Err(DeserializeError::Parse),
            Err(NumericError::Range) => Err(DeserializeError::Range),
        }
    }

    /// The wire form: always a decimal string, never a raw number.
    pub fn to_wire_string(&self) -> (r: String)
        ensures
            r@ == dec_digits_of(self@ as nat),
    {
        crate::numeric::format_u64(self.value)
    }
}

/// Law: the wire form of a valid identifier is a nonempty string of decimal
/// digits that denotes the identifier's own value, so deserializing the
/// serialized form (per the contracts of [`Id::to_wire_string`] and
/// [`Id::try_from_wire`]) yields the identifier back.
pub proof fn lemma_id_wire_round_trip(v: u64)
    requires
        v != 0,
    ensures
        is_dec_numeral(dec_digits_of(v as nat)),
        dec_value(dec_digits_of(v as nat)) == v,
{
    lemma_decimal_round_trip(v as nat);
}

impl<M> Clone for Id<M> {
    fn clone(&self) -> (r: Self)
        ensures
            r@ == self@,
    {
        proof {
            use_type_invariant(&*self);
        }
        Id { value: self.value, family: PhantomData }
    }
}

impl<M> Copy for Id<M> {

}

impl<M> PartialEq for Id<M> {
    fn eq(&self, other: &Self) -> bool {
        self.value == other.value
    }
}

impl<M> Eq for Id<M> {

}

impl<M> vstd::std_specs::cmp::PartialEqSpecImpl for Id<M> {
    open spec fn obeys_eq_spec() -> bool {
        true
    }

    open spec fn eq_spec(&self, other: &Self) -> bool {
        self@ == other@
    }
}

/// Identifiers order by their numeric value; because the creation instant
/// sits in the high bits, this order is consistent with generation order.
impl<M> PartialOrd for Id<M> {
    fn partial_cmp(&self, other: &Self) -> Option<core::cmp::Ordering> {
        if self.value < other.value {
            Some(core::cmp::Ordering::Less)
        } else if self.value == other.value {
            Some(core::cmp::Ordering::Equal)
        } else {
            Some(core::cmp::Ordering::Greater)
        }
    }
}

impl<M> vstd::std_specs::cmp::PartialOrdSpecImpl for Id<M> {
    open spec fn obeys_partial_cmp_spec() -> bool {
        true
    }

    open spec fn partial_cmp_spec(&self, other: &Self) -> Option<core::cmp::Ordering> {
        if self@ < other@ {
            Some(core::cmp::Ordering::Less)
        } else if self@ == other@ {
            Some(core::cmp::Ordering::Equal)
        } else {
            Some(core::cmp::Ordering::Greater)
        }
    }
}

impl<M> Default for Id<M> {
    /// The smallest valid identifier.
    fn default() -> (r: Self)
        ensures
            r@ == 1,
    {
        Id { value: 1, family: PhantomData }
    }
}

/// An identifier for a Shard.
///
/// This identifier is special: it models process-internal values for type
/// safety only, has no timestamp semantics, and has no wire form.
#[derive(Clone, Copy, Debug, Eq, Hash, PartialEq, PartialOrd, Ord, Structural)]
pub struct ShardId(pub u32);

impl ShardId {
    /// Retrieves the value as a `u32`; shard identifiers are not snowflakes.
    pub fn get(self) -> (r: u32)
        ensures
            r == self.0,
    {
        self.0
    }
}

/// An identifier for a poll answer.
///
/// This identifier is special: it is an 8-bit sequential index, not a
/// snowflake, and its encoding is subject to change.
#[derive(Clone, Copy, Debug, Eq, Hash, PartialEq, PartialOrd, Ord, Structural)]
pub struct AnswerId(u8);

impl View for AnswerId {
    type V = u8;

    closed spec fn view(&self) -> u8 {
        self.0
    }
}

impl AnswerId {
    /// Wraps a sequential answer index.
    pub fn new(value: u8) -> (r: Self)
        ensures
            r@ == value,
    {
        AnswerId(value)
    }

    /// Retrieves the value as a `u64`; answer identifiers are not snowflakes.
    pub fn get(self) -> (r: u64)
        ensures
            r == self@,
    {
        self.0 as u64
    }
}

/// The nominal family of attachment identifiers.
#[derive(Clone, Copy, Debug)]
pub struct AttachmentMarker;

/// The nominal family of application identifiers.
#[derive(Clone, Copy, Debug)]
pub struct ApplicationMarker;

/// The nominal family of channel identifiers.
#[derive(Clone, Copy, Debug)]
pub struct ChannelMarker;

/// The nominal family of emoji identifiers.
#[derive(Clone, Copy, Debug)]
pub struct EmojiMarker;

/// The nominal family of unspecific-entity identifiers.
#[derive(Clone, Copy, Debug)]
pub struct GenericMarker;

/// The nominal family of guild identifiers.
#[derive(Clone, Copy, Debug)]
pub struct GuildMarker;

/// The nominal family of integration identifiers.
#[derive(Clone, Copy, Debug)]
pub struct IntegrationMarker;

/// The nominal family of message identifiers.
#[derive(Clone, Copy, Debug)]
pub struct MessageMarker;

/// The nominal family of role identifiers.
#[derive(Clone, Copy, Debug)]
pub struct RoleMarker;

/// The nominal family of scheduled-event identifiers.
#[derive(Clone, Copy, Debug)]
pub struct ScheduledEventMarker;

/// The nominal family of sticker identifiers.
#[derive(Clone, Copy, Debug)]
pub struct StickerMarker;

/// The nominal family of sticker-pack identifiers.
#[derive(Clone, Copy, Debug)]
pub struct StickerPackMarker;

/// The nominal family of sticker-pack-banner identifiers.
#[derive(Clone, Copy, Debug)]
pub struct StickerPackBannerMarker;

/// The nominal family of SKU identifiers.
#[derive(Clone, Copy, Debug)]
pub struct SkuMarker;

/// The nominal family of user identifiers.
#[derive(Clone, Copy, Debug)]
pub struct UserMarker;

/// The nominal family of webhook identifiers.
#[derive(Clone, Copy, Debug)]
pub struct WebhookMarker;

/// The nominal family of audit-log-entry identifiers.
#[derive(Clone, Copy, Debug)]
pub struct AuditLogEntryMarker;

/// The nominal family of interaction identifiers.
#[derive(Clone, Copy, Debug)]
pub struct InteractionMarker;

/// The nominal family of slash-command identifiers.
#[derive(Clone, Copy, Debug)]
pub struct CommandMarker;

/// The nominal family of slash-command-permission identifiers.
#[derive(Clone, Copy, Debug)]
pub struct CommandPermissionMarker;

/// The nominal family of slash-command-version identifiers.
#[derive(Clone, Copy, Debug)]
pub struct CommandVersionMarker;

/// The nominal family of slash-command-target identifiers.
#[derive(Clone, Copy, Debug)]
pub struct TargetMarker;

/// The nominal family of stage-instance identifiers.
#[derive(Clone, Copy, Debug)]
pub struct StageInstanceMarker;

/// The nominal family of auto-moderation-rule identifiers.
#[derive(Clone, Copy, Debug)]
pub struct RuleMarker;

/// The nominal family of forum-tag identifiers.
#[derive(Clone, Copy, Debug)]
pub struct ForumTagMarker;

/// The nominal family of entitlement identifiers.
#[derive(Clone, Copy, Debug)]
pub struct EntitlementMarker;

/// An identifier for an attachment.
pub type AttachmentId = Id<AttachmentMarker>;

/// An identifier for an application.
pub type ApplicationId = Id<ApplicationMarker>;

/// An identifier for a channel.
pub type ChannelId = Id<ChannelMarker>;

/// An identifier for an emoji.
pub type EmojiId = Id<EmojiMarker>;

/// An identifier for an unspecific entity.
pub type GenericId = Id<GenericMarker>;

/// An identifier for a guild.
pub type GuildId = Id<GuildMarker>;

/// An identifier for an integration.
pub type IntegrationId = Id<IntegrationMarker>;

/// An identifier for a message.
pub type MessageId = Id<MessageMarker>;

/// An identifier for a role.
pub type RoleId = Id<RoleMarker>;

/// An identifier for a scheduled event.
pub type ScheduledEventId = Id<ScheduledEventMarker>;

/// An identifier for a sticker.
pub type StickerId = Id<StickerMarker>;

/// An identifier for a sticker pack.
pub type StickerPackId = Id<StickerPackMarker>;

/// An identifier for a sticker pack banner.
pub type StickerPackBannerId = Id<StickerPackBannerMarker>;

/// An identifier for a SKU.
pub type SkuId = Id<SkuMarker>;

/// An identifier for a user.
pub type UserId = Id<UserMarker>;

/// An identifier for a webhook.
pub type WebhookId = Id<WebhookMarker>;

/// An identifier for an audit log entry.
pub type AuditLogEntryId = Id<AuditLogEntryMarker>;

/// An identifier for an interaction.
pub type InteractionId = Id<InteractionMarker>;

/// An identifier for a slash command.
pub type CommandId = Id<CommandMarker>;

/// An identifier for a slash command permission.
pub type CommandPermissionId = Id<CommandPermissionMarker>;

/// An identifier for a slash command version.
pub type CommandVersionId = Id<CommandVersionMarker>;

/// An identifier for a slash command target.
pub type TargetId = Id<TargetMarker>;

/// An identifier for a stage channel instance.
pub type StageInstanceId = Id<StageInstanceMarker>;

/// An identifier for an auto moderation rule.
pub type RuleId = Id<RuleMarker>;

/// An identifier for a forum tag.
pub type ForumTagId = Id<ForumTagMarker>;

/// An identifier for an entitlement.
pub type EntitlementId = Id<EntitlementMarker>;

} // verus!
