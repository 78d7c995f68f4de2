//! A 64-bit permission bit-set with a declared table of named flags.
//!
//! All construction truncates: a bit outside the declared table is silently
//! dropped and can never be observed afterwards, so bits introduced by a
//! future protocol revision never make construction fail. One table entry is
//! a deprecated alias that shares its bit with a canonical entry; only the
//! canonical entry takes part in name enumeration and rendering.

use vstd::prelude::*;
use vstd::string::StringExecFns;

use crate::numeric::{
    dec_digits_of, dec_value, is_dec_numeral, parse_wire, NumericError, WireValue,
};

verus! {

/// The bit for the "Create Invites" permission.
pub const CREATE_INSTANT_INVITE: u64 = 1u64 << 0;

/// The bit for the "Kick Members" permission.
pub const KICK_MEMBERS: u64 = 1u64 << 1;

/// The bit for the "Ban Members" permission.
pub const BAN_MEMBERS: u64 = 1u64 << 2;

/// The bit for the "Administrator" permission.
pub const ADMINISTRATOR: u64 = 1u64 << 3;

/// The bit for the "Manage Channels" permission.
pub const MANAGE_CHANNELS: u64 = 1u64 << 4;

/// The bit for the "Manage Guild" permission.
pub const MANAGE_GUILD: u64 = 1u64 << 5;

/// The bit for the "Add Reactions" permission.
pub const ADD_REACTIONS: u64 = 1u64 << 6;

/// The bit for the "View Audit Log" permission.
pub const VIEW_AUDIT_LOG: u64 = 1u64 << 7;

/// The bit for the "Priority Speaker" permission.
pub const PRIORITY_SPEAKER: u64 = 1u64 << 8;

/// The bit for the "Stream" permission.
pub const STREAM: u64 = 1u64 << 9;

/// The bit for the "View Channel" permission.
pub const VIEW_CHANNEL: u64 = 1u64 << 10;

/// The bit for the "Send Messages" permission.
pub const SEND_MESSAGES: u64 = 1u64 << 11;

/// The bit for the "Send TTS Messages" permission.
pub const SEND_TTS_MESSAGES: u64 = 1u64 << 12;

/// The bit for the "Manage Messages" permission.
pub const MANAGE_MESSAGES: u64 = 1u64 << 13;

/// The bit for the "Embed Links" permission.
pub const EMBED_LINKS: u64 = 1u64 << 14;

/// The bit for the "Attach Files" permission.
pub const ATTACH_FILES: u64 = 1u64 << 15;

/// The bit for the "Read Message History" permission.
pub const READ_MESSAGE_HISTORY: u64 = 1u64 << 16;

/// The bit for the "Mention @everyone, @here, and All Roles" permission.
pub const MENTION_EVERYONE: u64 = 1u64 << 17;

/// The bit for the "Use External Emojis" permission.
pub const USE_EXTERNAL_EMOJIS: u64 = 1u64 << 18;

/// The bit for the "View Guild Insights" permission.
pub const VIEW_GUILD_INSIGHTS: u64 = 1u64 << 19;

/// The bit for the "Connect" permission.
pub const CONNECT: u64 = 1u64 << 20;

/// The bit for the "Speak" permission.
pub const SPEAK: u64 = 1u64 << 21;

/// The bit for the "Mute Members" permission.
pub const MUTE_MEMBERS: u64 = 1u64 << 22;

/// The bit for the "Deafen Members" permission.
pub const DEAFEN_MEMBERS: u64 = 1u64 << 23;

/// The bit for the "Move Members" permission.
pub const MOVE_MEMBERS: u64 = 1u64 << 24;

/// The bit for the "Use Voice Activity" permission.
pub const USE_VAD: u64 = 1u64 << 25;

/// The bit for the "Change Nickname" permission.
pub const CHANGE_NICKNAME: u64 = 1u64 << 26;

/// The bit for the "Manage Nicknames" permission.
pub const MANAGE_NICKNAMES: u64 = 1u64 << 27;

/// The bit for the "Manage Roles" permission.
pub const MANAGE_ROLES: u64 = 1u64 << 28;

/// The bit for the "Manage Webhooks" permission.
pub const MANAGE_WEBHOOKS: u64 = 1u64 << 29;

/// The bit for the "Manage Guild Expressions" permission.
pub const MANAGE_GUILD_EXPRESSIONS: u64 = 1u64 << 30;

/// The bit for the "Manage Emojis and Stickers" permission. Deprecated alias sharing its bit
/// with `MANAGE_GUILD_EXPRESSIONS`; excluded from name enumeration.
pub const MANAGE_EMOJIS_AND_STICKERS: u64 = 1u64 << 30;

/// The bit for the "Use Application Commands" permission.
pub const USE_APPLICATION_COMMANDS: u64 = 1u64 << 31;

/// The bit for the "Request to Speak" permission.
pub const REQUEST_TO_SPEAK: u64 = 1u64 << 32;

/// The bit for the "Manage Events" permission.
pub const MANAGE_EVENTS: u64 = 1u64 << 33;

/// The bit for the "Manage Threads" permission.
pub const MANAGE_THREADS: u64 = 1u64 << 34;

/// The bit for the "Create Public Threads" permission.
pub const CREATE_PUBLIC_THREADS: u64 = 1u64 << 35;

/// The bit for the "Create Private Threads" permission.
pub const CREATE_PRIVATE_THREADS: u64 = 1u64 << 36;

/// The bit for the "Use External Stickers" permission.
pub const USE_EXTERNAL_STICKERS: u64 = 1u64 << 37;

/// The bit for the "Send Messages in Threads" permission.
pub const SEND_MESSAGES_IN_THREADS: u64 = 1u64 << 38;

/// The bit for the "Use Embedded Activities" permission.
pub const USE_EMBEDDED_ACTIVITIES: u64 = 1u64 << 39;

/// The bit for the "Moderate Members" permission.
pub const MODERATE_MEMBERS: u64 = 1u64 << 40;

/// The bit for the "View Creator Monetization Analytics" permission.
pub const VIEW_CREATOR_MONETIZATION_ANALYTICS: u64 = 1u64 << 41;

/// The bit for the "Use Soundboard" permission.
pub const USE_SOUNDBOARD: u64 = 1u64 << 42;

/// The bit for the "Create Guild Expressions" permission.
pub const CREATE_GUILD_EXPRESSIONS: u64 = 1u64 << 43;

/// The bit for the "Create Events" permission.
pub const CREATE_EVENTS: u64 = 1u64 << 44;

/// The bit for the "Use External Sounds" permission.
pub const USE_EXTERNAL_SOUNDS: u64 = 1u64 << 45;

/// The bit for the "Send Voice Messages" permission.
pub const SEND_VOICE_MESSAGES: u64 = 1u64 << 46;

/// The bit for the "Set Voice Channel status" permission.
pub const SET_VOICE_CHANNEL_STATUS: u64 = 1u64 << 48;

/// The bit for the "Send Polls" permission.
pub const SEND_POLLS: u64 = 1u64 << 49;

/// The bit for the "Use External Apps" permission.
pub const USE_EXTERNAL_APPS: u64 = 1u64 << 50;

/// Every bit in the declared flag table.
pub const ALL_PERMISSION_BITS: u64 = CREATE_INSTANT_INVITE
    | KICK_MEMBERS
    | BAN_MEMBERS
    | ADMINISTRATOR
    | MANAGE_CHANNELS
    | MANAGE_GUILD
    | ADD_REACTIONS
    | VIEW_AUDIT_LOG
    | PRIORITY_SPEAKER
    | STREAM
    | VIEW_CHANNEL
    | SEND_MESSAGES
    | SEND_TTS_MESSAGES
    | MANAGE_MESSAGES
    | EMBED_LINKS
    | ATTACH_FILES
    | READ_MESSAGE_HISTORY
    | MENTION_EVERYONE
    | USE_EXTERNAL_EMOJIS
    | VIEW_GUILD_INSIGHTS
    | CONNECT
    | SPEAK
    | MUTE_MEMBERS
    | DEAFEN_MEMBERS
    | MOVE_MEMBERS
    | USE_VAD
    | CHANGE_NICKNAME
    | MANAGE_NICKNAMES
    | MANAGE_ROLES
    | MANAGE_WEBHOOKS
    | MANAGE_GUILD_EXPRESSIONS
    | MANAGE_EMOJIS_AND_STICKERS
    | USE_APPLICATION_COMMANDS
    | REQUEST_TO_SPEAK
    | MANAGE_EVENTS
    | MANAGE_THREADS
    | CREATE_PUBLIC_THREADS
    | CREATE_PRIVATE_THREADS
    | USE_EXTERNAL_STICKERS
    | SEND_MESSAGES_IN_THREADS
    | USE_EMBEDDED_ACTIVITIES
    | MODERATE_MEMBERS
    | VIEW_CREATOR_MONETIZATION_ANALYTICS
    | USE_SOUNDBOARD
    | CREATE_GUILD_EXPRESSIONS
    | CREATE_EVENTS
    | USE_EXTERNAL_SOUNDS
    | SEND_VOICE_MESSAGES
    | SET_VOICE_CHANNEL_STATUS
    | SEND_POLLS
    | USE_EXTERNAL_APPS;

/// The number of entries in the declared flag table.
pub const FLAG_COUNT: usize = 51;

// spec table
/// The bit of the flag table entry at `i` (declaration order).
pub open spec fn flag_bit(i: int) -> u64 {
    if i == 0 {
        CREATE_INSTANT_INVITE
    } else if i == 1 {
        KICK_MEMBERS
    } else if i == 2 {
        BAN_MEMBERS
    } else if i == 3 {
        ADMINISTRATOR
    } else if i == 4 {
        MANAGE_CHANNELS
    } else if i == 5 {
        MANAGE_GUILD
    } else if i == 6 {
        ADD_REACTIONS
    } else if i == 7 {
        VIEW_AUDIT_LOG
    } else if i == 8 {
        PRIORITY_SPEAKER
    } else if i == 9 {
        VIEW_CHANNEL
    } else if i == 10 {
        SEND_MESSAGES
    } else if i == 11 {
        SEND_TTS_MESSAGES
    } else if i == 12 {
        MANAGE_MESSAGES
    } else if i == 13 {
        EMBED_LINKS
    } else if i == 14 {
        ATTACH_FILES
    } else if i == 15 {
        STREAM
    } else if i == 16 {
        READ_MESSAGE_HISTORY
    } else if i == 17 {
        MENTION_EVERYONE
    } else if i == 18 {
        USE_EXTERNAL_EMOJIS
    } else if i == 19 {
        VIEW_GUILD_INSIGHTS
    } else if i == 20 {
        CONNECT
    } else if i == 21 {
        SPEAK
    } else if i == 22 {
        MUTE_MEMBERS
    } else if i == 23 {
        DEAFEN_MEMBERS
    } else if i == 24 {
        MOVE_MEMBERS
    } else if i == 25 {
        USE_VAD
    } else if i == 26 {
        CHANGE_NICKNAME
    } else if i == 27 {
        MANAGE_NICKNAMES
    } else if i == 28 {
        MANAGE_ROLES
    } else if i == 29 {
        MANAGE_WEBHOOKS
    } else if i == 30 {
        MANAGE_GUILD_EXPRESSIONS
    } else if i == 31 {
        MANAGE_EMOJIS_AND_STICKERS
    } else if i == 32 {
        USE_APPLICATION_COMMANDS
    } else if i == 33 {
        REQUEST_TO_SPEAK
    } else if i == 34 {
        MANAGE_EVENTS
    } else if i == 35 {
        MANAGE_THREADS
    } else if i == 36 {
        CREATE_PUBLIC_THREADS
    } else if i == 37 {
        CREATE_PRIVATE_THREADS
    } else if i == 38 {
        USE_EXTERNAL_STICKERS
    } else if i == 39 {
        SEND_MESSAGES_IN_THREADS
    } else if i == 40 {
        USE_EMBEDDED_ACTIVITIES
    } else if i == 41 {
        MODERATE_MEMBERS
    } else if i == 42 {
        VIEW_CREATOR_MONETIZATION_ANALYTICS
    } else if i == 43 {
        USE_SOUNDBOARD
    } else if i == 44 {
        CREATE_GUILD_EXPRESSIONS
    } else if i == 45 {
        CREATE_EVENTS
    } else if i == 46 {
        USE_EXTERNAL_SOUNDS
    } else if i == 47 {
        SEND_VOICE_MESSAGES
    } else if i == 48 {
        SET_VOICE_CHANNEL_STATUS
    } else if i == 49 {
        SEND_POLLS
    } else {
        USE_EXTERNAL_APPS
    }
}

/// The display name of the flag table entry at `i`.
pub open spec fn flag_name(i: int) -> Seq<char> {
    if i == 0 {
        "Create Invites"@
    } else if i == 1 {
        "Kick Members"@
    } else if i == 2 {
        "Ban Members"@
    } else if i == 3 {
        "Administrator"@
    } else if i == 4 {
        "Manage Channels"@
    } else if i == 5 {
        "Manage Guild"@
    } else if i == 6 {
        "Add Reactions"@
    } else if i == 7 {
        "View Audit Log"@
    } else if i == 8 {
        "Priority Speaker"@
    } else if i == 9 {
        "View Channel"@
    } else if i == 10 {
        "Send Messages"@
    } else if i == 11 {
        "Send TTS Messages"@
    } else if i == 12 {
        "Manage Messages"@
    } else if i == 13 {
        "Embed Links"@
    } else if i == 14 {
        "Attach Files"@
    } else if i == 15 {
        "Stream"@
    } else if i == 16 {
        "Read Message History"@
    } else if i == 17 {
        "Mention @everyone, @here, and All Roles"@
    } else if i == 18 {
        "Use External Emojis"@
    } else if i == 19 {
        "View Guild Insights"@
    } else if i == 20 {
        "Connect"@
    } else if i == 21 {
        "Speak"@
    } else if i == 22 {
        "Mute Members"@
    } else if i == 23 {
        "Deafen Members"@
    } else if i == 24 {
        "Move Members"@
    } else if i == 25 {
        "Use Voice Activity"@
    } else if i == 26 {
        "Change Nickname"@
    } else if i == 27 {
        "Manage Nicknames"@
    } else if i == 28 {
        "Manage Roles"@
    } else if i == 29 {
        "Manage Webhooks"@
    } else if i == 30 {
        "Manage Guild Expressions"@
    } else if i == 31 {
        "Manage Emojis and Stickers"@
    } else if i == 32 {
        "Use Application Commands"@
    } else if i == 33 {
        "Request to Speak"@
    } else if i == 34 {
        "Manage Events"@
    } else if i == 35 {
        "Manage Threads"@
    } else if i == 36 {
        "Create Public Threads"@
    } else if i == 37 {
        "Create Private Threads"@
    } else if i == 38 {
        "Use External Stickers"@
    } else if i == 39 {
        "Send Messages in Threads"@
    } else if i == 40 {
        "Use Embedded Activities"@
    } else if i == 41 {
        "Moderate Members"@
    } else if i == 42 {
        "View Creator Monetization Analytics"@
    } else if i == 43 {
        "Use Soundboard"@
    } else if i == 44 {
        "Create Guild Expressions"@
    } else if i == 45 {
        "Create Events"@
    } else if i == 46 {
        "Use External Sounds"@
    } else if i == 47 {
        "Send Voice Messages"@
    } else if i == 48 {
        "Set Voice Channel status"@
    } else if i == 49 {
        "Send Polls"@
    } else {
        "Use External Apps"@
    }
}

/// Whether the flag table entry at `i` is a deprecated alias.
pub open spec fn flag_deprecated(i: int) -> bool {
    i == 31
}

// exec table accessor
/// The flag table entry at `i`: bit, display name, deprecated status.
fn flag_entry(i: usize) -> (r: (u64, &'static str, bool))
    requires
        i < FLAG_COUNT,
    ensures
        r.0 == flag_bit(i as int),
        r.1@ == flag_name(i as int),
        r.2 == flag_deprecated(i as int),
{
    if i == 0 {
        (CREATE_INSTANT_INVITE, "Create Invites", false)
    } else if i == 1 {
        (KICK_MEMBERS, "Kick Members", false)
    } else if i == 2 {
        (BAN_MEMBERS, "Ban Members", false)
    } else if i == 3 {
        (ADMINISTRATOR, "Administrator", false)
    } else if i == 4 {
        (MANAGE_CHANNELS, "Manage Channels", false)
    } else if i == 5 {
        (MANAGE_GUILD, "Manage Guild", false)
    } else if i == 6 {
        (ADD_REACTIONS, "Add Reactions", false)
    } else if i == 7 {
        (VIEW_AUDIT_LOG, "View Audit Log", false)
    } else if i == 8 {
        (PRIORITY_SPEAKER, "Priority Speaker", false)
    } else if i == 9 {
        (VIEW_CHANNEL, "View Channel", false)
    } else if i == 10 {
        (SEND_MESSAGES, "Send Messages", false)
    } else if i == 11 {
        (SEND_TTS_MESSAGES, "Send TTS Messages", false)
    } else if i == 12 {
        (MANAGE_MESSAGES, "Manage Messages", false)
    } else if i == 13 {
        (EMBED_LINKS, "Embed Links", false)
    } else if i == 14 {
        (ATTACH_FILES, "Attach Files", false)
    } else if i == 15 {
        (STREAM, "Stream", false)
    } else if i == 16 {
        (READ_MESSAGE_HISTORY, "Read Message History", false)
    } else if i == 17 {
        (MENTION_EVERYONE, "Mention @everyone, @here, and All Roles", false)
    } else if i == 18 {
        (USE_EXTERNAL_EMOJIS, "Use External Emojis", false)
    } else if i == 19 {
        (VIEW_GUILD_INSIGHTS, "View Guild Insights", false)
    } else if i == 20 {
        (CONNECT, "Connect", false)
    } else if i == 21 {
        (SPEAK, "Speak", false)
    } else if i == 22 {
        (MUTE_MEMBERS, "Mute Members", false)
    } else if i == 23 {
        (DEAFEN_MEMBERS, "Deafen Members", false)
    } else if i == 24 {
        (MOVE_MEMBERS, "Move Members", false)
    } else if i == 25 {
        (USE_VAD, "Use Voice Activity", false)
    } else if i == 26 {
        (CHANGE_NICKNAME, "Change Nickname", false)
    } else if i == 27 {
        (MANAGE_NICKNAMES, "Manage Nicknames", false)
    } else if i == 28 {
        (MANAGE_ROLES, "Manage Roles", false)
    } else if i == 29 {
        (MANAGE_WEBHOOKS, "Manage Webhooks", false)
    } else if i == 30 {
        (MANAGE_GUILD_EXPRESSIONS, "Manage Guild Expressions", false)
    } else if i == 31 {
        (MANAGE_EMOJIS_AND_STICKERS, "Manage Emojis and Stickers", true)
    } else if i == 32 {
        (USE_APPLICATION_COMMANDS, "Use Application Commands", false)
    } else if i == 33 {
        (REQUEST_TO_SPEAK, "Request to Speak", false)
    } else if i == 34 {
        (MANAGE_EVENTS, "Manage Events", false)
    } else if i == 35 {
        (MANAGE_THREADS, "Manage Threads", false)
    } else if i == 36 {
        (CREATE_PUBLIC_THREADS, "Create Public Threads", false)
    } else if i == 37 {
        (CREATE_PRIVATE_THREADS, "Create Private Threads", false)
    } else if i == 38 {
        (USE_EXTERNAL_STICKERS, "Use External Stickers", false)
    } else if i == 39 {
        (SEND_MESSAGES_IN_THREADS, "Send Messages in Threads", false)
    } else if i == 40 {
        (USE_EMBEDDED_ACTIVITIES, "Use Embedded Activities", false)
    } else if i == 41 {
        (MODERATE_MEMBERS, "Moderate Members", false)
    } else if i == 42 {
        (VIEW_CREATOR_MONETIZATION_ANALYTICS, "View Creator Monetization Analytics", false)
    } else if i == 43 {
        (USE_SOUNDBOARD, "Use Soundboard", false)
    } else if i == 44 {
        (CREATE_GUILD_EXPRESSIONS, "Create Guild Expressions", false)
    } else if i == 45 {
        (CREATE_EVENTS, "Create Events", false)
    } else if i == 46 {
        (USE_EXTERNAL_SOUNDS, "Use External Sounds", false)
    } else if i == 47 {
        (SEND_VOICE_MESSAGES, "Send Voice Messages", false)
    } else if i == 48 {
        (SET_VOICE_CHANNEL_STATUS, "Set Voice Channel status", false)
    } else if i == 49 {
        (SEND_POLLS, "Send Polls", false)
    } else {
        (USE_EXTERNAL_APPS, "Use External Apps", false)
    }
}


/// Bits of the original `@everyone` preset.
pub const PRESET_GENERAL_BITS: u64 = ADD_REACTIONS | ATTACH_FILES | CHANGE_NICKNAME | CONNECT
    | CREATE_INSTANT_INVITE | EMBED_LINKS | MENTION_EVERYONE | READ_MESSAGE_HISTORY
    | VIEW_CHANNEL | SEND_MESSAGES | SEND_TTS_MESSAGES | SPEAK | USE_EXTERNAL_EMOJIS | USE_VAD;

/// Bits of the text-only part of the original `@everyone` preset.
pub const PRESET_TEXT_BITS: u64 = ADD_REACTIONS | ATTACH_FILES | CHANGE_NICKNAME
    | CREATE_INSTANT_INVITE | EMBED_LINKS | MENTION_EVERYONE | READ_MESSAGE_HISTORY
    | VIEW_CHANNEL | SEND_MESSAGES | SEND_TTS_MESSAGES | USE_EXTERNAL_EMOJIS;

/// Bits of the voice-only part of the original `@everyone` preset.
pub const PRESET_VOICE_BITS: u64 = CONNECT | SPEAK | USE_VAD;

/// Bits of the permissions available in a direct-message channel.
pub const DM_PERMISSION_BITS: u64 = ADD_REACTIONS | STREAM | VIEW_CHANNEL | SEND_MESSAGES
    | SEND_TTS_MESSAGES | EMBED_LINKS | ATTACH_FILES | READ_MESSAGE_HISTORY | MENTION_EVERYONE
    | USE_EXTERNAL_EMOJIS | CONNECT | SPEAK | USE_VAD | USE_APPLICATION_COMMANDS
    | USE_EXTERNAL_STICKERS | SEND_VOICE_MESSAGES | SEND_POLLS | USE_EXTERNAL_APPS;

/// The sequence of canonical display names among the first `n` table entries
/// whose bit is set in `bits`, in declaration order.
pub open spec fn names_upto(bits: u64, n: int) -> Seq<Seq<char>>
    decreases n,
{
    if n <= 0 {
        Seq::empty()
    } else if !flag_deprecated(n - 1) && bits & flag_bit(n - 1) == flag_bit(n - 1) {
        names_upto(bits, n - 1).push(flag_name(n - 1))
    } else {
        names_upto(bits, n - 1)
    }
}

/// The declaration-order list of canonical display names whose bit is set.
pub open spec fn spec_names(bits: u64) -> Seq<Seq<char>> {
    names_upto(bits, FLAG_COUNT as int)
}

/// The comma-joined form of a name list (no conjunction).
pub open spec fn comma_list(names: Seq<Seq<char>>) -> Seq<char>
    decreases names.len(),
{
    if names.len() == 0 {
        Seq::empty()
    } else if names.len() == 1 {
        names[0]
    } else {
        comma_list(names.drop_last()) + ", "@ + names.last()
    }
}

/// The human-readable rendering of a name list: names joined with ", ", with
/// " and " before the final name instead of a comma when there are at least
/// two names.
pub open spec fn render_names(names: Seq<Seq<char>>) -> Seq<char> {
    if names.len() <= 1 {
        comma_list(names)
    } else {
        comma_list(names.drop_last()) + " and "@ + names.last()
    }
}

/// A set of permissions: a 64-bit bit-vector over the declared flag table.
#[derive(Clone, Copy, Debug, PartialEq, Eq, Hash, Structural)]
pub struct Permissions {
    bits: u64,
}

impl View for Permissions {
    type V = u64;

    closed spec fn view(&self) -> u64 {
        self.bits
    }
}

impl Permissions {
    /// Bits outside the declared flag table are never observably set.
    #[verifier::type_invariant]
    pub open spec fn wf(self) -> bool {
        self@ & ALL_PERMISSION_BITS == self@
    }

    /// The only bit-level constructor: any bit not in the declared flag
    /// table is silently dropped, never rejected.
    pub fn from_bits_truncate(raw: u64) -> (r: Self)
        ensures
            r@ == raw & ALL_PERMISSION_BITS,
    {
        proof {
            assert((raw & ALL_PERMISSION_BITS) & ALL_PERMISSION_BITS == raw
                & ALL_PERMISSION_BITS) by (bit_vector);
        }
        Permissions { bits: raw & ALL_PERMISSION_BITS }
    }

    /// The underlying bit-vector.
    pub fn bits(&self) -> (r: u64)
        ensures
            r == self@,
            r & ALL_PERMISSION_BITS == r,
    {
        proof {
            use_type_invariant(&*self);
        }
        self.bits
    }

    /// The empty set.
    pub fn empty() -> (r: Self)
        ensures
            r@ == 0,
    {
        proof {
            assert(0u64 & ALL_PERMISSION_BITS == 0u64) by (bit_vector);
        }
        Permissions { bits: 0 }
    }

    /// The set of every declared permission.
    pub fn all() -> (r: Self)
        ensures
            r@ == ALL_PERMISSION_BITS,
    {
        proof {
            assert(ALL_PERMISSION_BITS & ALL_PERMISSION_BITS == ALL_PERMISSION_BITS)
                by (bit_vector);
        }
        Permissions { bits: ALL_PERMISSION_BITS }
    }

    /// Whether every permission in `other` is also in `self`.
    pub fn contains(&self, other: Self) -> (r: bool)
        ensures
            r == (self@ & other@ == other@),
    {
        (self.bits & other.bits) == other.bits
    }

    /// The union of two sets.
    pub fn union(self, other: Self) -> (r: Self)
        ensures
            r@ == (self@ | other@),
    {
        proof {
            use_type_invariant(&self);
            use_type_invariant(&other);
            let a = self.bits;
            let b = other.bits;
            assert((a | b) & ALL_PERMISSION_BITS == (a | b)) by (bit_vector)
                requires
                    a & ALL_PERMISSION_BITS == a,
                    b & ALL_PERMISSION_BITS == b,
            ;
        }
        Permissions { bits: self.bits | other.bits }
    }

    /// The intersection of two sets.
    pub fn intersection(self, other: Self) -> (r: Self)
        ensures
            r@ == (self@ & other@),
    {
        proof {
            use_type_invariant(&self);
            use_type_invariant(&other);
            let a = self.bits;
            let b = other.bits;
            assert((a & b) & ALL_PERMISSION_BITS == (a & b)) by (bit_vector)
                requires
                    a & ALL_PERMISSION_BITS == a,
            ;
        }
        Permissions { bits: self.bits & other.bits }
    }

    /// The permissions in `self` that are not in `other`.
    pub fn difference(self, other: Self) -> (r: Self)
        ensures
            r@ == (self@ & !other@),
    {
        proof {
            use_type_invariant(&self);
            use_type_invariant(&other);
            let a = self.bits;
            let b = other.bits;
            assert((a & !b) & ALL_PERMISSION_BITS == (a & !b)) by (bit_vector)
                requires
                    a & ALL_PERMISSION_BITS == a,
            ;
        }
        Permissions { bits: self.bits & !other.bits }
    }

    /// Flips every permission of `other` in `self`.
    pub fn toggle(&mut self, other: Self)
        ensures
            final(self)@ == (old(self)@ ^ other@),
    {
        proof {
            use_type_invariant(&*self);
            use_type_invariant(&other);
            let a = self.bits;
            let b = other.bits;
            assert((a ^ b) & ALL_PERMISSION_BITS == (a ^ b)) by (bit_vector)
                requires
                    a & ALL_PERMISSION_BITS == a,
                    b & ALL_PERMISSION_BITS == b,
            ;
        }
        self.bits = self.bits ^ other.bits;
    }

    /// The declaration-order list of canonical (non-deprecated) flag display
    /// names whose bit is currently set.
    pub fn get_permission_names(&self) -> (names: Vec<&'static str>)
        ensures
            names.deep_view() == spec_names(self@),
    {
        let mut names: Vec<&'static str> = Vec::new();
        let mut i: usize = 0;
        while i < FLAG_COUNT
            invariant
                0 <= i <= FLAG_COUNT,
                names.deep_view() == names_upto(self@, i as int),
            decreases FLAG_COUNT - i,
        {
            let ghost prev = names.deep_view();
            let entry = flag_entry(i);
            if !entry.2 && (self.bits & entry.0) == entry.0 {
                names.push(entry.1);
                proof {
                    assert(names.deep_view() =~= prev.push(entry.1@));
                }
            }
            i = i + 1;
        }
        names
    }

    /// Renders the set for humans: canonical names joined with ", ", with
    /// " and " before the final name when there are at least two; one name
    /// renders as itself and the empty set as the empty string.
    pub fn to_display_string(&self) -> (r: String)
        ensures
            r@ == render_names(spec_names(self@)),
    {
        let names = self.get_permission_names();
        let ghost ns = names.deep_view();
        let total = names.len();
        let mut out = String::new();
        let mut i: usize = 0;
        while i < total
            invariant
                total == names@.len(),
                names.deep_view() == ns,
                ns == spec_names(self@),
                0 <= i <= total,
                i < total ==> out@ == comma_list(ns.take(i as int)),
                i == total ==> out@ == render_names(ns),
            decreases total - i,
        {
            proof {
                assert(ns[i as int] == names@[i as int]@);
            }
            if i > 0 && i != total - 1 {
                out.append(", ");
            }
            if total > 1 && i == total - 1 {
                out.append(" and ");
            }
            out.append(names[i]);
            proof {
                let k = i as int;
                assert(ns.take(k + 1).drop_last() =~= ns.take(k));
                assert(ns.take(k + 1).last() == ns[k]);
                if k + 1 < total {
                    if k == 0 {
                        assert(out@ == comma_list(ns.take(1)));
                    } else {
                        assert(out@ == comma_list(ns.take(k)) + ", "@ + ns[k]);
                        assert(comma_list(ns.take(k + 1)) == comma_list(ns.take(k)) + ", "@
                            + ns[k]);
                    }
                } else {
                    assert(ns.take(k + 1) =~= ns);
                    if total == 1 {
                        assert(out@ == ns[0]);
                        assert(render_names(ns) == comma_list(ns));
                        assert(comma_list(ns) == ns[0]);
                    } else {
                        assert(ns.drop_last() =~= ns.take(k));
                        assert(out@ == comma_list(ns.take(k)) + " and "@ + ns[k]);
                    }
                }
            }
            i = i + 1;
        }
        out
    }

    /// Deserializes a wire value: a string or integer shape is converged via
    /// the numeric adapter, then truncate-constructed; only a shape that is
    /// not numeric at all (or a negative integer) is rejected.
    pub fn from_wire(w: &WireValue) -> (r: Result<Self, NumericError>)
        ensures
            w is Unsigned ==> r is Ok && r->Ok_0@ == (w->Unsigned_0 & ALL_PERMISSION_BITS),
            w is Signed && w->Signed_0 >= 0 ==> r is Ok && r->Ok_0@ == ((w->Signed_0 as u64)
                & ALL_PERMISSION_BITS),
            w is Signed && w->Signed_0 < 0 ==> r == Err::<Self, NumericError>(NumericError::Range),
            w is Text ==> {
                let s = w->Text_0@;
                &&& is_dec_numeral(s) && dec_value(s) <= u64::MAX ==> r is Ok && r->Ok_0@ == ((
                dec_value(s) as u64) & ALL_PERMISSION_BITS)
                &&& !(is_dec_numeral(s) && dec_value(s) <= u64::MAX) ==> r == Err::<
                    Self,
                    NumericError,
                >(NumericError::Parse)
            },
    {
        match parse_wire(w) {
            Ok(v) => Ok(Self::from_bits_truncate(v)),
            Err(NumericError::Parse) => Err(NumericError::Parse),
            Err(NumericError::Range) => Err(NumericError::Range),
        }
    }

    /// The wire form: always the bit-vector as a decimal string, never a raw
    /// number.
    pub fn to_wire_string(&self) -> (r: String)
        ensures
            r@ == dec_digits_of(self@ as nat),
    {
        crate::numeric::format_u64(self.bits)
    }

    /// The permissions available in a direct-message channel.
    pub fn dm_permissions() -> (r: Self)
        ensures
            r@ == DM_PERMISSION_BITS,
    {
        proof {
            assert(DM_PERMISSION_BITS & ALL_PERMISSION_BITS == DM_PERMISSION_BITS)
                by (bit_vector);
        }
        Permissions { bits: DM_PERMISSION_BITS }
    }

    /// The original `@everyone` preset.
    pub fn preset_general() -> (r: Self)
        ensures
            r@ == PRESET_GENERAL_BITS,
    {
        proof {
            assert(PRESET_GENERAL_BITS & ALL_PERMISSION_BITS == PRESET_GENERAL_BITS)
                by (bit_vector);
        }
        Permissions { bits: PRESET_GENERAL_BITS }
    }

    /// The text-only part of the original `@everyone` preset.
    pub fn preset_text() -> (r: Self)
        ensures
            r@ == PRESET_TEXT_BITS,
    {
        proof {
            assert(PRESET_TEXT_BITS & ALL_PERMISSION_BITS == PRESET_TEXT_BITS) by (bit_vector);
        }
        Permissions { bits: PRESET_TEXT_BITS }
    }

    /// The voice-only part of the original `@everyone` preset.
    pub fn preset_voice() -> (r: Self)
        ensures
            r@ == PRESET_VOICE_BITS,
    {
        proof {
            assert(PRESET_VOICE_BITS & ALL_PERMISSION_BITS == PRESET_VOICE_BITS) by (bit_vector);
        }
        Permissions { bits: PRESET_VOICE_BITS }
    }
}

impl Default for Permissions {
    /// The empty set.
    fn default() -> (r: Self)
        ensures
            r@ == 0,
    {
        Permissions::empty()
    }
}

/// Law: truncating construction clears every bit outside the declared table,
/// so no set built by `from_bits_truncate` ever reports an undeclared bit as
/// contained, whatever the raw input had set.
pub proof fn lemma_truncate_clears_undeclared(raw: u64, undeclared: u64)
    requires
        undeclared & ALL_PERMISSION_BITS == 0,
        undeclared != 0,
    ensures
        (raw & ALL_PERMISSION_BITS) & !ALL_PERMISSION_BITS == 0,
        ((raw & ALL_PERMISSION_BITS) & undeclared) != undeclared,
{
    assert((raw & ALL_PERMISSION_BITS) & !ALL_PERMISSION_BITS == 0) by (bit_vector);
    assert(((raw & ALL_PERMISSION_BITS) & undeclared) != undeclared) by (bit_vector)
        requires
            undeclared & ALL_PERMISSION_BITS == 0,
            undeclared != 0,
    ;
}

/// Every listed name comes from a canonical (non-deprecated) entry among the
/// first `n` whose bit is set.
proof fn lemma_names_upto_canonical(bits: u64, n: int)
    requires
        0 <= n <= FLAG_COUNT,
    ensures
        forall|j: int|
            0 <= j < names_upto(bits, n).len() ==> exists|i: int|
                0 <= i < n && !flag_deprecated(i) && bits & flag_bit(i) == flag_bit(i)
                    && #[trigger] names_upto(bits, n)[j] == flag_name(i),
    decreases n,
{
    if n > 0 {
        lemma_names_upto_canonical(bits, n - 1);
        let prev = names_upto(bits, n - 1);
        let cur = names_upto(bits, n);
        assert forall|j: int| 0 <= j < cur.len() implies exists|i: int|
            0 <= i < n && !flag_deprecated(i) && bits & flag_bit(i) == flag_bit(i)
                && #[trigger] cur[j] == flag_name(i) by {
            if j < prev.len() {
                let i0 = choose|i: int|
                    0 <= i < n - 1 && !flag_deprecated(i) && bits & flag_bit(i) == flag_bit(i)
                        && prev[j] == flag_name(i);
                assert(cur[j] == prev[j]);
                assert(0 <= i0 < n && !flag_deprecated(i0) && bits & flag_bit(i0) == flag_bit(i0)
                    && cur[j] == flag_name(i0));
            } else {
                assert(!flag_deprecated(n - 1) && bits & flag_bit(n - 1) == flag_bit(n - 1)
                    && cur[j] == flag_name(n - 1));
            }
        }
    }
}

/// Law: every name in the enumeration comes from a canonical entry whose bit
/// is set; a deprecated alias never contributes a name.
pub proof fn lemma_names_from_canonical_entries(bits: u64)
    ensures
        forall|j: int|
            0 <= j < spec_names(bits).len() ==> exists|i: int|
                0 <= i < FLAG_COUNT && !flag_deprecated(i) && bits & flag_bit(i) == flag_bit(i)
                    && #[trigger] spec_names(bits)[j] == flag_name(i),
{
    lemma_names_upto_canonical(bits, FLAG_COUNT as int);
    let nall = FLAG_COUNT as int;
    assert forall|j: int| 0 <= j < spec_names(bits).len() implies exists|i: int|
        0 <= i < FLAG_COUNT && !flag_deprecated(i) && bits & flag_bit(i) == flag_bit(i)
            && #[trigger] spec_names(bits)[j] == flag_name(i) by {
        assert(0 <= j < names_upto(bits, nall).len());
        let i0 = choose|i: int|
            0 <= i < nall && !flag_deprecated(i) && bits & flag_bit(i) == flag_bit(i)
                && #[trigger] names_upto(bits, nall)[j] == flag_name(i);
        assert(0 <= i0 < FLAG_COUNT && !flag_deprecated(i0) && bits & flag_bit(i0) == flag_bit(
            i0,
        ) && spec_names(bits)[j] == flag_name(i0));
    }
}

/// Law: the deprecated alias label never appears in the name list, even when
/// its shared bit is set: only the canonical label of that bit is reported.
pub proof fn lemma_deprecated_label_never_listed(bits: u64)
    ensures
        !spec_names(bits).contains("Manage Emojis and Stickers"@),
{
    reveal_strlit("Create Invites");
    reveal_strlit("Kick Members");
    reveal_strlit("Ban Members");
    reveal_strlit("Administrator");
    reveal_strlit("Manage Channels");
    reveal_strlit("Manage Guild");
    reveal_strlit("Add Reactions");
    reveal_strlit("View Audit Log");
    reveal_strlit("Priority Speaker");
    reveal_strlit("Stream");
    reveal_strlit("View Channel");
    reveal_strlit("Send Messages");
    reveal_strlit("Send TTS Messages");
    reveal_strlit("Manage Messages");
    reveal_strlit("Embed Links");
    reveal_strlit("Attach Files");
    reveal_strlit("Read Message History");
    reveal_strlit("Mention @everyone, @here, and All Roles");
    reveal_strlit("Use External Emojis");
    reveal_strlit("View Guild Insights");
    reveal_strlit("Connect");
    reveal_strlit("Speak");
    reveal_strlit("Mute Members");
    reveal_strlit("Deafen Members");
    reveal_strlit("Move Members");
    reveal_strlit("Use Voice Activity");
    reveal_strlit("Change Nickname");
    reveal_strlit("Manage Nicknames");
    reveal_strlit("Manage Roles");
    reveal_strlit("Manage Webhooks");
    reveal_strlit("Manage Guild Expressions");
    reveal_strlit("Manage Emojis and Stickers");
    reveal_strlit("Use Application Commands");
    reveal_strlit("Request to Speak");
    reveal_strlit("Manage Events");
    reveal_strlit("Manage Threads");
    reveal_strlit("Create Public Threads");
    reveal_strlit("Create Private Threads");
    reveal_strlit("Use External Stickers");
    reveal_strlit("Send Messages in Threads");
    reveal_strlit("Use Embedded Activities");
    reveal_strlit("Moderate Members");
    reveal_strlit("View Creator Monetization Analytics");
    reveal_strlit("Use Soundboard");
    reveal_strlit("Create Guild Expressions");
    reveal_strlit("Create Events");
    reveal_strlit("Use External Sounds");
    reveal_strlit("Send Voice Messages");
    reveal_strlit("Set Voice Channel status");
    reveal_strlit("Send Polls");
    reveal_strlit("Use External Apps");
    assert("Create Invites"@.len() == 14);
    assert("Kick Members"@.len() == 12);
    assert("Ban Members"@.len() == 11);
    assert("Administrator"@.len() == 13);
    assert("Manage Channels"@.len() == 15);
    assert("Manage Guild"@.len() == 12);
    assert("Add Reactions"@.len() == 13);
    assert("View Audit Log"@.len() == 14);
    assert("Priority Speaker"@.len() == 16);
    assert("Stream"@.len() == 6);
    assert("View Channel"@.len() == 12);
    assert("Send Messages"@.len() == 13);
    assert("Send TTS Messages"@.len() == 17);
    assert("Manage Messages"@.len() == 15);
    assert("Embed Links"@.len() == 11);
    assert("Attach Files"@.len() == 12);
    assert("Read Message History"@.len() == 20);
    assert("Mention @everyone, @here, and All Roles"@.len() == 39);
    assert("Use External Emojis"@.len() == 19);
    assert("View Guild Insights"@.len() == 19);
    assert("Connect"@.len() == 7);
    assert("Speak"@.len() == 5);
    assert("Mute Members"@.len() == 12);
    assert("Deafen Members"@.len() == 14);
    assert("Move Members"@.len() == 12);
    assert("Use Voice Activity"@.len() == 18);
    assert("Change Nickname"@.len() == 15);
    assert("Manage Nicknames"@.len() == 16);
    assert("Manage Roles"@.len() == 12);
    assert("Manage Webhooks"@.len() == 15);
    assert("Manage Guild Expressions"@.len() == 24);
    assert("Manage Emojis and Stickers"@.len() == 26);
    assert("Use Application Commands"@.len() == 24);
    assert("Request to Speak"@.len() == 16);
    assert("Manage Events"@.len() == 13);
    assert("Manage Threads"@.len() == 14);
    assert("Create Public Threads"@.len() == 21);
    assert("Create Private Threads"@.len() == 22);
    assert("Use External Stickers"@.len() == 21);
    assert("Send Messages in Threads"@.len() == 24);
    assert("Use Embedded Activities"@.len() == 23);
    assert("Moderate Members"@.len() == 16);
    assert("View Creator Monetization Analytics"@.len() == 35);
    assert("Use Soundboard"@.len() == 14);
    assert("Create Guild Expressions"@.len() == 24);
    assert("Create Events"@.len() == 13);
    assert("Use External Sounds"@.len() == 19);
    assert("Send Voice Messages"@.len() == 19);
    assert("Set Voice Channel status"@.len() == 24);
    assert("Send Polls"@.len() == 10);
    assert("Use External Apps"@.len() == 17);
    lemma_names_from_canonical_entries(bits);
    // The deprecated alias is the only table label of its length, so no
    // canonical entry can contribute it.
    assert forall|i: int| 0 <= i < FLAG_COUNT && !flag_deprecated(i) implies (#[trigger] flag_name(
        i,
    )).len() != 26 by {
    }
    if spec_names(bits).contains("Manage Emojis and Stickers"@) {
        let j = choose|j: int|
            0 <= j < spec_names(bits).len() && spec_names(bits)[j]
                == "Manage Emojis and Stickers"@;
        assert(spec_names(bits)[j].len() == 26);
        assert(false);
    }
}

/// Law: the empty name list renders as the empty string, and a single name
/// renders as itself, with no separator and no conjunction.
pub proof fn lemma_render_small(names: Seq<Seq<char>>)
    ensures
        names.len() == 0 ==> render_names(names) == Seq::<char>::empty(),
        names.len() == 1 ==> render_names(names) == names[0],
{
}

impl Permissions {
    /// Whether the set contains the "Create Invites" permission.
    pub fn create_instant_invite(&self) -> (r: bool)
        ensures
            r == (self@ & CREATE_INSTANT_INVITE == CREATE_INSTANT_INVITE),
    {
        (self.bits & CREATE_INSTANT_INVITE) == CREATE_INSTANT_INVITE
    }

    /// Whether the set contains the "Kick Members" permission.
    pub fn kick_members(&self) -> (r: bool)
        ensures
            r == (self@ & KICK_MEMBERS == KICK_MEMBERS),
    {
        (self.bits & KICK_MEMBERS) == KICK_MEMBERS
    }

    /// Whether the set contains the "Ban Members" permission.
    pub fn ban_members(&self) -> (r: bool)
        ensures
            r == (self@ & BAN_MEMBERS == BAN_MEMBERS),
    {
        (self.bits & BAN_MEMBERS) == BAN_MEMBERS
    }

    /// Whether the set contains the "Administrator" permission.
    pub fn administrator(&self) -> (r: bool)
        ensures
            r == (self@ & ADMINISTRATOR == ADMINISTRATOR),
    {
        (self.bits & ADMINISTRATOR) == ADMINISTRATOR
    }

    /// Whether the set contains the "Manage Channels" permission.
    pub fn manage_channels(&self) -> (r: bool)
        ensures
            r == (self@ & MANAGE_CHANNELS == MANAGE_CHANNELS),
    {
        (self.bits & MANAGE_CHANNELS) == MANAGE_CHANNELS
    }

    /// Whether the set contains the "Manage Guild" permission.
    pub fn manage_guild(&self) -> (r: bool)
        ensures
            r == (self@ & MANAGE_GUILD == MANAGE_GUILD),
    {
        (self.bits & MANAGE_GUILD) == MANAGE_GUILD
    }

    /// Whether the set contains the "Add Reactions" permission.
    pub fn add_reactions(&self) -> (r: bool)
        ensures
            r == (self@ & ADD_REACTIONS == ADD_REACTIONS),
    {
        (self.bits & ADD_REACTIONS) == ADD_REACTIONS
    }

    /// Whether the set contains the "View Audit Log" permission.
    pub fn view_audit_log(&self) -> (r: bool)
        ensures
            r == (self@ & VIEW_AUDIT_LOG == VIEW_AUDIT_LOG),
    {
        (self.bits & VIEW_AUDIT_LOG) == VIEW_AUDIT_LOG
    }

    /// Whether the set contains the "Priority Speaker" permission.
    pub fn priority_speaker(&self) -> (r: bool)
        ensures
            r == (self@ & PRIORITY_SPEAKER == PRIORITY_SPEAKER),
    {
        (self.bits & PRIORITY_SPEAKER) == PRIORITY_SPEAKER
    }

    /// Whether the set contains the "Stream" permission.
    pub fn stream(&self) -> (r: bool)
        ensures
            r == (self@ & STREAM == STREAM),
    {
        (self.bits & STREAM) == STREAM
    }

    /// Whether the set contains the "View Channel" permission.
    pub fn view_channel(&self) -> (r: bool)
        ensures
            r == (self@ & VIEW_CHANNEL == VIEW_CHANNEL),
    {
        (self.bits & VIEW_CHANNEL) == VIEW_CHANNEL
    }

    /// Whether the set contains the "Send Messages" permission.
    pub fn send_messages(&self) -> (r: bool)
        ensures
            r == (self@ & SEND_MESSAGES == SEND_MESSAGES),
    {
        (self.bits & SEND_MESSAGES) == SEND_MESSAGES
    }

    /// Whether the set contains the "Send TTS Messages" permission.
    pub fn send_tts_messages(&self) -> (r: bool)
        ensures
            r == (self@ & SEND_TTS_MESSAGES == SEND_TTS_MESSAGES),
    {
        (self.bits & SEND_TTS_MESSAGES) == SEND_TTS_MESSAGES
    }

    /// Whether the set contains the "Manage Messages" permission.
    pub fn manage_messages(&self) -> (r: bool)
        ensures
            r == (self@ & MANAGE_MESSAGES == MANAGE_MESSAGES),
    {
        (self.bits & MANAGE_MESSAGES) == MANAGE_MESSAGES
    }

    /// Whether the set contains the "Embed Links" permission.
    pub fn embed_links(&self) -> (r: bool)
        ensures
            r == (self@ & EMBED_LINKS == EMBED_LINKS),
    {
        (self.bits & EMBED_LINKS) == EMBED_LINKS
    }

    /// Whether the set contains the "Attach Files" permission.
    pub fn attach_files(&self) -> (r: bool)
        ensures
            r == (self@ & ATTACH_FILES == ATTACH_FILES),
    {
        (self.bits & ATTACH_FILES) == ATTACH_FILES
    }

    /// Whether the set contains the "Read Message History" permission.
    pub fn read_message_history(&self) -> (r: bool)
        ensures
            r == (self@ & READ_MESSAGE_HISTORY == READ_MESSAGE_HISTORY),
    {
        (self.bits & READ_MESSAGE_HISTORY) == READ_MESSAGE_HISTORY
    }

    /// Whether the set contains the "Mention @everyone, @here, and All Roles" permission.
    pub fn mention_everyone(&self) -> (r: bool)
        ensures
            r == (self@ & MENTION_EVERYONE == MENTION_EVERYONE),
    {
        (self.bits & MENTION_EVERYONE) == MENTION_EVERYONE
    }

    /// Whether the set contains the "Use External Emojis" permission.
    pub fn use_external_emojis(&self) -> (r: bool)
        ensures
            r == (self@ & USE_EXTERNAL_EMOJIS == USE_EXTERNAL_EMOJIS),
    {
        (self.bits & USE_EXTERNAL_EMOJIS) == USE_EXTERNAL_EMOJIS
    }

    /// Whether the set contains the "View Guild Insights" permission.
    pub fn view_guild_insights(&self) -> (r: bool)
        ensures
            r == (self@ & VIEW_GUILD_INSIGHTS == VIEW_GUILD_INSIGHTS),
    {
        (self.bits & VIEW_GUILD_INSIGHTS) == VIEW_GUILD_INSIGHTS
    }

    /// Whether the set contains the "Connect" permission.
    pub fn connect(&self) -> (r: bool)
        ensures
            r == (self@ & CONNECT == CONNECT),
    {
        (self.bits & CONNECT) == CONNECT
    }

    /// Whether the set contains the "Speak" permission.
    pub fn speak(&self) -> (r: bool)
        ensures
            r == (self@ & SPEAK == SPEAK),
    {
        (self.bits & SPEAK) == SPEAK
    }

    /// Whether the set contains the "Mute Members" permission.
    pub fn mute_members(&self) -> (r: bool)
        ensures
            r == (self@ & MUTE_MEMBERS == MUTE_MEMBERS),
    {
        (self.bits & MUTE_MEMBERS) == MUTE_MEMBERS
    }

    /// Whether the set contains the "Deafen Members" permission.
    pub fn deafen_members(&self) -> (r: bool)
        ensures
            r == (self@ & DEAFEN_MEMBERS == DEAFEN_MEMBERS),
    {
        (self.bits & DEAFEN_MEMBERS) == DEAFEN_MEMBERS
    }

    /// Whether the set contains the "Move Members" permission.
    pub fn move_members(&self) -> (r: bool)
        ensures
            r == (self@ & MOVE_MEMBERS == MOVE_MEMBERS),
    {
        (self.bits & MOVE_MEMBERS) == MOVE_MEMBERS
    }

    /// Whether the set contains the "Use Voice Activity" permission.
    pub fn use_vad(&self) -> (r: bool)
        ensures
            r == (self@ & USE_VAD == USE_VAD),
    {
        (self.bits & USE_VAD) == USE_VAD
    }

    /// Whether the set contains the "Change Nickname" permission.
    pub fn change_nickname(&self) -> (r: bool)
        ensures
            r == (self@ & CHANGE_NICKNAME == CHANGE_NICKNAME),
    {
        (self.bits & CHANGE_NICKNAME) == CHANGE_NICKNAME
    }

    /// Whether the set contains the "Manage Nicknames" permission.
    pub fn manage_nicknames(&self) -> (r: bool)
        ensures
            r == (self@ & MANAGE_NICKNAMES == MANAGE_NICKNAMES),
    {
        (self.bits & MANAGE_NICKNAMES) == MANAGE_NICKNAMES
    }

    /// Whether the set contains the "Manage Roles" permission.
    pub fn manage_roles(&self) -> (r: bool)
        ensures
            r == (self@ & MANAGE_ROLES == MANAGE_ROLES),
    {
        (self.bits & MANAGE_ROLES) == MANAGE_ROLES
    }

    /// Whether the set contains the "Manage Webhooks" permission.
    pub fn manage_webhooks(&self) -> (r: bool)
        ensures
            r == (self@ & MANAGE_WEBHOOKS == MANAGE_WEBHOOKS),
    {
        (self.bits & MANAGE_WEBHOOKS) == MANAGE_WEBHOOKS
    }

    /// Whether the set contains the "Manage Guild Expressions" permission.
    pub fn manage_guild_expressions(&self) -> (r: bool)
        ensures
            r == (self@ & MANAGE_GUILD_EXPRESSIONS == MANAGE_GUILD_EXPRESSIONS),
    {
        (self.bits & MANAGE_GUILD_EXPRESSIONS) == MANAGE_GUILD_EXPRESSIONS
    }

    /// Whether the "Manage Emojis and Stickers" bit is set. Legacy alias for the
    /// `MANAGE_GUILD_EXPRESSIONS` bit, kept for source compatibility.
    pub fn manage_emojis_and_stickers(&self) -> (r: bool)
        ensures
            r == (self@ & MANAGE_EMOJIS_AND_STICKERS == MANAGE_EMOJIS_AND_STICKERS),
    {
        (self.bits & MANAGE_EMOJIS_AND_STICKERS) == MANAGE_EMOJIS_AND_STICKERS
    }

    /// Whether the set contains the "Use Application Commands" permission.
    pub fn use_application_commands(&self) -> (r: bool)
        ensures
            r == (self@ & USE_APPLICATION_COMMANDS == USE_APPLICATION_COMMANDS),
    {
        (self.bits & USE_APPLICATION_COMMANDS) == USE_APPLICATION_COMMANDS
    }

    /// Whether the set contains the "Request to Speak" permission.
    pub fn request_to_speak(&self) -> (r: bool)
        ensures
            r == (self@ & REQUEST_TO_SPEAK == REQUEST_TO_SPEAK),
    {
        (self.bits & REQUEST_TO_SPEAK) == REQUEST_TO_SPEAK
    }

    /// Whether the set contains the "Manage Events" permission.
    pub fn manage_events(&self) -> (r: bool)
        ensures
            r == (self@ & MANAGE_EVENTS == MANAGE_EVENTS),
    {
        (self.bits & MANAGE_EVENTS) == MANAGE_EVENTS
    }

    /// Whether the set contains the "Manage Threads" permission.
    pub fn manage_threads(&self) -> (r: bool)
        ensures
            r == (self@ & MANAGE_THREADS == MANAGE_THREADS),
    {
        (self.bits & MANAGE_THREADS) == MANAGE_THREADS
    }

    /// Whether the set contains the "Create Public Threads" permission.
    pub fn create_public_threads(&self) -> (r: bool)
        ensures
            r == (self@ & CREATE_PUBLIC_THREADS == CREATE_PUBLIC_THREADS),
    {
        (self.bits & CREATE_PUBLIC_THREADS) == CREATE_PUBLIC_THREADS
    }

    /// Whether the set contains the "Create Private Threads" permission.
    pub fn create_private_threads(&self) -> (r: bool)
        ensures
            r == (self@ & CREATE_PRIVATE_THREADS == CREATE_PRIVATE_THREADS),
    {
        (self.bits & CREATE_PRIVATE_THREADS) == CREATE_PRIVATE_THREADS
    }

    /// Whether the set contains the "Use External Stickers" permission.
    pub fn use_external_stickers(&self) -> (r: bool)
        ensures
            r == (self@ & USE_EXTERNAL_STICKERS == USE_EXTERNAL_STICKERS),
    {
        (self.bits & USE_EXTERNAL_STICKERS) == USE_EXTERNAL_STICKERS
    }

    /// Whether the set contains the "Send Messages in Threads" permission.
    pub fn send_messages_in_threads(&self) -> (r: bool)
        ensures
            r == (self@ & SEND_MESSAGES_IN_THREADS == SEND_MESSAGES_IN_THREADS),
    {
        (self.bits & SEND_MESSAGES_IN_THREADS) == SEND_MESSAGES_IN_THREADS
    }

    /// Whether the set contains the "Use Embedded Activities" permission.
    pub fn use_embedded_activities(&self) -> (r: bool)
        ensures
            r == (self@ & USE_EMBEDDED_ACTIVITIES == USE_EMBEDDED_ACTIVITIES),
    {
        (self.bits & USE_EMBEDDED_ACTIVITIES) == USE_EMBEDDED_ACTIVITIES
    }

    /// Whether the set contains the "Moderate Members" permission.
    pub fn moderate_members(&self) -> (r: bool)
        ensures
            r == (self@ & MODERATE_MEMBERS == MODERATE_MEMBERS),
    {
        (self.bits & MODERATE_MEMBERS) == MODERATE_MEMBERS
    }

    /// Whether the set contains the "View Creator Monetization Analytics" permission.
    pub fn view_creator_monetization_analytics(&self) -> (r: bool)
        ensures
            r == (self@ & VIEW_CREATOR_MONETIZATION_ANALYTICS == VIEW_CREATOR_MONETIZATION_ANALYTICS),
    {
        (self.bits & VIEW_CREATOR_MONETIZATION_ANALYTICS) == VIEW_CREATOR_MONETIZATION_ANALYTICS
    }

    /// Whether the set contains the "Use Soundboard" permission.
    pub fn use_soundboard(&self) -> (r: bool)
        ensures
            r == (self@ & USE_SOUNDBOARD == USE_SOUNDBOARD),
    {
        (self.bits & USE_SOUNDBOARD) == USE_SOUNDBOARD
    }

    /// Whether the set contains the "Create Guild Expressions" permission.
    pub fn create_guild_expressions(&self) -> (r: bool)
        ensures
            r == (self@ & CREATE_GUILD_EXPRESSIONS == CREATE_GUILD_EXPRESSIONS),
    {
        (self.bits & CREATE_GUILD_EXPRESSIONS) == CREATE_GUILD_EXPRESSIONS
    }

    /// Whether the set contains the "Create Events" permission.
    pub fn create_events(&self) -> (r: bool)
        ensures
            r == (self@ & CREATE_EVENTS == CREATE_EVENTS),
    {
        (self.bits & CREATE_EVENTS) == CREATE_EVENTS
    }

    /// Whether the set contains the "Use External Sounds" permission.
    pub fn use_external_sounds(&self) -> (r: bool)
        ensures
            r == (self@ & USE_EXTERNAL_SOUNDS == USE_EXTERNAL_SOUNDS),
    {
        (self.bits & USE_EXTERNAL_SOUNDS) == USE_EXTERNAL_SOUNDS
    }

    /// Whether the set contains the "Send Voice Messages" permission.
    pub fn send_voice_messages(&self) -> (r: bool)
        ensures
            r == (self@ & SEND_VOICE_MESSAGES == SEND_VOICE_MESSAGES),
    {
        (self.bits & SEND_VOICE_MESSAGES) == SEND_VOICE_MESSAGES
    }

    /// Whether the set contains the "Set Voice Channel status" permission.
    pub fn set_voice_channel_status(&self) -> (r: bool)
        ensures
            r == (self@ & SET_VOICE_CHANNEL_STATUS == SET_VOICE_CHANNEL_STATUS),
    {
        (self.bits & SET_VOICE_CHANNEL_STATUS) == SET_VOICE_CHANNEL_STATUS
    }

    /// Whether the set contains the "Send Polls" permission.
    pub fn send_polls(&self) -> (r: bool)
        ensures
            r == (self@ & SEND_POLLS == SEND_POLLS),
    {
        (self.bits & SEND_POLLS) == SEND_POLLS
    }

    /// Whether the set contains the "Use External Apps" permission.
    pub fn use_external_apps(&self) -> (r: bool)
        ensures
            r == (self@ & USE_EXTERNAL_APPS == USE_EXTERNAL_APPS),
    {
        (self.bits & USE_EXTERNAL_APPS) == USE_EXTERNAL_APPS
    }

}

} // verus!
