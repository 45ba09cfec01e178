//! Replies to interactions.

use vstd::prelude::*;

use crate::builders::component::Component;

verus! {

/// twilight-model's `MessageFlags::EPHEMERAL`, whose bit is `1 << 6` there.
#[verifier::external_body]
pub(crate) fn ephemeral_flag() -> (res: u64)
    ensures
        res == 64,
{
    twilight_model::channel::message::MessageFlags::EPHEMERAL.bits()
}

/// twilight-model's `MessageFlags::IS_COMPONENTS_V2`, whose bit is `1 << 15` there.
#[verifier::external_body]
pub(crate) fn components_v2_flag() -> (res: u64)
    ensures
        res == 32768,
{
    twilight_model::channel::message::MessageFlags::IS_COMPONENTS_V2.bits()
}

/// The message flag that makes a reply visible to its user only.
pub open spec fn ephemeral_bit() -> u64 {
    64
}

/// The message flag of messages made of layout components.
pub open spec fn components_v2_bit() -> u64 {
    32768
}

/// An embed.
#[derive(Debug)]
pub struct Embed {
    pub color: Option<u32>,
    pub title: Option<String>,
    pub description: Option<String>,
}

/// Who a message may ping. `Default` pings no one.
#[derive(Debug)]
pub struct AllowedMentions {
    pub everyone: bool,
    pub roles: Vec<u64>,
    pub users: Vec<u64>,
    pub replied_user: bool,
}

impl AllowedMentions {
    /// Pings no one.
    pub open spec fn is_none(&self) -> bool {
        !self.everyone && self.roles@.len() == 0 && self.users@.len() == 0 && !self.replied_user
    }

    /// Pings no one.
    pub fn none() -> (res: Self)
        ensures
            res.is_none(),
    {
        AllowedMentions { everyone: false, roles: Vec::new(), users: Vec::new(), replied_user: false }
    }
}

/// A reply. By default it pings no one.
#[derive(Debug)]
pub struct Reply {
    pub content: Option<String>,
    pub embeds: Vec<Embed>,
    pub components: Vec<Component>,
    pub flags: u64,
    pub allowed_mentions: Option<AllowedMentions>,
}

impl Reply {
    /// No content, embeds or components, no flags, and no pings.
    pub fn new() -> (res: Self)
        ensures
            res.content is None,
            res.embeds@.len() == 0,
            res.components@.len() == 0,
            res.flags == 0,
            res.allowed_mentions matches Some(m) && m.is_none(),
    {
        Reply {
            content: None,
            embeds: Vec::new(),
            components: Vec::new(),
            flags: 0,
            allowed_mentions: Some(AllowedMentions::none()),
        }
    }

    pub fn content(self, content: String) -> (res: Self)
        ensures
            res == (Reply { content: Some(content), ..self }),
    {
        Reply { content: Some(content), ..self }
    }

    pub fn embed(self, embed: Embed) -> (res: Self)
        ensures
            res.embeds@ == self.embeds@.push(embed),
            res.content == self.content,
            res.components == self.components,
            res.flags == self.flags,
            res.allowed_mentions == self.allowed_mentions,
    {
        let mut embeds = self.embeds;
        embeds.push(embed);
        Reply { embeds, ..self }
    }

    pub fn components(self, components: Vec<Component>) -> (res: Self)
        ensures
            res == (Reply { components, ..self }),
    {
        Reply { components, ..self }
    }

    /// Same as `components`, and also sets the components-v2 flag.
    pub fn components_v2(self, components: Vec<Component>) -> (res: Self)
        ensures
            res == (Reply { components, flags: self.flags | components_v2_bit(), ..self }),
    {
        let flags = self.flags | components_v2_flag();
        Reply { components, flags, ..self }
    }

    /// Sets or clears the ephemeral flag, leaving the other flags as they are.
    pub fn ephemeral(self, ephemeral: bool) -> (res: Self)
        ensures
            res == (Reply {
                flags: if ephemeral {
                    self.flags | ephemeral_bit()
                } else {
                    self.flags & !ephemeral_bit()
                },
                ..self
            }),
    {
        let bit = ephemeral_flag();
        let flags = if ephemeral {
            self.flags | bit
        } else {
            self.flags & !bit
        };
        Reply { flags, ..self }
    }

    /// Overrides the allowed mentions.
    pub fn allowed_mentions(self, mentions: AllowedMentions) -> (res: Self)
        ensures
            res == (Reply { allowed_mentions: Some(mentions), ..self }),
    {
        Reply { allowed_mentions: Some(mentions), ..self }
    }
}

impl Default for Reply {
    /// Same as `new`.
    fn default() -> (res: Self)
        ensures
            res.content is None,
            res.embeds@.len() == 0,
            res.components@.len() == 0,
            res.flags == 0,
            res.allowed_mentions matches Some(m) && m.is_none(),
    {
        Self::new()
    }
}

/// The ephemeral setter decides the ephemeral bit alone: after `ephemeral(e)` the
/// bit is set exactly when `e`, and every other flag is unchanged.
pub proof fn lemma_ephemeral_sets_only_its_bit(flags: u64, e: bool)
    ensures
        ((if e { flags | 64u64 } else { flags & !64u64 }) & 64u64 != 0) == e,
        (if e { flags | 64u64 } else { flags & !64u64 }) & !64u64 == flags & !64u64,
{
    if e {
        assert((flags | 64u64) & 64u64 != 0) by (bit_vector);
        assert((flags | 64u64) & !64u64 == flags & !64u64) by (bit_vector);
    } else {
        assert((flags & !64u64) & 64u64 == 0) by (bit_vector);
        assert((flags & !64u64) & !64u64 == flags & !64u64) by (bit_vector);
    }
}

/// What a message sent for a reply carries: its flags and mentions, and each
/// part only when the reply has it.
#[derive(Debug)]
pub struct MessageData {
    pub flags: u64,
    pub allowed_mentions: AllowedMentions,
    pub content: Option<String>,
    pub embeds: Option<Vec<Embed>>,
    pub components: Option<Vec<Component>>,
}

/// The message data of a reply: the reply's flags; its mentions, or no pings
/// when it sets none; its content; its embeds and its components when there
/// are any.
pub fn message_data(reply: Reply) -> (res: MessageData)
    ensures
        res.flags == reply.flags,
        match reply.allowed_mentions {
            Some(m) => res.allowed_mentions == m,
            None => res.allowed_mentions.is_none(),
        },
        res.content == reply.content,
        reply.embeds@.len() == 0 ==> res.embeds is None,
        reply.embeds@.len() > 0 ==> res.embeds == Some(reply.embeds),
        reply.components@.len() == 0 ==> res.components is None,
        reply.components@.len() > 0 ==> res.components == Some(reply.components),
{
    let Reply { content, embeds, components, flags, allowed_mentions } = reply;
    let allowed_mentions = match allowed_mentions {
        Some(m) => m,
        None => AllowedMentions::none(),
    };
    let embeds = if embeds.len() == 0 {
        None
    } else {
        Some(embeds)
    };
    let components = if components.len() == 0 {
        None
    } else {
        Some(components)
    };
    MessageData { flags, allowed_mentions, content, embeds, components }
}

/// The flags of a deferred reply: only the ephemeral one, when asked.
pub fn defer_flags(ephemeral: bool) -> (res: u64)
    ensures
        res == if ephemeral { ephemeral_bit() } else { 0 },
{
    if ephemeral {
        ephemeral_flag()
    } else {
        0
    }
}

} // verus!
