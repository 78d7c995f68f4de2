//! A builder to specify the fields to edit in an existing message.
//!
//! The builder assembles a key-value document for a network call. Embed and
//! component documents are produced elsewhere and carried through opaquely;
//! the builder's own logic is which keys are present and in what order the
//! embeds were added.

use vstd::prelude::*;

verus! {

/// JSON documents produced by collaborating builders are carried through
/// this module opaquely as `serde_json::Value`.
#[verifier::external_type_specification]
#[verifier::external_body]
pub struct ExValue(serde_json::Value);

/// The message-flag bit that suppresses embeds. At the time of writing it is
/// the only flag accepted when editing a message.
pub const SUPPRESS_EMBEDS_FLAG: u64 = 1u64 << 2;

/// The abstract document assembled by an [`EditMessage`]: a field is `None`
/// when its key is absent from the document.
pub struct EditMessageView {
    pub content: Option<Seq<char>>,
    pub embeds: Option<Seq<serde_json::Value>>,
    pub components: Option<Seq<serde_json::Value>>,
    pub flags: Option<u64>,
}

/// Appending embeds to an embed list: the key is created by the first embed
/// and left absent when there was none and nothing is appended.
pub open spec fn appended_embeds(
    e: Option<Seq<serde_json::Value>>,
    xs: Seq<serde_json::Value>,
) -> Option<Seq<serde_json::Value>> {
    match e {
        Some(prefix) => Some(prefix + xs),
        None => if xs.len() > 0 {
            Some(xs)
        } else {
            None
        },
    }
}

proof fn lemma_appended_embeds_step(
    e: Option<Seq<serde_json::Value>>,
    x: serde_json::Value,
    xs: Seq<serde_json::Value>,
)
    ensures
        appended_embeds(appended_embeds(e, seq![x]), xs) == appended_embeds(e, seq![x] + xs),
{
    match e {
        Some(prefix) => {
            assert((prefix + seq![x]) + xs =~= prefix + (seq![x] + xs));
        },
        None => {
        },
    }
}

proof fn lemma_appended_embeds_nil(e: Option<Seq<serde_json::Value>>)
    ensures
        appended_embeds(e, Seq::empty()) == e,
{
    match e {
        Some(prefix) => {
            assert(prefix + Seq::<serde_json::Value>::empty() =~= prefix);
        },
        None => {
        },
    }
}

/// A builder to specify the fields to edit in an existing message.
pub struct EditMessage {
    content: Option<String>,
    embeds: Option<Vec<serde_json::Value>>,
    components: Option<Vec<serde_json::Value>>,
    flags: Option<u64>,
}

impl View for EditMessage {
    type V = EditMessageView;

    closed spec fn view(&self) -> EditMessageView {
        EditMessageView {
            content: match self.content {
                Some(c) => Some(c@),
                None => None,
            },
            embeds: match self.embeds {
                Some(e) => Some(e@),
                None => None,
            },
            components: match self.components {
                Some(c) => Some(c@),
                None => None,
            },
            flags: self.flags,
        }
    }
}

impl EditMessage {
    /// An edit that touches no field.
    pub fn new() -> (r: Self)
        ensures
            r@.content is None,
            r@.embeds is None,
            r@.components is None,
            r@.flags is None,
    {
        EditMessage { content: None, embeds: None, components: None, flags: None }
    }

    /// Set the content of the message.
    pub fn content(self, content: String) -> (r: Self)
        ensures
            r@ == (EditMessageView { content: Some(content@), ..self@ }),
    {
        EditMessage { content: Some(content), ..self }
    }

    /// Add an embed document to the message, after those already added.
    pub fn add_embed(self, embed: serde_json::Value) -> (r: Self)
        ensures
            r@ == (EditMessageView {
                embeds: appended_embeds(self@.embeds, seq![embed]),
                ..self@
            }),
    {
        let EditMessage { content, embeds, components, flags } = self;
        let new_embeds = match embeds {
            Some(mut v) => {
                let ghost pv = v@;
                v.push(embed);
                proof {
                    assert(v@ =~= pv + seq![embed]);
                }
                v
            },
            None => {
                let mut v: Vec<serde_json::Value> = Vec::new();
                v.push(embed);
                proof {
                    assert(v@ =~= seq![embed]);
                }
                v
            },
        };
        EditMessage { content, embeds: Some(new_embeds), components, flags }
    }

    /// Set the embed document for the message, replacing all existing
    /// embeds. Use [`EditMessage::add_embed`] to add further embeds.
    pub fn set_embed(self, embed: serde_json::Value) -> (r: Self)
        ensures
            r@ == (EditMessageView { embeds: Some(seq![embed]), ..self@ }),
    {
        let mut v: Vec<serde_json::Value> = Vec::new();
        v.push(embed);
        proof {
            assert(v@ =~= seq![embed]);
        }
        EditMessage { embeds: Some(v), ..self }
    }

    /// Set the embed document for the message, replacing all existing
    /// embeds; equivalent to [`EditMessage::set_embed`].
    pub fn embed(self, embed: serde_json::Value) -> (r: Self)
        ensures
            r@ == (EditMessageView { embeds: Some(seq![embed]), ..self@ }),
    {
        self.set_embed(embed)
    }

    /// Add several embed documents, in order, after those already added.
    pub fn set_embeds(self, embeds: Vec<serde_json::Value>) -> (r: Self)
        ensures
            r@ == (EditMessageView {
                embeds: appended_embeds(self@.embeds, embeds@),
                ..self@
            }),
    {
        let ghost orig = self@;
        let ghost all = embeds@;
        let mut rest = embeds;
        let mut acc = self;
        while rest.len() > 0
            invariant
                acc@.content == orig.content,
                acc@.components == orig.components,
                acc@.flags == orig.flags,
                appended_embeds(acc@.embeds, rest@) == appended_embeds(orig.embeds, all),
            decreases rest.len(),
        {
            let ghost before = acc@.embeds;
            let ghost rest_before = rest@;
            let e = rest.remove(0);
            proof {
                assert(rest_before =~= seq![e] + rest@);
            }
            acc = acc.add_embed(e);
            proof {
                lemma_appended_embeds_step(before, e, rest@);
            }
        }
        proof {
            lemma_appended_embeds_nil(acc@.embeds);
            assert(rest@ =~= Seq::<serde_json::Value>::empty());
        }
        acc
    }

    /// Set the component documents of this message.
    pub fn components(self, components: Vec<serde_json::Value>) -> (r: Self)
        ensures
            r@ == (EditMessageView { components: Some(components@), ..self@ }),
    {
        EditMessage { components: Some(components), ..self }
    }

    /// Delete all embeds in the message, including those generated by the
    /// platform itself, or allow them again.
    pub fn suppress_embeds(self, suppress: bool) -> (r: Self)
        ensures
            r@ == (EditMessageView {
                flags: if suppress {
                    Some(SUPPRESS_EMBEDS_FLAG)
                } else {
                    None
                },
                ..self@
            }),
    {
        if suppress {
            EditMessage { flags: Some(SUPPRESS_EMBEDS_FLAG), ..self }
        } else {
            EditMessage { flags: None, ..self }
        }
    }

    /// Hands the assembled fields out, for a transport layer to embed into
    /// an outgoing document.
    pub fn into_parts(self) -> (r: (
        Option<String>,
        Option<Vec<serde_json::Value>>,
        Option<Vec<serde_json::Value>>,
        Option<u64>,
    ))
        ensures
            self@.content is Some ==> r.0 is Some && r.0->0@ == self@.content->0,
            self@.content is None ==> r.0 is None,
            self@.embeds is Some ==> r.1 is Some && r.1->0@ == self@.embeds->0,
            self@.embeds is None ==> r.1 is None,
            self@.components is Some ==> r.2 is Some && r.2->0@ == self@.components->0,
            self@.components is None ==> r.2 is None,
            r.3 == self@.flags,
    {
        let EditMessage { content, embeds, components, flags } = self;
        (content, embeds, components, flags)
    }
}

impl Default for EditMessage {
    /// An edit that touches no field.
    fn default() -> (r: Self)
        ensures
            r@.content is None,
            r@.embeds is None,
            r@.components is None,
            r@.flags is None,
    {
        EditMessage::new()
    }
}

} // verus!
