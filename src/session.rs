//! One tenant's recording session: where reports go, who is speaking, the
//! rolling context carried from one report to the next, and whether the
//! session is still active.

use crate::report::{rolling_context, tail_chars, CONTEXT_LIMIT};
use crate::text::{decimal, decimal_string};
use std::collections::HashMap;
use vstd::prelude::*;
use vstd::string::StringExecFns;

verus! {

/// The label for a speaker: the registered display name, or `User_<id>` for
/// a speaker nobody registered.
pub open spec fn display_name(names: Map<u64, String>, user_id: u64) -> Seq<char> {
    if names.contains_key(user_id) {
        names[user_id]@
    } else {
        "User_"@ + decimal(user_id as nat)
    }
}

/// A tenant's session.
pub struct GuildSession {
    guild_id: u64,
    text_channel_id: u64,
    user_names: HashMap<u64, String>,
    last_context: String,
    is_active: bool,
}

impl GuildSession {
    /// The rolling context never holds more than `CONTEXT_LIMIT` characters.
    #[verifier::type_invariant]
    spec fn context_is_bounded(self) -> bool {
        self.last_context@.len() <= CONTEXT_LIMIT
    }

    pub closed spec fn spec_guild_id(&self) -> u64 {
        self.guild_id
    }

    pub closed spec fn spec_text_channel_id(&self) -> u64 {
        self.text_channel_id
    }

    /// The registered display names, by speaker.
    pub closed spec fn names(&self) -> Map<u64, String> {
        self.user_names@
    }

    pub closed spec fn context_view(&self) -> Seq<char> {
        self.last_context@
    }

    pub closed spec fn active(&self) -> bool {
        self.is_active
    }

    /// An active session with no names and no context.
    pub fn new(guild_id: u64, text_channel_id: u64) -> (r: GuildSession)
        ensures
            r.spec_guild_id() == guild_id,
            r.spec_text_channel_id() == text_channel_id,
            r.names() == Map::<u64, String>::empty(),
            r.context_view() == Seq::<char>::empty(),
            r.active(),
    {
        GuildSession {
            guild_id,
            text_channel_id,
            user_names: HashMap::new(),
            last_context: String::new(),
            is_active: true,
        }
    }

    pub fn guild_id(&self) -> (r: u64)
        ensures
            r == self.spec_guild_id(),
    {
        self.guild_id
    }

    pub fn text_channel_id(&self) -> (r: u64)
        ensures
            r == self.spec_text_channel_id(),
    {
        self.text_channel_id
    }

    /// Records a speaker's display name; earlier names of other speakers stay.
    pub fn register_user(&mut self, user_id: u64, name: String)
        ensures
            final(self).names() == old(self).names().insert(user_id, name),
            final(self).context_view() == old(self).context_view(),
            final(self).active() == old(self).active(),
            final(self).spec_guild_id() == old(self).spec_guild_id(),
            final(self).spec_text_channel_id() == old(self).spec_text_channel_id(),
    {
        broadcast use vstd::std_specs::hash::group_hash_axioms;

        proof {
            use_type_invariant(&*self);
        }
        let mut names: HashMap<u64, String> = HashMap::new();
        std::mem::swap(&mut names, &mut self.user_names);
        names.insert(user_id, name);
        std::mem::swap(&mut names, &mut self.user_names);
    }

    /// The label under which a speaker's audio is submitted.
    pub fn get_user_name(&self, user_id: u64) -> (r: String)
        ensures
            r@ == display_name(self.names(), user_id),
    {
        broadcast use vstd::std_specs::hash::group_hash_axioms;

        match self.user_names.get(&user_id) {
            Some(name) => name.clone(),
            None => String::from_str("User_").concat(decimal_string(user_id).as_str()),
        }
    }

    /// The labels of several speakers, in the same order.
    pub fn speaker_labels(&self, speakers: &Vec<u64>) -> (r: Vec<String>)
        ensures
            r@.len() == speakers@.len(),
            forall|i: int|
                0 <= i < speakers@.len() ==> #[trigger] r@[i]@ == display_name(
                    self.names(),
                    speakers@[i],
                ),
    {
        let mut out: Vec<String> = Vec::new();
        let mut i: usize = 0;
        while i < speakers.len()
            invariant
                i <= speakers@.len(),
                out@.len() == i,
                forall|j: int|
                    0 <= j < i ==> #[trigger] out@[j]@ == display_name(self.names(), speakers@[j]),
            decreases speakers@.len() - i,
        {
            out.push(self.get_user_name(speakers[i]));
            i = i + 1;
        }
        out
    }

    /// The context carried into the next analysis request.
    pub fn context(&self) -> (r: &String)
        ensures
            r@ == self.context_view(),
            r@.len() <= CONTEXT_LIMIT,
    {
        proof {
            use_type_invariant(self);
        }
        &self.last_context
    }

    /// Replaces the rolling context with the tail of a new report.
    pub fn record_report(&mut self, report: &str)
        ensures
            final(self).context_view() == tail_chars(report@, CONTEXT_LIMIT as nat),
            final(self).context_view().len() <= CONTEXT_LIMIT,
            final(self).names() == old(self).names(),
            final(self).active() == old(self).active(),
            final(self).spec_guild_id() == old(self).spec_guild_id(),
            final(self).spec_text_channel_id() == old(self).spec_text_channel_id(),
    {
        self.last_context = rolling_context(report);
    }

    pub fn is_active(&self) -> (r: bool)
        ensures
            r == self.active(),
    {
        self.is_active
    }

    /// Marks the session inactive. Nothing makes it active again.
    pub fn stop(&mut self)
        ensures
            !final(self).active(),
            final(self).names() == old(self).names(),
            final(self).context_view() == old(self).context_view(),
            final(self).spec_guild_id() == old(self).spec_guild_id(),
            final(self).spec_text_channel_id() == old(self).spec_text_channel_id(),
    {
        proof {
            use_type_invariant(&*self);
        }
        self.is_active = false;
    }
}

} // verus!
