//! Read-only configuration of the bot: which groups it serves, the
//! per-group deadline, and the message texts.
//!
//! Configuration is an explicitly injected snapshot; the core never
//! consults ambient global state.  Loading it from files or the
//! environment is unverified plumbing that hands the library plain
//! values through [`GroupsConfig::new`].

use std::collections::HashMap;
use vstd::prelude::*;

use crate::text::{escape_html, replace_all, spec_escape, spec_replace};

verus! {

broadcast use vstd::std_specs::hash::group_hash_axioms;

/// The texts the bot sends, with their placeholders.
#[derive(Debug, Clone, PartialEq)]
pub struct MessagesText {
    /// Welcome prompt for a new member; `{TAGUSER}` stands for the
    /// subject's mention and `{CHATNAME}` for the group's name.
    pub new_user_template: String,
    /// Sent before leaving a group the bot does not serve.
    pub unauthorized_group: String,
    /// Shown when a proof is accepted.
    pub successfully_verified: String,
    /// Shown when someone other than the subject presses the
    /// verification button.
    pub user_doesnt_match_error: String,
}

/// The welcome message: the template with `{TAGUSER}` replaced by
/// the subject's mention and `{CHATNAME}` by the HTML-escaped group
/// name.
pub open spec fn spec_welcome_msg(
    template: Seq<char>,
    mention: Seq<char>,
    chat_name: Seq<char>,
) -> Seq<char> {
    spec_replace(
        spec_replace(template, "{TAGUSER}"@, mention),
        "{CHATNAME}"@,
        spec_escape(chat_name),
    )
}

impl MessagesText {
    /// Builds the welcome prompt for one subject.
    pub fn create_welcome_msg(&self, user_mention: &str, chat_name: &str) -> (r: String)
        ensures
            r@ == spec_welcome_msg(self.new_user_template@, user_mention@, chat_name@),
    {
        proof {
            reveal_strlit("{TAGUSER}");
            reveal_strlit("{CHATNAME}");
        }
        let tagged = replace_all(self.new_user_template.as_str(), "{TAGUSER}", user_mention);
        let escaped = escape_html(chat_name);
        replace_all(tagged.as_str(), "{CHATNAME}", escaped.as_str())
    }
}

impl Default for MessagesText {
    /// The stock texts used when a group configures none.
    fn default() -> (r: MessagesText)
        ensures
            r.new_user_template@
                == "👋 gm {TAGUSER}! Welcome to {CHATNAME}.\nTo access the group, please verify your account with World ID."@,
            r.unauthorized_group@ == "❌ You can't use this bot on this group. Bye!"@,
            r.successfully_verified@ == "✅ Verified with World ID. Welcome to the group!"@,
            r.user_doesnt_match_error@ == "❌ This message isn't for you"@,
    {
        MessagesText {
            new_user_template:
                "👋 gm {TAGUSER}! Welcome to {CHATNAME}.\nTo access the group, please verify your account with World ID.".to_owned(),
            unauthorized_group: "❌ You can't use this bot on this group. Bye!".to_owned(),
            successfully_verified: "✅ Verified with World ID. Welcome to the group!".to_owned(),
            user_doesnt_match_error: "❌ This message isn't for you".to_owned(),
        }
    }
}

/// Per-group settings.
#[derive(Debug, Clone)]
pub struct GroupSettings {
    /// Display name to use in messages; the transport-supplied name
    /// is used when absent.
    pub chat_name: Option<String>,
    /// Users allowed to run administrative commands, if restricted.
    pub admin_ids: Option<Vec<u64>>,
    /// Deadline in seconds: how long a subject may stay unverified
    /// before being removed.
    pub ban_after_secs: u64,
    /// The message texts of this group.
    pub messages: MessagesText,
}

impl Default for GroupSettings {
    /// No display name, no admin restriction, a five-minute
    /// deadline, and the stock texts.
    fn default() -> (r: GroupSettings)
        ensures
            r.chat_name is None,
            r.admin_ids is None,
            r.ban_after_secs == 300,
            r.messages.new_user_template@
                == "👋 gm {TAGUSER}! Welcome to {CHATNAME}.\nTo access the group, please verify your account with World ID."@,
            r.messages.unauthorized_group@ == "❌ You can't use this bot on this group. Bye!"@,
            r.messages.successfully_verified@
                == "✅ Verified with World ID. Welcome to the group!"@,
            r.messages.user_doesnt_match_error@ == "❌ This message isn't for you"@,
    {
        GroupSettings {
            chat_name: None,
            admin_ids: None,
            ban_after_secs: 300,
            messages: MessagesText::default(),
        }
    }
}

/// The settings map a sequence of `(group, settings)` pairs builds
/// up, later pairs overriding earlier ones.
pub open spec fn entries_map(s: Seq<(i64, GroupSettings)>) -> Map<i64, GroupSettings>
    decreases s.len(),
{
    if s.len() == 0 {
        Map::empty()
    } else {
        entries_map(s.drop_last()).insert(s.last().0, s.last().1)
    }
}

/// Which groups the bot serves and with what settings.
#[derive(Debug)]
pub struct GroupsConfig {
    /// Groups allowed to use the bot; an empty list allows all
    /// groups.
    pub allowed_group_ids: Vec<i64>,
    fallback_group_settings: GroupSettings,
    group_settings: HashMap<i64, GroupSettings>,
}

impl GroupsConfig {
    /// The groups allowed to use the bot; empty means all.
    pub closed spec fn spec_allowed(&self) -> Seq<i64> {
        self.allowed_group_ids@
    }

    /// The settings of the groups configured explicitly.
    pub closed spec fn spec_settings_map(&self) -> Map<i64, GroupSettings> {
        self.group_settings@
    }

    /// The settings every other group falls back to.
    pub closed spec fn spec_fallback(&self) -> GroupSettings {
        self.fallback_group_settings
    }

    /// Assembles a configuration snapshot from plain values.
    pub fn new(
        allowed_group_ids: Vec<i64>,
        fallback: GroupSettings,
        per_group: Vec<(i64, GroupSettings)>,
    ) -> (r: GroupsConfig)
        ensures
            r.spec_allowed() == allowed_group_ids@,
            r.spec_fallback() == fallback,
            r.spec_settings_map() == entries_map(per_group@),
    {
        let ghost pairs = per_group@;
        let mut per_group = per_group;
        let total = per_group.len();
        let mut group_settings: HashMap<i64, GroupSettings> = HashMap::new();
        let mut i: usize = 0;
        proof {
            assert(pairs.len() == total);
            assert(pairs.take(0) =~= Seq::<(i64, GroupSettings)>::empty());
        }
        while per_group.len() > 0
            invariant
                pairs.len() <= usize::MAX,
                i + per_group@.len() == pairs.len(),
                per_group@ == pairs.skip(i as int),
                group_settings@ == entries_map(pairs.take(i as int)),
            decreases per_group@.len(),
        {
            let pair = per_group.remove(0);
            group_settings.insert(pair.0, pair.1);
            proof {
                assert(pairs.take(i as int + 1).drop_last() =~= pairs.take(i as int));
                assert(pairs.take(i as int + 1).last() == pairs[i as int]);
                assert(per_group@ =~= pairs.skip(i as int + 1));
            }
            i = i + 1;
        }
        proof {
            assert(pairs.take(pairs.len() as int) =~= pairs);
        }
        GroupsConfig { allowed_group_ids, fallback_group_settings: fallback, group_settings }
    }

    /// Whether the bot serves `group`: every group when the allow
    /// list is empty, else exactly the listed ones.
    pub open spec fn spec_is_group_allowed(&self, group: i64) -> bool {
        self.spec_allowed().len() == 0 || self.spec_allowed().contains(group)
    }

    /// Whether the bot serves `group`.
    pub fn is_group_allowed(&self, group: i64) -> (r: bool)
        ensures
            r == self.spec_is_group_allowed(group),
    {
        if self.allowed_group_ids.len() == 0 {
            return true;
        }
        let n = self.allowed_group_ids.len();
        let mut i: usize = 0;
        while i < n
            invariant
                n == self.allowed_group_ids@.len(),
                0 <= i <= n,
                forall|j: int| 0 <= j < i ==> self.allowed_group_ids@[j] != group,
            decreases n - i,
        {
            if self.allowed_group_ids[i] == group {
                return true;
            }
            i = i + 1;
        }
        proof {
            assert(!self.allowed_group_ids@.contains(group));
        }
        false
    }

    /// The settings `get` returns: the group's own if configured,
    /// else the fallback.
    pub open spec fn spec_get(&self, group: i64) -> GroupSettings {
        if self.spec_settings_map().contains_key(group) {
            self.spec_settings_map()[group]
        } else {
            self.spec_fallback()
        }
    }

    /// The settings that apply to `group`.
    pub fn get(&self, group: i64) -> (r: &GroupSettings)
        ensures
            *r == self.spec_get(group),
    {
        match self.group_settings.get(&group) {
            Some(settings) => settings,
            None => &self.fallback_group_settings,
        }
    }
}

/// The whole configuration snapshot of the service.
#[derive(Debug)]
pub struct AppConfig {
    /// Application identifier registered with the verification
    /// provider; part of the verification page and the provider
    /// call.
    pub app_id: String,
    /// Credential of the transport account; consumed by the
    /// unverified transport glue only.
    pub bot_token: String,
    /// The group configuration.
    pub groups_config: GroupsConfig,
}

} // verus!
