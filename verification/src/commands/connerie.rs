//! The one-liner feature: passively capture qualifying messages, reply
//! with a random stored message when addressed (or on a small random
//! chance), and serve tiered keyword searches.

use vstd::prelude::*;
use vstd::string::StrSliceExecFns;
use vstd::string::StringExecFns;

use crate::db::connerie::Connerie;
use crate::db::ContentStore;
use crate::rng::random_below;
use crate::search::loose_all;
use crate::search::strict_all;
use crate::text::contains_seq;
use crate::text::dec_rep;
use crate::text::lower_of;
use crate::text::lowercase;
use crate::text::push_dec;
use crate::text::split_char;
use crate::text::split_on;
use crate::text::str_contains;
use crate::utils::first_link_of;
use crate::utils::has_url;

verus! {

/// Chance, in percent, of replying to an ordinary message.
pub const PROC_PERCENTAGE: u64 = 3;

/// Minimum length, in characters, of a search query.
pub const MIN_RAND_TERMS_LENGTH: usize = 4;

/// Whether the text holds an emoji character: what the regex engine's
/// Unicode emoji property matches, a function of the text alone.
pub uninterp spec fn has_emoji(s: Seq<char>) -> bool;

/// Relies on regex::Regex::is_match with the Unicode emoji-property
/// pattern: whether the text holds an emoji character.
#[verifier::external_body]
pub(crate) fn contains_emoji(input: &str) -> (r: bool)
    ensures
        r == has_emoji(input@),
{
    regex::Regex::new("\\p{Emoji}").map(|re| re.is_match(input)).unwrap_or(false)
}

/// One inbound chat message, as the dispatcher hands it over: its text,
/// its author, and the platform's mention flags.
pub struct MessageEvent {
    pub content: String,
    pub author: String,
    pub mentions_everyone: bool,
    pub has_role_mentions: bool,
    pub has_channel_mentions: bool,
    pub has_user_mentions: bool,
    /// The platform reports the bot among the message's mentions.
    pub mentions_me_flag: bool,
}

/// The bot is addressed: its name occurs case-folded in the text, or the
/// platform flags a mention.
pub open spec fn mentions_me_spec(bot_name: Seq<char>, msg: MessageEvent) -> bool {
    contains_seq(lower_of(msg.content@), lower_of(bot_name)) || msg.mentions_me_flag
}

/// A message qualifies for capture: long enough, no mentions of any kind,
/// no URL, no emoji, and not addressed to the bot.
pub open spec fn save_trigger(bot_name: Seq<char>, msg: MessageEvent) -> bool {
    &&& msg.content@.len() > 9
    &&& !msg.mentions_everyone
    &&& !msg.has_role_mentions
    &&& !msg.has_channel_mentions
    &&& !msg.has_user_mentions
    &&& first_link_of(msg.content@) is None
    &&& !has_emoji(msg.content@)
    &&& !mentions_me_spec(bot_name, msg)
}

/// The reply to a too-short search query.
pub open spec fn too_short_reply() -> Seq<char> {
    "Requête trop courte, minimum "@ + dec_rep(MIN_RAND_TERMS_LENGTH as nat) + " caractères"@
}

/// The one-liner feature, configured with the bot's display name.
pub struct ConnerieCommand {
    pub bot_name: String,
}

impl ConnerieCommand {
    /// Is the bot addressed by this message?
    pub fn mentions_me(&self, msg: &MessageEvent) -> (r: bool)
        ensures
            r == mentions_me_spec(self.bot_name@, *msg),
    {
        if msg.mentions_me_flag {
            return true;
        }
        let lc = lowercase(msg.content.as_str());
        let lb = lowercase(self.bot_name.as_str());
        str_contains(lc.as_str(), lb.as_str())
    }

    /// Does this message qualify for capture?
    pub fn should_trigger_save(&self, msg: &MessageEvent) -> (r: bool)
        ensures
            r == save_trigger(self.bot_name@, *msg),
    {
        msg.content.as_str().unicode_len() > 9 && !msg.mentions_everyone
            && !msg.has_role_mentions && !msg.has_channel_mentions && !msg.has_user_mentions
            && !has_url(msg.content.as_str()) && !contains_emoji(msg.content.as_str())
            && !self.mentions_me(msg)
    }

    /// Should the bot speak? Always when addressed; otherwise on a small
    /// random chance, of which nothing more can be said.
    pub fn should_trigger_say(&self, msg: &MessageEvent) -> (r: bool)
        ensures
            mentions_me_spec(self.bot_name@, *msg) ==> r,
    {
        if self.mentions_me(msg) {
            true
        } else {
            let roll = random_below(99) + 1;
            roll <= PROC_PERCENTAGE as usize
        }
    }

    /// Handle one inbound message: capture it when it qualifies, then
    /// possibly reply with a stored message chosen uniformly at random.
    /// When the bot is addressed and the store is not empty, it always
    /// replies.
    pub fn handle(&self, store: &mut ContentStore, msg: &MessageEvent) -> (r: Option<String>)
        requires
            old(store).wf(),
            old(store).conneries@.len() < u64::MAX,
        ensures
            final(store).wf(),
            final(store).same_quotes(*old(store)),
            final(store).same_rss(*old(store)),
            final(store).same_skandites(*old(store)),
            save_trigger(self.bot_name@, *msg) ==> final(store).conneries@.len() == old(
                store,
            ).conneries@.len() + 1 && final(store).conneries@.subrange(
                0,
                old(store).conneries@.len() as int,
            ) == old(store).conneries@ && final(store).conneries@.last().value@ == msg.content@
                && (final(store).conneries@.last().author matches Some(a) && a@ == msg.author@),
            !save_trigger(self.bot_name@, *msg) ==> final(store).same_conneries(*old(store)),
            r matches Some(v) ==> exists|i: int|
                0 <= i < final(store).conneries@.len() && v@
                    == (#[trigger] final(store).conneries@[i]).value@,
            (mentions_me_spec(self.bot_name@, *msg) && final(store).conneries@.len() > 0) ==> r
                is Some,
    {
        if self.should_trigger_save(msg) {
            Connerie::insert(store, msg.author.as_str(), msg.content.as_str());
        }
        if self.should_trigger_say(msg) {
            Connerie::random(store)
        } else {
            None
        }
    }

    /// Handle the search command: reject a query shorter than the
    /// configured minimum with a user-facing message, otherwise run the
    /// tiered search over the space-separated tokens and answer with the
    /// chosen match or with a no-result message.
    pub fn handle_rand(&self, store: &ContentStore, search_terms: &str) -> (r: String)
        ensures
            search_terms@.len() < MIN_RAND_TERMS_LENGTH ==> r@ == too_short_reply(),
            search_terms@.len() >= MIN_RAND_TERMS_LENGTH && (forall|i: int|
                0 <= i < store.conneries@.len() ==> !loose_all(
                    (#[trigger] store.conneries@[i]).value@,
                    split_char(search_terms@, ' '),
                )) ==> r@ == "Pas de résultat"@,
            search_terms@.len() >= MIN_RAND_TERMS_LENGTH && (exists|i: int|
                0 <= i < store.conneries@.len() && strict_all(
                    (#[trigger] store.conneries@[i]).value@,
                    split_char(search_terms@, ' '),
                )) ==> exists|i: int|
                0 <= i < store.conneries@.len() && strict_all(
                    (#[trigger] store.conneries@[i]).value@,
                    split_char(search_terms@, ' '),
                ) && r@ == store.conneries@[i].value@,
            search_terms@.len() >= MIN_RAND_TERMS_LENGTH && !(exists|i: int|
                0 <= i < store.conneries@.len() && strict_all(
                    (#[trigger] store.conneries@[i]).value@,
                    split_char(search_terms@, ' '),
                )) && (exists|i: int|
                0 <= i < store.conneries@.len() && loose_all(
                    (#[trigger] store.conneries@[i]).value@,
                    split_char(search_terms@, ' '),
                )) ==> exists|i: int|
                0 <= i < store.conneries@.len() && loose_all(
                    (#[trigger] store.conneries@[i]).value@,
                    split_char(search_terms@, ' '),
                ) && r@ == store.conneries@[i].value@,
    {
        if search_terms.unicode_len() < MIN_RAND_TERMS_LENGTH {
            let mut out = String::new();
            out.append("Requête trop courte, minimum ");
            push_dec(&mut out, MIN_RAND_TERMS_LENGTH as u64);
            out.append(" caractères");
            proof {
                assert(out@ =~= too_short_reply());
            }
            return out;
        }
        let tokens = split_on(search_terms, ' ');
        match Connerie::search(store, &tokens) {
            None => {
                proof {
                    assert forall|i: int| 0 <= i < store.conneries@.len() implies !strict_all(
                        (#[trigger] store.conneries@[i]).value@,
                        tokens.deep_view(),
                    ) by {
                        if strict_all(store.conneries@[i].value@, tokens.deep_view()) {
                            crate::search::lemma_strict_all_implies_loose_all(
                                store.conneries@[i].value@,
                                tokens.deep_view(),
                            );
                        }
                    }
                }
                String::from_str("Pas de résultat")
            },
            Some(v) => v,
        }
    }
}

} // verus!
