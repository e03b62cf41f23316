//! The status query session: one probe of the secondary status protocol,
//! turned into a field-selected reply.
//!
//! The probe itself is network I/O and happens outside the crate; its
//! outcome arrives here as a plain `ServerStatus` (or nothing, when the
//! probe failed). This module decodes the embedded icon and assembles the
//! reply: a requested field is populated when the status supplies it, a
//! requested field the status lacks is simply omitted, and a field not
//! requested never appears.

use crate::errors::AgentError;
use crate::query_options::{QueryOptions, QuerySend};
use crate::text::{dec_str, u64_to_string};
use vstd::prelude::*;

verus! {

/// What one successful probe of the secondary protocol reports.
#[derive(Debug)]
pub struct ServerStatus {
    pub version: String,
    pub players_online: u64,
    pub players_max: u64,
    pub player_sample: Option<Vec<String>>,
    pub description: String,
    pub favicon: Option<String>,
    pub map: Option<String>,
    pub gamemode: Option<String>,
    pub software: Option<String>,
    pub plugins: Option<Vec<String>>,
    pub mods: Option<Vec<String>>,
}

/// What the standard base64 alphabet decodes a text to, if it decodes at
/// all. A function of the text alone.
pub uninterp spec fn base64_standard_decoded(s: Seq<char>) -> Option<Seq<u8>>;

/// Relies on base64's `Engine::decode` with the STANDARD engine: whether
/// the text decodes, and to what, depends on the text alone.
#[verifier::external_body]
fn decode_base64(s: &str) -> (r: Option<Vec<u8>>)
    ensures
        match r {
            Some(v) => base64_standard_decoded(s@) == Some(v@),
            None => base64_standard_decoded(s@) is None,
        },
{
    base64::Engine::decode(&base64::engine::general_purpose::STANDARD, s).ok()
}

/// The text left after a prefix, if the string starts with it.
fn strip_prefix_chars<'a>(s: &'a str, prefix: &str) -> (r: Option<&'a str>)
    ensures
        match r {
            Some(rest) => s@.len() >= prefix@.len() && s@.subrange(0, prefix@.len() as int)
                == prefix@ && rest@ == s@.skip(prefix@.len() as int),
            None => !(s@.len() >= prefix@.len() && s@.subrange(0, prefix@.len() as int)
                == prefix@),
        },
{
    let s_len = s.unicode_len();
    let p_len = prefix.unicode_len();
    if s_len < p_len {
        return None;
    }
    let mut i: usize = 0;
    while i < p_len
        invariant
            s_len == s@.len(),
            p_len == prefix@.len(),
            p_len <= s_len,
            i <= p_len,
            forall|j: int| 0 <= j < i ==> s@[j] == prefix@[j],
        decreases p_len - i,
    {
        if s.get_char(i) != prefix.get_char(i) {
            proof {
                assert(s@.subrange(0, p_len as int)[i as int] != prefix@[i as int]);
            }
            return None;
        }
        i += 1;
    }
    proof {
        assert(s@.subrange(0, p_len as int) =~= prefix@);
    }
    Some(s.substring_char(p_len, s_len))
}

/// The prefix a data-URI icon payload carries before its base64 text.
pub open spec fn icon_prefix() -> Seq<char> {
    "data:image/png;base64,"@
}

/// The icon bytes embedded in a status, if the payload is present, carries
/// the data-URI prefix, and its base64 text decodes.
pub open spec fn spec_icon_bytes(favicon: Option<String>) -> Option<Seq<u8>> {
    match favicon {
        None => None,
        Some(s) => if s@.len() >= icon_prefix().len() && s@.subrange(0, icon_prefix().len() as int)
            == icon_prefix() {
            base64_standard_decoded(s@.skip(icon_prefix().len() as int))
        } else {
            None
        },
    }
}

/// Decodes the icon embedded in a status payload: absent or malformed
/// payloads fail, exactly when `spec_icon_bytes` gives nothing.
pub fn decode_icon(favicon: &Option<String>) -> (r: Result<Vec<u8>, AgentError>)
    ensures
        match r {
            Ok(v) => spec_icon_bytes(*favicon) == Some(v@),
            Err(e) => e == AgentError::IconDecodeFailed && spec_icon_bytes(*favicon) is None,
        },
{
    match favicon {
        None => Err(AgentError::IconDecodeFailed),
        Some(s) => {
            match strip_prefix_chars(s.as_str(), "data:image/png;base64,") {
                None => Err(AgentError::IconDecodeFailed),
                Some(rest) => {
                    match decode_base64(rest) {
                        Some(bytes) => Ok(bytes),
                        None => Err(AgentError::IconDecodeFailed),
                    }
                },
            }
        },
    }
}

/// A copy of the strings, equal as values.
fn copy_strings(src: &Vec<String>) -> (r: Vec<String>)
    ensures
        r@ == src@,
{
    let n = src.len();
    let mut out: Vec<String> = Vec::new();
    let mut i: usize = 0;
    while i < n
        invariant
            n == src@.len(),
            i <= n,
            out@ =~= src@.take(i as int),
        decreases n - i,
    {
        out.push(src[i].clone());
        proof {
            assert(out@ =~= src@.take(i + 1));
        }
        i += 1;
    }
    proof {
        assert(out@ =~= src@);
    }
    out
}

/// The field-selection contract of a reply built from a status: a field
/// appears exactly when it was requested and the status supplies it. A
/// requested field the status lacks is simply omitted — a missing
/// optional field is never an error. A present field carries the status
/// text (or names), and the player count the rendered "online/max" pair.
pub open spec fn selected_reply(opts: QueryOptions, st: ServerStatus, q: QuerySend) -> bool {
    &&& (q.version is Some <==> opts.version)
    &&& opts.version ==> q.version->0@ == st.version@
    &&& (q.player_count is Some <==> opts.player_count)
    &&& opts.player_count ==> q.player_count->0@ == dec_str(st.players_online as nat)
        + seq!['/'] + dec_str(st.players_max as nat)
    &&& (q.player_list is Some <==> (opts.player_list && st.player_sample is Some))
    &&& opts.player_list && st.player_sample is Some ==> q.player_list->0.deep_view()
        == st.player_sample->0.deep_view()
    &&& q.description is None
    &&& (q.map is Some <==> (opts.map && st.map is Some))
    &&& opts.map && st.map is Some ==> q.map->0@ == st.map->0@
    &&& (q.gamemode is Some <==> (opts.gamemode && st.gamemode is Some))
    &&& opts.gamemode && st.gamemode is Some ==> q.gamemode->0@ == st.gamemode->0@
    &&& (q.software is Some <==> (opts.software && st.software is Some))
    &&& opts.software && st.software is Some ==> q.software->0@ == st.software->0@
    &&& (q.plugins is Some <==> (opts.plugins && st.plugins is Some))
    &&& opts.plugins && st.plugins is Some ==> q.plugins->0.deep_view()
        == st.plugins->0.deep_view()
    &&& (q.mods is Some <==> (opts.mods && st.mods is Some))
    &&& opts.mods && st.mods is Some ==> q.mods->0.deep_view() == st.mods->0.deep_view()
}

/// One live status subscription: the probe target port, where the
/// rendered result is shown, and which fields the subscriber asked for.
#[derive(Debug)]
pub struct QueryHandler {
    pub port: u32,
    pub message_id: u64,
    pub channel_id: u64,
    pub options: QueryOptions,
}

impl QueryHandler {
    pub fn new(port: u32, message_id: u64, channel_id: u64, options: QueryOptions) -> (r:
        QueryHandler)
        ensures
            r.port == port,
            r.message_id == message_id,
            r.channel_id == channel_id,
            r.options == options,
    {
        QueryHandler { port, message_id, channel_id, options }
    }

    /// Turns one probe outcome into the reply: a probe that could not
    /// complete (nothing came back) fails as an upstream failure; a
    /// status that came back is built into the field-selected reply.
    pub fn probe_reply(&self, probe: Option<&ServerStatus>) -> (r: Result<
        (String, Vec<u8>, QuerySend),
        AgentError,
    >)
        ensures
            probe is None ==> (r matches Err(e) && e == AgentError::UpstreamQueryFailed),
            probe matches Some(status) ==> match r {
                Ok(payload) => payload.0@ == status.description@ && spec_icon_bytes(status.favicon)
                    == Some(payload.1@) && selected_reply(self.options, *status, payload.2),
                Err(e) => e == AgentError::IconDecodeFailed && spec_icon_bytes(status.favicon)
                    is None,
            },
    {
        match probe {
            None => Err(AgentError::UpstreamQueryFailed),
            Some(status) => self.respond(status),
        }
    }

    /// Builds the reply to one probe: the description, the decoded icon,
    /// and the field-selected status. Fails exactly when the embedded icon
    /// is absent or malformed.
    pub fn respond(&self, status: &ServerStatus) -> (r: Result<
        (String, Vec<u8>, QuerySend),
        AgentError,
    >)
        ensures
            match r {
                Ok(payload) => payload.0@ == status.description@ && spec_icon_bytes(status.favicon)
                    == Some(payload.1@) && selected_reply(self.options, *status, payload.2),
                Err(e) => e == AgentError::IconDecodeFailed && spec_icon_bytes(status.favicon)
                    is None,
            },
    {
        let icon = match decode_icon(&status.favicon) {
            Ok(v) => v,
            Err(e) => {
                return Err(e);
            },
        };
        let description = status.description.clone();
        let mut reply = QuerySend::default();
        if self.options.version {
            reply.set_version(status.version.clone());
        }
        if self.options.player_count {
            let mut count = u64_to_string(status.players_online);
            count.append("/");
            let max_text = u64_to_string(status.players_max);
            count.append(max_text.as_str());
            proof {
                reveal_strlit("/");
                assert("/"@ =~= seq!['/']);
            }
            reply.set_player_count(count);
        }
        if self.options.player_list {
            match &status.player_sample {
                Some(sample) => {
                    reply.set_player_list(copy_strings(sample));
                },
                None => {},
            }
        }
        if self.options.map {
            match &status.map {
                Some(map) => {
                    reply.set_map(Some(map.clone()));
                },
                None => {},
            }
        }
        if self.options.gamemode {
            match &status.gamemode {
                Some(gamemode) => {
                    reply.set_gamemode(Some(gamemode.clone()));
                },
                None => {},
            }
        }
        if self.options.software {
            match &status.software {
                Some(software) => {
                    reply.set_software(Some(software.clone()));
                },
                None => {},
            }
        }
        if self.options.plugins {
            match &status.plugins {
                Some(plugins) => {
                    reply.set_plugins(Some(copy_strings(plugins)));
                },
                None => {},
            }
        }
        if self.options.mods {
            match &status.mods {
                Some(mods) => {
                    reply.set_mods(Some(copy_strings(mods)));
                },
                None => {},
            }
        }
        Ok((description, icon, reply))
    }
}

} // verus!
