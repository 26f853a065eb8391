//! The messaging tool group's decision logic: building the one
//! channel-message call and interpreting its reply.

use vstd::prelude::*;
use vstd::string::StringExecFns;
use crate::http::{HttpPlan, Method, TextFetch, body_or_empty, body_text, headers_view};
use crate::json::JsonVal;
use crate::text::{concat2, concat3, concat4};

verus! {

/// The messaging tool group: the bot token, when configured.
pub struct DiscordTools {
    pub bot_token: Option<String>,
}

impl DiscordTools {
    /// A tool group holding the optional bot token.
    pub fn new(bot_token: Option<String>) -> (r: DiscordTools)
        ensures
            r.bot_token == bot_token,
    {
        DiscordTools { bot_token }
    }

    /// Plans one channel message: refused without a token, else a JSON
    /// POST to the channel's message endpoint with the bot
    /// authorization header.
    pub fn send_message_request(&self, channel_id: &str, message: String) -> (r: Result<
        HttpPlan,
        String,
    >)
        ensures
            match r {
                Err(t) => self.bot_token is None && t@ == "DISCORD_BOT_TOKEN not set"@,
                Ok(plan) => self.bot_token is Some && plan.method == Method::Post && plan.url@
                    == "https://discord.com/api/v10/channels/"@ + channel_id@ + "/messages"@
                    && headers_view(plan.headers@) =~~= seq![
                    ("Authorization"@, "Bot "@ + self.bot_token->0@),
                    ("Content-Type"@, "application/json"@),
                ] && match plan.body {
                    Some(JsonVal::Obj(es)) => es@.len() == 1 && es@[0].0@ == "content"@
                        && es@[0].1 == JsonVal::Text(message),
                    _ => false,
                },
            },
    {
        let token: &String = match &self.bot_token {
            Some(t) => t,
            None => {
                let mut msg: String = String::new();
                msg.append("DISCORD_BOT_TOKEN not set");
                proof {
                    assert(msg@ =~= "DISCORD_BOT_TOKEN not set"@);
                }
                return Err(msg);
            },
        };
        let url: String = concat3(
            "https://discord.com/api/v10/channels/",
            channel_id,
            "/messages",
        );
        let auth: String = concat2("Bot ", token.as_str());
        let mut headers: Vec<(String, String)> = Vec::new();
        let mut h_auth: String = String::new();
        h_auth.append("Authorization");
        headers.push((h_auth, auth));
        let mut h_ct: String = String::new();
        h_ct.append("Content-Type");
        let mut v_ct: String = String::new();
        v_ct.append("application/json");
        headers.push((h_ct, v_ct));
        let mut entries: Vec<(String, JsonVal)> = Vec::new();
        let mut k_content: String = String::new();
        k_content.append("content");
        entries.push((k_content, JsonVal::Text(message)));
        proof {
            assert(headers_view(headers@) =~~= seq![
                ("Authorization"@, "Bot "@ + self.bot_token->0@),
                ("Content-Type"@, "application/json"@),
            ]);
        }
        Ok(HttpPlan { method: Method::Post, url, headers, body: Some(JsonVal::Obj(entries)) })
    }

    /// Interprets the reply to a channel message.
    pub fn send_message_response(channel_id: &str, f: TextFetch) -> (r: Result<String, String>)
        ensures
            match f {
                TextFetch::ConnectError(e) => r is Err && r->Err_0@ == "Request failed: "@ + e@,
                TextFetch::Response { ok, status, body } => if ok {
                    r is Ok && r->Ok_0@ == "Message sent to channel "@ + channel_id@
                } else {
                    r is Err && r->Err_0@ == "Discord API error "@ + status@ + ": "@
                        + body_or_empty(body)
                },
            },
    {
        match f {
            TextFetch::ConnectError(e) => Err(concat2("Request failed: ", e.as_str())),
            TextFetch::Response { ok, status, body } => {
                if ok {
                    Ok(concat2("Message sent to channel ", channel_id))
                } else {
                    let b: String = body_text(body);
                    Err(concat4("Discord API error ", status.as_str(), ": ", b.as_str()))
                }
            },
        }
    }
}

} // verus!
