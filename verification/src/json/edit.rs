//! Edits and what goes with them as JSON.
//!
//! A member that is not set is not written. The files that an edit adds are sent
//! beside the JSON and are not part of it.

use vstd::prelude::*;
use crate::builder::create_allowed_mentions::CreateAllowedMentions;
use crate::builder::create_attachment::ExistingAttachment;
use crate::builder::create_components::CreateComponents;
use crate::builder::create_embed::CreateEmbed;
use crate::builder::edit_interaction_response::EditInteractionResponse;
use crate::builder::edit_profile::EditProfile;
use crate::builder::edit_stage_instance::EditStageInstance;
use crate::json::decimal::{decimal, decimal_text};
use crate::json::{
    bool_json,
    items_view,
    optional,
    text_json,
    Json,
    ObjectWriter,
    Value,
};
use crate::model::id::{RoleId, UserId};

verus! {

/// The users as JSON values: their identifiers as decimal text.
pub open spec fn users_json(users: Seq<UserId>) -> Seq<Json> {
    users.map_values(|u: UserId| Json::Text(decimal(u.0)))
}

/// The roles as JSON values: their identifiers as decimal text.
pub open spec fn roles_json(roles: Seq<RoleId>) -> Seq<Json> {
    roles.map_values(|r: RoleId| Json::Text(decimal(r.0)))
}

impl CreateAllowedMentions {
    /// What may notify by kind, as the items of `parse`.
    pub open spec fn parse_json(&self) -> Seq<Json> {
        if self.everyone {
            seq![Json::Text("everyone"@)]
        } else {
            Seq::empty()
        }
    }

    /// The allowed mentions as JSON.
    pub open spec fn json(&self) -> Json {
        Json::Object(
            seq![
                ("parse"@, Json::Array(self.parse_json())),
                ("users"@, Json::Array(users_json(self.users@))),
                ("roles"@, Json::Array(roles_json(self.roles@))),
            ] + optional("replied_user"@, bool_json(self.replied_user)),
        )
    }

    /// Writes the allowed mentions as JSON.
    pub fn to_json(&self) -> (r: Value)
        ensures
            r@ == self.json(),
    {
        let mut parse: Vec<Value> = Vec::new();
        if self.everyone {
            parse.push(Value::text("everyone"));
        }
        assert(items_view(parse@) =~= self.parse_json());
        let mut users: Vec<Value> = Vec::new();
        let mut i: usize = 0;
        while i < self.users.len()
            invariant
                i <= self.users.len(),
                users@.len() == i,
                forall|k: int|
                    0 <= k < i ==> (#[trigger] users@[k])@ == Json::Text(decimal(self.users@[k].0)),
            decreases self.users.len() - i,
        {
            users.push(Value::String(decimal_text(self.users[i].0)));
            i = i + 1;
        }
        assert(items_view(users@) =~= users_json(self.users@));
        let mut roles: Vec<Value> = Vec::new();
        let mut j: usize = 0;
        while j < self.roles.len()
            invariant
                j <= self.roles.len(),
                roles@.len() == j,
                forall|k: int|
                    0 <= k < j ==> (#[trigger] roles@[k])@ == Json::Text(decimal(self.roles@[k].0)),
            decreases self.roles.len() - j,
        {
            roles.push(Value::String(decimal_text(self.roles[j].0)));
            j = j + 1;
        }
        assert(items_view(roles@) =~= roles_json(self.roles@));
        let mut object = ObjectWriter::new();
        object.put("parse", Value::array(parse));
        object.put("users", Value::array(users));
        object.put("roles", Value::array(roles));
        object.put_bool("replied_user", self.replied_user);
        assert(object@ =~= self.json()->Object_0);
        object.finish()
    }
}

impl ExistingAttachment {
    /// The file as JSON: its identifier.
    pub open spec fn json(&self) -> Json {
        Json::Object(seq![("id"@, Json::Number(self.id))])
    }

    /// Writes the file as JSON.
    pub fn to_json(&self) -> (r: Value)
        ensures
            r@ == self.json(),
    {
        let mut object = ObjectWriter::new();
        object.put("id", Value::Number(self.id));
        assert(object@ =~= self.json()->Object_0);
        object.finish()
    }
}

/// The embeds as JSON values.
pub open spec fn embeds_json(embeds: Seq<CreateEmbed>) -> Seq<Json> {
    embeds.map_values(|e: CreateEmbed| e.json())
}

/// The files as JSON values.
pub open spec fn attachments_json(attachments: Seq<ExistingAttachment>) -> Seq<Json> {
    attachments.map_values(|a: ExistingAttachment| a.json())
}

impl EditInteractionResponse {
    /// The embeds as the member `embeds`, if they are set.
    pub open spec fn embeds_member(&self) -> Option<Json> {
        match self.embeds {
            Some(embeds) => Some(Json::Array(embeds_json(embeds@))),
            None => None,
        }
    }

    /// The files that stay as the member `attachments`, if they are named.
    pub open spec fn attachments_member(&self) -> Option<Json> {
        match self.attachments {
            Some(attachments) => Some(Json::Array(attachments_json(attachments@))),
            None => None,
        }
    }

    /// The edit as JSON.
    pub open spec fn json(&self) -> Json {
        Json::Object(
            optional("embeds"@, self.embeds_member()) + optional(
                "content"@,
                text_json(self.content),
            ) + optional(
                "allowed_mentions"@,
                match self.allowed_mentions {
                    Some(mentions) => Some(mentions.json()),
                    None => None,
                },
            ) + optional(
                "components"@,
                match self.components {
                    Some(components) => Some(components.json()),
                    None => None,
                },
            ) + optional("attachments"@, self.attachments_member()),
        )
    }

    /// Writes the edit as JSON.
    pub fn to_json(&self) -> (r: Value)
        ensures
            r@ == self.json(),
    {
        let embeds = match &self.embeds {
            Some(embeds) => {
                let mut items: Vec<Value> = Vec::new();
                let mut i: usize = 0;
                while i < embeds.len()
                    invariant
                        i <= embeds.len(),
                        items@.len() == i,
                        forall|k: int| 0 <= k < i ==> (#[trigger] items@[k])@ == embeds@[k].json(),
                    decreases embeds.len() - i,
                {
                    items.push(embeds[i].to_json());
                    i = i + 1;
                }
                assert(items_view(items@) =~= embeds_json(embeds@));
                Some(Value::array(items))
            },
            None => None,
        };
        let mentions = match &self.allowed_mentions {
            Some(mentions) => Some(mentions.to_json()),
            None => None,
        };
        let components = match &self.components {
            Some(components) => Some(components.to_json()),
            None => None,
        };
        let attachments = match &self.attachments {
            Some(attachments) => {
                let mut items: Vec<Value> = Vec::new();
                let mut i: usize = 0;
                while i < attachments.len()
                    invariant
                        i <= attachments.len(),
                        items@.len() == i,
                        forall|k: int|
                            0 <= k < i ==> (#[trigger] items@[k])@ == attachments@[k].json(),
                    decreases attachments.len() - i,
                {
                    items.push(attachments[i].to_json());
                    i = i + 1;
                }
                assert(items_view(items@) =~= attachments_json(attachments@));
                Some(Value::array(items))
            },
            None => None,
        };
        let mut object = ObjectWriter::new();
        object.put_optional("embeds", embeds);
        object.put_text("content", &self.content);
        object.put_optional("allowed_mentions", mentions);
        object.put_optional("components", components);
        object.put_optional("attachments", attachments);
        assert(object@ =~= self.json()->Object_0);
        object.finish()
    }
}

impl EditProfile {
    /// The avatar as the member `avatar`: the data address, or `null` to take the
    /// avatar away, or nothing where the edit leaves the avatar alone.
    pub open spec fn avatar_member(&self) -> Option<Json> {
        match self.avatar {
            Some(Some(address)) => Some(Json::Text(address@)),
            Some(None) => Some(Json::Null),
            None => None,
        }
    }

    /// The edit as JSON.
    pub open spec fn json(&self) -> Json {
        Json::Object(
            optional("avatar"@, self.avatar_member()) + optional(
                "username"@,
                text_json(self.username),
            ),
        )
    }

    /// Writes the edit as JSON.
    pub fn to_json(&self) -> (r: Value)
        ensures
            r@ == self.json(),
    {
        let avatar = match &self.avatar {
            Some(Some(address)) => Some(Value::String(address.clone())),
            Some(None) => Some(Value::Null),
            None => None,
        };
        let mut object = ObjectWriter::new();
        object.put_optional("avatar", avatar);
        object.put_text("username", &self.username);
        assert(object@ =~= self.json()->Object_0);
        object.finish()
    }
}

impl EditStageInstance {
    /// The edit as JSON.
    pub open spec fn json(&self) -> Json {
        Json::Object(optional("topic"@, text_json(self.topic)))
    }

    /// Writes the edit as JSON.
    pub fn to_json(&self) -> (r: Value)
        ensures
            r@ == self.json(),
    {
        let mut object = ObjectWriter::new();
        object.put_text("topic", &self.topic);
        assert(object@ =~= self.json()->Object_0);
        object.finish()
    }
}

} // verus!
