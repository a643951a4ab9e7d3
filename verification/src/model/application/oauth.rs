//! The scopes of OAuth2 grants.

use vstd::prelude::*;

verus! {

/// What an OAuth2 grant lets an application do.
#[derive(Clone, Copy, Debug, PartialEq, Eq, Structural, Hash)]
pub enum Scope {
    Bot,
    ApplicationsCommands,
    ApplicationsCommandsUpdate,
    ApplicationsCommandsPermissionsUpdate,
    Identify,
    Email,
    Connections,
    Guilds,
    GuildsJoin,
    GuildsMembersRead,
    GdmJoin,
    Rpc,
    RpcNotificationsRead,
    RpcVoiceRead,
    RpcVoiceWrite,
    RpcActivitiesWrite,
    WebhookIncomming,
    MessagesRead,
    ApplicationsBuildsUpload,
    ApplicationsBuildsRead,
    ApplicationsStoreUpdate,
    ApplicationsEntitlements,
    ActivitiesRead,
    ActivitiesWrite,
    RelactionshipsRead,
    DmChannelsRead,
    Voice,
}

} // verus!
