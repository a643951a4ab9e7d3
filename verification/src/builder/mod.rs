//! Builders of what a client sends: embeds, components, attachments and edits.

pub mod create_allowed_mentions;
pub mod create_attachment;
pub mod create_components;
pub mod create_embed;
pub mod create_quick_modal;
pub mod edit_interaction_response;
pub mod edit_profile;
pub mod edit_stage_instance;
