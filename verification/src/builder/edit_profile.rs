//! The edit of the connection's own user.

use vstd::prelude::*;
use crate::builder::create_attachment::CreateAttachment;
use crate::utils::{base64_fits, base64_standard, can_encode_image, encode_image};

verus! {

/// A builder of the edit of the connection's own user.
#[derive(Clone, Debug, PartialEq, Eq)]
pub struct EditProfile {
    /// The new avatar as a data address; `Some(None)` takes the avatar away.
    pub avatar: Option<Option<String>>,
    pub username: Option<String>,
}

impl EditProfile {
    /// The edit that changes nothing.
    pub fn new() -> (r: Self)
        ensures
            r.avatar is None,
            r.username is None,
    {
        EditProfile { avatar: None, username: None }
    }

    /// Sets the avatar to the image that the attachment holds.
    pub fn avatar(self, avatar: &CreateAttachment) -> (r: Self)
        requires
            base64_fits(avatar.data@.len()),
        ensures
            r.avatar matches Some(Some(address)) && address@ == "data:image/png;base64,"@
                + base64_standard(avatar.data@),
            r.username == self.username,
    {
        EditProfile { avatar: Some(Some(encode_image(&avatar.data))), username: self.username }
    }

    /// Sets the avatar to the image that the attachment holds, if the image is
    /// short enough to be encoded; an image that is not leaves the edit as it is.
    pub fn try_avatar(self, avatar: &CreateAttachment) -> (r: Self)
        ensures
            r.username == self.username,
            if base64_fits(avatar.data@.len()) {
                r.avatar matches Some(Some(address)) && address@ == "data:image/png;base64,"@
                    + base64_standard(avatar.data@)
            } else {
                r.avatar == self.avatar
            },
    {
        if can_encode_image(&avatar.data) {
            self.avatar(avatar)
        } else {
            self
        }
    }

    /// Takes the avatar away, which leaves the user with the platform's logo.
    pub fn delete_avatar(self) -> (r: Self)
        ensures
            r == (EditProfile { avatar: Some(None), ..self }),
    {
        EditProfile { avatar: Some(None), ..self }
    }

    /// Sets the name of the user.
    pub fn username(self, username: &str) -> (r: Self)
        ensures
            r.username matches Some(set) && set@ == username@,
            r.avatar == self.avatar,
    {
        EditProfile { username: Some(username.to_owned()), avatar: self.avatar }
    }
}

impl Default for EditProfile {
    fn default() -> (r: Self)
        ensures
            r.avatar is None,
            r.username is None,
    {
        EditProfile::new()
    }
}

} // verus!
