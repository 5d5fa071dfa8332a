//! The data the core owns: clipboard entries, devices and users. Identifiers
//! and timestamps are plain integers (128-bit ids, Unix seconds), so every
//! rule about them is stated directly over the fields.

use vstd::prelude::*;

use crate::clock::now_unix_seconds;
use crate::ids::fresh_id;

verus! {

/// The byte length of a string, measured as its UTF-8 encoding.
pub open spec fn byte_len(s: Seq<char>) -> nat {
    vstd::utf8::encode_utf8(s).len()
}

/// One clipboard snapshot. Immutable after creation except for the
/// server-assigned `received_at` timestamp.
#[derive(Debug)]
pub struct ClipboardData {
    /// Unique, server-generated.
    pub id: u128,
    /// The clipboard text; its byte length is bounded by configuration.
    pub content: String,
    /// The device that pushed the snapshot.
    pub device_id: u128,
    /// The user the snapshot belongs to.
    pub user_id: u128,
    /// Client-supplied send time; 0 means unset.
    pub sent_at: u64,
    /// Server-assigned time of storage; 0 until the entry is stored.
    pub received_at: u64,
}

impl ClipboardData {
    /// A fresh entry with a server-generated id and both timestamps unset.
    pub fn new(content: String, device_id: u128, user_id: u128) -> (r: Self)
        ensures
            r.content == content,
            r.device_id == device_id,
            r.user_id == user_id,
            r.sent_at == 0,
            r.received_at == 0,
    {
        ClipboardData { id: fresh_id(), content, device_id, user_id, sent_at: 0, received_at: 0 }
    }
}

impl Clone for ClipboardData {
    fn clone(&self) -> (r: Self)
        ensures
            r == *self,
    {
        ClipboardData {
            id: self.id,
            content: self.content.clone(),
            device_id: self.device_id,
            user_id: self.user_id,
            sent_at: self.sent_at,
            received_at: self.received_at,
        }
    }
}

/// A device registered for a user. The registry that would own these is an
/// external collaborator; the core only creates and touches the records.
#[derive(Debug)]
pub struct Device {
    pub id: u128,
    pub name: String,
    pub user_id: u128,
    pub last_seen: u64,
    pub created_at: u64,
}

impl Device {
    /// A fresh device record; both timestamps carry the same clock reading.
    pub fn new(name: String, user_id: u128) -> (r: Self)
        ensures
            r.name == name,
            r.user_id == user_id,
            r.last_seen == r.created_at,
    {
        let now = match now_unix_seconds() {
            Some(n) => n,
            None => 0,
        };
        Device { id: fresh_id(), name, user_id, last_seen: now, created_at: now }
    }

    /// Touch the device as of instant `now`: `last_seen` takes the instant
    /// and nothing else changes.
    pub fn update_last_seen_at(&mut self, now: u64)
        ensures
            final(self).last_seen == now,
            final(self).id == old(self).id,
            final(self).name == old(self).name,
            final(self).user_id == old(self).user_id,
            final(self).created_at == old(self).created_at,
    {
        self.last_seen = now;
    }

    /// Touch the device with the current clock reading (a pre-epoch clock
    /// reads as 0), through `update_last_seen_at`.
    pub fn update_last_seen(&mut self)
        ensures
            final(self).id == old(self).id,
            final(self).name == old(self).name,
            final(self).user_id == old(self).user_id,
            final(self).created_at == old(self).created_at,
    {
        let now = match now_unix_seconds() {
            Some(n) => n,
            None => 0,
        };
        self.update_last_seen_at(now);
    }
}

impl Clone for Device {
    fn clone(&self) -> (r: Self)
        ensures
            r == *self,
    {
        Device {
            id: self.id,
            name: self.name.clone(),
            user_id: self.user_id,
            last_seen: self.last_seen,
            created_at: self.created_at,
        }
    }
}

/// A registered user. `username` is unique within a user store; the
/// password is kept only as a salted hash.
#[derive(Debug)]
pub struct User {
    pub id: u128,
    pub username: String,
    pub password_hash: String,
    pub created_at: Option<u64>,
    pub updated_at: Option<u64>,
}

impl User {
    /// A fresh user record stamped with the current clock reading.
    pub fn new(username: String, password_hash: String) -> (r: Self)
        ensures
            r.username == username,
            r.password_hash == password_hash,
            r.created_at == r.updated_at,
            r.created_at is Some,
    {
        let now = match now_unix_seconds() {
            Some(n) => n,
            None => 0,
        };
        User { id: fresh_id(), username, password_hash, created_at: Some(now), updated_at: Some(now) }
    }
}

impl Clone for User {
    fn clone(&self) -> (r: Self)
        ensures
            r == *self,
    {
        User {
            id: self.id,
            username: self.username.clone(),
            password_hash: self.password_hash.clone(),
            created_at: self.created_at,
            updated_at: self.updated_at,
        }
    }
}

/// The shape of a user as reported outward: everything but the hash.
#[derive(Debug)]
pub struct UserResponse {
    pub id: u128,
    pub username: String,
    pub created_at: Option<u64>,
    pub updated_at: Option<u64>,
}

impl Clone for UserResponse {
    fn clone(&self) -> (r: Self)
        ensures
            r == *self,
    {
        UserResponse {
            id: self.id,
            username: self.username.clone(),
            created_at: self.created_at,
            updated_at: self.updated_at,
        }
    }
}

impl From<User> for UserResponse {
    fn from(user: User) -> (r: Self) {
        UserResponse {
            id: user.id,
            username: user.username,
            created_at: user.created_at,
            updated_at: user.updated_at,
        }
    }
}

impl vstd::std_specs::convert::FromSpecImpl<User> for UserResponse {
    open spec fn obeys_from_spec() -> bool {
        true
    }

    open spec fn from_spec(user: User) -> Self {
        UserResponse {
            id: user.id,
            username: user.username,
            created_at: user.created_at,
            updated_at: user.updated_at,
        }
    }
}

} // verus!
