//! How the bot names a Discord user in its messages.
use vstd::prelude::*;
use crate::discord::{user_mention, user_mention_spec};
use crate::text::{decimal, u64_to_string};

verus! {

/// A user as the bot names it: login handle, name on the server, and id.
#[derive(Debug)]
pub struct Username {
    pub handle: String,
    pub server_name: String,
    pub id: u64,
}

/// The handle of a user: the login name, followed by `#discriminator` for the accounts that have one.
pub open spec fn handle_spec(name: Seq<char>, discriminator: Option<u16>) -> Seq<char> {
    match discriminator {
        Some(d) => name + "#"@ + decimal(d as nat),
        None => name,
    }
}

/// `server name | handle`.
pub open spec fn safe_full_spec(handle: Seq<char>, server_name: Seq<char>) -> Seq<char> {
    server_name + " | "@ + handle
}

/// `<@id> `server name | handle``.
pub open spec fn full_spec(id: u64, handle: Seq<char>, server_name: Seq<char>) -> Seq<char> {
    user_mention_spec(id) + " `"@ + safe_full_spec(handle, server_name) + "`"@
}

impl Clone for Username {
    fn clone(&self) -> (r: Self)
        ensures
            r == *self,
    {
        Username { handle: self.handle.clone(), server_name: self.server_name.clone(), id: self.id }
    }
}

impl Username {
    /// Names a user from its login name, optional discriminator, optional display name and id;
    /// without a display name, the handle stands for it.
    pub fn from_user(name: &str, discriminator: Option<u16>, global_name: Option<&str>, id: u64) -> (r: Username)
        ensures
            r.handle@ == handle_spec(name@, discriminator),
            r.server_name@ == (match global_name {
                Some(g) => g@,
                None => handle_spec(name@, discriminator),
            }),
            r.id == id,
    {
        let mut handle = name.to_owned();
        match discriminator {
            Some(d) => {
                handle.append("#");
                handle.append(u64_to_string(d as u64).as_str());
                assert(handle@ =~= handle_spec(name@, discriminator));
            },
            None => {},
        }
        let server_name = match global_name {
            Some(g) => g.to_owned(),
            None => handle.clone(),
        };
        Username { handle, server_name, id }
    }

    /// The mention of the user followed by its names: `<@id> `server name | handle``.
    pub fn full(&self) -> (r: String)
        ensures
            r@ == full_spec(self.id, self.handle@, self.server_name@),
    {
        let mut r = user_mention(self.id);
        r.append(" `");
        r.append(self.server_name.as_str());
        r.append(" | ");
        r.append(self.handle.as_str());
        r.append("`");
        assert(r@ =~= full_spec(self.id, self.handle@, self.server_name@));
        r
    }

    /// The names of the user without a mention: `server name | handle`.
    pub fn safe_full(&self) -> (r: String)
        ensures
            r@ == safe_full_spec(self.handle@, self.server_name@),
    {
        let mut r = self.server_name.clone();
        r.append(" | ");
        r.append(self.handle.as_str());
        assert(r@ =~= safe_full_spec(self.handle@, self.server_name@));
        r
    }

    /// The user's id.
    pub fn id(&self) -> (r: u64)
        ensures
            r == self.id,
    {
        self.id
    }
}

} // verus!
