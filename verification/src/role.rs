//! Conversation roles: every message comes from the user or from the agent.

use vstd::prelude::*;

use crate::text::text_eq;

verus! {

/// Which party sent a message.
#[derive(Debug, Clone, Copy, PartialEq, Eq, Hash)]
pub enum Role {
    /// The calling agent or human.
    User,
    /// The receiving agent.
    Agent,
}

impl Role {
    /// The wire string of a role: "user" or "agent".
    pub open spec fn wire(&self) -> Seq<char> {
        match self {
            Role::User => "user"@,
            Role::Agent => "agent"@,
        }
    }

    /// The wire string of this role.
    pub fn as_str(&self) -> (r: &'static str)
        ensures
            r@ == self.wire(),
    {
        match self {
            Role::User => "user",
            Role::Agent => "agent",
        }
    }

    /// The display text of this role, identical to its wire string.
    pub fn to_string(&self) -> (r: String)
        ensures
            r@ == self.wire(),
    {
        self.as_str().to_owned()
    }

    /// Reads a role from its wire string; any other string is rejected.
    pub fn from_wire(raw: &str) -> (r: Option<Role>)
        ensures
            r is Some ==> r->0.wire() == raw@,
            r is None <==> (raw@ != "user"@ && raw@ != "agent"@),
    {
        if text_eq(raw, "user") {
            Some(Role::User)
        } else if text_eq(raw, "agent") {
            Some(Role::Agent)
        } else {
            None
        }
    }
}

/// Round trip: reading back the wire string of a role gives the same role.
pub proof fn lemma_role_round_trip(role: Role, read_back: Option<Role>)
    requires
        read_back is Some ==> read_back->0.wire() == role.wire(),
        read_back is None <==> (role.wire() != "user"@ && role.wire() != "agent"@),
    ensures
        read_back == Some(role),
{
    reveal_strlit("user");
    reveal_strlit("agent");
    assert("user"@.len() != "agent"@.len());
    if read_back is Some {
        assert(read_back->0.wire().len() == role.wire().len());
    }
}

} // verus!
