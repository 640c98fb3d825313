//! Who may do what: server administrators and moderators.
use vstd::prelude::*;
use crate::discord::{administrator_bit, grants_administrator};

verus! {

/// A role of a server with its permission bits.
#[derive(Clone, Copy)]
pub struct RoleGrant {
    pub id: u64,
    pub permissions: u64,
}

/// What the server's cache knows of a server: its owner and its roles.
pub struct GuildAccess {
    pub owner_id: u64,
    pub roles: Vec<RoleGrant>,
}

/// Whether a permission set contains Administrator.
pub open spec fn is_administrator_set(bits: u64) -> bool {
    bits & administrator_bit() == administrator_bit()
}

/// Whether role `role_id` of the server carries Administrator.
pub open spec fn role_is_administrator(roles: Seq<RoleGrant>, role_id: u64) -> bool {
    exists|j: int| 0 <= j < roles.len() && #[trigger] roles[j].id == role_id
        && is_administrator_set(roles[j].permissions)
}

/// Whether one of `member_roles` carries Administrator on the server.
pub open spec fn holds_administrator_role(roles: Seq<RoleGrant>, member_roles: Seq<u64>) -> bool {
    exists|i: int| 0 <= i < member_roles.len() && role_is_administrator(roles, #[trigger] member_roles[i])
}

/// Whether the author of a message administers its server: the message came
/// from a server member, the server is known, and the author owns it or holds
/// a role with Administrator.
pub open spec fn is_admin_spec(
    guild: Option<GuildAccess>,
    member_roles: Option<Seq<u64>>,
    author_id: u64,
) -> bool {
    match (guild, member_roles) {
        (Some(g), Some(roles)) => g.owner_id == author_id || holds_administrator_role(g.roles@, roles),
        _ => false,
    }
}

fn role_grants_administrator(roles: &Vec<RoleGrant>, role_id: u64) -> (granted: bool)
    ensures
        granted == role_is_administrator(roles@, role_id),
{
    let mut j: usize = 0;
    while j < roles.len()
        invariant
            j <= roles.len(),
            forall|k: int| 0 <= k < j ==> !(#[trigger] roles@[k].id == role_id
                && is_administrator_set(roles@[k].permissions)),
        decreases roles.len() - j,
    {
        if roles[j].id == role_id && grants_administrator(roles[j].permissions) {
            return true;
        }
        j = j + 1;
    }
    false
}

/// Whether the author of a message may use the bot's commands: see
/// `is_admin_spec`. `guild` is `None` when the message came from outside a
/// server or the server is not in the cache; `member_roles` is `None` when the
/// message carries no member.
pub fn is_admin(guild: Option<&GuildAccess>, member_roles: Option<&Vec<u64>>, author_id: u64) -> (admin: bool)
    ensures
        admin == is_admin_spec(
            match guild { Some(g) => Some(*g), None => None },
            match member_roles { Some(r) => Some(r@), None => None },
            author_id,
        ),
{
    match (guild, member_roles) {
        (Some(g), Some(roles)) => {
            if g.owner_id == author_id {
                return true;
            }
            let mut i: usize = 0;
            while i < roles.len()
                invariant
                    i <= roles.len(),
                    guild == Some(g),
                    member_roles == Some(roles),
                    g.owner_id != author_id,
                    forall|k: int| 0 <= k < i ==> !role_is_administrator(g.roles@, #[trigger] roles@[k]),
                decreases roles.len() - i,
            {
                if role_grants_administrator(&g.roles, roles[i]) {
                    assert(role_is_administrator(g.roles@, roles@[i as int]));
                    return true;
                }
                i = i + 1;
            }
            false
        },
        _ => false,
    }
}

/// Whether a member holding `member_roles` holds one of `moderator_role_ids`.
pub open spec fn is_moderator_spec(moderator_role_ids: Seq<u64>, member_roles: Option<Seq<u64>>) -> bool {
    match member_roles {
        Some(roles) => holds_any(moderator_role_ids, roles),
        None => false,
    }
}

/// Whether one of `roles` is among `wanted`.
pub open spec fn holds_any(wanted: Seq<u64>, roles: Seq<u64>) -> bool {
    exists|i: int| 0 <= i < roles.len() && wanted.contains(#[trigger] roles[i])
}

fn contains_id(ids: &Vec<u64>, id: u64) -> (found: bool)
    ensures
        found == ids@.contains(id),
{
    let mut j: usize = 0;
    while j < ids.len()
        invariant
            j <= ids.len(),
            forall|k: int| 0 <= k < j ==> #[trigger] ids@[k] != id,
        decreases ids.len() - j,
    {
        if ids[j] == id {
            return true;
        }
        j = j + 1;
    }
    false
}

/// Whether the member who pressed a button is a moderator: one of their roles
/// is among the configured moderator roles. `member_roles` is `None` when the
/// interaction carries no member, and then nobody is a moderator.
pub fn is_moderator(moderator_role_ids: &Vec<u64>, member_roles: Option<&Vec<u64>>) -> (moderator: bool)
    ensures
        moderator == is_moderator_spec(
            moderator_role_ids@,
            match member_roles { Some(r) => Some(r@), None => None },
        ),
{
    match member_roles {
        None => false,
        Some(roles) => {
            let mut i: usize = 0;
            while i < roles.len()
                invariant
                    i <= roles.len(),
                    member_roles == Some(roles),
                    forall|k: int| 0 <= k < i ==> !moderator_role_ids@.contains(#[trigger] roles@[k]),
                decreases roles.len() - i,
            {
                if contains_id(moderator_role_ids, roles[i]) {
                    assert(moderator_role_ids@.contains(roles@[i as int]));
                    return true;
                }
                i = i + 1;
            }
            false
        },
    }
}

/// The owner of a server may always use the bot's commands there, whatever
/// roles they hold.
pub proof fn law_owner_is_admin(guild: GuildAccess, member_roles: Seq<u64>)
    ensures
        is_admin_spec(Some(guild), Some(member_roles), guild.owner_id),
{
}

/// A message from outside a server, or without a member, never counts as
/// coming from an administrator.
pub proof fn law_admin_needs_server_member(guild: Option<GuildAccess>, member_roles: Option<Seq<u64>>, author_id: u64)
    requires
        guild is None || member_roles is None,
    ensures
        !is_admin_spec(guild, member_roles, author_id),
{
}

/// A member holding any configured moderator role, wherever it stands in
/// their list of roles, is a moderator; and a moderator always holds one.
pub proof fn law_moderator_iff_holds_moderator_role(moderator_role_ids: Seq<u64>, roles: Seq<u64>, r: u64)
    ensures
        moderator_role_ids.contains(r) && roles.contains(r) ==> is_moderator_spec(moderator_role_ids, Some(roles)),
        is_moderator_spec(moderator_role_ids, Some(roles)) ==> exists|i: int, k: int|
            0 <= i < roles.len() && 0 <= k < moderator_role_ids.len() && #[trigger] roles[i] == #[trigger] moderator_role_ids[k],
        !is_moderator_spec(moderator_role_ids, None),
{
    if moderator_role_ids.contains(r) && roles.contains(r) {
        let i = choose|i: int| 0 <= i < roles.len() && roles[i] == r;
        assert(moderator_role_ids.contains(roles[i]));
    }
    if is_moderator_spec(moderator_role_ids, Some(roles)) {
        let i = choose|i: int| 0 <= i < roles.len() && moderator_role_ids.contains(#[trigger] roles[i]);
        let k = choose|k: int| 0 <= k < moderator_role_ids.len() && moderator_role_ids[k] == roles[i];
        assert(roles[i] == moderator_role_ids[k]);
    }
}

/// A member holding any role whose permission bits contain Administrator
/// (bit 8), wherever that role stands in their list of roles, administers the
/// server; and a member who is not the owner administers it only through such
/// a role.
pub proof fn law_admin_iff_administrator_role(
    guild: GuildAccess,
    member_roles: Seq<u64>,
    author_id: u64,
    r: u64,
    j: int,
)
    ensures
        0 <= j < guild.roles@.len() && guild.roles@[j].id == r && guild.roles@[j].permissions & 8 == 8
            && member_roles.contains(r) ==> is_admin_spec(Some(guild), Some(member_roles), author_id),
        is_admin_spec(Some(guild), Some(member_roles), author_id) && guild.owner_id != author_id ==> exists|i: int, k: int|
            0 <= i < member_roles.len() && 0 <= k < guild.roles@.len()
                && #[trigger] member_roles[i] == #[trigger] guild.roles@[k].id && guild.roles@[k].permissions & 8 == 8,
{
    if 0 <= j < guild.roles@.len() && guild.roles@[j].id == r && guild.roles@[j].permissions & 8 == 8
        && member_roles.contains(r) {
        let i = choose|i: int| 0 <= i < member_roles.len() && member_roles[i] == r;
        assert(role_is_administrator(guild.roles@, member_roles[i]));
    }
    if is_admin_spec(Some(guild), Some(member_roles), author_id) && guild.owner_id != author_id {
        let i = choose|i: int| 0 <= i < member_roles.len() && role_is_administrator(guild.roles@, #[trigger] member_roles[i]);
        let k = choose|k: int| 0 <= k < guild.roles@.len() && #[trigger] guild.roles@[k].id == member_roles[i]
            && is_administrator_set(guild.roles@[k].permissions);
        assert(member_roles[i] == guild.roles@[k].id);
    }
}

} // verus!
