use vstd::prelude::*;

verus! {

pub const DIGITS: &'static str = "0123456789";

/// The decimal digits of `n`, most significant first.
pub open spec fn decimal(n: nat) -> Seq<char>
    decreases n,
{
    if n < 10 {
        DIGITS@.subrange(n as int, n + 1int)
    } else {
        decimal(n / 10) + DIGITS@.subrange((n % 10) as int, (n % 10) + 1int)
    }
}

/// The line of an ID map that maps the single ID `id` to itself.
pub open spec fn identity_map_line(id: nat) -> Seq<char> {
    decimal(id) + " "@ + decimal(id) + " 1"@
}

/// Writes `n` in decimal.
pub fn decimal_string(n: u32) -> (r: String)
    ensures
        r@ == decimal(n as nat),
    decreases n,
{
    proof {
        reveal_strlit("0123456789");
    }
    if n < 10 {
        let d: usize = n as usize;
        String::from_str(DIGITS.substring_char(d, d + 1))
    } else {
        let mut r = decimal_string(n / 10);
        let d: usize = (n % 10) as usize;
        r.append(DIGITS.substring_char(d, d + 1));
        r
    }
}

/// The ID map line that maps `id` to itself, one ID wide.
pub fn identity_map(id: u32) -> (r: String)
    ensures
        r@ == identity_map_line(id as nat),
{
    let mut r = decimal_string(id);
    r.append(" ");
    let d = decimal_string(id);
    r.append(d.as_str());
    r.append(" 1");
    r
}

/// How the process isolates itself before any mount.
#[derive(Debug)]
pub struct IsolationPlan {
    /// A new mount namespace; always requested.
    pub new_mount_namespace: bool,
    /// A new user namespace, for a process without root's effective UID.
    pub new_user_namespace: bool,
    /// Whether `setgroups` is denied before the GID map is written.
    pub deny_setgroups: bool,
    /// The UID map to write, if any.
    pub uid_map: Option<String>,
    /// The GID map to write, if any.
    pub gid_map: Option<String>,
}

/// Decides how to isolate the process from its real UID and GID and its
/// effective UID: a mount namespace always; a user namespace, with
/// `setgroups` denied and the real IDs mapped to themselves, unless the
/// effective UID is already root's.
pub fn unshare_namespaces(uid: u32, gid: u32, effective_uid: u32) -> (r: IsolationPlan)
    ensures
        r.new_mount_namespace,
        r.new_user_namespace == (effective_uid != 0),
        r.deny_setgroups == (effective_uid != 0),
        effective_uid == 0 ==> r.uid_map is None && r.gid_map is None,
        effective_uid != 0 ==> r.uid_map is Some && r.uid_map->0@ == identity_map_line(uid as nat),
        effective_uid != 0 ==> r.gid_map is Some && r.gid_map->0@ == identity_map_line(gid as nat),
{
    if effective_uid == 0 {
        IsolationPlan {
            new_mount_namespace: true,
            new_user_namespace: false,
            deny_setgroups: false,
            uid_map: None,
            gid_map: None,
        }
    } else {
        IsolationPlan {
            new_mount_namespace: true,
            new_user_namespace: true,
            deny_setgroups: true,
            uid_map: Some(identity_map(uid)),
            gid_map: Some(identity_map(gid)),
        }
    }
}

} // verus!
