use vstd::prelude::*;

use crate::permission::{Permissions, ALL_BITS};
use crate::Snowflake;

verus! {

/// `base` with the bits of `deny` taken away, then the bits of `allow` added.
pub open spec fn apply_bits(allow: u128, deny: u128, base: u128) -> u128 {
    (base & !deny) | allow
}

/// Whether `bits` hold `ADMINISTRATOR`.
pub open spec fn has_admin(bits: u128) -> bool {
    bits & Permissions::ADMINISTRATOR == Permissions::ADMINISTRATOR
}

/// Allow and deny sets that apply to one role or one user.
#[derive(Clone, Copy, Debug, PartialEq, Eq, Structural)]
pub struct Overwrite {
    /// A role's id, or else a user's: an id that is not among the actor's
    /// roles stands for a user.
    pub id: Snowflake,
    pub allow: Permissions,
    pub deny: Permissions,
}

/// The result of folding `overwrites` onto `base`, with `allow` and `deny`
/// the unions gathered so far from the entries of the actor's roles.
///
/// Entries of the actor's roles are gathered; the first other entry of
/// `user` is applied after them and ends the scan; other entries are skipped.
pub open spec fn resolve(
    base: u128,
    allow: u128,
    deny: u128,
    overwrites: Seq<Overwrite>,
    roles: Seq<Snowflake>,
    user: Snowflake,
) -> u128
    decreases overwrites.len(),
{
    if overwrites.len() == 0 {
        apply_bits(allow, deny, base)
    } else {
        let o = overwrites[0];
        if roles.contains(o.id) {
            resolve(base, allow | o.allow@, deny | o.deny@, overwrites.drop_first(), roles, user)
        } else if o.id == user {
            apply_bits(o.allow@, o.deny@, apply_bits(allow, deny, base))
        } else {
            resolve(base, allow, deny, overwrites.drop_first(), roles, user)
        }
    }
}

/// The effective permissions of an actor whose permissions are `base`.
pub open spec fn effective_permissions(
    base: u128,
    overwrites: Seq<Overwrite>,
    roles: Seq<Snowflake>,
    user: Snowflake,
) -> u128 {
    if has_admin(base) {
        ALL_BITS
    } else {
        resolve(base, 0, 0, overwrites, roles, user)
    }
}

/// `base` with `deny` taken away and then `allow` added.
fn apply_allow_deny(base: Permissions, allow: Permissions, deny: Permissions) -> (r: Permissions)
    ensures
        r@ == apply_bits(allow@, deny@, base@),
{
    let r = base.intersection(deny.complement()).union(allow);
    proof {
        base.lemma_within_defined_bits();
        let (b, d) = (base@, deny@);
        assert(b & !ALL_BITS == 0 ==> b & (!d & ALL_BITS) == b & !d) by (bit_vector);
    }
    r
}

/// Whether `id` is one of `ids`.
fn contains_id(ids: &[Snowflake], id: Snowflake) -> (r: bool)
    ensures
        r == ids@.contains(id),
{
    let mut i: usize = 0;
    while i < ids.len()
        invariant
            0 <= i <= ids@.len(),
            forall|j: int| 0 <= j < i ==> ids@[j] != id,
        decreases ids@.len() - i,
    {
        if ids[i] == id {
            return true;
        }
        i += 1;
    }
    false
}

impl Overwrite {
    /// Merges two entries for one subject: keeps `self`'s id and takes the
    /// union of the allow sets and of the deny sets.
    pub fn combine(&self, other: Self) -> (r: Overwrite)
        ensures
            r.id == self.id,
            r.allow@ == self.allow@ | other.allow@,
            r.deny@ == self.deny@ | other.deny@,
    {
        Overwrite { id: self.id, allow: self.allow.union(other.allow), deny: self.deny.union(other.deny) }
    }

    /// `base` with this entry's deny set taken away, then its allow set
    /// added: a permission both allowed and denied here is allowed.
    pub fn apply(&self, base: Permissions) -> (r: Permissions)
        ensures
            r@ == apply_bits(self.allow@, self.deny@, base@),
            r@ & self.allow@ == self.allow@,
    {
        let r = apply_allow_deny(base, self.allow, self.deny);
        proof {
            let (a, d, b) = (self.allow@, self.deny@, base@);
            assert(((b & !d) | a) & a == a) by (bit_vector);
        }
        r
    }
}

impl Permissions {
    /// The permissions of an actor whose permissions are `self`, once the
    /// overwrites of a resource are applied.
    ///
    /// An administrator gets every permission. Otherwise the entries of the
    /// actor's `roles` are merged and applied at once, deny before allow;
    /// the first entry of `user_id` (the list holds role entries first) is
    /// applied last, and entries after it are not read.
    pub fn compute_overwrites(
        self,
        overwrites: &[Overwrite],
        roles: &[Snowflake],
        user_id: Snowflake,
    ) -> (r: Permissions)
        ensures
            r@ == effective_permissions(self@, overwrites@, roles@, user_id),
            has_admin(self@) ==> r@ == ALL_BITS,
    {
        if self.is_admin() {
            return Permissions::all();
        }
        let ghost target = resolve(self@, 0, 0, overwrites@, roles@, user_id);
        let mut allow = Permissions::empty();
        let mut deny = Permissions::empty();
        let mut user_overwrite: Option<Overwrite> = None;
        let mut i: usize = 0;
        assert(overwrites@.subrange(0, overwrites@.len() as int) =~= overwrites@);
        while i < overwrites.len() && user_overwrite.is_none()
            invariant
                0 <= i <= overwrites@.len(),
                user_overwrite is None ==> target == resolve(
                    self@,
                    allow@,
                    deny@,
                    overwrites@.subrange(i as int, overwrites@.len() as int),
                    roles@,
                    user_id,
                ),
                user_overwrite matches Some(o) ==> target == apply_bits(
                    o.allow@,
                    o.deny@,
                    apply_bits(allow@, deny@, self@),
                ),
            decreases overwrites@.len() - i,
        {
            let o = overwrites[i];
            proof {
                let rest = overwrites@.subrange(i as int, overwrites@.len() as int);
                assert(rest[0] == o);
                assert(rest.drop_first() =~= overwrites@.subrange(i + 1, overwrites@.len() as int));
            }
            if contains_id(roles, o.id) {
                deny = deny.union(o.deny);
                allow = allow.union(o.allow);
            } else if o.id == user_id {
                user_overwrite = Some(o);
            }
            i += 1;
        }
        proof {
            if user_overwrite is None {
                assert(overwrites@.subrange(i as int, overwrites@.len() as int).len() == 0);
            }
        }
        let mut result = apply_allow_deny(self, allow, deny);
        if let Some(o) = user_overwrite {
            result = apply_allow_deny(result, o.allow, o.deny);
        }
        result
    }
}

/// Merging two entries in either order gives the same allow set and the
/// same deny set; only the kept id differs.
pub proof fn lemma_combine_commutative(a: Overwrite, b: Overwrite)
    ensures
        a.allow@ | b.allow@ == b.allow@ | a.allow@,
        a.deny@ | b.deny@ == b.deny@ | a.deny@,
{
    let (x, y, u, v) = (a.allow@, b.allow@, a.deny@, b.deny@);
    assert(x | y == y | x) by (bit_vector);
    assert(u | v == v | u) by (bit_vector);
}

proof fn lemma_resolve_user_last(
    base: u128,
    allow: u128,
    deny: u128,
    overwrites: Seq<Overwrite>,
    roles: Seq<Snowflake>,
    user: Snowflake,
    k: int,
)
    requires
        0 <= k < overwrites.len(),
        overwrites[k].id == user,
        !roles.contains(user),
        forall|j: int| 0 <= j < k ==> (#[trigger] overwrites[j]).id != user,
    ensures
        ({
            let (a, d) = (overwrites[k].allow@, overwrites[k].deny@);
            let r = resolve(base, allow, deny, overwrites, roles, user);
            r & a == a && r & (d & !a) == 0
        }),
    decreases k,
{
    let o = overwrites[0];
    if k == 0 {
        let (a, d, b) = (o.allow@, o.deny@, apply_bits(allow, deny, base));
        assert(((b & !d) | a) & a == a && ((b & !d) | a) & (d & !a) == 0) by (bit_vector);
    } else {
        let rest = overwrites.drop_first();
        assert(rest[k - 1] == overwrites[k]);
        assert forall|j: int| 0 <= j < k - 1 implies (#[trigger] rest[j]).id != user by {
            assert(rest[j] == overwrites[j + 1]);
        }
        assert(o.id != user);
        if roles.contains(o.id) {
            lemma_resolve_user_last(base, allow | o.allow@, deny | o.deny@, rest, roles, user, k - 1);
        } else {
            lemma_resolve_user_last(base, allow, deny, rest, roles, user, k - 1);
        }
    }
}

/// The user's own entry has the last word: for an actor who is not an
/// administrator, the first entry of the user, where the user's id is not
/// one of the actor's roles, grants all it allows and takes away all it
/// denies without allowing, whatever the role entries before it say.
pub proof fn lemma_user_overwrite_last(
    base: Permissions,
    overwrites: Seq<Overwrite>,
    roles: Seq<Snowflake>,
    user: Snowflake,
    k: int,
)
    requires
        !has_admin(base@),
        0 <= k < overwrites.len(),
        overwrites[k].id == user,
        !roles.contains(user),
        forall|j: int| 0 <= j < k ==> (#[trigger] overwrites[j]).id != user,
    ensures
        ({
            let (a, d) = (overwrites[k].allow@, overwrites[k].deny@);
            let r = effective_permissions(base@, overwrites, roles, user);
            r & a == a && r & (d & !a) == 0
        }),
{
    lemma_resolve_user_last(base@, 0, 0, overwrites, roles, user, k);
}

/// An administrator holds every permission, whatever the overwrites.
pub proof fn lemma_admin_holds_all(
    base: Permissions,
    overwrites: Seq<Overwrite>,
    roles: Seq<Snowflake>,
    user: Snowflake,
)
    requires
        has_admin(base@),
    ensures
        effective_permissions(base@, overwrites, roles, user) == ALL_BITS,
{
}

} // verus!
