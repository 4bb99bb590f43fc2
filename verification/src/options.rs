//! The options record for a clone request and its translation into the flags
//! word that the platform clone primitive takes.

use vstd::prelude::*;

verus! {

/// Do not dereference a symbolic link at the source; clone the link itself.
pub const CLONE_NOFOLLOW: u32 = 1;

/// Do not copy source ownership; the destination inherits the caller's identity.
pub const CLONE_NOOWNERCOPY: u32 = 2;

/// Additionally copy access-control-list metadata.
pub const CLONE_ACL: u32 = 4;

/// Three independent switches, each defaulting to false when absent.  Each
/// maps to one bit of the flags word handed to the clone primitive.
#[derive(Clone, Copy, Debug)]
pub struct CloneFileOptions {
    pub no_follow: Option<bool>,
    pub no_owner_copy: Option<bool>,
    pub clone_acl: Option<bool>,
}

/// The contribution of one switch to the flags word: its bit when set,
/// nothing when unset or absent.
pub open spec fn flag_if(switch: Option<bool>, bit: u32) -> u32 {
    if switch == Some(true) {
        bit
    } else {
        0
    }
}

/// The flags word for an options record: the set switches' bits OR-combined
/// (the bits are disjoint, so their sum).  An absent record gives 0, the
/// platform's default behaviour.
pub open spec fn spec_flags(options: Option<CloneFileOptions>) -> u32 {
    match options {
        None => 0,
        Some(o) => (flag_if(o.no_follow, CLONE_NOFOLLOW) + flag_if(o.no_owner_copy, CLONE_NOOWNERCOPY)
            + flag_if(o.clone_acl, CLONE_ACL)) as u32,
    }
}

impl Default for CloneFileOptions {
    /// All switches absent: the flags word is 0.
    fn default() -> (d: Self)
        ensures
            d.no_follow is None,
            d.no_owner_copy is None,
            d.clone_acl is None,
            spec_flags(Some(d)) == 0,
    {
        CloneFileOptions { no_follow: None, no_owner_copy: None, clone_acl: None }
    }
}

/// Translate an options record into the flags word for the clone primitive.
pub fn flags_from_options(options: Option<CloneFileOptions>) -> (flags: u32)
    ensures
        flags == spec_flags(options),
{
    match options {
        None => 0,
        Some(o) => {
            let f_follow: u32 = if o.no_follow.unwrap_or(false) {
                CLONE_NOFOLLOW
            } else {
                0
            };
            let f_owner: u32 = if o.no_owner_copy.unwrap_or(false) {
                CLONE_NOOWNERCOPY
            } else {
                0
            };
            let f_acl: u32 = if o.clone_acl.unwrap_or(false) {
                CLONE_ACL
            } else {
                0
            };
            let flags = f_follow | f_owner | f_acl;
            assert((f_follow | f_owner | f_acl) == f_follow + f_owner + f_acl) by (bit_vector)
                requires
                    f_follow == 0 || f_follow == 1,
                    f_owner == 0 || f_owner == 2,
                    f_acl == 0 || f_acl == 4,
            ;
            flags
        },
    }
}

/// Each switch maps to one independent bit of the flags word: a bit is set in
/// the translation exactly when its switch was passed as true, regardless of
/// the other two switches; and the word is 0 exactly when no switch is set,
/// the platform's default behaviour.
pub proof fn lemma_flags_independent_bits(o: CloneFileOptions)
    ensures
        spec_flags(Some(o)) & CLONE_NOFOLLOW != 0 <==> o.no_follow == Some(true),
        spec_flags(Some(o)) & CLONE_NOOWNERCOPY != 0 <==> o.no_owner_copy == Some(true),
        spec_flags(Some(o)) & CLONE_ACL != 0 <==> o.clone_acl == Some(true),
        spec_flags(Some(o)) == 0 <==> o.no_follow != Some(true) && o.no_owner_copy != Some(true)
            && o.clone_acl != Some(true),
{
    let a = flag_if(o.no_follow, CLONE_NOFOLLOW);
    let b = flag_if(o.no_owner_copy, CLONE_NOOWNERCOPY);
    let c = flag_if(o.clone_acl, CLONE_ACL);
    assert((((a + b + c) as u32) & 1 != 0) == (a == 1)) by (bit_vector)
        requires
            a == 0 || a == 1,
            b == 0 || b == 2,
            c == 0 || c == 4,
    ;
    assert((((a + b + c) as u32) & 2 != 0) == (b == 2)) by (bit_vector)
        requires
            a == 0 || a == 1,
            b == 0 || b == 2,
            c == 0 || c == 4,
    ;
    assert((((a + b + c) as u32) & 4 != 0) == (c == 4)) by (bit_vector)
        requires
            a == 0 || a == 1,
            b == 0 || b == 2,
            c == 0 || c == 4,
    ;
}

} // verus!
