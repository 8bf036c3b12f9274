//! Tags of an account: permission grants and organisational labels.

use vstd::prelude::*;

use crate::permission::Permission;

verus! {

/// A house, by its code in the school's enumeration of houses.
#[derive(Debug, Clone, Copy, PartialEq, Eq, Hash, Structural)]
pub struct House {
    pub code: u8,
}

/// An academy, by its code in the school's enumeration of academies.
#[derive(Debug, Clone, Copy, PartialEq, Eq, Hash, Structural)]
pub struct Academy {
    pub code: u8,
}

/// A tag of an account.
#[derive(Debug, Clone, PartialEq, Eq, Hash)]
pub enum Tag {
    /// A permission group.
    Permission(Permission),
    /// A department.
    Department(String),
    /// A house.
    House(House),
    /// An academy.
    Academy(Academy),
}

/// The entry of a [`Tag`].
#[derive(Debug, Clone, Copy, PartialEq, Eq, Hash, Structural)]
pub enum TagEntry {
    /// A permission group.
    Permission,
    /// A department.
    Department,
    /// A house.
    House,
    /// An academy.
    Academy,
}

/// The entry that classifies a tag.
pub open spec fn entry_of(t: Tag) -> TagEntry {
    match t {
        Tag::Permission(_) => TagEntry::Permission,
        Tag::Department(_) => TagEntry::Department,
        Tag::House(_) => TagEntry::House,
        Tag::Academy(_) => TagEntry::Academy,
    }
}

/// Whether an actor without elevated rights may attach tags of this entry.
pub open spec fn user_definable(e: TagEntry) -> bool {
    e != TagEntry::Permission
}

impl Tag {
    /// The entry of this tag.
    pub fn as_entry(&self) -> (r: TagEntry)
        ensures
            r == entry_of(*self),
    {
        match self {
            Tag::Permission(_) => TagEntry::Permission,
            Tag::Department(_) => TagEntry::Department,
            Tag::House(_) => TagEntry::House,
            Tag::Academy(_) => TagEntry::Academy,
        }
    }

    /// The permission this tag grants, if it is a permission tag.
    pub fn as_permission(&self) -> (r: Option<&Permission>)
        ensures
            match *self {
                Tag::Permission(p) => r == Some(&p),
                _ => r is None,
            },
    {
        if let Tag::Permission(p) = self {
            Some(p)
        } else {
            None
        }
    }

    /// A copy of this tag, equal to it.
    pub fn duplicate(&self) -> (r: Tag)
        ensures
            r == *self,
    {
        match self {
            Tag::Permission(p) => Tag::Permission(*p),
            Tag::Department(d) => Tag::Department(d.clone()),
            Tag::House(h) => Tag::House(*h),
            Tag::Academy(a) => Tag::Academy(*a),
        }
    }
}

impl TagEntry {
    /// The entry of permission tags.
    pub const VALUE: TagEntry = TagEntry::Permission;

    /// Whether tags of this entry may be attached by the account's owner:
    /// every entry but the permission one.
    pub fn is_user_defineable(&self) -> (r: bool)
        ensures
            r == user_definable(*self),
    {
        !matches!(self, TagEntry::Permission)
    }
}

impl From<Permission> for Tag {
    fn from(value: Permission) -> (r: Tag)
        ensures
            r == Tag::Permission(value),
    {
        Tag::Permission(value)
    }
}

impl vstd::std_specs::convert::FromSpecImpl<Permission> for Tag {
    open spec fn obeys_from_spec() -> bool {
        true
    }

    open spec fn from_spec(v: Permission) -> Tag {
        Tag::Permission(v)
    }
}

/// Exactly the permission entry is kept from users; a tag is user-definable
/// precisely when it carries no permission.
pub proof fn lemma_user_definable_entries(t: Tag)
    ensures
        !user_definable(TagEntry::Permission),
        user_definable(TagEntry::Department),
        user_definable(TagEntry::House),
        user_definable(TagEntry::Academy),
        user_definable(entry_of(t)) <==> !(t is Permission),
{
}

} // verus!
