//! The authenticated party behind a request.

use vstd::prelude::*;

use crate::model::{EntityType, Key, User};

verus! {

/// Whoever a request acts for: an entity, and the key it signs with.
pub trait Principal {
    fn get_entity_id(&self) -> i64;

    fn get_entity_type(&self) -> EntityType;

    fn get_key(&self) -> &Key;
}

/// A user acting with one of their keys.
pub struct UserPrincipal {
    pub user: User,
    pub key: Key,
}

impl Principal for UserPrincipal {
    fn get_entity_id(&self) -> (r: i64)
        ensures
            r == self.user.id,
    {
        self.user.id
    }

    fn get_entity_type(&self) -> (r: EntityType)
        ensures
            r == EntityType::User,
    {
        EntityType::User
    }

    fn get_key(&self) -> (r: &Key)
        ensures
            *r == self.key,
    {
        &self.key
    }
}

} // verus!
