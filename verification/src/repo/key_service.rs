//! The key service: the key records of a repository and the key material of a keyring,
//! both scoped to a namespace.

use vstd::prelude::*;
use vstd::string::*;

use crate::model::EntityType;
use crate::text::{int_decimal, push_i64};

verus! {

/// The keyring that holds derived private keys, under one service name.
#[derive(Clone, Debug)]
pub struct PrivateKeyKeyringRepo {
    pub service_name: String,
}

impl PrivateKeyKeyringRepo {
    pub fn new(service_name: String) -> (r: Self)
        ensures
            r.service_name@ == service_name@,
    {
        PrivateKeyKeyringRepo { service_name }
    }
}

/// The keyring entry name under which an entity's keys are kept:
/// `namespace:entity-type:entity-id`.
pub open spec fn scoped_name(namespace: Seq<char>, entity_type: EntityType, entity_id: int) -> Seq<char> {
    namespace + seq![':'] + entity_type.label() + seq![':'] + int_decimal(entity_id)
}

pub struct KeyService<R> {
    key_repo: R,
    private_key_repo: PrivateKeyKeyringRepo,
    namespace: String,
}

impl<R> KeyService<R> {
    pub closed spec fn namespace_text(&self) -> Seq<char> {
        self.namespace@
    }

    pub closed spec fn key_repo_value(&self) -> R {
        self.key_repo
    }

    pub closed spec fn private_key_repo_value(&self) -> PrivateKeyKeyringRepo {
        self.private_key_repo
    }

    pub fn new(key_repo: R, private_key_repo: PrivateKeyKeyringRepo, namespace: String) -> (r: Self)
        ensures
            r.namespace_text() == namespace@,
            r.key_repo_value() == key_repo,
            r.private_key_repo_value() == private_key_repo,
    {
        KeyService { key_repo, private_key_repo, namespace }
    }

    pub fn key_repo(&self) -> (r: &R)
        ensures
            *r == self.key_repo_value(),
    {
        &self.key_repo
    }

    pub fn private_key_repo(&self) -> (r: &PrivateKeyKeyringRepo)
        ensures
            *r == self.private_key_repo_value(),
    {
        &self.private_key_repo
    }

    /// The namespace of one entity's keys.
    pub fn scoped_namespace(&self, entity_type: EntityType, entity_id: i64) -> (r: String)
        ensures
            r@ == scoped_name(self.namespace_text(), entity_type, entity_id as int),
    {
        let mut s = self.namespace.clone();
        s.append(":");
        s.append(entity_type.as_str());
        s.append(":");
        proof {
            reveal_strlit(":");
        }
        push_i64(&mut s, entity_id);
        s
    }
}

/// Different entities get different key namespaces.
pub proof fn law_scoped_names_are_distinct(
    namespace: Seq<char>,
    t1: EntityType,
    id1: int,
    t2: EntityType,
    id2: int,
)
    requires
        t1 != t2 || id1 != id2,
    ensures
        scoped_name(namespace, t1, id1) != scoped_name(namespace, t2, id2),
{
    reveal_strlit("user");
    reveal_strlit("client");
    let a = scoped_name(namespace, t1, id1);
    let b = scoped_name(namespace, t2, id2);
    let n = namespace.len() + 1;
    if t1 != t2 {
        assert(a[n as int] != b[n as int]);
    } else {
        let prefix = namespace + seq![':'] + t1.label() + seq![':'];
        assert(a == prefix + int_decimal(id1));
        assert(b == prefix + int_decimal(id2));
        crate::text::lemma_int_decimal_injective(id1, id2);
        if a == b {
            assert(int_decimal(id1) =~= a.subrange(prefix.len() as int, a.len() as int));
            assert(int_decimal(id2) =~= b.subrange(prefix.len() as int, b.len() as int));
        }
    }
}

} // verus!
