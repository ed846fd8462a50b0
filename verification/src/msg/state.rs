use crate::hashed::Hashed;
use crate::msg::act::ActId;
use vstd::prelude::*;

verus! {

pub type AppId = String;
pub type TableName = String;
pub type StateEntityId = String;
pub type StateRoot = Hashed;

/// The name of a table of an application.
#[derive(Debug, Clone, PartialEq, Eq)]
pub struct EntityName {
    pub app_id: AppId,
    pub table_name: TableName,
}

/// The key of an entity: application, table and id.
#[derive(Debug, Clone, PartialEq, Eq)]
pub struct EntityKey {
    pub app_id: AppId,
    pub table_name: TableName,
    pub entity_id: StateEntityId,
}

/// The key of an entity and the hash of its state.
#[derive(Debug, Clone, PartialEq, Eq)]
pub struct EntityState {
    pub entity_key: EntityKey,
    pub entity_hash: Hashed,
}

/// The entity states that an act produced.
#[derive(Debug, Clone, PartialEq, Eq)]
pub struct ActEntitiesState {
    pub act_id: ActId,
    pub entities_state: Vec<EntityState>,
}

/// `app_id:table_name:entity_id`.
pub open spec fn entity_key_text(k: EntityKey) -> Seq<char> {
    k.app_id@ + seq![':'] + k.table_name@ + seq![':'] + k.entity_id@
}

impl EntityKey {
    /// The key written as `app_id:table_name:entity_id`.
    pub fn to_key_string(&self) -> (s: String)
        ensures
            s@ == entity_key_text(*self),
    {
        let mut s = String::new();
        s.append(self.app_id.as_str());
        crate::text::string_push(&mut s, ':');
        s.append(self.table_name.as_str());
        crate::text::string_push(&mut s, ':');
        s.append(self.entity_id.as_str());
        assert(s@ =~= entity_key_text(*self));
        s
    }
}

} // verus!
