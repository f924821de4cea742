use vstd::prelude::*;
use crate::bind::BindValue;
use crate::error::DbError;
use crate::repo::Repo;

verus! {

/// Whether an executable binding list agrees with its specification: the
/// same error, or element-for-element the same bindings.
pub open spec fn binds_match(
    r: Result<Vec<BindValue>, DbError>,
    s: Result<Seq<BindValue>, DbError>,
) -> bool {
    match (r, s) {
        (Ok(v), Ok(sq)) => v@ =~= sq,
        (Err(e), Err(se)) => e == se,
        _ => false,
    }
}

/// The uniform persistence capability: every entity owns the parameterized
/// SQL text for its own table and reduces its current field values to the
/// ordered binding list of each statement.
///
/// Building a statement is pure; an unverified driver executes it and hands
/// the outcome back through [`finish_insert`] or [`finish_modify`]. Building
/// fails with [`DbError::NotPersisted`] when an update or delete is asked of
/// an entity that has no identifier yet, and with [`DbError::MissingParent`]
/// when a required back-reference does not resolve to a persisted parent;
/// each implementation's binding specification states exactly when.
pub trait ModelQueryBuilder: Sized {
    /// The entity's storage identifier, if it has been persisted.
    spec fn spec_id(&self) -> Option<i64>;

    /// The entity with its identifier set to `id` and all else unchanged.
    spec fn spec_with_id(&self, id: i64) -> Self;

    /// The text of the entity's insert statement.
    spec fn spec_insert_query(&self) -> Seq<char>;

    /// The text of the entity's update statement.
    spec fn spec_update_query(&self) -> Seq<char>;

    /// The text of the entity's delete statement.
    spec fn spec_delete_query(&self) -> Seq<char>;

    /// The binding list of the insert statement, or why it cannot be built.
    spec fn spec_insert_binds(&self, repo: &Repo) -> Result<Seq<BindValue>, DbError>;

    /// The binding list of the update statement, or why it cannot be built.
    spec fn spec_update_binds(&self, repo: &Repo) -> Result<Seq<BindValue>, DbError>;

    /// The binding list of the delete statement, or why it cannot be built.
    spec fn spec_delete_binds(&self) -> Result<Seq<BindValue>, DbError>;

    /// The parameterized insert statement for the entity's table.
    fn insert_query(&self) -> (q: &'static str)
        ensures
            q@ == self.spec_insert_query(),
    ;

    /// The parameterized update statement for the entity's table.
    fn update_query(&self) -> (q: &'static str)
        ensures
            q@ == self.spec_update_query(),
    ;

    /// The parameterized delete statement for the entity's table.
    fn delete_query(&self) -> (q: &'static str)
        ensures
            q@ == self.spec_delete_query(),
    ;

    /// Bind the entity's current field values, with back-references resolved
    /// through `repo`, for its insert statement.
    fn insert_binds(&self, repo: &Repo) -> (r: Result<Vec<BindValue>, DbError>)
        ensures
            binds_match(r, self.spec_insert_binds(repo)),
    ;

    /// Bind the entity's current field values, with back-references resolved
    /// through `repo`, for its update statement.
    fn update_binds(&self, repo: &Repo) -> (r: Result<Vec<BindValue>, DbError>)
        ensures
            binds_match(r, self.spec_update_binds(repo)),
    ;

    /// Bind the entity's identifier for its delete statement.
    fn delete_binds(&self) -> (r: Result<Vec<BindValue>, DbError>)
        ensures
            binds_match(r, self.spec_delete_binds()),
    ;

    /// Store the identifier generated by a successful insert into the
    /// entity; nothing else changes.
    fn record_inserted_id(&mut self, id: i64)
        ensures
            *final(self) == old(self).spec_with_id(id),
    ;

    /// Setting the identifier indeed sets it: the entity with its
    /// identifier set to `id` reports `Some(id)` as its identifier.
    proof fn lemma_with_id_sets_id(&self, id: i64)
        ensures
            self.spec_with_id(id).spec_id() == Some(id),
    ;
}

/// Decide the outcome of an executed insert statement: on success, write the
/// generated row identifier into the entity and report success; on an engine
/// failure, leave the entity untouched and surface the message as an opaque
/// storage error.
pub fn finish_insert<M: ModelQueryBuilder>(model: &mut M, executed: Result<i64, String>) -> (r:
    Result<bool, DbError>)
    requires
        executed matches Ok(id) ==> id > 0,
    ensures
        match executed {
            Ok(id) => r == Ok::<bool, DbError>(true) && *final(model) == old(model).spec_with_id(
                id,
            ) && final(model).spec_id() == Some(id) && id > 0,
            Err(m) => r == Err::<bool, DbError>(DbError::Storage(m)) && *final(model) == *old(
                model,
            ),
        },
{
    match executed {
        Ok(id) => {
            proof {
                old(model).lemma_with_id_sets_id(id);
            }
            model.record_inserted_id(id);
            Ok(true)
        },
        Err(m) => Err(DbError::Storage(m)),
    }
}

/// Decide the outcome of an executed update or delete statement: success
/// exactly when at least one row was affected ("not found" otherwise, never
/// a crash); an engine failure surfaces its message as an opaque storage
/// error.
pub fn finish_modify(executed: Result<usize, String>) -> (r: Result<bool, DbError>)
    ensures
        match executed {
            Ok(count) => r == Ok::<bool, DbError>(count > 0),
            Err(m) => r == Err::<bool, DbError>(DbError::Storage(m)),
        },
{
    match executed {
        Ok(count) => Ok(count > 0),
        Err(m) => Err(DbError::Storage(m)),
    }
}

} // verus!
