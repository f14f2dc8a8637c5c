//! Replacing unresolved table references with table functions, column data
//! collections, or subqueries.
//!
//! A replacement scan is consulted with the name the binder could not
//! resolve. Through a [`ReplacementHandle`] it claims the reference (or
//! returns without claiming, to decline it). Each method of the handle makes
//! exactly one call on the engine's scan info and answers with the engine's
//! verdict on that call: the engine decides which claims and arguments it
//! accepts.

use vstd::prelude::*;

use crate::data_chunk::ColumnDataCollection;
use crate::error::Error;
use crate::value::{name_parts, QualifiedName, Value};

verus! {

/// A replacement source for an unresolved table reference, selected with
/// [`ReplacementHandle::set_reference`].
pub enum ReplacementType<'a> {
    /// A table function's name, optionally qualified by schema and catalog.
    Table(QualifiedName),
    /// A column data collection, with names for its columns (or none, for the
    /// default names `col1..colN`).
    ColumnDataCollection((&'a ColumnDataCollection, Vec<String>)),
    /// A query text, which must hold exactly one `SELECT` statement.
    Subquery(String),
}

/// One engine call on the scan info a replacement scan was consulted with.
#[derive(Debug, Clone, PartialEq, Eq)]
pub enum ReplacementCall {
    /// Claim by a table function, by its name (one the engine can express,
    /// see `QualifiedName::parts`).
    SetFunctionName(QualifiedName),
    /// Claim by a column data collection, by its handle, with column names
    /// (empty for the default names).
    SetCollection { collection: usize, column_names: Vec<String> },
    /// Claim by a subquery.
    SetSubquery(String),
    /// A positional argument of the table function.
    AddArgument(Value),
    /// A named argument of the table function.
    AddNamedArgument(String, Value),
    /// The alias the replacement is bound under.
    SetAlias(String),
}

/// The engine's scan info during one consultation. Making a call consumes
/// the scan info's state and gives back its next state with the engine's
/// answer, so each call is one step from one state to the next. Nothing is
/// assumed of the answers.
pub trait ReplacementEngine: Sized {
    /// Makes `call` on the scan info and reports the engine's answer.
    fn perform(self, call: ReplacementCall) -> (Self, Result<(), Error>);
}

/// The engine call that claims the reference through `replacement_type`, or
/// none when a table function's name has no parts the engine can take.
pub open spec fn reference_call(replacement_type: ReplacementType) -> Option<ReplacementCall> {
    match replacement_type {
        ReplacementType::Table(name) => if name_parts(name) is Some {
            Some(ReplacementCall::SetFunctionName(name))
        } else {
            None
        },
        ReplacementType::ColumnDataCollection((c, names)) => Some(
            ReplacementCall::SetCollection { collection: c.handle, column_names: names },
        ),
        ReplacementType::Subquery(query) => Some(ReplacementCall::SetSubquery(query)),
    }
}

/// Whether one `call` on the scan info in state `before` can leave it in
/// state `after` with the answer `r`.
pub open spec fn engine_step<E: ReplacementEngine>(
    before: E,
    call: ReplacementCall,
    after: E,
    r: Result<(), Error>,
) -> bool {
    call_ensures(E::perform, (before, call), (after, r))
}

/// Callback-scoped controls for claiming an unresolved table reference.
///
/// Use [`Self::set_reference`] to replace it with a table function, column data
/// collection, or subquery. Parameters can be added only after selecting a
/// table function. Each method makes exactly one call on the scan info (or,
/// for a name the engine cannot express, none) and answers with the engine's
/// verdict on it.
pub struct ReplacementHandle<E> {
    engine: Option<E>,
}

impl<E: ReplacementEngine> ReplacementHandle<E> {
    /// The state of the scan info this handle makes its calls on; always
    /// present between calls.
    pub closed spec fn engine(self) -> Option<E> {
        self.engine
    }

    /// A handle making its calls on `engine`.
    pub fn new(engine: E) -> (r: Self)
        ensures
            r.engine() == Some(engine),
    {
        ReplacementHandle { engine: Some(engine) }
    }

    fn step(&mut self, call: ReplacementCall) -> (r: Result<(), Error>)
        requires
            old(self).engine() is Some,
        ensures
            final(self).engine() is Some,
            engine_step(old(self).engine()->0, call, final(self).engine()->0, r),
    {
        let engine = self.engine.take().unwrap();
        let (next, r) = engine.perform(call);
        self.engine = Some(next);
        r
    }

    /// Append a positional table-function parameter: exactly one call, the
    /// argument, answered by the engine (which requires a table function to
    /// have claimed the reference).
    pub fn add_parameter(&mut self, value: Value) -> (r: Result<(), Error>)
        requires
            old(self).engine() is Some,
        ensures
            final(self).engine() is Some,
            engine_step(
                old(self).engine()->0,
                ReplacementCall::AddArgument(value),
                final(self).engine()->0,
                r,
            ),
    {
        self.step(ReplacementCall::AddArgument(value))
    }

    /// Add a named table-function parameter: exactly one call, the named
    /// argument, answered by the engine (which requires a table function to
    /// have claimed the reference).
    pub fn add_parameter_with_name(&mut self, name: &str, value: Value) -> (r: Result<(), Error>)
        requires
            old(self).engine() is Some,
        ensures
            final(self).engine() is Some,
            exists|n: String|
                n@ == name@ && engine_step(
                    old(self).engine()->0,
                    ReplacementCall::AddNamedArgument(n, value),
                    final(self).engine()->0,
                    r,
                ),
    {
        let n = name.to_owned();
        let ghost call = ReplacementCall::AddNamedArgument(n, value);
        let r = self.step(ReplacementCall::AddNamedArgument(n, value));
        assert(engine_step(old(self).engine()->0, call, self.engine()->0, r));
        r
    }

    /// Claim the reference with a table function, column data collection, or SELECT subquery.
    ///
    /// Returns an error if a different replacement kind has already claimed the
    /// reference. A subquery must contain exactly one SELECT statement. Both
    /// are the engine's verdict on the one call made; a table function's name
    /// that no engine name can express (a table missing, or a catalog without
    /// a schema) is refused with no call at all.
    pub fn set_reference(&mut self, replacement_type: ReplacementType) -> (r: Result<(), Error>)
        requires
            old(self).engine() is Some,
        ensures
            final(self).engine() is Some,
            reference_call(replacement_type) is None ==> r == Err::<(), Error>(Error::InvalidName)
                && final(self).engine() == old(self).engine(),
            reference_call(replacement_type) matches Some(call) ==> engine_step(
                old(self).engine()->0,
                call,
                final(self).engine()->0,
                r,
            ),
            replacement_type matches ReplacementType::Table(name) ==> (name_parts(name) is None
                ==> r == Err::<(), Error>(Error::InvalidName) && final(self).engine() == old(
                self,
            ).engine()),
            replacement_type matches ReplacementType::Table(name) ==> (name_parts(name) is Some
                ==> engine_step(
                old(self).engine()->0,
                ReplacementCall::SetFunctionName(name),
                final(self).engine()->0,
                r,
            )),
            replacement_type matches ReplacementType::ColumnDataCollection((c, names))
                ==> engine_step(
                old(self).engine()->0,
                ReplacementCall::SetCollection { collection: c.handle, column_names: names },
                final(self).engine()->0,
                r,
            ),
            replacement_type matches ReplacementType::Subquery(query) ==> engine_step(
                old(self).engine()->0,
                ReplacementCall::SetSubquery(query),
                final(self).engine()->0,
                r,
            ),
    {
        let call = match replacement_type {
            ReplacementType::Table(name) => {
                if name.parts().is_none() {
                    return Err(Error::InvalidName);
                }
                ReplacementCall::SetFunctionName(name)
            },
            ReplacementType::ColumnDataCollection((collection, names)) => {
                ReplacementCall::SetCollection { collection: collection.handle, column_names: names }
            },
            ReplacementType::Subquery(query) => ReplacementCall::SetSubquery(query),
        };
        self.step(call)
    }

    /// Set the replacement's alias unless the query supplies one: exactly one
    /// call, the alias, answered by the engine.
    pub fn set_alias(&mut self, name: &str) -> (r: Result<(), Error>)
        requires
            old(self).engine() is Some,
        ensures
            final(self).engine() is Some,
            exists|n: String|
                n@ == name@ && engine_step(
                    old(self).engine()->0,
                    ReplacementCall::SetAlias(n),
                    final(self).engine()->0,
                    r,
                ),
    {
        let n = name.to_owned();
        let ghost call = ReplacementCall::SetAlias(n);
        let r = self.step(ReplacementCall::SetAlias(n));
        assert(engine_step(old(self).engine()->0, call, self.engine()->0, r));
        r
    }
}

/// Claiming a reference with a table function hands the engine that
/// function's name as given, catalog and schema included: the one call made
/// names the same function, with the same engine parts.
pub proof fn lemma_table_claim_carries_the_name(name: QualifiedName)
    requires
        name_parts(name) is Some,
    ensures
        reference_call(ReplacementType::Table(name)) == Some(ReplacementCall::SetFunctionName(name)),
        reference_call(ReplacementType::Table(name)) matches Some(
            ReplacementCall::SetFunctionName(f),
        ) && name_parts(f) == name_parts(name) && f.catalog == name.catalog && f.schema
            == name.schema && f.table == name.table,
{
}

/// A table function's name that no engine name expresses is refused before
/// any call: no call claims the reference.
pub proof fn lemma_inexpressible_table_claims_nothing(name: QualifiedName)
    requires
        name_parts(name) is None,
    ensures
        reference_call(ReplacementType::Table(name)) is None,
{
}

/// Binding callback for unresolved table references.
pub trait ReplacementScanCallbacks: Send + Sync + 'static {
    /// **Bind:** claim, decline, or reject an unresolved table reference.
    ///
    /// Call [`ReplacementHandle::set_reference`] to claim it, return without
    /// doing so to let the next replacement scan try, or return an error to
    /// reject the query.
    fn scan<E: ReplacementEngine>(&self, name: &QualifiedName, parameters: ReplacementHandle<E>) -> Result<
        (),
        Error,
    >;
}

/// Consults a replacement scan about an unresolved name: calls its `scan`
/// with that name and a fresh handle on the engine's scan info, and answers
/// with what the scan returned. The scan info is handed over with the
/// handle and cannot be copied, so the scan is consulted exactly once.
pub fn consult_scan<T: ReplacementScanCallbacks, E: ReplacementEngine>(
    implementation: &T,
    name: &QualifiedName,
    engine: E,
) -> (r: Result<(), Error>)
    ensures
        exists|h: ReplacementHandle<E>|
            h.engine() == Some(engine) && call_ensures(T::scan::<E>, (implementation, name, h), r),
{
    let handle = ReplacementHandle::new(engine);
    let ghost h = handle;
    let r = implementation.scan(name, handle);
    assert(call_ensures(T::scan::<E>, (implementation, name, h), r));
    r
}

/// The engine calls that register a replacement scan, in the order they are
/// made.
pub enum RegistrationAction<T> {
    /// Create the scan handle through the link (connection, database or
    /// extension).
    CreateHandle,
    /// Set the callback that consults the scan.
    SetCallback,
    /// Hand the scan's implementation to the engine as its user data.
    SetUserData(T),
    /// Register the scan.
    Register,
    /// Registration ended: `Ok` once every call succeeded, else the first error.
    Finished(Result<(), Error>),
}

/// The stage of a registration: how many of its four engine calls were
/// issued, or 5 once it has ended.
pub open spec fn registration_stage_after(stage: nat, previous_ok: bool) -> nat {
    if stage == 0 {
        1
    } else if stage <= 4 {
        if previous_ok && stage < 4 {
            stage + 1
        } else {
            5
        }
    } else {
        5
    }
}

/// Registers a replacement scan callback.
///
/// Callbacks are consulted when binding cannot resolve a table name, in
/// registration order within each scope. Connection-local scans run before
/// database-wide scans; the first to claim the reference wins.
///
/// Registering through a connection keeps the scan local to that connection
/// until it closes. Registering through a database or extension makes the scan
/// visible to all connections until the database closes.
///
/// Registration is four engine calls, made in order: create the scan handle,
/// set the callback, hand over the implementation as user data, register. It
/// stops at the first call that fails and succeeds only when all four do.
pub struct ReplacementScanBuilder<T> {
    implementation: Option<T>,
    stage: u8,
}

impl<T> ReplacementScanBuilder<T> {
    #[verifier::type_invariant]
    spec fn holds_implementation_until_handed_over(self) -> bool {
        &&& self.stage <= 5
        &&& (self.implementation is Some <==> self.stage <= 2)
    }

    /// How many of the four registration calls were issued, or 5 once the
    /// registration has ended.
    pub closed spec fn stage(self) -> nat {
        self.stage as nat
    }

    /// The implementation, until it is handed to the engine.
    pub closed spec fn implementation(self) -> Option<T> {
        self.implementation
    }
}

impl<T> ReplacementScanBuilder<T> where T: ReplacementScanCallbacks {
    /// Create a builder from its callback implementation.
    pub fn new(implementation: T) -> (r: Self)
        ensures
            r.stage() == 0,
            r.implementation() == Some(implementation),
    {
        Self { implementation: Some(implementation), stage: 0 }
    }

    /// Register through a connection, extension, or database: given the
    /// outcome of the call issued last (`Ok(())` to start), the next call to
    /// make, or the end of the registration.
    pub fn register(&mut self, previous: Result<(), Error>) -> (r: RegistrationAction<T>)
        ensures
            final(self).stage() == registration_stage_after(old(self).stage(), previous is Ok),
            old(self).stage() == 0 ==> r is CreateHandle,
            1 <= old(self).stage() <= 4 && previous is Err ==> r == RegistrationAction::<T>::Finished(
                Err(previous->Err_0),
            ),
            old(self).stage() == 1 && previous is Ok ==> r is SetCallback,
            old(self).stage() == 2 && previous is Ok ==> r == RegistrationAction::<T>::SetUserData(
                old(self).implementation()->0,
            ),
            old(self).stage() == 3 && previous is Ok ==> r is Register,
            old(self).stage() == 4 && previous is Ok ==> r == RegistrationAction::<T>::Finished(Ok(())),
            old(self).stage() == 5 ==> r == RegistrationAction::<T>::Finished(
                Err(Error::RegistrationFinished),
            ),
            final(self).stage() <= 2 ==> final(self).implementation() == old(self).implementation(),
    {
        proof {
            use_type_invariant(&*self);
        }
        if self.stage == 0 {
            self.stage = 1;
            return RegistrationAction::CreateHandle;
        }
        if self.stage == 5 {
            return RegistrationAction::Finished(Err(Error::RegistrationFinished));
        }
        match previous {
            Err(e) => {
                if self.stage <= 2 {
                    let mut finished = ReplacementScanBuilder { implementation: None, stage: 5 };
                    std::mem::swap(self, &mut finished);
                } else {
                    self.stage = 5;
                }
                RegistrationAction::Finished(Err(e))
            },
            Ok(()) => {
                if self.stage == 1 {
                    self.stage = 2;
                    RegistrationAction::SetCallback
                } else if self.stage == 2 {
                    let mut handed_over = ReplacementScanBuilder { implementation: None, stage: 3 };
                    std::mem::swap(self, &mut handed_over);
                    let ReplacementScanBuilder { implementation, stage: _ } = handed_over;
                    match implementation {
                        Some(t) => RegistrationAction::SetUserData(t),
                        None => RegistrationAction::Register,
                    }
                } else if self.stage == 3 {
                    self.stage = 4;
                    RegistrationAction::Register
                } else {
                    self.stage = 5;
                    RegistrationAction::Finished(Ok(()))
                }
            },
        }
    }
}

} // verus!
