//! What the repositories decide around their queries: how aggregated role
//! names are read, which localized template is used, what a deletion
//! that touched no row means, and what an audit record holds.
use vstd::prelude::*;
use vstd::string::*;
use crate::audit::AuditAction;

verus! {

/// The strings among the elements of a JSON array, in order (`elements` is
/// `None` where the value is not an array; an element is `None` where it is
/// not a string, such as the `null` that a member without roles aggregates
/// to).
pub open spec fn strings_of(elements: Seq<Option<String>>) -> Seq<String>
    decreases elements.len(),
{
    if elements.len() == 0 {
        Seq::empty()
    } else {
        let rest = strings_of(elements.drop_last());
        match elements.last() {
            Some(s) => rest.push(s),
            None => rest,
        }
    }
}

pub fn role_names_from_json(elements: Option<Vec<Option<String>>>) -> (r: Vec<String>)
    ensures
        match elements {
            Some(v) => r@ == strings_of(v@),
            None => r@.len() == 0,
        },
{
    match elements {
        None => Vec::new(),
        Some(v) => {
            let mut out: Vec<String> = Vec::new();
            let mut i: usize = 0;
            proof {
                assert(v@.take(0) =~= Seq::<Option<String>>::empty());
            }
            while i < v.len()
                invariant
                    i <= v.len(),
                    out@ == strings_of(v@.take(i as int)),
                decreases v.len() - i,
            {
                proof {
                    assert(v@.take(i + 1).drop_last() =~= v@.take(i as int));
                    assert(v@.take(i + 1).last() == v@[i as int]);
                }
                match &v[i] {
                    Some(s) => out.push(s.clone()),
                    None => {},
                }
                i += 1;
            }
            proof {
                assert(v@.take(v@.len() as int) =~= v@);
            }
            out
        },
    }
}

/// The locale whose version of a template is used where the requested
/// one is missing.
pub open spec fn fallback_locale_spec() -> Seq<char> {
    "fi"@
}

pub fn fallback_locale() -> (l: &'static str)
    ensures
        l@ == fallback_locale_spec(),
{
    "fi"
}

/// Where looking up a localized template stands.
#[derive(Debug)]
pub enum LocaleStep<T> {
    /// Read the template in the requested locale.
    FetchRequested,
    /// Read the template in the fallback locale.
    FetchFallback,
    Done(Result<T, ()>),
}

/// Finding a localized template: the requested locale if there is one,
/// the fallback locale otherwise, which must exist.
#[derive(Debug)]
pub struct LocaleLookup<T> {
    pub step: LocaleStep<T>,
}

impl<T> LocaleLookup<T> {
    pub fn start() -> (l: LocaleLookup<T>)
        ensures
            l.step is FetchRequested,
    {
        LocaleLookup { step: LocaleStep::FetchRequested }
    }

    /// After the template in the requested locale was looked for:
    /// found, missing, or (`Err`) the lookup failed.
    pub fn requested(self, found: Result<Option<T>, ()>) -> (r: LocaleLookup<T>)
        requires
            self.step is FetchRequested,
        ensures
            match found {
                Ok(Some(t)) => r.step == LocaleStep::Done(Ok::<T, ()>(t)),
                Ok(None) => r.step is FetchFallback,
                Err(()) => r.step == LocaleStep::<T>::Done(Err(())),
            },
    {
        match found {
            Ok(Some(t)) => LocaleLookup { step: LocaleStep::Done(Ok(t)) },
            Ok(None) => LocaleLookup { step: LocaleStep::FetchFallback },
            Err(()) => LocaleLookup { step: LocaleStep::Done(Err(())) },
        }
    }

    /// After the template in the fallback locale was read; its absence is an error.
    pub fn fallback(self, found: Result<T, ()>) -> (r: LocaleLookup<T>)
        requires
            self.step is FetchFallback,
        ensures
            r.step == LocaleStep::Done(found),
    {
        LocaleLookup { step: LocaleStep::Done(found) }
    }
}

/// Whether a deletion removed anything.
pub fn deleted_any(rows_affected: u64) -> (b: bool)
    ensures
        b == (rows_affected > 0),
{
    rows_affected > 0
}

/// A deletion that must remove its row: one that touched no row means the
/// row was not there.
#[derive(Debug, Clone, Copy, PartialEq, Eq, Structural)]
pub enum DeleteOutcome {
    Deleted,
    NotFound,
}

pub fn delete_outcome(rows_affected: u64) -> (o: DeleteOutcome)
    ensures
        o == (if rows_affected == 0 { DeleteOutcome::NotFound } else { DeleteOutcome::Deleted }),
{
    if rows_affected == 0 { DeleteOutcome::NotFound } else { DeleteOutcome::Deleted }
}

/// An audit record, without the free-form details.
#[derive(Debug)]
pub struct NewAuditLogEntry {
    pub actor_user_id: Option<u128>,
    pub action: String,
    pub entity_type: String,
    pub entity_id: String,
}

/// The audit record of `action` on `entity_id` by `actor_user_id` (no
/// actor for changes the system makes on its own, such as a payment
/// arriving).
pub fn audit_entry(actor_user_id: Option<u128>, action: AuditAction, entity_id: String) -> (e: NewAuditLogEntry)
    ensures
        e.actor_user_id == actor_user_id,
        e.action@ == action.name_spec(),
        e.entity_type@ == action.entity_type_spec(),
        e.entity_id == entity_id,
{
    NewAuditLogEntry {
        actor_user_id,
        action: String::from_str(action.name()),
        entity_type: String::from_str(action.entity_type()),
        entity_id,
    }
}

} // verus!
