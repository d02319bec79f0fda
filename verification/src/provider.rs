//! The provider: the face of the container that callers and producers ask for
//! instances.

use crate::error::ResolveError;
use crate::resolver::clones_are_equal;
use crate::resolver::lemma_dependent_embeds_live_dependency;
use crate::resolver::lemma_resolution_is_idempotent;
use crate::resolver::ServiceResolver;
use rocket::Build;
use rocket::Rocket;
use std::sync::Arc;
use vstd::prelude::*;

verus! {

/// Hands out instances by type, from what a Rocket instance manages.
///
/// The state that `inner` manages is the store of the container: it holds, by type, the
/// instances that are already there and the resolvers that were registered. The provider
/// itself keeps nothing.
///
/// Rocket's type is opaque to the verifier, and so is this struct: nothing is known of
/// what `inner` manages.
#[verifier::external_body]
pub struct ServiceProvider {
    pub inner: Rocket<Build>,
}

/// `Rocket::state`: the value of type `T` that the instance manages, if it manages one.
/// Nothing is claimed of the result.
#[verifier::external_body]
fn managed<T: Send + Sync + 'static>(provider: &ServiceProvider) -> (found: Option<&T>) {
    provider.inner.state::<T>()
}

/// What `supply` hands out, given what the store holds for a type.
///
/// An instance in the store comes first, and a clone of it is handed out. Without one,
/// the type's resolver decides, and what is handed out is an instance that the resolver
/// yields. With neither, the type is unresolvable, and the error holds the key under
/// which it was asked for.
pub open spec fn supplied<T: Clone + Send + Sync + 'static>(
    stored: Option<&T>,
    resolver: Option<&Arc<ServiceResolver<T>>>,
    type_key: Seq<char>,
    r: Result<T, ResolveError>,
) -> bool {
    match stored {
        Some(item) => r matches Ok(instance) && cloned(*item, instance),
        None => match resolver {
            Some(resolver) => r matches Ok(instance) && resolver.yields(instance),
            None => r matches Err(ResolveError::UnresolvableType(key)) && key@ == type_key,
        },
    }
}

impl ServiceProvider {
    /// Hands out an instance of `T`, given the two things that the store may hold for
    /// it: an instance, and a resolver. The resolver is asked only where no instance is
    /// stored, and it is given this provider to pull the dependencies of `T` from.
    pub fn supply<T: Clone + Send + Sync + 'static>(
        &self,
        stored: Option<&T>,
        resolver: Option<&Arc<ServiceResolver<T>>>,
        type_key: &str,
    ) -> (r: Result<T, ResolveError>)
        ensures
            supplied(stored, resolver, type_key@, r),
    {
        match stored {
            Some(item) => Ok(item.clone()),
            None => match resolver {
                Some(resolver) => Ok(resolver.resolve(self)),
                None => Err(ResolveError::UnresolvableType(type_key.to_owned())),
            },
        }
    }

    /// Hands out an instance of `T`, or says that there is none. `type_key` is the name
    /// that the error gives to `T`.
    ///
    /// The store is asked for an instance of `T` and for the resolver of `T`, and
    /// `supply` decides on what came back. Nothing here panics: a host that wants the
    /// request to end the caller where `T` is missing puts that over this function.
    pub fn get<T: Clone + Send + Sync + 'static>(&self, type_key: &str) -> (r: Result<
        T,
        ResolveError,
    >)
        ensures
            exists|stored: Option<&T>, resolver: Option<&Arc<ServiceResolver<T>>>|
                supplied(stored, resolver, type_key@, r),
    {
        let stored = managed::<T>(self);
        let resolver = managed::<Arc<ServiceResolver<T>>>(self);
        let r = self.supply(stored, resolver, type_key);
        assert(supplied(stored, resolver, type_key@, r));
        r
    }
}

/// An instance in the store decides alone: what is handed out is a clone of it, whichever
/// resolver is registered beside it, and no producer is asked.
pub proof fn lemma_stored_instance_decides<T: Clone + Send + Sync + 'static>(
    item: &T,
    resolver: Option<&Arc<ServiceResolver<T>>>,
    type_key: Seq<char>,
    r: Result<T, ResolveError>,
)
    ensures
        supplied(Some(item), resolver, type_key, r) <==> (r matches Ok(instance) && cloned(
            *item,
            instance,
        )),
{
}

/// Requests for one type agree: where the producer is deterministic, what two
/// requests hand out goes back to one and the same instance that the producer built,
/// each by clones alone. Where clones of `T` are equal to their source, the two are
/// equal. This holds before and after startup alike, as long as an instance in the store
/// is one that the type's own resolver handed out, which is what startup puts there.
pub proof fn lemma_requests_agree<T: Clone + Send + Sync + 'static>(
    resolver: &Arc<ServiceResolver<T>>,
    before: Option<&T>,
    after: Option<&T>,
    type_key: Seq<char>,
    first: T,
    later: T,
)
    requires
        resolver.single_valued(),
        before matches Some(item) ==> resolver.yields(*item),
        after matches Some(item) ==> resolver.yields(*item),
        supplied(before, Some(resolver), type_key, Ok(first)),
        supplied(after, Some(resolver), type_key, Ok(later)),
    ensures
        exists|provider: &ServiceProvider, made: T, one: T, other: T| #[trigger]
            resolver.makes(provider, made) && ServiceResolver::<T>::descends(made, one)
                && #[trigger] cloned(one, first) && ServiceResolver::<T>::descends(made, other)
                && #[trigger] cloned(other, later),
        clones_are_equal::<T>() ==> first == later,
{
    let one = match before {
        Some(item) => *item,
        None => first,
    };
    let other = match after {
        Some(item) => *item,
        None => later,
    };
    assert(resolver.yields(one) && cloned(one, first));
    assert(resolver.yields(other) && cloned(other, later));
    lemma_resolution_is_idempotent(&**resolver, one, other);
    let (provider, made) = choose|provider: &ServiceProvider, made: T| #[trigger]
        resolver.makes(provider, made) && ServiceResolver::<T>::descends(made, one)
            && ServiceResolver::<T>::descends(made, other);
    assert(resolver.makes(provider, made) && ServiceResolver::<T>::descends(made, one) && cloned(
        one,
        first,
    ) && ServiceResolver::<T>::descends(made, other) && cloned(other, later));
}

/// Wiring is recursive: let the producer of a dependent type put into what it builds an
/// instance that the dependency's resolver handed out. Then the dependency inside a
/// dependent that was asked for equals what a request for the dependency itself hands
/// out afterwards, from the store or from the resolver. `embedded` picks the dependency
/// out of a dependent. The dependency's producer is deterministic, and clones of both
/// types are equal to their source.
pub proof fn lemma_wiring_is_recursive<
    A: Clone + Send + Sync + 'static,
    B: Clone + Send + Sync + 'static,
>(
    dependency: &Arc<ServiceResolver<A>>,
    dependent: &Arc<ServiceResolver<B>>,
    embedded: spec_fn(B) -> A,
    stored: Option<&A>,
    dependent_key: Seq<char>,
    dependency_key: Seq<char>,
    built: B,
    asked: A,
)
    requires
        forall|provider: &ServiceProvider, made: B| #[trigger]
            dependent.makes(provider, made) ==> dependency.yields(embedded(made)),
        dependency.single_valued(),
        clones_are_equal::<A>(),
        clones_are_equal::<B>(),
        stored matches Some(item) ==> dependency.yields(*item),
        supplied(None, Some(dependent), dependent_key, Ok(built)),
        supplied(stored, Some(dependency), dependency_key, Ok(asked)),
    ensures
        embedded(built) == asked,
{
    assert(dependency.yields(asked));
    lemma_dependent_embeds_live_dependency(&**dependency, &**dependent, embedded, built, asked);
}

} // verus!
