//! The resolver of one type: its producer, and the cell that keeps what the producer
//! built.

use crate::provider::ServiceProvider;
use vstd::prelude::*;
use vstd::rwlock::RwLock;
use vstd::rwlock::RwLockPredicate;
use vstd::string::StringExecFns;

verus! {

/// What follows a type's key in the name of its resolver.
pub const RESOLVER_SUFFIX: &'static str = "_resolver";

/// A type that knows how to build itself, given a provider to pull its own dependencies
/// from.
pub trait Resolve: Sized {
    fn resolve(service_provider: &ServiceProvider) -> Self;
}

/// A producer as a trait object: any function from a provider to an instance that
/// threads can share.
trait Producer<T>: Send + Sync {
    spec fn accepts(&self, provider: &ServiceProvider) -> bool;

    spec fn makes(&self, provider: &ServiceProvider, item: T) -> bool;

    fn produce(&self, provider: &ServiceProvider) -> (item: T)
        requires
            self.accepts(provider),
        ensures
            self.makes(provider, item),
    ;
}

impl<T, F: Fn(&ServiceProvider) -> T + Send + Sync> Producer<T> for F {
    spec fn accepts(&self, provider: &ServiceProvider) -> bool {
        call_requires(*self, (provider,))
    }

    spec fn makes(&self, provider: &ServiceProvider, item: T) -> bool {
        call_ensures(*self, (provider,), item)
    }

    fn produce(&self, provider: &ServiceProvider) -> (item: T) {
        self(provider)
    }
}

/// What the cell of a resolver may hold: nothing, or a clone of an instance that the
/// resolver's producer built. `relation` is the producer's input-output relation.
#[verifier::reject_recursive_types(T)]
struct CellRule<T> {
    relation: spec_fn(ServiceProvider, T) -> bool,
}

impl<T: Clone> CellRule<T> {
    spec fn keeps(self, cached: T) -> bool {
        exists|provider: ServiceProvider, made: T|
            #[trigger] (self.relation)(provider, made) && cloned(made, cached)
    }
}

impl<T: Clone> RwLockPredicate<Option<T>> for CellRule<T> {
    closed spec fn inv(self, cell: Option<T>) -> bool {
        cell matches Some(cached) ==> self.keeps(cached)
    }
}

/// Reads a cell: a clone of the instance it keeps, or nothing from an empty cell. The
/// cell stays as it is.
pub fn cached_instance<T: Clone>(cell: &Option<T>) -> (r: Option<T>)
    ensures
        cell matches Some(kept) ==> r matches Some(item) && cloned(*kept, item),
        cell is None ==> r is None,
{
    match cell {
        Some(kept) => Some(kept.clone()),
        None => None,
    }
}

/// What a cell holds once the producer has built `item`: a clone of `item`, whatever
/// the cell held before. A cell that is written is never empty.
pub fn kept_after<T: Clone>(item: &T) -> (cell: Option<T>)
    ensures
        cell matches Some(kept) && cloned(*item, kept),
{
    Some(item.clone())
}

/// Holds the producer of one type and, once the producer has run, the instance it built.
/// The cell is filled on first demand and read from then on; a lock guards it, so a
/// resolver can be shared between threads.
#[verifier::reject_recursive_types(T)]
pub struct ServiceResolver<T: Clone> {
    injection_function: Box<dyn Producer<T>>,
    item: RwLock<Option<T>, CellRule<T>>,
}

impl<T: Clone> ServiceResolver<T> {
    /// The producer runs on every provider, and what it returns is within the relation
    /// that the cell's rule goes by.
    #[verifier::type_invariant]
    spec fn wf(&self) -> bool {
        &&& forall|provider: &ServiceProvider| self.injection_function.accepts(provider)
        &&& forall|provider: &ServiceProvider, item: T| #[trigger]
            self.injection_function.makes(provider, item) ==> (self.item.pred().relation)(
                *provider,
                item,
            )
    }
}

impl<T: Clone + Send + Sync + 'static> ServiceResolver<T> {
    /// The producer, run with `provider`, can build `item`.
    pub closed spec fn makes(&self, provider: &ServiceProvider, item: T) -> bool {
        (self.item.pred().relation)(*provider, item)
    }

    /// `item` descends from `made`: it is `made`, or a clone of the clone that a cell
    /// keeps of `made`.
    pub open spec fn descends(made: T, item: T) -> bool {
        exists|cached: T| #[trigger] cloned(made, cached) && cloned(cached, item)
    }

    /// `item` can come out of this resolver: the producer built an instance, with some
    /// provider, and `item` descends from it.
    pub open spec fn yields(&self, item: T) -> bool {
        exists|provider: &ServiceProvider, made: T| #[trigger]
            self.makes(provider, made) && Self::descends(made, item)
    }

    /// Every run of the producer builds the same instance, whichever provider it is
    /// given.
    pub open spec fn single_valued(&self) -> bool {
        forall|first: &ServiceProvider, second: &ServiceProvider, a: T, b: T| #[trigger]
            self.makes(first, a) && #[trigger] self.makes(second, b) ==> a == b
    }

    /// A resolver for `injection_function`, with an empty cell. The producer does not run
    /// here. It must be a function that can be called with any provider.
    pub fn new<F: Fn(&ServiceProvider) -> T + Send + Sync + 'static>(injection_function: F) -> (resolver:
        Self)
        requires
            forall|provider: &ServiceProvider| call_requires(injection_function, (provider,)),
        ensures
            forall|provider: &ServiceProvider, item: T|
                resolver.makes(provider, item) <==> call_ensures(
                    injection_function,
                    (provider,),
                    item,
                ),
    {
        let ghost rule = CellRule {
            relation: |provider: ServiceProvider, item: T|
                call_ensures(injection_function, (&provider,), item),
        };
        let injection_function: Box<dyn Producer<T>> = Box::new(injection_function);
        let item = RwLock::new(None, Ghost(rule));
        ServiceResolver { injection_function, item }
    }

    /// A resolver for a type that builds itself: its producer is the type's `resolve`.
    pub fn of_resolve() -> (resolver: Self) where T: Resolve
        ensures
            forall|provider: &ServiceProvider, item: T|
                resolver.makes(provider, item) <==> call_ensures(T::resolve, (provider,), item),
    {
        ServiceResolver::new(T::resolve)
    }

    /// Hands out the instance of this resolver's type.
    ///
    /// The cell is read under the shared lock, by `cached_instance`: from a filled cell a
    /// clone of what it keeps is returned, and the producer does not run. Otherwise the
    /// producer runs with `provider` under the exclusive lock; the instance it builds is
    /// returned, and the cell gets what `kept_after` gives for it.
    pub fn resolve(&self, provider: &ServiceProvider) -> (item: T)
        ensures
            self.yields(item),
    {
        proof {
            use_type_invariant(self);
        }
        let reader = self.item.acquire_read();
        let cached = cached_instance(reader.borrow());
        proof {
            if let Some(kept) = reader.view() {
                let rule = self.item.pred();
                assert(rule.keeps(kept));
                let (origin, made) = choose|origin: ServiceProvider, made: T| #[trigger]
                    (rule.relation)(origin, made) && cloned(made, kept);
                assert(self.makes(&origin, made) && cloned(made, kept));
                assert(Self::descends(made, cached->0));
            }
        }
        reader.release_read();
        if let Some(item) = cached {
            return item;
        }
        let (_, writer) = self.item.acquire_write();
        let item = self.injection_function.produce(provider);
        let cell = kept_after(&item);
        proof {
            assert((self.item.pred().relation)(*provider, item));
            assert(self.makes(provider, item) && cloned(item, item));
            assert(Self::descends(item, item));
        }
        writer.release_write(cell);
        item
    }
}

/// Clones of `T` equal what they were cloned from.
pub open spec fn clones_are_equal<T: Clone>() -> bool {
    forall|a: T, b: T| #[trigger] cloned(a, b) ==> a == b
}

/// Resolution is idempotent: where the producer is deterministic, any two instances
/// that a resolver hands out descend from one and the same instance that the producer
/// built. Where clones of `T` are equal to their source, the two are equal: every call
/// returns what the first call returned.
pub proof fn lemma_resolution_is_idempotent<T: Clone + Send + Sync + 'static>(
    resolver: &ServiceResolver<T>,
    first: T,
    later: T,
)
    requires
        resolver.single_valued(),
        resolver.yields(first),
        resolver.yields(later),
    ensures
        exists|provider: &ServiceProvider, made: T| #[trigger]
            resolver.makes(provider, made) && ServiceResolver::<T>::descends(made, first)
                && ServiceResolver::<T>::descends(made, later),
        clones_are_equal::<T>() ==> first == later,
{
    let (p, made_p) = choose|p: &ServiceProvider, made: T| #[trigger]
        resolver.makes(p, made) && ServiceResolver::<T>::descends(made, first);
    let (q, made_q) = choose|q: &ServiceProvider, made: T| #[trigger]
        resolver.makes(q, made) && ServiceResolver::<T>::descends(made, later);
    assert(made_p == made_q);
    assert(resolver.makes(p, made_p) && ServiceResolver::<T>::descends(made_p, first)
        && ServiceResolver::<T>::descends(made_p, later));
}

/// Recursive wiring: where the producer of a dependent type puts into what it builds an
/// instance that the dependency's resolver handed out, the dependency inside a
/// dependent that comes out of the container equals what the container hands out for
/// the dependency itself. `embedded` picks the dependency out of a dependent. The
/// dependency's producer is deterministic, and clones of both types are equal to
/// their source.
pub proof fn lemma_dependent_embeds_live_dependency<
    A: Clone + Send + Sync + 'static,
    B: Clone + Send + Sync + 'static,
>(
    dependency: &ServiceResolver<A>,
    dependent: &ServiceResolver<B>,
    embedded: spec_fn(B) -> A,
    built: B,
    asked: A,
)
    requires
        forall|provider: &ServiceProvider, made: B| #[trigger]
            dependent.makes(provider, made) ==> dependency.yields(embedded(made)),
        dependency.single_valued(),
        clones_are_equal::<A>(),
        clones_are_equal::<B>(),
        dependent.yields(built),
        dependency.yields(asked),
    ensures
        embedded(built) == asked,
{
    let (p, made) = choose|p: &ServiceProvider, made: B| #[trigger]
        dependent.makes(p, made) && ServiceResolver::<B>::descends(made, built);
    assert(made == built);
    lemma_resolution_is_idempotent(dependency, embedded(built), asked);
}

/// The name under which the resolver of a type is attached to the host's startup: the
/// type's key, then `_resolver`.
pub fn resolver_name(type_key: &str) -> (name: String)
    ensures
        name@ == type_key@ + RESOLVER_SUFFIX@,
{
    let mut name = String::from_str(type_key);
    name.append(RESOLVER_SUFFIX);
    name
}

} // verus!
