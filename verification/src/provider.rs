//! Dependency-resolution container: a type-keyed registry that builds and
//! optionally caches singleton objects on demand during the resolution of
//! one build graph.
//!
//! A `ProviderContext` is an ephemeral, single-use mapping from a type key
//! to one stored value of that type.  It is created fresh per top-level
//! build, seeded with instances, read for singleton lookups, drained for
//! ownership transfers, and discarded once the object graph stands.  Type
//! identity is explicit: the context stores values of a tagged-union type
//! `V` chosen by the build graph, and `ContextValue` relates each
//! participating type to its key, its diagnostic name, and its place in
//! the union — the reflection-free counterpart of a dynamic type registry,
//! with the checked downcast a verified match on the union.

use std::collections::HashMap;

use vstd::prelude::*;

use crate::channel::Dup;
use crate::channel::broadcast::BroadcastChanBuilder;
use crate::channel::duplex::DuplexChanBuilder;
use crate::channel::unbounded::UnboundedChannelBuilder;
use crate::flake_id::FlakeIdGen;
use crate::flake_id::FlakeNode;
use crate::flake_id::FLAKE_NODE_SPAN;

verus! {

broadcast use vstd::std_specs::hash::group_hash_axioms;

/// A failed build: the type that could not be resolved and the field that
/// demanded it.  Build failures are fatal for the build call and are not
/// retried; the caller was expected to have seeded the instance.
#[derive(Debug)]
pub struct BuildError {
    /// Diagnostic name of the type whose instance was missing.
    pub missing_type: String,
    /// Name of the requesting field.
    pub field_name: String,
}

/// How a type participates in a context whose stored values have type `V`:
/// its distinct key, its diagnostic name, and its embedding into `V`
/// together with the checked projection back out.
pub trait ContextValue<V>: Sized {
    /// The type's key in the context.  Distinct participating types must
    /// use distinct keys.
    spec fn key_spec() -> u64;

    /// The type's diagnostic name, used in build errors.
    spec fn name_spec() -> Seq<char>;

    /// The checked projection out of the union: `Some` exactly on values
    /// this type put in.
    spec fn unwrap_spec(v: V) -> Option<Self>;

    /// The type's key in the context.
    fn type_key() -> (k: u64)
        ensures
            k == Self::key_spec(),
    ;

    /// The type's diagnostic name.
    fn name() -> (s: String)
        ensures
            s@ == Self::name_spec(),
    ;

    /// Embeds a value into the union so that the projection recovers it.
    fn wrap(self) -> (v: V)
        ensures
            Self::unwrap_spec(v) == Some(self),
    ;

    /// Projects a union value back out, checked.
    fn unwrap_value(v: V) -> (r: Option<Self>)
        ensures
            r == Self::unwrap_spec(v),
    ;
}

/// Ephemeral, single-use, type-keyed mapping from a type key to one stored
/// value of that type, used during the resolution of one build graph.
pub struct ProviderContext<V> {
    map: HashMap<u64, V>,
}

impl<V> View for ProviderContext<V> {
    type V = Map<u64, V>;

    /// The stored values, keyed by type key.
    closed spec fn view(&self) -> Map<u64, V> {
        self.map@
    }
}

impl<V> ProviderContext<V> {
    /// A fresh, empty context.
    pub fn new() -> (ctx: Self)
        ensures
            ctx@ == Map::<u64, V>::empty(),
    {
        ProviderContext { map: HashMap::new() }
    }

    /// Removes and returns the instance of `T`, transferring ownership out
    /// of the context.
    pub fn remove<T: ContextValue<V>>(&mut self) -> (r: Option<T>)
        ensures
            final(self)@ == old(self)@.remove(T::key_spec()),
            r == if old(self)@.contains_key(T::key_spec()) {
                T::unwrap_spec(old(self)@[T::key_spec()])
            } else {
                None::<T>
            },
    {
        match self.map.remove(&T::type_key()) {
            Some(v) => T::unwrap_value(v),
            None => {
                assert(self@ =~= old(self)@.remove(T::key_spec()));
                None
            },
        }
    }

    /// Stores an instance of `T`, returning the previously stored one if
    /// there was any: inserting overwrites.
    pub fn insert<T: ContextValue<V>>(&mut self, val: T) -> (r: Option<T>)
        ensures
            final(self)@.dom() == old(self)@.dom().insert(T::key_spec()),
            T::unwrap_spec(final(self)@[T::key_spec()]) == Some(val),
            forall|k: u64|
                k != T::key_spec() && old(self)@.contains_key(k) ==> final(self)@[k] == old(
                    self,
                )@[k],
            r == if old(self)@.contains_key(T::key_spec()) {
                T::unwrap_spec(old(self)@[T::key_spec()])
            } else {
                None::<T>
            },
    {
        let prev = self.map.insert(T::type_key(), val.wrap());
        assert(self@.dom() =~= old(self)@.dom().insert(T::key_spec()));
        match prev {
            Some(v) => T::unwrap_value(v),
            None => None,
        }
    }

    /// Seeds an instance into the context, builder-style: the context with
    /// `instance` stored under its type's key.
    pub fn with_instance<I: ContextValue<V>>(self, instance: I) -> (ctx: Self)
        ensures
            ctx@.dom() == self@.dom().insert(I::key_spec()),
            I::unwrap_spec(ctx@[I::key_spec()]) == Some(instance),
            forall|k: u64|
                k != I::key_spec() && self@.contains_key(k) ==> ctx@[k] == self@[k],
    {
        let mut ctx = self;
        let _ = ctx.insert(instance);
        ctx
    }

    /// Removes and returns the instance of `T` that a build step requires,
    /// or fails with a build error naming the missing type and the
    /// requesting field.  The error is definitive: the instance was to be
    /// seeded before the build, and the build is not retried.
    pub fn require<T: ContextValue<V>>(&mut self, field: &str) -> (r: Result<T, BuildError>)
        ensures
            old(self)@.contains_key(T::key_spec()) && T::unwrap_spec(
                old(self)@[T::key_spec()],
            ) is Some ==> {
                &&& r == Result::<T, BuildError>::Ok(
                    T::unwrap_spec(old(self)@[T::key_spec()]).unwrap(),
                )
                &&& final(self)@ == old(self)@.remove(T::key_spec())
            },
            !(old(self)@.contains_key(T::key_spec()) && T::unwrap_spec(
                old(self)@[T::key_spec()],
            ) is Some) ==> {
                &&& r is Err
                &&& r->Err_0.missing_type@ == T::name_spec()
                &&& r->Err_0.field_name@ == field@
                &&& final(self)@ == old(self)@.remove(T::key_spec())
            },
    {
        match self.remove::<T>() {
            Some(t) => Ok(t),
            None => Err(
                BuildError { missing_type: T::name(), field_name: field.to_owned() },
            ),
        }
    }

    /// Builds a `T` in this context by its registered provider.
    pub fn build<T: Provider<V>>(&mut self) -> Result<T, BuildError> {
        T::build(self)
    }
}

/// A type that the container can construct: a build operation that
/// resolves the type's declared dependencies against the context.
pub trait Provider<V>: Sized {
    /// Constructs an instance, resolving dependencies in `ctx`.
    fn build(ctx: &mut ProviderContext<V>) -> Result<Self, BuildError>;

    /// Top-level build with a fresh, empty context, discarded afterwards.
    fn provide() -> Result<Self, BuildError> {
        let mut ctx = ProviderContext::new();
        Self::build(&mut ctx)
    }

    /// Top-level build in a caller-seeded context, discarded afterwards.
    fn provide_with(ctx: ProviderContext<V>) -> Result<Self, BuildError> {
        let mut ctx = ctx;
        Self::build(&mut ctx)
    }
}

/// Singleton semantics over a provider: within one build-graph resolution,
/// the first build of the type is cached in the context and every sibling
/// dependency built later shares that identical instance.
pub trait SingletonProvider<V: Dup>: Provider<V> + ContextValue<V> + Dup {
    /// Returns the instance of `Self` already cached in the context if
    /// there is one, leaving the context unchanged; otherwise builds one,
    /// caches it, and returns it, so that the context thereafter holds
    /// exactly the returned instance.
    fn build_single(ctx: &mut ProviderContext<V>) -> (r: Result<Self, BuildError>)
        ensures
            old(ctx)@.contains_key(Self::key_spec()) && Self::unwrap_spec(
                old(ctx)@[Self::key_spec()],
            ) is Some ==> {
                &&& r == Result::<Self, BuildError>::Ok(
                    Self::unwrap_spec(old(ctx)@[Self::key_spec()]).unwrap(),
                )
                &&& final(ctx)@ == old(ctx)@
            },
            r is Ok ==> {
                &&& final(ctx)@.contains_key(Self::key_spec())
                &&& Self::unwrap_spec(final(ctx)@[Self::key_spec()]) == Some(r->Ok_0)
            },
    {
        let cached = ctx.get::<Self>();
        if let Some(this) = cached {
            return Ok(this);
        }
        let this = match Self::build(ctx) {
            Ok(t) => t,
            Err(e) => {
                return Err(e);
            },
        };
        let _ = ctx.insert::<Self>(this.dup());
        Ok(this)
    }
}

impl<V: Dup> ProviderContext<V> {
    /// Looks up the instance of `T` without removing it, handing out a
    /// duplicate equal to the stored one.
    pub fn get<T: ContextValue<V>>(&self) -> (r: Option<T>)
        ensures
            r == if self@.contains_key(T::key_spec()) {
                T::unwrap_spec(self@[T::key_spec()])
            } else {
                None::<T>
            },
    {
        match self.map.get(&T::type_key()) {
            Some(v) => T::unwrap_value(v.dup()),
            None => None,
        }
    }

}

/// Tagged union of the messaging core's own container-managed singletons.
/// A build graph with further participating types defines its own union
/// the same way.
#[derive(Debug, Clone, Copy)]
pub enum CoreValue {
    UnboundedBuilder(UnboundedChannelBuilder),
    BroadcastBuilder(BroadcastChanBuilder),
    DuplexBuilder(DuplexChanBuilder),
    Node(FlakeNode),
    IdGen(FlakeIdGen),
}

impl Dup for CoreValue {
    fn dup(&self) -> (r: Self)
        ensures
            r == *self,
    {
        *self
    }
}

impl Dup for UnboundedChannelBuilder {
    fn dup(&self) -> (r: Self)
        ensures
            r == *self,
    {
        *self
    }
}

impl Dup for BroadcastChanBuilder {
    fn dup(&self) -> (r: Self)
        ensures
            r == *self,
    {
        *self
    }
}

impl Dup for DuplexChanBuilder {
    fn dup(&self) -> (r: Self)
        ensures
            r == *self,
    {
        *self
    }
}

impl ContextValue<CoreValue> for UnboundedChannelBuilder {
    open spec fn key_spec() -> u64 {
        1
    }

    open spec fn name_spec() -> Seq<char> {
        "UnboundedChannelBuilder"@
    }

    open spec fn unwrap_spec(v: CoreValue) -> Option<Self> {
        match v {
            CoreValue::UnboundedBuilder(b) => Some(b),
            _ => None,
        }
    }

    fn type_key() -> u64 {
        1
    }

    fn name() -> String {
        "UnboundedChannelBuilder".to_owned()
    }

    fn wrap(self) -> CoreValue {
        CoreValue::UnboundedBuilder(self)
    }

    fn unwrap_value(v: CoreValue) -> Option<Self> {
        match v {
            CoreValue::UnboundedBuilder(b) => Some(b),
            _ => None,
        }
    }
}

impl ContextValue<CoreValue> for BroadcastChanBuilder {
    open spec fn key_spec() -> u64 {
        2
    }

    open spec fn name_spec() -> Seq<char> {
        "BroadcastChanBuilder"@
    }

    open spec fn unwrap_spec(v: CoreValue) -> Option<Self> {
        match v {
            CoreValue::BroadcastBuilder(b) => Some(b),
            _ => None,
        }
    }

    fn type_key() -> u64 {
        2
    }

    fn name() -> String {
        "BroadcastChanBuilder".to_owned()
    }

    fn wrap(self) -> CoreValue {
        CoreValue::BroadcastBuilder(self)
    }

    fn unwrap_value(v: CoreValue) -> Option<Self> {
        match v {
            CoreValue::BroadcastBuilder(b) => Some(b),
            _ => None,
        }
    }
}

impl ContextValue<CoreValue> for DuplexChanBuilder {
    open spec fn key_spec() -> u64 {
        3
    }

    open spec fn name_spec() -> Seq<char> {
        "DuplexChanBuilder"@
    }

    open spec fn unwrap_spec(v: CoreValue) -> Option<Self> {
        match v {
            CoreValue::DuplexBuilder(b) => Some(b),
            _ => None,
        }
    }

    fn type_key() -> u64 {
        3
    }

    fn name() -> String {
        "DuplexChanBuilder".to_owned()
    }

    fn wrap(self) -> CoreValue {
        CoreValue::DuplexBuilder(self)
    }

    fn unwrap_value(v: CoreValue) -> Option<Self> {
        match v {
            CoreValue::DuplexBuilder(b) => Some(b),
            _ => None,
        }
    }
}

impl ContextValue<CoreValue> for FlakeNode {
    open spec fn key_spec() -> u64 {
        4
    }

    open spec fn name_spec() -> Seq<char> {
        "FlakeNode"@
    }

    open spec fn unwrap_spec(v: CoreValue) -> Option<Self> {
        match v {
            CoreValue::Node(n) => Some(n),
            _ => None,
        }
    }

    fn type_key() -> u64 {
        4
    }

    fn name() -> String {
        "FlakeNode".to_owned()
    }

    fn wrap(self) -> CoreValue {
        CoreValue::Node(self)
    }

    fn unwrap_value(v: CoreValue) -> Option<Self> {
        match v {
            CoreValue::Node(n) => Some(n),
            _ => None,
        }
    }
}

impl ContextValue<CoreValue> for FlakeIdGen {
    open spec fn key_spec() -> u64 {
        5
    }

    open spec fn name_spec() -> Seq<char> {
        "FlakeIdGen"@
    }

    open spec fn unwrap_spec(v: CoreValue) -> Option<Self> {
        match v {
            CoreValue::IdGen(g) => Some(g),
            _ => None,
        }
    }

    fn type_key() -> u64 {
        5
    }

    fn name() -> String {
        "FlakeIdGen".to_owned()
    }

    fn wrap(self) -> CoreValue {
        CoreValue::IdGen(self)
    }

    fn unwrap_value(v: CoreValue) -> Option<Self> {
        match v {
            CoreValue::IdGen(g) => Some(g),
            _ => None,
        }
    }
}

impl Provider<CoreValue> for UnboundedChannelBuilder {
    /// Default construction: no declared dependencies, never fails.
    fn build(_ctx: &mut ProviderContext<CoreValue>) -> (r: Result<Self, BuildError>)
        ensures
            r == Result::<Self, BuildError>::Ok(UnboundedChannelBuilder),
    {
        Ok(UnboundedChannelBuilder)
    }
}

impl Provider<CoreValue> for BroadcastChanBuilder {
    /// Default construction: no declared dependencies, never fails.
    fn build(_ctx: &mut ProviderContext<CoreValue>) -> (r: Result<Self, BuildError>)
        ensures
            r == Result::<Self, BuildError>::Ok(BroadcastChanBuilder),
    {
        Ok(BroadcastChanBuilder)
    }
}

impl Provider<CoreValue> for DuplexChanBuilder {
    /// Default construction: no declared dependencies, never fails.
    fn build(_ctx: &mut ProviderContext<CoreValue>) -> (r: Result<Self, BuildError>)
        ensures
            r == Result::<Self, BuildError>::Ok(DuplexChanBuilder),
    {
        Ok(DuplexChanBuilder)
    }
}

impl Provider<CoreValue> for FlakeIdGen {
    /// Building an identifier generator requires a pre-seeded `FlakeNode`:
    /// without one the build fails with an error naming that type, and
    /// with one the generator for that node (reduced into range) is built.
    fn build(ctx: &mut ProviderContext<CoreValue>) -> (r: Result<Self, BuildError>)
        ensures
            !(old(ctx)@.contains_key(FlakeNode::key_spec()) && FlakeNode::unwrap_spec(
                old(ctx)@[FlakeNode::key_spec()],
            ) is Some) ==> {
                &&& r is Err
                &&& r->Err_0.missing_type@ == FlakeNode::name_spec()
            },
            r is Ok ==> r->Ok_0.wf(),
    {
        let node = match ctx.require::<FlakeNode>("node") {
            Ok(n) => n,
            Err(e) => {
                return Err(e);
            },
        };
        Ok(FlakeIdGen::new(node.0 % FLAKE_NODE_SPAN))
    }
}

impl SingletonProvider<CoreValue> for UnboundedChannelBuilder {

}

impl SingletonProvider<CoreValue> for BroadcastChanBuilder {

}

impl SingletonProvider<CoreValue> for DuplexChanBuilder {

}

} // verus!
