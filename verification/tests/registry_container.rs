//! The task-channel registry and the dependency-resolution container.

use lolibaso::channel::broadcast::BroadcastPoll;
use lolibaso::channel::duplex::{DuplexChan, DuplexClient};
use lolibaso::flake_id::{FlakeIdGen, FlakeNode};
use lolibaso::provider::{
    ContextValue, CoreValue, Provider, ProviderContext, SingletonProvider,
};
use lolibaso::channel::unbounded::UnboundedChannelBuilder;
use lolibaso::channel::broadcast::BroadcastChanBuilder;
use lolibaso::use_case::long_run::{GlobalTaskChanStorage, HashMapTaskChanStorage};

#[test]
fn registry_round_trip_preserves_the_handle() {
    let (mut chan, client) = DuplexChan::<u64, u64>::new();
    assert!(chan.server_send(41).is_ok());

    let mut registry: HashMapTaskChanStorage<DuplexClient> = HashMapTaskChanStorage::new();
    let task_id: u64 = 7;
    assert!(!registry.contains_task(task_id));
    assert_eq!(registry.insert(task_id, client), None);
    assert!(registry.contains_task(task_id));

    // More events arrive while the handle sits in the registry.
    assert!(chan.server_send(42).is_ok());

    let mut taken = registry.take_chan(task_id).unwrap();
    assert_eq!(taken, client);
    assert!(!registry.contains_task(task_id));
    assert_eq!(registry.take_chan(task_id), None);

    // The taken handle is receive-equivalent to the inserted one: the
    // pending events are still deliverable through it.
    assert_eq!(chan.client_receive(&mut taken), BroadcastPoll::Ready(41));
    assert_eq!(chan.client_receive(&mut taken), BroadcastPoll::Ready(42));
}

#[test]
fn registry_insert_overwrites_and_returns_prior() {
    let (mut chan, first) = DuplexChan::<u64, u64>::new();
    let second = chan.client();
    let mut registry: HashMapTaskChanStorage<DuplexClient> = HashMapTaskChanStorage::new();
    assert_eq!(registry.insert(1, first), None);
    assert_eq!(registry.insert(1, second), Some(first));
    assert_eq!(registry.take_chan(1), Some(second));
}

#[test]
fn registry_get_cloned_leaves_the_entry() {
    let (_chan, client) = DuplexChan::<u64, u64>::new();
    let mut registry: HashMapTaskChanStorage<DuplexClient> = HashMapTaskChanStorage::new();
    registry.insert(3, client);
    assert_eq!(registry.get_cloned(3), Some(client));
    assert!(registry.contains_task(3));
    assert_eq!(registry.get_cloned(4), None);
}

#[test]
fn context_insert_get_remove_round_trip() {
    let mut ctx: ProviderContext<CoreValue> = ProviderContext::new();
    assert_eq!(ctx.insert(FlakeNode(9)), None);
    assert_eq!(ctx.get::<FlakeNode>(), Some(FlakeNode(9)));
    assert_eq!(ctx.insert(FlakeNode(10)), Some(FlakeNode(9)));
    assert_eq!(ctx.remove::<FlakeNode>(), Some(FlakeNode(10)));
    assert_eq!(ctx.remove::<FlakeNode>(), None);
}

#[test]
fn no_dependency_provider_builds_by_default_construction() {
    let built = UnboundedChannelBuilder::provide();
    assert!(built.is_ok());
    let built = BroadcastChanBuilder::provide();
    assert!(built.is_ok());
}

#[test]
fn missing_seeded_instance_fails_naming_the_type() {
    let err = FlakeIdGen::provide().unwrap_err();
    assert_eq!(err.missing_type, "FlakeNode");
    assert_eq!(err.field_name, "node");
}

#[test]
fn seeded_instance_satisfies_the_requirement() {
    let ctx = ProviderContext::<CoreValue>::new().with_instance(FlakeNode(3));
    let mut generator = FlakeIdGen::provide_with(ctx).unwrap();
    let id = generator.next(1);
    let (_, node, _) = lolibaso::flake_id::flake_decode(id);
    assert_eq!(node, 3);
}

#[test]
fn require_consumes_the_seeded_instance() {
    let mut ctx = ProviderContext::<CoreValue>::new().with_instance(FlakeNode(5));
    assert_eq!(ctx.require::<FlakeNode>("node").unwrap(), FlakeNode(5));
    let err = ctx.require::<FlakeNode>("node").unwrap_err();
    assert_eq!(err.missing_type, "FlakeNode");
    assert_eq!(err.field_name, "node");
}

#[test]
fn singleton_provider_caches_and_shares_the_instance() {
    let mut ctx: ProviderContext<CoreValue> = ProviderContext::new();
    assert!(ctx.get::<BroadcastChanBuilder>().is_none());
    let first = BroadcastChanBuilder::build_single(&mut ctx);
    assert!(first.is_ok());
    // The built instance now sits in the context and is handed back to
    // every sibling dependency built later in the same graph resolution.
    assert!(ctx.get::<BroadcastChanBuilder>().is_some());
    let second = BroadcastChanBuilder::build_single(&mut ctx);
    assert!(second.is_ok());
}
