use simple_ref_fn::{RefSyncFn, StaticRefFunction};

struct AddToData;

impl StaticRefFunction<'_, u32, u32> for AddToData {
    type Output = u32;

    fn call(data: &u32, arg: u32) -> Self::Output {
        data + arg
    }
}

fn needs_send<V: Send>(value: V) -> V {
    value
}

fn needs_sync<V: Sync>(value: &V) -> &V {
    value
}

fn needs_clone<V: Clone>(value: &V) -> V {
    value.clone()
}

#[test]
fn test_ref_sync_fn_new() {
    let data = 2;
    let f: RefSyncFn<u32, u32> = AddToData::bind_sync(&data);

    assert_eq!(f.call(3), 5);
    assert_eq!(f.call(5), 7);
    assert_eq!(f.call(7), 9);
}

#[test]
fn test_ref_sync_fn_from() {
    let data = 2_u32;
    let closure = |arg: u32| data + arg;
    let f: RefSyncFn<u32, u32> = RefSyncFn::from(&closure);

    assert_eq!(f.call(3), 5);
    assert_eq!(f.call(5), 7);
    assert_eq!(f.call(7), 9);
}

#[test]
fn ref_sync_fn_leaves_state_unchanged() {
    let data = 2_u32;
    let f: RefSyncFn<u32, u32> = RefSyncFn::new::<AddToData, u32>(&data);

    assert_eq!(f.call(3), 5);
    assert_eq!(f.call(3), 5);
    assert_eq!(f.call(7), 9);
    assert_eq!(data, 2);
}

#[test]
fn ref_sync_fn_clone_gives_same_results() {
    let data = 2_u32;
    let f: RefSyncFn<u32, u32> = AddToData::bind_sync(&data);
    let g = needs_clone(&f);

    for arg in [3_u32, 5, 7] {
        assert_eq!(g.call(arg), f.call(arg));
    }
    drop(f);

    assert_eq!(g.call(3), 5);
    assert_eq!(data, 2);
}

#[test]
fn ref_sync_fn_from_closure_matches_explicit_binding() {
    let data = 2_u32;
    let closure = |arg: u32| data + arg;
    let from_closure: RefSyncFn<u32, u32> = RefSyncFn::from_fn(&closure);
    let explicit: RefSyncFn<u32, u32> = AddToData::bind_sync(&data);

    for arg in [0_u32, 3, 5, 7, 1_000_000] {
        assert_eq!(from_closure.call(arg), explicit.call(arg));
    }
}

#[test]
fn ref_sync_fn_may_be_sent_and_shared() {
    let data = 2_u32;
    let f: RefSyncFn<u32, u32> = AddToData::bind_sync(&data);

    let shared = needs_sync(&f);
    assert_eq!(shared.call(3), 5);

    let sent = needs_send(f);
    assert_eq!(sent.call(5), 7);
}
