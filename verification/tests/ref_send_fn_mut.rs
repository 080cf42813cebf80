use simple_ref_fn::{RefFnMut, RefSendFnMut, StaticRefMutFunction, StaticRefMutFunctionExt};

struct Accumulate;

impl StaticRefMutFunction<'_, u32, u32> for Accumulate {
    type Output = u32;

    fn call_mut(data: &mut u32, arg: u32) -> Self::Output {
        let old_value = *data;

        *data += arg;

        old_value
    }
}

fn needs_send<V: Send>(value: V) -> V {
    value
}

#[test]
fn test_ref_send_fn_mut_new() {
    let mut data = 2;
    let mut f: RefSendFnMut<u32, u32> = Accumulate::bind_send(&mut data);

    assert_eq!(f.call_mut(3), 2);
    assert_eq!(f.call_mut(5), 5);
    assert_eq!(f.call_mut(7), 10);

    drop(f);

    assert_eq!(data, 17);
}

#[test]
fn test_ref_send_fn_mut_from() {
    let mut data = 2_u32;

    let mut closure = |arg: u32| {
        let old_value = data;

        data += arg;

        old_value
    };

    let mut f: RefSendFnMut<u32, u32> = RefSendFnMut::from(&mut closure);

    assert_eq!(f.call_mut(3), 2);
    assert_eq!(f.call_mut(5), 5);
    assert_eq!(f.call_mut(7), 10);

    drop(f);

    assert_eq!(data, 17);
}

#[test]
fn ref_send_fn_mut_matches_ref_fn_mut() {
    let mut plain_state = 2_u32;
    let mut send_state = 2_u32;
    let mut plain: RefFnMut<u32, u32> = Accumulate::bind(&mut plain_state);
    let mut send: RefSendFnMut<u32, u32> = RefSendFnMut::new::<Accumulate, u32>(&mut send_state);

    for arg in [3_u32, 5, 7] {
        assert_eq!(send.call_mut(arg), plain.call_mut(arg));
    }
    drop(plain);
    drop(send);

    assert_eq!(send_state, 17);
    assert_eq!(send_state, plain_state);
}

#[test]
fn ref_send_fn_mut_results_depend_on_the_order_of_calls() {
    let mut data = 2_u32;
    let mut f: RefSendFnMut<u32, u32> = Accumulate::bind_send(&mut data);

    assert_eq!(f.call_mut(7), 2);
    assert_eq!(f.call_mut(5), 9);
    assert_eq!(f.call_mut(3), 14);
    drop(f);

    assert_eq!(data, 17);
}

#[test]
fn ref_send_fn_mut_from_fn_mut_keeps_the_mutation() {
    let mut total = 0_u64;
    let mut closure = |arg: u64| {
        total += arg;
        total
    };
    let mut f: RefSendFnMut<u64, u64> = RefSendFnMut::from_fn_mut(&mut closure);

    assert_eq!(f.call_mut(1), 1);
    assert_eq!(f.call_mut(2), 3);
    assert_eq!(f.call_mut(3), 6);
    drop(f);

    assert_eq!(total, 6);
}

#[test]
fn ref_send_fn_mut_may_be_sent() {
    let mut data = 2_u32;
    let f: RefSendFnMut<u32, u32> = Accumulate::bind_send(&mut data);

    let mut sent = needs_send(f);
    assert_eq!(sent.call_mut(3), 2);
    drop(sent);

    assert_eq!(data, 5);
}
