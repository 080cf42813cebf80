use simple_ref_fn::{RefFn, StaticRefFunction};

struct AddToData;

impl StaticRefFunction<'_, u32, u32> for AddToData {
    type Output = u32;

    fn call(data: &u32, arg: u32) -> Self::Output {
        data + arg
    }
}

struct CountChar;

impl StaticRefFunction<'_, String, char> for CountChar {
    type Output = usize;

    fn call(data: &String, arg: char) -> Self::Output {
        data.chars().filter(|c| *c == arg).count()
    }
}

struct Borrowed;

impl<'a> StaticRefFunction<'a, Vec<u8>, usize> for Borrowed {
    type Output = &'a [u8];

    fn call(data: &'a Vec<u8>, arg: usize) -> Self::Output {
        &data[..arg]
    }
}

fn double(arg: u32) -> u32 {
    arg * 2
}

fn sum_of_calls(f: &RefFn<u32, u32>, args: &[u32]) -> u32 {
    let mut sum = 0;
    for arg in args {
        sum += f.call(*arg);
    }
    sum
}

#[test]
fn test_ref_fn_new() {
    let data = 2;
    let f: RefFn<u32, u32> = AddToData::bind(&data);

    assert_eq!(f.call(3), 5);
    assert_eq!(f.call(5), 7);
    assert_eq!(f.call(7), 9);
}

#[test]
fn test_ref_fn_from() {
    let data = 2_u32;
    let closure = |arg: u32| data + arg;
    let f: RefFn<u32, u32> = RefFn::from(&closure);

    assert_eq!(f.call(3), 5);
    assert_eq!(f.call(5), 7);
    assert_eq!(f.call(7), 9);
}

#[test]
fn ref_fn_leaves_state_unchanged() {
    let data = 2_u32;
    let f: RefFn<u32, u32> = AddToData::bind(&data);

    assert_eq!(f.call(3), 5);
    assert_eq!(data, 2);
    assert_eq!(f.call(5), 7);
    assert_eq!(data, 2);
    assert_eq!(f.call(7), 9);
    assert_eq!(data, 2);
}

#[test]
fn ref_fn_repeated_call_gives_same_result() {
    let data = 40_u32;
    let f: RefFn<u32, u32> = RefFn::new::<AddToData, u32>(&data);

    let first = f.call(2);
    let second = f.call(2);
    let third = f.call(2);

    assert_eq!(first, 42);
    assert_eq!(second, first);
    assert_eq!(third, first);
}

#[test]
fn ref_fn_new_gives_function_value_for_each_argument() {
    let data = 1_000_u32;
    let f: RefFn<u32, u32> = RefFn::new::<AddToData, u32>(&data);

    for arg in [0_u32, 1, 17, 4_000, u32::MAX - 1_000] {
        assert_eq!(f.call(arg), AddToData::call(&data, arg));
    }
}

#[test]
fn ref_fn_clone_gives_same_results() {
    let data = 2_u32;
    let f: RefFn<u32, u32> = AddToData::bind(&data);
    let g = f.clone();

    for arg in [3_u32, 5, 7] {
        assert_eq!(g.call(arg), f.call(arg));
    }
    assert_eq!(g.call(3), 5);
    assert_eq!(f.call(3), 5);
    assert_eq!(data, 2);
}

#[test]
fn ref_fn_clone_outlives_the_handle_it_was_made_from() {
    let data = 2_u32;
    let f: RefFn<u32, u32> = AddToData::bind(&data);
    let g = f.clone();
    let h = g.clone();
    drop(f);
    drop(g);

    assert_eq!(h.call(3), 5);
    assert_eq!(h.call(7), 9);
}

#[test]
fn ref_fn_from_closure_matches_explicit_binding() {
    let data = 2_u32;
    let closure = |arg: u32| data + arg;
    let from_closure: RefFn<u32, u32> = RefFn::from(&closure);
    let from_fn: RefFn<u32, u32> = RefFn::from_fn(&closure);
    let explicit: RefFn<u32, u32> = AddToData::bind(&data);

    for arg in [0_u32, 3, 5, 7, 1_000_000] {
        assert_eq!(from_closure.call(arg), explicit.call(arg));
        assert_eq!(from_fn.call(arg), explicit.call(arg));
    }
}

#[test]
fn ref_fn_from_function_item() {
    let f: RefFn<u32, u32> = RefFn::from_fn(&double);

    assert_eq!(f.call(0), 0);
    assert_eq!(f.call(21), 42);
}

#[test]
fn ref_fn_hides_the_state_type() {
    let number = 2_u32;
    let closure = |arg: u32| arg * 10;
    let handles: Vec<RefFn<u32, u32>> = vec![AddToData::bind(&number), RefFn::from(&closure)];

    assert_eq!(sum_of_calls(&handles[0], &[3, 5, 7]), 21);
    assert_eq!(sum_of_calls(&handles[1], &[3, 5, 7]), 150);
}

#[test]
fn ref_fn_over_a_state_that_is_not_copied() {
    let text = String::from("type erasure");
    let f: RefFn<char, usize> = CountChar::bind(&text);

    assert_eq!(f.call('e'), 3);
    assert_eq!(f.call('r'), 2);
    assert_eq!(f.call('z'), 0);
    assert_eq!(text, "type erasure");
}

#[test]
fn ref_fn_result_may_borrow_from_the_state() {
    let bytes = vec![1_u8, 2, 3, 4];
    let f: RefFn<usize, &[u8]> = Borrowed::bind(&bytes);

    let head = f.call(2);
    drop(f);

    assert_eq!(head, &[1_u8, 2][..]);
}

#[test]
fn ref_fn_with_unit_argument_and_result() {
    let closure = |_: ()| ();
    let f: RefFn<(), ()> = RefFn::from(&closure);

    assert_eq!(f.call(()), ());
}
