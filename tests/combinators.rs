use hkt::impls::option;
use hkt::{bind, fmap, lbind, lift, MapExt, SizedExt, UnsizedExt};

#[test]
fn test() {
    // Both the sequence and the optional-value functors are working.
    let v: Vec<Option<u64>> = vec![Some(42), None];
    let v3 = v.clone();
    let v2: Vec<Option<u64>> = hkt::functor::map(|x: Option<u64>| hkt::functor::map(|y: u64| y * 2, x), v);
    let _v4: Vec<Option<u64>> = v3.mapop(|x: Option<u64>| hkt::functor::map(|y: u64| y * 2, x));
    assert_eq!(v2, vec!(Some(84), None));

    let f = |x: &u32| x * 2;
    let g = |x: &u32| x + 3;
    let h = |x: &u32| x * 2;

    let test_vec: Vec<u32> = vec![1, 2, 3, 4, 5, 6, 7, 8, 9, 10];
    let test_option: Option<u32> = Some(42);
    let _result_vec: Vec<u32> = hkt::functor::map(g, &hkt::functor::map(h, &test_vec));
    let _result_option: Option<u32> = hkt::functor::map(g, &hkt::functor::map(h, &test_option));

    let x1: Vec<u32> = vec![1, 2, 3];
    let x2: Vec<u32> = vec![1, 2, 3];
    let x3: Vec<u32> = vec![1, 2, 3];
    let x4: Vec<u32> = vec![1, 2, 3];

    let _result1: Vec<u32> = hkt::functor::map(f, &x1);
    let _result2: Vec<u32> = hkt::functor::map(f, x2);
    let _result3: Vec<u32> = hkt::functor::map(h, &x3);
    let _result4: Vec<u32> = hkt::functor::map(h, x4);

    let _o_lift: Option<u32> = lift::<option::TypeCon, u32>(4);

    let o1: Option<u32> = lift::<option::TypeCon, u32>(5);
    let o2: Option<u32> = lift::<option::TypeCon, u32>(7);

    let _o3: Option<u32> = lbind(o1, |x: u32| fmap(|y: &u32| x + y, &o1));

    let _o4: Option<u32> = bind(&lift::<option::TypeCon, u32>(5), |x: &u32| {
        lift::<option::TypeCon, u32>(Clone::clone(x))
    });
    let _o5: Option<u32> = (|x: &u32| Some(Clone::clone(x)))(&5);

    let _do_result: Option<(u32, u32)> = bind(&o1, |x: &u32| {
        bind(&o2, |y: &u32| lift::<option::TypeCon, (u32, u32)>((Clone::clone(x), Clone::clone(y))))
    });

    let v1: Vec<u32> = vec![1, 2, 3];
    let v2: Vec<u32> = vec![4, 5, 6];

    let o1: Option<u32> = Some(1);
    let o2: Option<u32> = Some(2);
    let o3: Option<u32> = None;

    let of: Option<fn(&u32) -> u32> = Some(|x: &u32| x.clone());

    let v_result: Vec<(u32, u32)> = bind(&v1, |x: &u32| {
        bind(&v2, |y: &u32| lift::<hkt::impls::vec::TypeCon, (u32, u32)>((Clone::clone(x), Clone::clone(y))))
    });
    let o1_result: Option<(u32, u32)> = bind(&o1, |x: &u32| {
        bind(&o2, |y: &u32| lift::<option::TypeCon, (u32, u32)>((Clone::clone(x), Clone::clone(y))))
    });
    let o2_result: Option<(u32, u32)> = bind(&o1, |x: &u32| {
        bind(&o3, |y: &u32| lift::<option::TypeCon, (u32, u32)>((Clone::clone(x), Clone::clone(y))))
    });

    let _applicative_result: Option<u32> = (|x: &u32| {
        let z = Clone::clone(x);
        move |y: &u32| z * y
    })
    .fmap(&o1)
    .ap(&o2);
    let _applicative_option_result: Option<u32> = (|x: u32| move |y: u32| x + y).lmap(o1).lap(o2);
    assert_eq!(Some(3), _applicative_option_result);

    let _: Option<u32> = hkt::ap(&of, &o1);

    assert_eq!(
        v_result,
        vec![
            (1, 4),
            (1, 5),
            (1, 6),
            (2, 4),
            (2, 5),
            (2, 6),
            (3, 4),
            (3, 5),
            (3, 6)
        ]
    );
    assert_eq!(o1_result, Some((1, 2)));
    assert_eq!(o2_result, None);
}
