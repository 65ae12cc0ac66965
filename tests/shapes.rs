use hkt::impls::option;
use hkt::impls::result;
use hkt::{
    ap, bind, bind_ignore, fjoin, fmap, fmapconst, foldr, lap, lbind, lbind_ignore, lfoldr, lift,
    lift2, llift2, lmap, lmapconst, sequence, traverse, LinearMonad, Semigroup, SizedExt,
    UnsizedExt,
};

type VecCon = hkt::impls::vec::TypeCon;
type ResCon = result::TypeCon<String>;

#[test]
fn lmap_identity_keeps_each_shape() {
    let v: Vec<u32> = vec![3, 1, 4];
    assert_eq!(lmap(|x: u32| x, v.clone()), v);
    let o: Option<u32> = Some(9);
    assert_eq!(lmap(|x: u32| x, o), o);
    let n: Option<u32> = None;
    assert_eq!(lmap(|x: u32| x, n), n);
    let ok: Result<u32, String> = Ok(5);
    assert_eq!(lmap(|x: u32| x, ok.clone()), ok);
    let err: Result<u32, String> = Err("bad".to_string());
    assert_eq!(lmap(|x: u32| x, err.clone()), err);
    let empty: Vec<u32> = vec![];
    assert_eq!(lmap(|x: u32| x, empty.clone()), empty);
}

#[test]
fn fmap_identity_keeps_each_shape() {
    let v: Vec<u32> = vec![3, 1, 4];
    assert_eq!(fmap(|x: &u32| *x, &v), v);
    let o: Option<u32> = Some(9);
    assert_eq!(fmap(|x: &u32| *x, &o), o);
    let err: Result<u32, String> = Err("bad".to_string());
    assert_eq!(fmap(|x: &u32| *x, &err), err);
}

#[test]
fn map_composition_equals_composed_map() {
    let f = |x: &u32| x * 2;
    let g = |x: &u32| x + 3;
    let v: Vec<u32> = vec![1, 2, 3];
    let twice: Vec<u32> = fmap(g, &fmap(f, &v));
    let once: Vec<u32> = fmap(|x: &u32| g(&f(x)), &v);
    assert_eq!(twice, once);
    assert_eq!(once, vec![5, 7, 9]);
    let o: Option<u32> = Some(10);
    let twice: Option<u32> = lmap(|x: u32| x + 3, lmap(|x: u32| x * 2, o));
    let once: Option<u32> = lmap(|x: u32| x * 2 + 3, o);
    assert_eq!(twice, once);
    assert_eq!(once, Some(23));
    let e: Result<u32, String> = Err("stop".to_string());
    let twice: Result<u32, String> = fmap(g, &fmap(f, &e));
    let once: Result<u32, String> = fmap(|x: &u32| g(&f(x)), &e);
    assert_eq!(twice, once);
}

#[test]
fn lift2_on_sequences_is_the_cartesian_product() {
    let xs: Vec<u32> = vec![1, 2, 3];
    let ys: Vec<u32> = vec![4, 5, 6];
    let pairs: Vec<(u32, u32)> = lift2(|a: &u32, b: &u32| (*a, *b), &xs, &ys);
    assert_eq!(
        pairs,
        vec![(1, 4), (1, 5), (1, 6), (2, 4), (2, 5), (2, 6), (3, 4), (3, 5), (3, 6)]
    );
    let none: Vec<u32> = vec![];
    let empty: Vec<(u32, u32)> = lift2(|a: &u32, b: &u32| (*a, *b), &xs, &none);
    assert_eq!(empty, vec![]);
}

#[test]
fn lift2_on_optional_values_short_circuits() {
    let f = |a: &u32, b: &u32| a * 10 + b;
    let one: Option<u32> = Some(1);
    let two: Option<u32> = Some(2);
    let absent: Option<u32> = None;
    let r: Option<u32> = lift2(f, &one, &absent);
    assert_eq!(r, None);
    let r: Option<u32> = lift2(f, &absent, &two);
    assert_eq!(r, None);
    let r: Option<u32> = lift2(f, &one, &two);
    assert_eq!(r, Some(12));
}

#[test]
fn lift2_on_results_keeps_the_first_error() {
    let f = |a: &u32, b: &u32| a + b;
    let ok: Result<u32, String> = Ok(1);
    let e1: Result<u32, String> = Err("first".to_string());
    let e2: Result<u32, String> = Err("second".to_string());
    let r: Result<u32, String> = lift2(f, &e1, &e2);
    assert_eq!(r, Err("first".to_string()));
    let r: Result<u32, String> = lift2(f, &ok, &e2);
    assert_eq!(r, Err("second".to_string()));
    let r: Result<u32, String> = lift2(f, &ok, &Ok(41));
    assert_eq!(r, Ok(42));
}

#[test]
fn llift2_and_lap_consume_single_slot_values() {
    let r: Option<u32> = llift2(|a: u32, b: u32| a - b, Some(9u32), Some(4u32));
    assert_eq!(r, Some(5));
    let r: Option<u32> = llift2(|a: u32, b: u32| a - b, Some(9u32), None);
    assert_eq!(r, None);
    let r: Result<u32, String> = llift2(
        |a: u32, b: u32| a * b,
        Err::<u32, String>("left".to_string()),
        Err::<u32, String>("right".to_string()),
    );
    assert_eq!(r, Err("left".to_string()));
    let add_one = |x: u32| x + 1;
    let r: Option<u32> = lap(Some(add_one), Some(1u32));
    assert_eq!(r, Some(2));
    let r: Option<u32> = lap(None::<fn(u32) -> u32>, Some(1u32));
    assert_eq!(r, None);
}

#[test]
fn ap_applies_every_function_to_every_value() {
    let fs: Vec<fn(&u32) -> u32> = vec![|x: &u32| x + 1, |x: &u32| x * 10];
    let xs: Vec<u32> = vec![1, 2];
    let r: Vec<u32> = ap(&fs, &xs);
    assert_eq!(r, vec![2, 3, 10, 20]);
    let fo: Option<fn(&u32) -> u32> = Some(|x: &u32| x * 3);
    let r: Option<u32> = ap(&fo, &Some(5u32));
    assert_eq!(r, Some(15));
    let fe: Result<fn(&u32) -> u32, String> = Err("no function".to_string());
    let r: Result<u32, String> = ap(&fe, &Ok(5u32));
    assert_eq!(r, Err("no function".to_string()));
}

#[test]
fn bind_on_optional_values() {
    let r: Option<u32> = bind(&Some(5u32), |x: &u32| Some(x + 1));
    assert_eq!(r, Some(6));
    let r: Option<u32> = bind(&None::<u32>, |x: &u32| Some(x + 1));
    assert_eq!(r, None);
    let r: Option<u32> = bind(&Some(5u32), |_x: &u32| None::<u32>);
    assert_eq!(r, None);
}

#[test]
fn bind_on_sequences_is_a_flat_map() {
    let r: Vec<u32> = bind(&vec![1u32, 2], |x: &u32| vec![*x, *x]);
    assert_eq!(r, vec![1, 1, 2, 2]);
    let r: Vec<u32> = bind(&vec![3u32, 0, 2], |x: &u32| (0..*x).collect::<Vec<u32>>());
    assert_eq!(r, vec![0, 1, 2, 0, 1]);
    let r: Vec<u32> = bind(&Vec::<u32>::new(), |x: &u32| vec![*x]);
    assert_eq!(r, Vec::<u32>::new());
}

#[test]
fn bind_on_results_passes_the_error_on() {
    let half = |x: &u32| -> Result<u32, String> {
        if x % 2 == 0 { Ok(x / 2) } else { Err(format!("{} is odd", x)) }
    };
    let r: Result<u32, String> = bind(&Ok::<u32, String>(8), half);
    assert_eq!(r, Ok(4));
    let r: Result<u32, String> = bind(&Ok::<u32, String>(7), half);
    assert_eq!(r, Err("7 is odd".to_string()));
    let r: Result<u32, String> = bind(&Err::<u32, String>("earlier".to_string()), half);
    assert_eq!(r, Err("earlier".to_string()));
}

#[test]
fn join_flattens_optional_values() {
    let r: Option<u32> = fjoin::<option::TypeCon, u32, Option<u32>, _>(&Some(Some(7u32)));
    assert_eq!(r, Some(7));
    let r: Option<u32> = fjoin::<option::TypeCon, u32, Option<u32>, _>(&Some(None::<u32>));
    assert_eq!(r, None);
    let r: Option<u32> = fjoin::<option::TypeCon, u32, Option<u32>, _>(&None::<Option<u32>>);
    assert_eq!(r, None);
    assert_eq!(<option::TypeCon as LinearMonad>::ljoin::<u32>(Some(Some(7))), Some(7));
    assert_eq!(<option::TypeCon as LinearMonad>::ljoin::<u32>(Some(None)), None);
    assert_eq!(<option::TypeCon as LinearMonad>::ljoin::<u32>(None), None);
}

#[test]
fn join_concatenates_nested_sequences() {
    let nested: Vec<Vec<u32>> = vec![vec![1, 2], vec![], vec![3]];
    let r: Vec<u32> = fjoin::<VecCon, u32, Vec<u32>, _>(&nested);
    assert_eq!(r, vec![1, 2, 3]);
}

fn pair_by_nested_binds(x: &Option<u32>, y: &Option<u32>) -> Option<(u32, u32)> {
    bind(x, |a: &u32| bind(y, |b: &u32| lift::<option::TypeCon, (u32, u32)>((*a, *b))))
}

#[test]
fn three_step_chain_equals_nested_binds() {
    let cases: Vec<(Option<u32>, Option<u32>)> =
        vec![(Some(1), Some(2)), (Some(1), None), (None, Some(2)), (None, None)];
    for (x, y) in cases {
        let chained: Option<(u32, u32)> = x.bind(|a: &u32| {
            y.bind(|b: &u32| (*a, *b).lift::<option::TypeCon>())
        });
        let expected = match (x, y) {
            (Some(a), Some(b)) => Some((a, b)),
            _ => None,
        };
        assert_eq!(chained, pair_by_nested_binds(&x, &y));
        assert_eq!(chained, expected);
    }
}

#[test]
fn foldr_is_right_associative() {
    let f = |x: &u32, acc: String| format!("f({}, {})", x, acc);
    let r = foldr(f, "init".to_string(), &vec![1u32, 2, 3]);
    assert_eq!(r, "f(1, f(2, f(3, init)))");
    let minus = |x: &i64, acc: i64| x - acc;
    assert_eq!(foldr(minus, 0i64, &vec![1i64, 2, 3]), 1 - (2 - (3 - 0)));
    assert_eq!(foldr(minus, 10i64, &Vec::<i64>::new()), 10);
    assert_eq!(foldr(minus, 10i64, &Some(4i64)), 4 - 10);
    assert_eq!(foldr(minus, 10i64, &None::<i64>), 10);
}

#[test]
fn lfoldr_is_right_associative() {
    let f = |x: String, acc: String| format!("({} {})", x, acc);
    let xs: Vec<String> = vec!["a".to_string(), "b".to_string(), "c".to_string()];
    assert_eq!(lfoldr(f, "z".to_string(), xs), "(a (b (c z)))");
    assert_eq!(lfoldr(|x: u32, acc: u32| x * 100 + acc, 7u32, Some(3u32)), 307);
    assert_eq!(lfoldr(|x: u32, acc: u32| x * 100 + acc, 7u32, None::<u32>), 7);
}

#[test]
fn sequence_collects_present_values_in_order() {
    let all: Vec<Option<u32>> = vec![Some(1), Some(2), Some(3)];
    let r: Option<Vec<u32>> = sequence::<VecCon, option::TypeCon, u32, _, _>(all);
    assert_eq!(r, Some(vec![1, 2, 3]));
    let gap: Vec<Option<u32>> = vec![Some(1), None, Some(3)];
    let r: Option<Vec<u32>> = sequence::<VecCon, option::TypeCon, u32, _, _>(gap);
    assert_eq!(r, None);
    let none: Vec<Option<u32>> = vec![];
    let r: Option<Vec<u32>> = sequence::<VecCon, option::TypeCon, u32, _, _>(none);
    assert_eq!(r, Some(vec![]));
    let errs: Vec<Result<u32, String>> =
        vec![Ok(1), Err("first".to_string()), Err("second".to_string())];
    let r: Result<Vec<u32>, String> = sequence::<VecCon, ResCon, u32, _, _>(errs);
    assert_eq!(r, Err("first".to_string()));
}

#[test]
fn traverse_maps_then_sequences() {
    let checked = |x: u32| if x < 10 { Some(x * 2) } else { None };
    let r: Option<Vec<u32>> = traverse::<VecCon, option::TypeCon, u32, u32, _, _>(checked, vec![1, 2, 3]);
    assert_eq!(r, Some(vec![2, 4, 6]));
    let r: Option<Vec<u32>> = traverse::<VecCon, option::TypeCon, u32, u32, _, _>(checked, vec![1, 20, 3]);
    assert_eq!(r, None);
}

#[test]
fn mapconst_replaces_every_element() {
    let v: Vec<u32> = vec![1, 2, 3];
    let r: Vec<String> = fmapconst(&"x".to_string(), &v);
    assert_eq!(r, vec!["x".to_string(), "x".to_string(), "x".to_string()]);
    let r: Vec<char> = lmapconst(&'c', v);
    assert_eq!(r, vec!['c', 'c', 'c']);
    let r: Option<char> = lmapconst(&'c', None::<u32>);
    assert_eq!(r, None);
    let r: Result<char, String> = fmapconst(&'c', &Err::<u32, String>("e".to_string()));
    assert_eq!(r, Err("e".to_string()));
}

#[test]
fn bind_ignore_repeats_the_second_container() {
    let r: Vec<u32> = bind_ignore(&vec![1u32, 2, 3], &vec![7u32, 8]);
    assert_eq!(r, vec![7, 8, 7, 8, 7, 8]);
    let r: Option<u32> = bind_ignore(&None::<u32>, &Some(1u32));
    assert_eq!(r, None);
    let r: Option<u32> = lbind_ignore(Some(5u32), &Some(1u32));
    assert_eq!(r, Some(1));
    let r: Result<u32, String> = lbind_ignore(Err::<u32, String>("no".to_string()), &Ok(1u32));
    assert_eq!(r, Err("no".to_string()));
}

#[test]
fn lbind_runs_the_step_on_a_present_value() {
    let r: Option<u32> = lbind(Some(5u32), |x: u32| Some(x * 3));
    assert_eq!(r, Some(15));
    let r: Option<u32> = lbind(None::<u32>, |x: u32| Some(x * 3));
    assert_eq!(r, None);
    let r: Result<u32, String> = lbind(Ok::<u32, String>(5), |x: u32| Ok::<u32, String>(x + 1));
    assert_eq!(r, Ok(6));
    let r: Result<u32, String> =
        lbind(Err::<u32, String>("kept".to_string()), |x: u32| Ok::<u32, String>(x + 1));
    assert_eq!(r, Err("kept".to_string()));
}

#[test]
fn lift_wraps_one_value() {
    assert_eq!(lift::<VecCon, u32>(3), vec![3]);
    assert_eq!(lift::<option::TypeCon, u32>(3), Some(3));
    assert_eq!(lift::<ResCon, u32>(3), Ok(3));
}

#[test]
fn extension_methods_match_the_free_functions() {
    let v: Vec<u32> = vec![1, 2, 3];
    let r: Vec<u32> = v.fmapop(|x: &u32| x + 1);
    assert_eq!(r, vec![2, 3, 4]);
    let r: Vec<u32> = v.clone().lmapop(|x: u32| x * 2);
    assert_eq!(r, vec![2, 4, 6]);
    let r: Vec<u32> = UnsizedExt::bind(&v, |x: &u32| vec![*x; *x as usize]);
    assert_eq!(r, vec![1, 2, 2, 3, 3, 3]);
    let r: Option<u32> = Some(2u32).lbind(|x: u32| Some(x + 40));
    assert_eq!(r, Some(42));
    let r: Option<u32> = Some(2u32).bind_ignore(&Some(9u32));
    assert_eq!(r, Some(9));
    let nested: Option<Option<u32>> = Some(Some(1));
    let r: Option<u32> = nested.fjoin::<option::TypeCon, u32, Option<u32>>();
    assert_eq!(r, Some(1));
    let r: Option<u32> = Some(3u32).lbind_ignore(&Some(4u32));
    assert_eq!(r, Some(4));
    let r: Option<u32> = (|x: u32| x + 1).lmap(Some(1u32));
    assert_eq!(r, Some(2));
}

#[test]
fn semigroup_op_concatenates_sequences() {
    let r = vec![1u32, 2].semigroup_op(vec![3, 4]);
    assert_eq!(r, vec![1, 2, 3, 4]);
    let left = vec![1u32].semigroup_op(vec![2]).semigroup_op(vec![3]);
    let right = vec![1u32].semigroup_op(vec![2].semigroup_op(vec![3]));
    assert_eq!(left, right);
}

#[test]
fn borrowed_result_error_is_cloned() {
    let e = "lost".to_string();
    let r: Result<u32, String> = result::clone_err(Err(&e));
    assert_eq!(r, Err("lost".to_string()));
    let r: Result<u32, String> = result::clone_err(Ok(3));
    assert_eq!(r, Ok(3));
}

#[test]
fn lift_c_reads_the_shape_off_the_result_type() {
    let o: Option<u32> = hkt::lift_c(4u32);
    assert_eq!(o, Some(4));
    let v: Vec<u32> = hkt::lift_c(4u32);
    assert_eq!(v, vec![4]);
    let r: Result<u32, String> = hkt::lift_c(4u32);
    assert_eq!(r, Ok(4));
}

#[test]
fn bind_c_binds_a_projection() {
    let o: Option<u32> = Some(5);
    let r: Option<u32> = hkt::bind_c::<option::TypeCon, u32, u32, _, Option<u32>>(&o, |x: &u32| {
        Some(x * 2)
    });
    assert_eq!(r, Some(10));
}

#[test]
fn map_dispatches_on_ownership_and_argument_mode() {
    let v: Vec<u32> = vec![1, 2, 3];
    let by_value_on_borrow: Vec<u32> = hkt::functor::map(|x: u32| x + 1, &v);
    assert_eq!(by_value_on_borrow, vec![2, 3, 4]);
    let inc = |x: &u32| x + 1;
    let by_ref_on_borrow: Vec<u32> = hkt::functor::map(inc, &v);
    assert_eq!(by_ref_on_borrow, vec![2, 3, 4]);
    let by_ref_on_owned: Vec<u32> = hkt::functor::map(inc, v.clone());
    assert_eq!(by_ref_on_owned, vec![2, 3, 4]);
    let by_value_on_owned: Vec<u32> = hkt::functor::map(|x: u32| x + 1, v);
    assert_eq!(by_value_on_owned, vec![2, 3, 4]);
    let e: Result<u32, String> = Err("kept".to_string());
    let r: Result<u32, String> = hkt::functor::map(|x: u32| x + 1, &e);
    assert_eq!(r, Err("kept".to_string()));
}

#[test]
fn fmap_agrees_with_lmap() {
    let v: Vec<u32> = vec![2, 5, 7];
    let by_ref: Vec<u32> = fmap(|x: &u32| x * 3, &v);
    let by_value: Vec<u32> = lmap(|x: u32| x * 3, v.clone());
    assert_eq!(by_ref, by_value);
    assert_eq!(by_ref, vec![6, 15, 21]);
    let r: Result<u32, String> = Ok(4);
    let by_ref: Result<u32, String> = fmap(|x: &u32| x * 3, &r);
    let by_value: Result<u32, String> = lmap(|x: u32| x * 3, r);
    assert_eq!(by_ref, by_value);
}
