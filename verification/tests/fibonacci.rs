use memoize_macro::decl::FunctionDecl;
use memoize_macro::expand::expand;
use memoize_macro::runtime::{begin, finish, Cache, Lookup};
use memoize_macro::syntax::read_function;

const FIB_DEFAULT: &str = "fn fib_default(n: u64) -> u64 {
    match n {
        0 | 1 => 1,
        n => fib_default(n - 2) + fib_default(n - 1),
    }
}";

/// A memoized function at run time: its declaration, its cache, and the
/// number of times its inner implementation ran.
struct Memoized {
    function: FunctionDecl,
    cache: Cache,
    calls: u64,
}

fn memoized(source: &str) -> Memoized {
    let tree = syn::parse_str::<syn::ItemFn>(source).unwrap();
    let function = read_function(&tree);
    assert!(expand("", &function).is_ok());
    Memoized { function, cache: Cache::new(), calls: 0 }
}

fn fib_default(state: &mut Memoized, n: u64) -> u64 {
    match begin(&state.cache, &state.function.params, &vec![n]) {
        Lookup::Hit(value) => value,
        Lookup::Miss(key) => {
            state.calls += 1;
            let value = match n {
                0 | 1 => 1,
                n => fib_default(state, n - 2) + fib_default(state, n - 1),
            };
            finish(&mut state.cache, key, value)
        }
    }
}

#[test]
fn it_works() {
    let mut state = memoized(FIB_DEFAULT);
    let output: Vec<_> = (0..50).map(|n| fib_default(&mut state, n)).collect();
    assert_eq!(
        output,
        vec![
            1,
            1,
            2,
            3,
            5,
            8,
            13,
            21,
            34,
            55,
            89,
            144,
            233,
            377,
            610,
            987,
            1597,
            2584,
            4181,
            6765,
            10946,
            17711,
            28657,
            46368,
            75025,
            121_393,
            196_418,
            317_811,
            514_229,
            832_040,
            1_346_269,
            2_178_309,
            3_524_578,
            5_702_887,
            9_227_465,
            14_930_352,
            24_157_817,
            39_088_169,
            63_245_986,
            102_334_155,
            165_580_141,
            267_914_296,
            433_494_437,
            701_408_733,
            1_134_903_170,
            1_836_311_903,
            2_971_215_073,
            4_807_526_976,
            7_778_742_049,
            12_586_269_025,
        ]
    );
}

#[test]
fn fibonacci_runs_the_inner_implementation_once_for_each_argument() {
    let mut state = memoized(FIB_DEFAULT);
    for n in 0..50 {
        fib_default(&mut state, n);
    }
    assert_eq!(fib_default(&mut state, 10), 89);
    assert_eq!(fib_default(&mut state, 20), 10946);
    assert_eq!(fib_default(&mut state, 49), 12_586_269_025);
    assert_eq!(state.calls, 50);
}

#[test]
fn fibonacci_from_the_top_fills_the_cache_on_the_way_down() {
    let mut state = memoized(FIB_DEFAULT);
    assert_eq!(fib_default(&mut state, 49), 12_586_269_025);
    assert_eq!(state.calls, 50);
    assert_eq!(state.cache.get(&vec![10]), Some(89));
    assert_eq!(state.cache.get(&vec![50]), None);
}
