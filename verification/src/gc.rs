//! Garbage collection of persisted per-agent memory: the keys that name no
//! live agent are the ones the host deletes.

use vstd::prelude::*;

verus! {

/// The names of a list of strings, in order.
pub open spec fn name_views(s: Seq<String>) -> Seq<Seq<char>> {
    s.map_values(|x: String| x@)
}

/// The keys among `keys` that are not in `alive`, in their original order.
pub open spec fn spec_stale_keys(keys: Seq<Seq<char>>, alive: Seq<Seq<char>>) -> Seq<Seq<char>>
    decreases keys.len(),
{
    if keys.len() == 0 {
        Seq::empty()
    } else {
        let rest = spec_stale_keys(keys.drop_last(), alive);
        if !alive.contains(keys.last()) {
            rest.push(keys.last())
        } else {
            rest
        }
    }
}

/// Whether `alive` holds a string with the same characters as `k`.
fn contains_name(alive: &Vec<String>, k: &String) -> (r: bool)
    ensures
        r == name_views(alive@).contains(k@),
{
    let n = alive.len();
    let mut i: usize = 0;
    while i < n
        invariant
            0 <= i <= n,
            forall|j: int| 0 <= j < i ==> alive@[j]@ != k@,
        decreases n - i,
    {
        if alive[i] == *k {
            proof {
                assert(name_views(alive@)[i as int] == k@);
            }
            return true;
        }
        i = i + 1;
    }
    proof {
        if name_views(alive@).contains(k@) {
            let j = choose|j: int|
                0 <= j < name_views(alive@).len() && name_views(alive@)[j] == k@;
            assert(alive@[j]@ == k@);
        }
    }
    false
}

/// The persisted memory keys that name no live agent, in order: the entries
/// to remove when collecting the memory of agents confirmed gone.
pub fn stale_keys(keys: &Vec<String>, alive: &Vec<String>) -> (r: Vec<String>)
    ensures
        name_views(r@) == spec_stale_keys(name_views(keys@), name_views(alive@)),
{
    let mut out: Vec<String> = Vec::new();
    let n = keys.len();
    let mut i: usize = 0;
    proof {
        assert(name_views(keys@.take(0)) =~= Seq::<Seq<char>>::empty());
        assert(name_views(out@) =~= spec_stale_keys(name_views(keys@.take(0)), name_views(alive@)));
    }
    while i < n
        invariant
            0 <= i <= n,
            name_views(out@) == spec_stale_keys(name_views(keys@.take(i as int)), name_views(alive@)),
        decreases n - i,
    {
        let ghost pre = out@;
        let k = &keys[i];
        let stale = !contains_name(alive, k);
        if stale {
            out.push(k.clone());
        }
        proof {
            let kv = name_views(keys@.take(i as int + 1));
            assert(kv.drop_last() =~= name_views(keys@.take(i as int)));
            assert(kv.last() == keys@[i as int]@);
            if stale {
                assert(name_views(out@) =~= name_views(pre).push(keys@[i as int]@));
            } else {
                assert(name_views(out@) =~= name_views(pre));
            }
        }
        i = i + 1;
    }
    proof {
        assert(keys@.take(n as int) =~= keys@);
    }
    out
}

} // verus!
