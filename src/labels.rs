use vstd::prelude::*;

verus! {

/// The first value paired with `k` in `s`, scanning from the front.
pub open spec fn first_match<K, V>(s: Seq<(K, V)>, k: K) -> Option<V>
    decreases s.len(),
{
    if s.len() == 0 {
        None
    } else if s[0].0 == k {
        Some(s[0].1)
    } else {
        first_match(s.drop_first(), k)
    }
}

/// `first_match` on a suffix that starts with a different key skips that entry.
pub proof fn lemma_first_match_skip<K, V>(s: Seq<(K, V)>, i: int, k: K)
    requires
        0 <= i < s.len(),
        s[i].0 != k,
    ensures
        first_match(s.subrange(i, s.len() as int), k) == first_match(
            s.subrange(i + 1, s.len() as int),
            k,
        ),
{
    assert(s.subrange(i, s.len() as int).drop_first() =~= s.subrange(i + 1, s.len() as int));
}

/// Characters a label may be drawn from: decimal digits and lower-case letters.
pub open spec fn is_label_char(c: char) -> bool {
    ('0' <= c && c <= '9') || ('a' <= c && c <= 'z')
}

/// The labels handed out for `cands`: the i-th candidate receives the i-th
/// character counted from the end of `pool`, until either runs out.
pub open spec fn assignment(cands: Seq<u32>, pool: Seq<char>) -> Seq<(char, u32)> {
    let n = if cands.len() <= pool.len() {
        cands.len()
    } else {
        pool.len()
    };
    Seq::new(n, |i: int| (pool[pool.len() - 1 - i], cands[i]))
}

/// The default pool: digits are taken last, home-row letters first.
pub fn standard_pool() -> (r: Vec<char>)
    ensures
        r@ == seq![
            '0', '9', '8', '7', '6', '5', '4', '3', '2', '1',
            'n', 'b', 'm', 'v', 'c', 'x', 'z', 'y', 't', 'p',
            'o', 'i', 'u', 'r', 'e', 'w', 'q', 'h', 'g', 'l',
            'k', 'j', 'f', 'd', 's', 'a',
        ],
{
    vec![
        '0', '9', '8', '7', '6', '5', '4', '3', '2', '1',
        'n', 'b', 'm', 'v', 'c', 'x', 'z', 'y', 't', 'p',
        'o', 'i', 'u', 'r', 'e', 'w', 'q', 'h', 'g', 'l',
        'k', 'j', 'f', 'd', 's', 'a',
    ]
}

/// Pairs each candidate window, in order, with a label popped off the end of
/// `pool`; candidates left over once the pool is empty get no label.
pub fn assign_labels(cands: &Vec<u32>, pool: &Vec<char>) -> (r: Vec<(char, u32)>)
    ensures
        r@ == assignment(cands@, pool@),
{
    let mut r: Vec<(char, u32)> = Vec::new();
    let mut i: usize = 0;
    while i < cands.len() && i < pool.len()
        invariant
            i <= cands.len(),
            i <= pool.len(),
            r@.len() == i,
            forall|j: int| 0 <= j < i ==> r@[j] == (pool@[pool@.len() - 1 - j], cands@[j]),
        decreases cands.len() - i,
    {
        r.push((pool[pool.len() - 1 - i], cands[i]));
        i += 1;
    }
    assert(r@ =~= assignment(cands@, pool@));
    r
}

/// Whether every character of `pool` may serve as a label and none repeats.
pub fn valid_pool(pool: &Vec<char>) -> (r: bool)
    ensures
        r == (pool@.no_duplicates() && forall|i: int| 0 <= i < pool@.len() ==> is_label_char(pool@[i])),
{
    let mut i: usize = 0;
    while i < pool.len()
        invariant
            i <= pool.len(),
            pool@.subrange(0, i as int).no_duplicates(),
            forall|j: int| 0 <= j < i ==> is_label_char(pool@[j]),
        decreases pool.len() - i,
    {
        let c = pool[i];
        if !(('0' <= c && c <= '9') || ('a' <= c && c <= 'z')) {
            return false;
        }
        let mut j: usize = 0;
        while j < i
            invariant
                j <= i < pool.len(),
                c == pool@[i as int],
                forall|k: int| 0 <= k < j ==> pool@[k] != c,
            decreases i - j,
        {
            if pool[j] == c {
                assert(!pool@.no_duplicates()) by {
                    assert(pool@[j as int] == pool@[i as int]);
                }
                return false;
            }
            j += 1;
        }
        assert(pool@.subrange(0, i + 1) =~= pool@.subrange(0, i as int).push(c));
        i += 1;
    }
    assert(pool@.subrange(0, pool.len() as int) =~= pool@);
    true
}

/// The window carrying `label` in `labels`, if any.
pub fn window_for(labels: &Vec<(char, u32)>, label: char) -> (r: Option<u32>)
    ensures
        r == first_match(labels@, label),
{
    let mut i: usize = 0;
    assert(labels@.subrange(0, labels@.len() as int) =~= labels@);
    while i < labels.len()
        invariant
            i <= labels.len(),
            first_match(labels@, label) == first_match(
                labels@.subrange(i as int, labels@.len() as int),
                label,
            ),
        decreases labels.len() - i,
    {
        if labels[i].0 == label {
            assert(labels@.subrange(i as int, labels@.len() as int)[0] == labels@[i as int]);
            return Some(labels[i].1);
        }
        proof {
            lemma_first_match_skip(labels@, i as int, label);
        }
        i += 1;
    }
    None
}

/// The assignment has one entry per candidate the pool can serve, each label
/// taken from the pool's tail in candidate order; with a pool of distinct
/// characters no label is handed out twice.
pub proof fn lemma_assignment_shape(cands: Seq<u32>, pool: Seq<char>)
    ensures
        assignment(cands, pool).len() == if cands.len() <= pool.len() {
            cands.len()
        } else {
            pool.len()
        },
        forall|i: int|
            0 <= i < assignment(cands, pool).len() ==> {
                &&& pool.contains(#[trigger] assignment(cands, pool)[i].0)
                &&& assignment(cands, pool)[i].0 == pool[pool.len() - 1 - i]
                &&& assignment(cands, pool)[i].1 == cands[i]
            },
        pool.no_duplicates() ==> forall|i: int, j: int|
            0 <= i < j < assignment(cands, pool).len() ==> #[trigger] assignment(cands, pool)[i].0
                != #[trigger] assignment(cands, pool)[j].0,
{
    let a = assignment(cands, pool);
    assert forall|i: int| 0 <= i < a.len() implies pool.contains(#[trigger] a[i].0) by {
        assert(pool[pool.len() - 1 - i] == a[i].0);
    }
}

} // verus!
