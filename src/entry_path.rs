use vstd::prelude::*;

verus! {

/// The components of a path: its bytes split at each `/`, empty ones kept.
pub open spec fn components(p: Seq<u8>) -> Seq<Seq<u8>>
    decreases p.len(),
{
    if p.len() == 0 {
        seq![Seq::empty()]
    } else {
        let before = components(p.drop_last());
        if p.last() == 0x2f {
            before.push(Seq::empty())
        } else {
            before.update(before.len() - 1, before.last().push(p.last()))
        }
    }
}

pub open spec fn is_parent(c: Seq<u8>) -> bool {
    c == seq![0x2eu8, 0x2eu8]
}

pub open spec fn is_current(c: Seq<u8>) -> bool {
    c.len() == 0 || c == seq![0x2eu8]
}

/// How a component moves the depth below the destination directory: `..`
/// climbs one level, an empty component or `.` stays, any other name descends.
pub open spec fn step_depth(c: Seq<u8>) -> int {
    if is_parent(c) {
        -1
    } else if is_current(c) {
        0
    } else {
        1
    }
}

/// The depth below the destination directory reached after the components.
pub open spec fn depth(cs: Seq<Seq<u8>>) -> int
    decreases cs.len(),
{
    if cs.len() == 0 {
        0
    } else {
        depth(cs.drop_last()) + step_depth(cs.last())
    }
}

/// A path stays inside the destination directory where no prefix of its
/// components climbs above it. Leading `/` are read as relative, as archives do.
pub open spec fn stays_inside(p: Seq<u8>) -> bool {
    let cs = components(p);
    forall|k: int| 0 <= k <= cs.len() ==> depth(#[trigger] cs.subrange(0, k)) >= 0
}

proof fn lemma_components_extend(p: Seq<u8>, m: int)
    requires
        0 <= m <= p.len(),
    ensures
        components(p).len() >= components(p.subrange(0, m)).len(),
        forall|x: int|
            0 <= x < components(p.subrange(0, m)).len() - 1 ==> components(p)[x] == components(
                p.subrange(0, m),
            )[x],
    decreases p.len(),
{
    if m == p.len() {
        assert(p.subrange(0, m) =~= p);
    } else {
        assert(p.drop_last().subrange(0, m) =~= p.subrange(0, m));
        lemma_components_extend(p.drop_last(), m);
    }
}

fn component_step(c: &Vec<u8>) -> (r: i8)
    ensures
        r as int == step_depth(c@),
{
    if c.len() == 0 {
        0
    } else if c.len() == 1 && c[0] == 0x2e {
        assert(c@ =~= seq![0x2eu8]);
        0
    } else if c.len() == 2 && c[0] == 0x2e && c[1] == 0x2e {
        assert(c@ =~= seq![0x2eu8, 0x2eu8]);
        -1
    } else {
        assert(!is_current(c@) && !is_parent(c@));
        1
    }
}

proof fn lemma_prefixes_after_push(done: Seq<Seq<u8>>, c: Seq<u8>)
    requires
        forall|k: int| 0 <= k <= done.len() ==> depth(#[trigger] done.subrange(0, k)) >= 0,
        depth(done) + step_depth(c) >= 0,
    ensures
        forall|k: int|
            0 <= k <= done.len() + 1 ==> depth(#[trigger] done.push(c).subrange(0, k)) >= 0,
{
    assert forall|k: int| 0 <= k <= done.len() + 1 implies depth(
        #[trigger] done.push(c).subrange(0, k),
    ) >= 0 by {
        if k <= done.len() {
            assert(done.push(c).subrange(0, k) =~= done.subrange(0, k));
        } else {
            assert(done.push(c).subrange(0, k) =~= done.push(c));
            assert(done.push(c).drop_last() =~= done);
        }
    }
}

/// Whether the archive entry path `p` stays inside the directory it is
/// unpacked into.
pub fn path_stays_inside(p: &Vec<u8>) -> (r: bool)
    ensures
        r == stays_inside(p@),
{
    let ghost mut done: Seq<Seq<u8>> = Seq::empty();
    let mut cur: Vec<u8> = Vec::new();
    let mut level: usize = 0;
    let mut i: usize = 0;
    assert(p@.subrange(0, 0) =~= Seq::<u8>::empty());
    assert(done.subrange(0, 0) =~= done);
    while i < p.len()
        invariant
            i <= p.len(),
            components(p@.subrange(0, i as int)) == done.push(cur@),
            level as int == depth(done),
            level <= done.len(),
            done.len() <= i,
            forall|k: int| 0 <= k <= done.len() ==> depth(#[trigger] done.subrange(0, k)) >= 0,
        decreases p.len() - i,
    {
        assert(p@.subrange(0, i + 1).drop_last() =~= p@.subrange(0, i as int));
        let b = p[i];
        if b == 0x2f {
            let s = component_step(&cur);
            if s < 0 && level == 0 {
                proof {
                    let all = components(p@);
                    lemma_components_extend(p@, i as int + 1);
                    assert(all.subrange(0, done.len() as int + 1) =~= done.push(cur@));
                    assert(done.push(cur@).drop_last() =~= done);
                }
                return false;
            }
            proof {
                lemma_prefixes_after_push(done, cur@);
                assert(done.push(cur@).drop_last() =~= done);
                done = done.push(cur@);
            }
            if s < 0 {
                level = level - 1;
            } else if s > 0 {
                level = level + 1;
            }
            cur = Vec::new();
        } else {
            proof {
                assert(done.push(cur@).update(done.len() as int, cur@.push(b)) =~= done.push(
                    cur@.push(b),
                ));
            }
            cur.push(b);
        }
        i = i + 1;
    }
    assert(p@.subrange(0, p@.len() as int) =~= p@);
    let s = component_step(&cur);
    proof {
        assert(done.push(cur@).drop_last() =~= done);
    }
    if s < 0 && level == 0 {
        assert(components(p@).subrange(0, done.len() as int + 1) =~= done.push(cur@));
        return false;
    }
    proof {
        lemma_prefixes_after_push(done, cur@);
    }
    true
}

/// An entry path that starts by climbing out (`../`, whatever follows, such as
/// `../../etc/passwd`) does not stay inside the destination directory.
pub proof fn lemma_leading_parent_escapes(rest: Seq<u8>)
    ensures
        !stays_inside(seq![0x2eu8, 0x2eu8, 0x2fu8] + rest),
{
    let p = seq![0x2eu8, 0x2eu8, 0x2fu8] + rest;
    let head = p.subrange(0, 3);
    let h1 = seq![0x2eu8];
    let h2 = seq![0x2eu8, 0x2eu8];
    assert(head =~= seq![0x2eu8, 0x2eu8, 0x2fu8]);
    assert(head.drop_last() =~= h2);
    assert(h2.drop_last() =~= h1);
    assert(h1.drop_last() =~= Seq::<u8>::empty());
    assert(Seq::<u8>::empty().push(0x2eu8) =~= h1);
    assert(components(Seq::<u8>::empty()) == seq![Seq::<u8>::empty()]);
    assert(h1.last() == 0x2eu8);
    assert(components(h1) =~= seq![h1]);
    assert(h1.push(0x2eu8) =~= h2);
    assert(components(h2) =~= seq![h2]);
    assert(components(head) =~= seq![h2, Seq::<u8>::empty()]);
    lemma_components_extend(p, 3);
    let cs = components(p);
    assert(cs.subrange(0, 1) =~= seq![seq![0x2eu8, 0x2eu8]]);
    assert(cs.subrange(0, 1).drop_last() =~= Seq::<Seq<u8>>::empty());
    assert(is_parent(h2));
    assert(depth(Seq::<Seq<u8>>::empty()) == 0);
    assert(cs.subrange(0, 1).last() == h2);
    assert(depth(cs.subrange(0, 1)) < 0);
}

} // verus!
