//! Choosing which items of a fetch are handed on, and in which order.

use vstd::prelude::*;
use crate::post::{Post, PostText};
use crate::time::Timestamp;

verus! {

/// How many items one fetch hands on at most.
pub const MAX_NEW_POSTS: usize = 2;

/// What each post of a list says.
pub open spec fn texts(posts: Seq<Post>) -> Seq<PostText> {
    posts.map_values(|p: Post| p@)
}

/// Position of the most recent post; of several published at the same
/// instant, the first.  `0` for an empty sequence.
pub open spec fn newest_index(posts: Seq<PostText>) -> int
    decreases posts.len(),
{
    if posts.len() <= 1 {
        0
    } else {
        let before = newest_index(posts.drop_last());
        if posts[before].published.lt(posts.last().published) {
            posts.len() - 1
        } else {
            before
        }
    }
}

/// The posts from the most recent to the oldest; posts published at the
/// same instant keep their order.
pub open spec fn newest_first(posts: Seq<PostText>) -> Seq<PostText>
    decreases posts.len(),
    via newest_first_shrinks
{
    if posts.len() == 0 {
        Seq::empty()
    } else {
        let k = newest_index(posts);
        seq![posts[k]] + newest_first(posts.remove(k))
    }
}

#[via_fn]
proof fn newest_first_shrinks(posts: Seq<PostText>) {
    if posts.len() > 0 {
        lemma_newest_index(posts);
    }
}

/// The two most recent posts, the most recent first; fewer where there are
/// fewer.
pub open spec fn newest_two(posts: Seq<PostText>) -> Seq<PostText> {
    if posts.len() == 0 {
        Seq::empty()
    } else {
        let k = newest_index(posts);
        let rest = posts.remove(k);
        if rest.len() == 0 {
            seq![posts[k]]
        } else {
            seq![posts[k], rest[newest_index(rest)]]
        }
    }
}

/// At most two posts put in the order of their publication; two posts
/// published at the same instant keep their order.
pub open spec fn oldest_first(pair: Seq<PostText>) -> Seq<PostText> {
    if pair.len() == 2 && pair[1].published.lt(pair[0].published) {
        seq![pair[1], pair[0]]
    } else {
        pair
    }
}

/// The most recent publication instant among the posts, if there is a post.
pub open spec fn latest(posts: Seq<PostText>) -> Option<Timestamp> {
    if posts.len() == 0 {
        None
    } else {
        Some(posts[newest_index(posts)].published)
    }
}

/// The posts published after the watermark; all of them where no watermark
/// is set.  Their order is kept.
pub open spec fn after_watermark(posts: Seq<PostText>, watermark: Option<Timestamp>) -> Seq<PostText> {
    posts.filter(|p: PostText| is_fresh(p, watermark))
}

/// `post` was published after the watermark, or no watermark is set.
pub open spec fn is_fresh(post: PostText, watermark: Option<Timestamp>) -> bool {
    match watermark {
        Some(mark) => mark.lt(post.published),
        None => true,
    }
}

/// The watermark raised to `seen` where that is later.
pub open spec fn raised(watermark: Option<Timestamp>, seen: Option<Timestamp>) -> Option<Timestamp> {
    match (watermark, seen) {
        (Some(mark), Some(t)) => Some(mark.max(t)),
        (Some(mark), None) => Some(mark),
        (None, seen) => seen,
    }
}

/// The most recent post is in the sequence, none is more recent, and every
/// post before it is older.
pub proof fn lemma_newest_index(posts: Seq<PostText>)
    requires
        posts.len() > 0,
    ensures
        0 <= newest_index(posts) < posts.len(),
        forall|j: int|
            0 <= j < posts.len() ==> !posts[newest_index(posts)].published.lt(
                (#[trigger] posts[j]).published,
            ),
        forall|j: int|
            0 <= j < newest_index(posts) ==> (#[trigger] posts[j]).published.lt(
                posts[newest_index(posts)].published,
            ),
    decreases posts.len(),
{
    if posts.len() > 1 {
        lemma_newest_index(posts.drop_last());
        let before = newest_index(posts.drop_last());
        assert forall|j: int| 0 <= j < posts.len() implies !posts[newest_index(posts)].published.lt(
            (#[trigger] posts[j]).published,
        ) by {
            if j < posts.len() - 1 {
                assert(posts.drop_last()[j] == posts[j]);
            }
        }
        assert forall|j: int| 0 <= j < newest_index(posts) implies (#[trigger] posts[j]).published.lt(
            posts[newest_index(posts)].published,
        ) by {
            assert(posts.drop_last()[j] == posts[j]);
        }
    }
}

/// `newest_first` keeps every post: the result is as long as the input.
pub proof fn lemma_newest_first_len(posts: Seq<PostText>)
    ensures
        newest_first(posts).len() == posts.len(),
    decreases posts.len(),
{
    if posts.len() > 0 {
        lemma_newest_index(posts);
        lemma_newest_first_len(posts.remove(newest_index(posts)));
    }
}

/// The two most recent posts are the first two of the posts put from the
/// most recent to the oldest.
pub proof fn law_newest_two_head_the_sorted_posts(posts: Seq<PostText>)
    ensures
        newest_two(posts).len() == if posts.len() < 2 {
            posts.len()
        } else {
            2
        },
        newest_two(posts) == newest_first(posts).take(newest_two(posts).len() as int),
{
    lemma_newest_first_len(posts);
    if posts.len() > 0 {
        lemma_newest_index(posts);
        let k = newest_index(posts);
        let rest = posts.remove(k);
        lemma_newest_first_len(rest);
        if rest.len() > 0 {
            lemma_newest_index(rest);
            lemma_newest_first_len(rest.remove(newest_index(rest)));
            assert(newest_first(rest)[0] == rest[newest_index(rest)]);
        }
        assert(newest_two(posts) =~= newest_first(posts).take(newest_two(posts).len() as int));
    }
}

/// Each of the two most recent posts is one of the posts.
pub proof fn lemma_newest_two_members(posts: Seq<PostText>, j: int)
    requires
        0 <= j < newest_two(posts).len(),
    ensures
        exists|k: int| 0 <= k < posts.len() && posts[k] == newest_two(posts)[j],
{
    lemma_newest_index(posts);
    let first = newest_index(posts);
    if j == 0 {
        assert(posts[first] == newest_two(posts)[0]);
    } else {
        let rest = posts.remove(first);
        lemma_newest_index(rest);
        let second = newest_index(rest);
        let k = if second < first {
            second
        } else {
            second + 1
        };
        assert(posts[k] == rest[second]);
        assert(posts[k] == newest_two(posts)[1]);
    }
}

/// Position of the most recent post; `0` for an empty list.
pub fn index_of_newest(posts: &Vec<Post>) -> (k: usize)
    ensures
        k == newest_index(texts(posts@)),
        posts@.len() > 0 ==> k < posts@.len(),
{
    if posts.len() == 0 {
        return 0;
    }
    let mut best: usize = 0;
    let mut i: usize = 1;
    let ghost all = texts(posts@);
    assert(all.take(1).len() == 1);
    while i < posts.len()
        invariant
            1 <= i <= posts@.len(),
            all == texts(posts@),
            best < i,
            best == newest_index(all.take(i as int)),
        decreases posts@.len() - i,
    {
        proof {
            let next = all.take(i + 1);
            assert(next.drop_last() == all.take(i as int));
            assert(next[best as int] == posts@[best as int]@);
            assert(next.last() == posts@[i as int]@);
        }
        if posts[best].published.is_before(&posts[i].published) {
            best = i;
        }
        i += 1;
    }
    assert(all.take(i as int) == all);
    best
}

/// Sorts the posts from the most recent to the oldest; posts published at
/// the same instant keep their order.
pub fn sort_newest_first(posts: Vec<Post>) -> (sorted: Vec<Post>)
    ensures
        texts(sorted@) == newest_first(texts(posts@)),
{
    let mut rest = posts;
    let mut sorted: Vec<Post> = Vec::new();
    assert(texts(sorted@) + newest_first(texts(rest@)) == newest_first(texts(posts@)));
    while rest.len() > 0
        invariant
            texts(sorted@) + newest_first(texts(rest@)) == newest_first(texts(posts@)),
        decreases rest@.len(),
    {
        let k = index_of_newest(&rest);
        let ghost before = texts(rest@);
        let ghost done = texts(sorted@);
        let post = rest.remove(k);
        sorted.push(post);
        assert(texts(sorted@) + newest_first(texts(rest@)) == done + newest_first(before)) by {
            assert(texts(rest@) == before.remove(k as int));
            assert(texts(sorted@) == done.push(before[k as int]));
            assert(newest_first(before) == seq![before[k as int]] + newest_first(before.remove(k as int)));
            assert(texts(sorted@) + newest_first(texts(rest@)) =~= done + (seq![before[k as int]]
                + newest_first(texts(rest@))));
        }
    }
    assert(newest_first(texts(rest@)) == Seq::<PostText>::empty());
    assert(texts(sorted@) + Seq::<PostText>::empty() == texts(sorted@));
    sorted
}

/// Keeps the two most recent posts, the most recent first.
pub fn take_newest_two(posts: Vec<Post>) -> (chosen: Vec<Post>)
    ensures
        texts(chosen@) == newest_two(texts(posts@)),
        chosen@.len() <= MAX_NEW_POSTS,
{
    let mut rest = posts;
    let mut chosen: Vec<Post> = Vec::new();
    if rest.len() == 0 {
        assert(texts(chosen@) =~= newest_two(texts(posts@)));
        return chosen;
    }
    let k = index_of_newest(&rest);
    let first = rest.remove(k);
    assert(texts(rest@) == texts(posts@).remove(k as int));
    chosen.push(first);
    if rest.len() > 0 {
        let j = index_of_newest(&rest);
        let second = rest.remove(j);
        chosen.push(second);
    }
    assert(texts(chosen@) =~= newest_two(texts(posts@)));
    chosen
}

/// Puts at most two posts in the order of their publication.
pub fn put_oldest_first(pair: Vec<Post>) -> (ordered: Vec<Post>)
    ensures
        texts(ordered@) == oldest_first(texts(pair@)),
{
    let mut ordered = pair;
    if ordered.len() == 2 && ordered[1].published.is_before(&ordered[0].published) {
        let first = ordered.remove(0);
        ordered.push(first);
        assert(texts(ordered@) =~= oldest_first(texts(pair@)));
    }
    ordered
}

/// Drops the posts that are not later than the watermark.  The posts that
/// stay keep their order.
pub fn keep_after_watermark(posts: Vec<Post>, watermark: Option<Timestamp>) -> (fresh: Vec<Post>)
    ensures
        texts(fresh@) == after_watermark(texts(posts@), watermark),
{
    let mark = match watermark {
        Some(mark) => mark,
        None => {
            assert(after_watermark(texts(posts@), watermark) == texts(posts@)) by {
                lemma_filter_all(texts(posts@), |p: PostText| is_fresh(p, watermark));
            }
            return posts;
        },
    };
    let ghost keep = |p: PostText| is_fresh(p, watermark);
    let ghost before = texts(posts@);
    let mut fresh = posts;
    let mut kept: usize = 0;
    let ghost mut seen: int = 0;
    assert(before.take(0).filter(keep) == Seq::<PostText>::empty()) by {
        reveal(Seq::filter);
    }
    while kept < fresh.len()
        invariant
            keep == |p: PostText| is_fresh(p, watermark),
            watermark == Some(mark),
            kept <= fresh@.len(),
            seen == kept + (before.len() - fresh@.len()),
            0 <= seen <= before.len(),
            texts(fresh@).take(kept as int) == before.take(seen).filter(keep),
            texts(fresh@).skip(kept as int) == before.skip(seen),
        decreases fresh@.len() - kept,
    {
        let ghost current = texts(fresh@);
        proof {
            crate::ledger::lemma_filter_push(before.take(seen), before[seen], keep);
            assert(before.take(seen + 1) == before.take(seen).push(before[seen]));
            assert(current[kept as int] == current.skip(kept as int)[0]);
            assert(before[seen] == before.skip(seen)[0]);
        }
        if mark.is_before(&fresh[kept].published) {
            assert(current.take(kept + 1) == current.take(kept as int).push(current[kept as int]));
            assert(current.skip(kept + 1) == before.skip(seen + 1)) by {
                assert(current.skip(kept + 1) == current.skip(kept as int).skip(1));
                assert(before.skip(seen + 1) == before.skip(seen).skip(1));
            }
            kept += 1;
        } else {
            fresh.remove(kept);
            assert(texts(fresh@) == current.remove(kept as int));
            assert(texts(fresh@).take(kept as int) == current.take(kept as int));
            assert(texts(fresh@).skip(kept as int) == before.skip(seen + 1)) by {
                assert(texts(fresh@).skip(kept as int) == current.skip(kept as int).skip(1));
                assert(before.skip(seen + 1) == before.skip(seen).skip(1));
            }
        }
        proof {
            seen = seen + 1;
        }
    }
    assert(texts(fresh@).take(kept as int) == texts(fresh@));
    assert(before.take(seen) == before);
    fresh
}

/// A filter that every element passes keeps the sequence as it is.
pub proof fn lemma_filter_all<A>(s: Seq<A>, keep: spec_fn(A) -> bool)
    requires
        forall|i: int| 0 <= i < s.len() ==> keep(#[trigger] s[i]),
    ensures
        s.filter(keep) == s,
    decreases s.len(),
{
    reveal(Seq::filter);
    if s.len() > 0 {
        lemma_filter_all(s.drop_last(), keep);
        assert(s.drop_last().push(s.last()) == s);
    }
}

} // verus!
