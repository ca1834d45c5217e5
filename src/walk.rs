//! Whole walks of the pagination engine against a model of the server, and
//! what holds of them.

use vstd::prelude::*;

use crate::page::{has_more, served_page, PageModel};
use crate::paging::{
    after_pull, after_resume, next_offset, pull_step, resume_item, IterState, Step,
};

verus! {

/// What the server answers to the request for the page at each offset:
/// `None` for a failed request.
pub type Server<T> = spec_fn(int) -> Option<PageModel<T>>;

/// The items a consumer receives in at most `fuel` pulls from state `s`,
/// stopping at the first pull that yields nothing. A pull that asks for a
/// page is resumed with the server's answer at the offset asked for.
pub open spec fn walk<T>(s: IterState<T>, server: Server<T>, fuel: nat) -> Seq<T>
    decreases fuel,
{
    if fuel == 0 {
        Seq::empty()
    } else {
        match pull_step(s) {
            Step::Item(t) => seq![t] + walk(after_pull(s), server, (fuel - 1) as nat),
            Step::End => Seq::empty(),
            Step::Fetch(off) => match resume_item(after_pull(s), server(off)) {
                Some(t) => seq![t] + walk(
                    after_resume(after_pull(s), server(off)),
                    server,
                    (fuel - 1) as nat,
                ),
                None => Seq::empty(),
            },
        }
    }
}

/// A server over `items` with page size `size`: each request either fails or
/// brings the page at the offset asked for.
pub open spec fn serves<T>(server: Server<T>, items: Seq<T>, size: int) -> bool {
    forall|off: int|
        0 <= off ==> (#[trigger] server(off) is None || server(off) == Some(
            served_page(items, off, size),
        ))
}

/// A server over `items` with page size `size` whose requests all succeed.
pub open spec fn serves_all<T>(server: Server<T>, items: Seq<T>, size: int) -> bool {
    forall|off: int| 0 <= off ==> #[trigger] server(off) == Some(served_page(items, off, size))
}

/// `s` with its buffer emptied.
pub open spec fn drained<T>(s: IterState<T>) -> IterState<T> {
    IterState { page: PageModel { values: Seq::empty(), ..s.page }, ..s }
}

proof fn lemma_reverse_last<T>(v: Seq<T>)
    requires
        v.len() > 0,
    ensures
        v.reverse() =~= seq![v.last()] + v.drop_last().reverse(),
{
}

/// The buffered items come out first, with no request, last first.
proof fn lemma_walk_buffer<T>(s: IterState<T>, server: Server<T>, fuel: nat)
    requires
        fuel >= s.page.values.len(),
    ensures
        walk(s, server, fuel) == s.page.values.reverse() + walk(
            drained(s),
            server,
            (fuel - s.page.values.len()) as nat,
        ),
    decreases s.page.values.len(),
{
    let v = s.page.values;
    if v.len() == 0 {
        assert(v =~= Seq::<T>::empty());
        assert(drained(s) == s);
        assert(v.reverse() =~= Seq::<T>::empty());
        assert(walk(s, server, fuel) =~= v.reverse() + walk(drained(s), server, fuel));
    } else {
        let s1 = after_pull(s);
        lemma_walk_buffer(s1, server, (fuel - 1) as nat);
        assert(drained(s1) == drained(s));
        lemma_reverse_last(v);
        assert(walk(s, server, fuel) =~= v.reverse() + walk(
            drained(s),
            server,
            (fuel - v.len()) as nat,
        ));
    }
}

/// Within a page, items come out in the reverse of the order the server gave
/// them in.
pub proof fn lemma_page_reversed<T>(s: IterState<T>, server: Server<T>, fuel: nat)
    requires
        fuel >= s.page.values.len(),
    ensures
        walk(s, server, fuel).len() >= s.page.values.len(),
        walk(s, server, fuel).take(s.page.values.len() as int) == s.page.values.reverse(),
{
    lemma_walk_buffer(s, server, fuel);
    assert(walk(s, server, fuel).take(s.page.values.len() as int) =~= s.page.values.reverse());
}

/// When the request for the page after the buffered one fails, the consumer
/// receives exactly the buffered items, last first, and then the end of the
/// sequence: the failure itself is not surfaced.
pub proof fn lemma_failed_fetch_ends<T>(s: IterState<T>, server: Server<T>, fuel: nat)
    requires
        server(next_offset(s)) is None,
        fuel > s.page.values.len(),
    ensures
        walk(s, server, fuel) == s.page.values.reverse(),
{
    lemma_walk_buffer(s, server, fuel);
    let d = drained(s);
    assert(walk(d, server, (fuel - s.page.values.len()) as nat) =~= Seq::<T>::empty());
    assert(walk(s, server, fuel) =~= s.page.values.reverse());
}

/// A pull that asks for a page asks for the one that begins where the
/// buffered page ends; that offset does not pass the reported total, and it
/// lies strictly past the buffered page's offset when the page size is not
/// zero.
pub proof fn lemma_fetch_offset<T>(s: IterState<T>)
    requires
        pull_step(s) is Fetch,
    ensures
        pull_step(s) == Step::<T>::Fetch(s.page.start_at + s.page.max_results),
        s.page.start_at + s.page.max_results <= s.page.total,
        s.page.max_results > 0 ==> s.page.start_at < s.page.start_at + s.page.max_results,
        after_pull(s) == s,
{
}

/// Items left to come after the page at `start`, from the server's point of
/// view.
spec fn remaining(n: int, start: int, size: int) -> int {
    if start + size <= n {
        n - start - size
    } else {
        0
    }
}

proof fn lemma_exhaustion_from<T>(
    s: IterState<T>,
    items: Seq<T>,
    size: int,
    server: Server<T>,
    fuel: nat,
    start: int,
    k: int,
)
    requires
        size > 0,
        serves(server, items, size),
        !s.done,
        0 <= start,
        0 <= k,
        start + k <= items.len(),
        s.page.start_at == start,
        s.page.max_results == size,
        s.page.total == items.len(),
        s.page.values == items.subrange(start, start + k),
    ensures
        walk(s, server, fuel).len() <= k + remaining(items.len() as int, start, size),
        serves_all(server, items, size) && fuel > k + remaining(items.len() as int, start, size)
            ==> walk(s, server, fuel).len() == k + remaining(items.len() as int, start, size),
    decreases fuel,
{
    let n = items.len() as int;
    if fuel == 0 {
    } else if k > 0 {
        let s1 = after_pull(s);
        assert(s1.page.values =~= items.subrange(start, start + k - 1));
        lemma_exhaustion_from(s1, items, size, server, (fuel - 1) as nat, start, k - 1);
    } else if has_more(s.page) {
        let off = start + size;
        assert(pull_step(s) == Step::<T>::Fetch(off));
        assert(after_pull(s) == s);
        let answer = server(off);
        if answer is Some {
            assert(answer == Some(served_page(items, off, size)));
            let p = served_page(items, off, size);
            if off < n {
                let len = if off + size <= n {
                    size
                } else {
                    n - off
                };
                assert(p.values.len() == len);
                let s2 = after_resume(s, answer);
                assert(s2.page.values =~= items.subrange(off, off + len - 1));
                lemma_exhaustion_from(s2, items, size, server, (fuel - 1) as nat, off, len - 1);
            } else {
                assert(p.values.len() == 0);
            }
        } else {
            if serves_all(server, items, size) {
                assert(server(off) == Some(served_page(items, off, size)));
            }
        }
    } else {
    }
}

/// A full walk of a collection of `items` fetched in pages of `size` hands
/// out at most as many items as the collection holds, and exactly as many
/// when every request succeeds.
pub proof fn lemma_exhaustion<T>(
    s: IterState<T>,
    items: Seq<T>,
    size: int,
    server: Server<T>,
    fuel: nat,
)
    requires
        size > 0,
        s.page == served_page(items, 0, size),
        !s.done,
        serves(server, items, size),
        fuel > items.len(),
    ensures
        walk(s, server, fuel).len() <= items.len(),
        serves_all(server, items, size) ==> walk(s, server, fuel).len() == items.len(),
{
    let n = items.len() as int;
    let k = if size <= n {
        size
    } else {
        n
    };
    assert(s.page.values =~= items.subrange(0, k));
    lemma_exhaustion_from(s, items, size, server, fuel, 0, k);
}

} // verus!
